use vstd::prelude::*;

verus! {

/// The sending half of an unbounded `std::sync::mpsc` channel. What it
/// holds is shared with other threads and not visible here.
#[verifier::external_type_specification]
#[verifier::external_body]
#[verifier::reject_recursive_types(T)]
pub struct ExStdSender<T>(std::sync::mpsc::Sender<T>);

/// The sending half of a bounded `std::sync::mpsc` channel.
#[verifier::external_type_specification]
#[verifier::external_body]
#[verifier::reject_recursive_types(T)]
pub struct ExStdSyncSender<T>(std::sync::mpsc::SyncSender<T>);

/// The receiving half of a `std::sync::mpsc` channel.
#[verifier::external_type_specification]
#[verifier::external_body]
#[verifier::reject_recursive_types(T)]
pub struct ExStdReceiver<T>(std::sync::mpsc::Receiver<T>);

/// A send failed because the consuming endpoint is gone. The item that
/// could not be delivered is inside.
#[derive(Debug, PartialEq, Eq)]
pub struct SendError<T>(pub T);

/// Why a non-blocking send did not deliver. Either way the item is inside.
#[derive(Debug, PartialEq, Eq)]
pub enum TrySendError<T> {
    /// The queue is at capacity for now.
    Full(T),
    /// The consuming endpoint is gone.
    Disconnected(T),
}

/// Why a non-blocking receive brought no item.
#[derive(Clone, Copy, Debug, PartialEq, Eq)]
pub enum TryRecvError {
    /// No item is waiting for now.
    Empty,
    /// Every producing endpoint is gone and the queue is drained.
    Disconnected,
}

impl<T> TrySendError<T> {
    /// The item that was not delivered.
    pub open spec fn item(self) -> T {
        match self {
            TrySendError::Full(t) => t,
            TrySendError::Disconnected(t) => t,
        }
    }

    /// Takes the undelivered item out.
    pub fn into_inner(self) -> (t: T)
        ensures
            t == self.item(),
    {
        match self {
            TrySendError::Full(t) => t,
            TrySendError::Disconnected(t) => t,
        }
    }
}

/// `std::sync::mpsc::channel`. Nothing is claimed of the two halves.
#[verifier::external_body]
pub(crate) fn std_channel<T>() -> (std::sync::mpsc::Sender<T>, std::sync::mpsc::Receiver<T>) {
    std::sync::mpsc::channel()
}

/// `std::sync::mpsc::sync_channel`. Nothing is claimed of the two halves.
#[verifier::external_body]
pub(crate) fn std_sync_channel<T>(bound: usize) -> (
    std::sync::mpsc::SyncSender<T>,
    std::sync::mpsc::Receiver<T>,
) {
    std::sync::mpsc::sync_channel(bound)
}

/// `std::sync::mpsc::Sender::send`. Whether it succeeds depends on the
/// other half; claimed is only that an error carries the value that was to
/// be sent.
#[verifier::external_body]
pub(crate) fn std_send<T>(tx: &std::sync::mpsc::Sender<T>, t: T) -> (r: Result<(), SendError<T>>)
    ensures
        r matches Err(e) ==> e.0 == t,
{
    match tx.send(t) {
        Ok(()) => Ok(()),
        Err(std::sync::mpsc::SendError(t)) => Err(SendError(t)),
    }
}

/// `std::sync::mpsc::SyncSender::send`, which blocks while the queue is at
/// capacity. Claimed is only that an error carries the value that was to be
/// sent.
#[verifier::external_body]
pub(crate) fn std_sync_send<T>(tx: &std::sync::mpsc::SyncSender<T>, t: T) -> (r: Result<
    (),
    SendError<T>,
>)
    ensures
        r matches Err(e) ==> e.0 == t,
{
    match tx.send(t) {
        Ok(()) => Ok(()),
        Err(std::sync::mpsc::SendError(t)) => Err(SendError(t)),
    }
}

/// `std::sync::mpsc::SyncSender::try_send`. Claimed is only that an error,
/// of either variant, carries the value that was to be sent.
#[verifier::external_body]
pub(crate) fn std_try_send<T>(tx: &std::sync::mpsc::SyncSender<T>, t: T) -> (r: Result<
    (),
    TrySendError<T>,
>)
    ensures
        r matches Err(e) ==> e.item() == t,
{
    match tx.try_send(t) {
        Ok(()) => Ok(()),
        Err(std::sync::mpsc::TrySendError::Full(t)) => Err(TrySendError::Full(t)),
        Err(std::sync::mpsc::TrySendError::Disconnected(t)) => Err(TrySendError::Disconnected(t)),
    }
}

/// `std::sync::mpsc::Receiver::try_recv`. What comes back depends on the
/// producers; nothing is claimed of it.
#[verifier::external_body]
pub(crate) fn std_try_recv<T>(rx: &std::sync::mpsc::Receiver<T>) -> Result<T, TryRecvError> {
    match rx.try_recv() {
        Ok(t) => Ok(t),
        Err(std::sync::mpsc::TryRecvError::Empty) => Err(TryRecvError::Empty),
        Err(std::sync::mpsc::TryRecvError::Disconnected) => Err(TryRecvError::Disconnected),
    }
}

} // verus!
