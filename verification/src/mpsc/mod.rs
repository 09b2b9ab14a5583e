//! Queue endpoints: a consuming endpoint that a reactor can wait on, and
//! producing endpoints that wake it.

pub mod queue;

use crate::event::deregister_spec;
use crate::event::register_spec;
use crate::event::reregister_spec;
use crate::event::RegistrationError;
use crate::event::Source;
use crate::interest::Interest;
use crate::io_source::IoSource;
use crate::io_source::Slot;
use crate::mpsc::queue::std_channel;
use crate::mpsc::queue::std_send;
use crate::mpsc::queue::std_sync_channel;
use crate::mpsc::queue::std_sync_send;
use crate::mpsc::queue::std_try_recv;
use crate::mpsc::queue::std_try_send;
pub use crate::mpsc::queue::SendError;
pub use crate::mpsc::queue::TryRecvError;
pub use crate::mpsc::queue::TrySendError;
use crate::event::answer;
use crate::registry::Registry;
use crate::registry::Waker;
use crate::token::Token;
use std::sync::Arc;
use vstd::prelude::*;

verus! {

/// Whether `tx` and `rx` are the two halves of one unbounded queue, as
/// making a queue gives them.
pub closed spec fn channel_outcome<T>(
    tx: std::sync::mpsc::Sender<T>,
    rx: std::sync::mpsc::Receiver<T>,
) -> bool {
    call_ensures(std_channel::<T>, (), (tx, rx))
}

/// Whether `tx` and `rx` are the two halves of one queue made to hold at
/// most `bound` items.
pub closed spec fn sync_channel_outcome<T>(
    bound: usize,
    tx: std::sync::mpsc::SyncSender<T>,
    rx: std::sync::mpsc::Receiver<T>,
) -> bool {
    call_ensures(std_sync_channel::<T>, (bound,), (tx, rx))
}

/// Whether `r` is an outcome of the unbounded transfer of `t` into `queue`.
///
/// A queue is shared with other threads, so the same queue and item may
/// have more than one outcome. Of every outcome holds what
/// [`lemma_send_keeps_item`] states.
pub closed spec fn send_outcome<T>(
    queue: std::sync::mpsc::Sender<T>,
    t: T,
    r: Result<(), SendError<T>>,
) -> bool {
    call_ensures(std_send::<T>, (&queue, t), r)
}

/// Whether `r` is an outcome of the bounded, waiting transfer of `t` into
/// `queue`. Of every outcome holds what [`lemma_sync_send_keeps_item`]
/// states.
pub closed spec fn sync_send_outcome<T>(
    queue: std::sync::mpsc::SyncSender<T>,
    t: T,
    r: Result<(), SendError<T>>,
) -> bool {
    call_ensures(std_sync_send::<T>, (&queue, t), r)
}

/// Whether `r` is an outcome of the bounded transfer of `t` into `queue`
/// that does not wait. Of every outcome holds what
/// [`lemma_try_send_keeps_item`] states.
pub closed spec fn try_send_outcome<T>(
    queue: std::sync::mpsc::SyncSender<T>,
    t: T,
    r: Result<(), TrySendError<T>>,
) -> bool {
    call_ensures(std_try_send::<T>, (&queue, t), r)
}

/// Whether `r` is an outcome of taking one item off `queue` without
/// waiting. Which outcome it is depends on the producers alone.
pub closed spec fn try_recv_outcome<T>(
    queue: std::sync::mpsc::Receiver<T>,
    r: Result<T, TryRecvError>,
) -> bool {
    call_ensures(std_try_recv::<T>, (&queue,), r)
}

/// No item is lost in a failed transfer: whenever an unbounded transfer
/// fails, the error holds the item that was to be sent.
pub proof fn lemma_send_keeps_item<T>(
    queue: std::sync::mpsc::Sender<T>,
    t: T,
    r: Result<(), SendError<T>>,
)
    requires
        send_outcome(queue, t, r),
    ensures
        r matches Err(e) ==> e.0 == t,
{
}

/// Whenever a bounded, waiting transfer fails, the error holds the item
/// that was to be sent.
pub proof fn lemma_sync_send_keeps_item<T>(
    queue: std::sync::mpsc::SyncSender<T>,
    t: T,
    r: Result<(), SendError<T>>,
)
    requires
        sync_send_outcome(queue, t, r),
    ensures
        r matches Err(e) ==> e.0 == t,
{
}

/// Whenever a bounded transfer that does not wait fails, be it for want of
/// room or of a receiver, the error holds the item that was to be sent.
pub proof fn lemma_try_send_keeps_item<T>(
    queue: std::sync::mpsc::SyncSender<T>,
    t: T,
    r: Result<(), TrySendError<T>>,
)
    requires
        try_send_outcome(queue, t, r),
    ensures
        r matches Err(e) ==> e.item() == t,
{
}

/// Makes an unbounded queue and returns its two endpoints.
///
/// The [`Receiver`] is a [`Source`] and starts out unregistered. The
/// [`Sender`] has no registration of its own: its successful sends wake
/// whatever registration the receiver has at the time.
pub fn channel<T>() -> (pair: (Sender<T>, Receiver<T>))
    ensures
        channel_outcome(pair.0.queue(), pair.1.queue()),
        pair.0.slot() == pair.1.slot(),
        pair.1.token() is None,
{
    let (tx, rx) = std_channel();
    let rx = IoSource::new(rx);
    let tx = rx.companion(tx);
    (Sender { inner: tx }, Receiver { inner: rx })
}

/// Makes a queue that holds at most `bound` items and returns its two
/// endpoints.
///
/// The [`Receiver`] is a [`Source`] and starts out unregistered. The
/// [`SyncSender`] has no registration of its own: its successful sends wake
/// whatever registration the receiver has at the time.
pub fn sync_channel<T>(bound: usize) -> (pair: (SyncSender<T>, Receiver<T>))
    ensures
        sync_channel_outcome(bound, pair.0.queue(), pair.1.queue()),
        pair.0.slot() == pair.1.slot(),
        pair.1.token() is None,
{
    let (tx, rx) = std_sync_channel(bound);
    let rx = IoSource::new(rx);
    let tx = rx.companion(tx);
    (SyncSender { inner: tx }, Receiver { inner: rx })
}

/// The consuming endpoint of a queue.
#[verifier::reject_recursive_types(T)]
pub struct Receiver<T> {
    inner: IoSource<std::sync::mpsc::Receiver<T>>,
}

impl<T> Receiver<T> {
    /// The receiving half of the queue that this endpoint owns.
    pub closed spec fn queue(&self) -> std::sync::mpsc::Receiver<T> {
        self.inner.resource()
    }

    /// The slot that holds the waker of this endpoint's registration.
    pub closed spec fn slot(&self) -> Slot {
        self.inner.slot()
    }

    /// Takes one item off the queue if one is waiting.
    ///
    /// Never blocks and never wakes the reactor. `Empty` says that nothing
    /// is waiting for now, `Disconnected` that every producing endpoint is
    /// gone and the queue is drained. One readiness notification may stand
    /// for several items, or for none that is still there: call this in a
    /// loop until it reports `Empty`.
    ///
    /// The result is what the endpoint's own queue gave, handed on as it
    /// is.
    pub fn try_recv(&self) -> (r: Result<T, TryRecvError>)
        ensures
            try_recv_outcome(self.queue(), r),
    {
        std_try_recv(self.inner.get_ref())
    }

    /// The token of the current registration, `None` while there is none.
    pub fn current_token(&self) -> (token: Option<Token>)
        ensures
            token == self.token(),
    {
        self.inner.current_token()
    }
}

impl<T> Source for Receiver<T> {
    closed spec fn token(&self) -> Option<Token> {
        self.inner.token()
    }

    fn register<R: Registry + ?Sized>(
        &mut self,
        registry: &R,
        token: Token,
        interests: Interest,
    ) -> (r: Result<(), RegistrationError>)
        ensures
            final(self).queue() == old(self).queue(),
            final(self).slot() == old(self).slot(),
            old(self).token() is None ==> exists|reply: Result<Arc<dyn Waker>, std::io::Error>|
                #[trigger] registry.register_reply(token, interests, reply) && (
                    final(self).token(),
                    r,
                ) == register_spec(old(self).token(), token, answer(reply)) && (reply is Ok
                    ==> old(self).slot().filled_from(reply)),
    {
        let r = self.inner.register(registry, token, interests);
        proof {
            let reply = choose|reply: Result<(), std::io::Error>|
                register_spec(old(self).inner.token(), token, reply) == (self.inner.token(), r);
            assert(register_spec(old(self).token(), token, reply) == (self.token(), r));
            if old(self).token() is None {
                let asked = choose|asked: Result<Arc<dyn Waker>, std::io::Error>|
                    #[trigger] registry.register_reply(token, interests, asked) && (
                        self.inner.token(),
                        r,
                    ) == register_spec(old(self).inner.token(), token, answer(asked)) && (asked is Ok
                        ==> old(self).inner.slot().filled_from(asked));
                assert(registry.register_reply(token, interests, asked) && (self.token(), r)
                    == register_spec(old(self).token(), token, answer(asked)) && (asked is Ok
                    ==> old(self).slot().filled_from(asked)));
            }
        }
        r
    }

    fn reregister<R: Registry + ?Sized>(
        &mut self,
        registry: &R,
        token: Token,
        interests: Interest,
    ) -> (r: Result<(), RegistrationError>)
        ensures
            final(self).queue() == old(self).queue(),
            final(self).slot() == old(self).slot(),
            old(self).token() matches Some(current) ==> exists|
                reply: Result<Arc<dyn Waker>, std::io::Error>,
            |
                #[trigger] registry.reregister_reply(current, token, interests, reply) && (
                    final(self).token(),
                    r,
                ) == reregister_spec(old(self).token(), token, answer(reply)) && (reply is Ok
                    ==> old(self).slot().filled_from(reply)),
    {
        let r = self.inner.reregister(registry, token, interests);
        proof {
            let reply = choose|reply: Result<(), std::io::Error>|
                reregister_spec(old(self).inner.token(), token, reply) == (self.inner.token(), r);
            assert(reregister_spec(old(self).token(), token, reply) == (self.token(), r));
            if let Some(current) = old(self).token() {
                let asked = choose|asked: Result<Arc<dyn Waker>, std::io::Error>|
                    #[trigger] registry.reregister_reply(current, token, interests, asked) && (
                        self.inner.token(),
                        r,
                    ) == reregister_spec(old(self).inner.token(), token, answer(asked)) && (asked
                        is Ok ==> old(self).inner.slot().filled_from(asked));
                assert(registry.reregister_reply(current, token, interests, asked) && (
                    self.token(),
                    r,
                ) == reregister_spec(old(self).token(), token, answer(asked)) && (asked is Ok
                    ==> old(self).slot().filled_from(asked)));
            }
        }
        r
    }

    fn deregister<R: Registry + ?Sized>(&mut self, registry: &R) -> (r: Result<
        (),
        RegistrationError,
    >)
        ensures
            final(self).queue() == old(self).queue(),
            final(self).slot() == old(self).slot(),
            old(self).token() matches Some(current) ==> exists|reply: Result<(), std::io::Error>|
                #[trigger] registry.deregister_reply(current, reply) && (final(self).token(), r)
                    == deregister_spec(old(self).token(), reply) && (reply is Ok ==> old(
                    self,
                ).slot().emptied()),
    {
        let r = self.inner.deregister(registry);
        proof {
            let reply = choose|reply: Result<(), std::io::Error>|
                deregister_spec(old(self).inner.token(), reply) == (self.inner.token(), r);
            assert(deregister_spec(old(self).token(), reply) == (self.token(), r));
            if let Some(current) = old(self).token() {
                let asked = choose|asked: Result<(), std::io::Error>|
                    #[trigger] registry.deregister_reply(current, asked) && (
                        self.inner.token(),
                        r,
                    ) == deregister_spec(old(self).inner.token(), asked) && (asked is Ok
                        ==> old(self).inner.slot().emptied());
                assert(registry.deregister_reply(current, asked) && (self.token(), r)
                    == deregister_spec(old(self).token(), asked) && (asked is Ok ==> old(
                    self,
                ).slot().emptied()));
            }
        }
        r
    }
}

/// The producing endpoint of an unbounded queue.
#[verifier::reject_recursive_types(T)]
pub struct Sender<T> {
    inner: IoSource<std::sync::mpsc::Sender<T>>,
}

impl<T> Sender<T> {
    /// A producing endpoint never registers: its wrapper holds no token.
    #[verifier::type_invariant]
    spec fn unregistered(self) -> bool {
        self.inner.token() is None
    }

    /// The sending half of the queue that this endpoint owns.
    pub closed spec fn queue(&self) -> std::sync::mpsc::Sender<T> {
        self.inner.resource()
    }

    /// The slot through which this endpoint signals: that of its receiver.
    pub closed spec fn slot(&self) -> Slot {
        self.inner.slot()
    }

    /// Puts `t` on the queue and, once it is there, wakes the receiver's
    /// registration. Never blocks.
    ///
    /// Fails only when the receiver is gone; the error hands `t` back.
    /// The result is what the transfer of `t` into the endpoint's own queue
    /// gave, handed on as it is. A failed wake does not show.
    pub fn send(&self, t: T) -> (r: Result<(), SendError<T>>)
        ensures
            send_outcome(self.queue(), t, r),
            r matches Err(e) ==> e.0 == t,
            self.slot().signalled_after(r is Ok),
    {
        let op = |tx: &std::sync::mpsc::Sender<T>| -> (r: Result<(), SendError<T>>)
            ensures
                send_outcome(*tx, t, r),
            {
                std_send(tx, t)
            };
        self.inner.do_io(op)
    }
}

/// The producing endpoint of a bounded queue.
#[verifier::reject_recursive_types(T)]
pub struct SyncSender<T> {
    inner: IoSource<std::sync::mpsc::SyncSender<T>>,
}

impl<T> SyncSender<T> {
    /// A producing endpoint never registers: its wrapper holds no token.
    #[verifier::type_invariant]
    spec fn unregistered(self) -> bool {
        self.inner.token() is None
    }

    /// The sending half of the queue that this endpoint owns.
    pub closed spec fn queue(&self) -> std::sync::mpsc::SyncSender<T> {
        self.inner.resource()
    }

    /// The slot through which this endpoint signals: that of its receiver.
    pub closed spec fn slot(&self) -> Slot {
        self.inner.slot()
    }

    /// Puts `t` on the queue, waiting while the queue is at capacity, and
    /// wakes the receiver's registration once it is there.
    ///
    /// Fails only when the receiver is gone, be it before the call or while
    /// it waits; the error hands `t` back and nothing is woken.
    /// The result is what the waiting transfer of `t` into the endpoint's
    /// own queue gave, handed on as it is. A failed wake does not show.
    pub fn send(&self, t: T) -> (r: Result<(), SendError<T>>)
        ensures
            sync_send_outcome(self.queue(), t, r),
            r matches Err(e) ==> e.0 == t,
            self.slot().signalled_after(r is Ok),
    {
        let op = |tx: &std::sync::mpsc::SyncSender<T>| -> (r: Result<(), SendError<T>>)
            ensures
                sync_send_outcome(*tx, t, r),
            {
                std_sync_send(tx, t)
            };
        self.inner.do_io(op)
    }

    /// Puts `t` on the queue if there is room, without waiting, and wakes
    /// the receiver's registration once it is there.
    ///
    /// `Full` says that the queue is at capacity for now, `Disconnected`
    /// that the receiver is gone; either error hands `t` back and nothing
    /// is woken. The result is what the transfer of `t` into the endpoint's
    /// own queue gave, handed on as it is. A failed wake does not show.
    pub fn try_send(&self, t: T) -> (r: Result<(), TrySendError<T>>)
        ensures
            try_send_outcome(self.queue(), t, r),
            r matches Err(e) ==> e.item() == t,
            self.slot().signalled_after(r is Ok),
    {
        let op = |tx: &std::sync::mpsc::SyncSender<T>| -> (r: Result<(), TrySendError<T>>)
            ensures
                try_send_outcome(*tx, t, r),
            {
                std_try_send(tx, t)
            };
        self.inner.do_io(op)
    }
}

} // verus!
