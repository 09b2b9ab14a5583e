use crate::event::answer;
use crate::event::deregister_spec;
use crate::event::register_spec;
use crate::event::reregister_spec;
use crate::event::RegistrationError;
use crate::interest::Interest;
use crate::registry::Registry;
use crate::registry::Waker;
use crate::token::Token;
use std::sync::Arc;
use vstd::prelude::*;
use vstd::rwlock::RwLock;
use vstd::rwlock::RwLockPredicate;

verus! {

/// The lock around the waker admits every content: an empty slot, or the
/// waker of whatever registration is current.
struct AnyWaker;

impl RwLockPredicate<Option<Arc<dyn Waker>>> for AnyWaker {
    open spec fn inv(self, v: Option<Arc<dyn Waker>>) -> bool {
        true
    }
}

/// The place where the waker of the current registration is kept, behind a
/// lock. A wrapper and its companions hold the same slot, so that a
/// producer on any thread can signal the consumer's registration.
pub struct Slot {
    cell: Arc<RwLock<Option<Arc<dyn Waker>>, AnyWaker>>,
}

impl Slot {
    /// Whether `content` is something that reading this slot may give.
    /// Other threads fill and empty the slot, so two reads may differ.
    pub closed spec fn read(&self, content: Option<Arc<dyn Waker>>) -> bool {
        call_ensures(Slot::get, (self,), content)
    }

    /// Whether `content` was put into this slot, in place of what was
    /// there.
    pub closed spec fn installed(&self, content: Option<Arc<dyn Waker>>) -> bool {
        call_ensures(Slot::put, (self, content), ())
    }

    /// Whether the slot was filled with the waker that `reply` brought.
    pub open spec fn filled_from(&self, reply: Result<Arc<dyn Waker>, std::io::Error>) -> bool {
        exists|content: Option<Arc<dyn Waker>>| #[trigger]
            self.installed(content) && (content matches Some(w) && (reply matches Ok(w2) && w
                == w2))
    }

    /// Whether the slot was emptied.
    pub open spec fn emptied(&self) -> bool {
        exists|content: Option<Arc<dyn Waker>>| #[trigger]
            self.installed(content) && content is None
    }

    /// Whether the slot was read and what was found there handed to
    /// [`signal_after`]: the waker in the slot, if there was one, was
    /// signalled if `succeeded`, and nothing was signalled otherwise.
    pub open spec fn signalled_after(&self, succeeded: bool) -> bool {
        exists|content: Option<Arc<dyn Waker>>, report: Option<Result<(), std::io::Error>>|
            self.read(content) && #[trigger] signalled(succeeded, content, report)
    }

    /// A new slot with nothing in it.
    fn empty() -> Slot {
        let content: Option<Arc<dyn Waker>> = None;
        Slot { cell: Arc::new(RwLock::new(content, Ghost(AnyWaker))) }
    }

    /// Another handle on this slot.
    fn share(&self) -> (other: Slot)
        ensures
            other == *self,
    {
        Slot { cell: self.cell.clone() }
    }

    /// A copy of what the slot holds at the moment.
    fn get(&self) -> Option<Arc<dyn Waker>> {
        let handle = self.cell.acquire_read();
        let current = match handle.borrow() {
            Some(waker) => Some(waker.clone()),
            None => None,
        };
        handle.release_read();
        current
    }

    /// Replaces the content of the slot.
    fn put(&self, content: Option<Arc<dyn Waker>>) {
        let (_, handle) = self.cell.acquire_write();
        handle.release_write(content);
    }
}

/// Pairs a resource that has no descriptor with a registration in a reactor.
///
/// The wrapper owns the resource and the token of its own registration.
/// The waker of that registration sits in a [`Slot`], and the slot can be
/// shared with companion wrappers (see [`IoSource::companion`]):
/// an operation that succeeds on any of them wakes the one registration.
/// A wrapper that is dropped while registered stays in the reactor's wait
/// set; deregister it first.
pub struct IoSource<T> {
    inner: T,
    token: Option<Token>,
    waker: Slot,
}

impl<T> IoSource<T> {
    /// The resource inside.
    pub closed spec fn resource(&self) -> T {
        self.inner
    }

    /// The token of this wrapper's registration, `None` while it has none.
    pub closed spec fn token(&self) -> Option<Token> {
        self.token
    }

    /// The slot through which this wrapper signals.
    pub closed spec fn slot(&self) -> Slot {
        self.waker
    }

    /// Whether the two wrappers signal through one and the same slot.
    pub open spec fn shares_slot<U>(&self, other: &IoSource<U>) -> bool {
        self.slot() == other.slot()
    }

    /// Whether this wrapper's slot was read and what was found there handed
    /// to [`signal_after`], see [`Slot::signalled_after`].
    pub open spec fn signalled_after(&self, succeeded: bool) -> bool {
        self.slot().signalled_after(succeeded)
    }

    /// Wraps `inner`, unregistered and with a waker slot of its own.
    pub fn new(inner: T) -> (source: Self)
        ensures
            source.resource() == inner,
            source.token() is None,
    {
        IoSource { inner, token: None, waker: Slot::empty() }
    }

    /// Wraps `inner` as a companion of `self`: unregistered itself, and
    /// waking whatever registration `self` has at the time. Companions
    /// share one slot, so only one of them is meant to register.
    pub fn companion<U>(&self, inner: U) -> (source: IoSource<U>)
        ensures
            source.resource() == inner,
            source.token() is None,
            source.shares_slot(self),
    {
        IoSource { inner, token: None, waker: self.waker.share() }
    }

    /// Lends the resource, for operations that are to wake nothing.
    pub fn get_ref(&self) -> (inner: &T)
        ensures
            *inner == self.resource(),
    {
        &self.inner
    }

    /// The token of this wrapper's registration, `None` while it has none.
    pub fn current_token(&self) -> (token: Option<Token>)
        ensures
            token == self.token(),
    {
        self.token
    }

    /// Puts the resource into the wait set of `registry` under `token`.
    ///
    /// A wrapper that holds a token is refused with `AlreadyRegistered`, and
    /// the reactor is not asked. Otherwise the reactor decides: on its
    /// consent the token is stored and its waker put into the slot, on its
    /// refusal the error is handed on and nothing changes.
    pub fn register<R: Registry + ?Sized>(
        &mut self,
        registry: &R,
        token: Token,
        interests: Interest,
    ) -> (r: Result<(), RegistrationError>)
        ensures
            final(self).resource() == old(self).resource(),
            exists|reply: Result<(), std::io::Error>|
                #[trigger] register_spec(old(self).token(), token, reply) == (
                    final(self).token(),
                    r,
                ),
            old(self).token() is None ==> exists|reply: Result<Arc<dyn Waker>, std::io::Error>|
                #[trigger] registry.register_reply(token, interests, reply) && (
                    final(self).token(),
                    r,
                ) == register_spec(old(self).token(), token, answer(reply)) && (reply is Ok
                    ==> old(self).slot().filled_from(reply)),
            final(self).slot() == old(self).slot(),
    {
        if self.token.is_some() {
            assert(register_spec(old(self).token(), token, Ok(())) == (
                self.token(),
                Err::<(), RegistrationError>(RegistrationError::AlreadyRegistered),
            ));
            return Err(RegistrationError::AlreadyRegistered);
        }
        let reply = registry.register(token, interests);
        self.complete_register(token, reply)
    }

    /// Changes the registration to `token` and `interests`.
    ///
    /// A wrapper that holds no token is refused with `NotRegistered`, and
    /// the reactor is not asked. Otherwise the reactor decides: on its
    /// consent the stored token and the waker are replaced, on its refusal
    /// the error is handed on and the old registration stays.
    pub fn reregister<R: Registry + ?Sized>(
        &mut self,
        registry: &R,
        token: Token,
        interests: Interest,
    ) -> (r: Result<(), RegistrationError>)
        ensures
            final(self).resource() == old(self).resource(),
            exists|reply: Result<(), std::io::Error>|
                #[trigger] reregister_spec(old(self).token(), token, reply) == (
                    final(self).token(),
                    r,
                ),
            old(self).token() matches Some(current) ==> exists|
                reply: Result<Arc<dyn Waker>, std::io::Error>,
            |
                #[trigger] registry.reregister_reply(current, token, interests, reply) && (
                    final(self).token(),
                    r,
                ) == reregister_spec(old(self).token(), token, answer(reply)) && (reply is Ok
                    ==> old(self).slot().filled_from(reply)),
            final(self).slot() == old(self).slot(),
    {
        match self.token {
            None => {
                assert(reregister_spec(old(self).token(), token, Ok(())) == (
                    self.token(),
                    Err::<(), RegistrationError>(RegistrationError::NotRegistered),
                ));
                Err(RegistrationError::NotRegistered)
            },
            Some(current) => {
                let reply = registry.reregister(current, token, interests);
                self.complete_reregister(token, reply)
            },
        }
    }

    /// Takes the resource out of the wait set of `registry`.
    ///
    /// A wrapper that holds no token is refused with `NotRegistered`, and
    /// the reactor is not asked. Otherwise the reactor decides: on its
    /// consent the token is cleared and the slot emptied, on its refusal the
    /// error is handed on and the registration stays.
    pub fn deregister<R: Registry + ?Sized>(&mut self, registry: &R) -> (r: Result<
        (),
        RegistrationError,
    >)
        ensures
            final(self).resource() == old(self).resource(),
            exists|reply: Result<(), std::io::Error>|
                #[trigger] deregister_spec(old(self).token(), reply) == (final(self).token(), r),
            old(self).token() matches Some(current) ==> exists|reply: Result<(), std::io::Error>|
                #[trigger] registry.deregister_reply(current, reply) && (final(self).token(), r)
                    == deregister_spec(old(self).token(), reply) && (reply is Ok ==> old(
                    self,
                ).slot().emptied()),
            final(self).slot() == old(self).slot(),
    {
        match self.token {
            None => {
                assert(deregister_spec(old(self).token(), Ok(())) == (
                    self.token(),
                    Err::<(), RegistrationError>(RegistrationError::NotRegistered),
                ));
                Err(RegistrationError::NotRegistered)
            },
            Some(current) => {
                let reply = registry.deregister(current);
                self.complete_deregister(reply)
            },
        }
    }

    /// The second half of [`IoSource::register`]: takes the reactor's answer
    /// and settles the registration accordingly.
    pub fn complete_register(
        &mut self,
        token: Token,
        reply: Result<Arc<dyn Waker>, std::io::Error>,
    ) -> (r: Result<(), RegistrationError>)
        ensures
            final(self).resource() == old(self).resource(),
            final(self).slot() == old(self).slot(),
            (final(self).token(), r) == register_spec(old(self).token(), token, answer(reply)),
            old(self).token() is None && reply is Ok ==> old(self).slot().filled_from(reply),
    {
        if self.token.is_some() {
            return Err(RegistrationError::AlreadyRegistered);
        }
        match reply {
            Ok(waker) => {
                let slot = Some(waker);
                let ghost content = slot;
                self.waker.put(slot);
                assert(old(self).slot().installed(content));
                self.token = Some(token);
                Ok(())
            },
            Err(e) => Err(RegistrationError::Reactor(e)),
        }
    }

    /// The second half of [`IoSource::reregister`].
    pub fn complete_reregister(
        &mut self,
        token: Token,
        reply: Result<Arc<dyn Waker>, std::io::Error>,
    ) -> (r: Result<(), RegistrationError>)
        ensures
            final(self).resource() == old(self).resource(),
            final(self).slot() == old(self).slot(),
            (final(self).token(), r) == reregister_spec(old(self).token(), token, answer(reply)),
            old(self).token() is Some && reply is Ok ==> old(self).slot().filled_from(reply),
    {
        if self.token.is_none() {
            return Err(RegistrationError::NotRegistered);
        }
        match reply {
            Ok(waker) => {
                let slot = Some(waker);
                let ghost content = slot;
                self.waker.put(slot);
                assert(old(self).slot().installed(content));
                self.token = Some(token);
                Ok(())
            },
            Err(e) => Err(RegistrationError::Reactor(e)),
        }
    }

    /// The second half of [`IoSource::deregister`].
    pub fn complete_deregister(&mut self, reply: Result<(), std::io::Error>) -> (r: Result<
        (),
        RegistrationError,
    >)
        ensures
            final(self).resource() == old(self).resource(),
            final(self).slot() == old(self).slot(),
            (final(self).token(), r) == deregister_spec(old(self).token(), reply),
            old(self).token() is Some && reply is Ok ==> old(self).slot().emptied(),
    {
        if self.token.is_none() {
            return Err(RegistrationError::NotRegistered);
        }
        match reply {
            Ok(_) => {
                let slot: Option<Arc<dyn Waker>> = None;
                let ghost content = slot;
                self.waker.put(slot);
                assert(old(self).slot().installed(content));
                self.token = None;
                Ok(())
            },
            Err(e) => Err(RegistrationError::Reactor(e)),
        }
    }

    /// Runs `op` on the resource and hands its result back as it is. After a
    /// success the current registration is woken, see
    /// [`IoSource::wake_after`].
    pub fn do_io<F, R, E>(&self, op: F) -> (r: Result<R, E>) where F: FnOnce(&T) -> Result<R, E>
        requires
            op.requires((&self.resource(),)),
        ensures
            op.ensures((&self.resource(),), r),
            self.signalled_after(r is Ok),
    {
        let outcome = op(&self.inner);
        self.wake_after(outcome)
    }

    /// What follows an operation on the resource: the slot is read, and
    /// what is found there is handed to [`signal_after`] together with
    /// whether the operation succeeded.
    ///
    /// The signal is fire-and-forget. What the waker reports is dropped on
    /// purpose and never reaches the caller, who sees the operation's own
    /// outcome and nothing else.
    pub fn wake_after<R, E>(&self, outcome: Result<R, E>) -> (r: Result<R, E>)
        ensures
            r == outcome,
            self.signalled_after(outcome is Ok),
    {
        let content = self.waker.get();
        let ghost found = content;
        let report = signal_after(outcome.is_ok(), content);
        assert(self.slot().read(found) && signalled(outcome is Ok, found, report));
        outcome
    }
}

/// Whether `report` is what signalling after an operation gives: a report
/// is there exactly if the operation succeeded and `slot` held a waker, and
/// it is what that waker returned.
pub open spec fn signalled(
    succeeded: bool,
    slot: Option<Arc<dyn Waker>>,
    report: Option<Result<(), std::io::Error>>,
) -> bool {
    &&& report is Some <==> succeeded && slot is Some
    &&& report matches Some(rep) ==> slot matches Some(w) && w.wake_report(rep)
}

/// Decides whether a wake is due and makes it: the waker in `slot` is
/// signalled once if the operation succeeded and a waker is there, and
/// not otherwise. The report, if a signal was made, is what that waker
/// returned.
pub fn signal_after(succeeded: bool, slot: Option<Arc<dyn Waker>>) -> (report: Option<
    Result<(), std::io::Error>,
>)
    ensures
        signalled(succeeded, slot, report),
{
    if !succeeded {
        return None;
    }
    match slot {
        Some(waker) => Some(waker.wake()),
        None => None,
    }
}

} // verus!
