use crate::interest::Interest;
use crate::token::Token;
use std::sync::Arc;
use vstd::prelude::*;

verus! {

/// `std::io::Error`, carried through as the reactor reported it. Nothing is
/// known of what it holds.
#[verifier::external_type_specification]
#[verifier::external_body]
pub struct ExIoError(std::io::Error);

/// The wake primitive of one registration: makes a blocked wait of the
/// reactor return and report the registration's token.
///
/// Any number of producer threads may call `wake` at once, so an
/// implementation synchronises inside. The library never reads what `wake`
/// returns for anything but to drop it.
pub trait Waker: Send + Sync {
    /// Whether `report` is something that `wake` of this waker may return.
    /// The relation is the waker's own and the library asks nothing of it;
    /// a waker that leaves it as it is admits every report.
    open spec fn wake_report(&self, report: Result<(), std::io::Error>) -> bool {
        true
    }

    fn wake(&self) -> (report: Result<(), std::io::Error>)
        ensures
            self.wake_report(report),
    ;
}

/// The reactor's side of a registration: adds, changes and removes entries
/// of its wait set, and supplies the waker tied to a token.
///
/// Each method comes with a relation between what it is asked and what it
/// may answer. The relation is the reactor's own and the library asks
/// nothing of it: a reactor that leaves it as it is admits every answer.
/// It serves to say, in the contracts of the lifecycle functions, which
/// reactor was asked and with what.
pub trait Registry {
    /// Whether `reply` is something that `register` of this reactor may
    /// answer when asked with `token` and `interests`.
    open spec fn register_reply(
        &self,
        token: Token,
        interests: Interest,
        reply: Result<Arc<dyn Waker>, std::io::Error>,
    ) -> bool {
        true
    }

    /// Whether `reply` is something that `reregister` of this reactor may
    /// answer when asked to move `current` to `token` with `interests`.
    open spec fn reregister_reply(
        &self,
        current: Token,
        token: Token,
        interests: Interest,
        reply: Result<Arc<dyn Waker>, std::io::Error>,
    ) -> bool {
        true
    }

    /// Whether `reply` is something that `deregister` of this reactor may
    /// answer when asked to remove `token`.
    open spec fn deregister_reply(&self, token: Token, reply: Result<(), std::io::Error>) -> bool {
        true
    }

    /// Adds a registration under `token` and returns its waker.
    fn register(&self, token: Token, interests: Interest) -> (reply: Result<
        Arc<dyn Waker>,
        std::io::Error,
    >)
        ensures
            self.register_reply(token, interests, reply),
    ;

    /// Moves the registration held under `current` to `token` with
    /// `interests`, and returns the waker of the changed registration.
    fn reregister(&self, current: Token, token: Token, interests: Interest) -> (reply: Result<
        Arc<dyn Waker>,
        std::io::Error,
    >)
        ensures
            self.reregister_reply(current, token, interests, reply),
    ;

    /// Removes the registration held under `token`.
    fn deregister(&self, token: Token) -> (reply: Result<(), std::io::Error>)
        ensures
            self.deregister_reply(token, reply),
    ;
}

} // verus!
