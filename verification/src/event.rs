use crate::interest::Interest;
use crate::registry::Registry;
use crate::registry::Waker;
use crate::token::Token;
use std::sync::Arc;
use vstd::prelude::*;

verus! {

/// Why a lifecycle call did not go through.
#[derive(Debug)]
pub enum RegistrationError {
    /// `register` on a source that already holds a token.
    AlreadyRegistered,
    /// `reregister` or `deregister` on a source that holds no token.
    NotRegistered,
    /// The reactor refused the request; its error is handed on untouched.
    Reactor(std::io::Error),
}

/// What is left of a reactor's answer once the waker has been taken out.
pub open spec fn answer<W>(reply: Result<W, std::io::Error>) -> Result<(), std::io::Error> {
    match reply {
        Ok(_) => Ok(()),
        Err(e) => Err(e),
    }
}

/// `register` as a transition: from the token held before and the reactor's
/// answer to the token held after and the result reported.
///
/// A source that holds a token is refused before the reactor is asked, so
/// `reply` matters only when `held` is `None`.
pub open spec fn register_spec(
    held: Option<Token>,
    token: Token,
    reply: Result<(), std::io::Error>,
) -> (Option<Token>, Result<(), RegistrationError>) {
    match held {
        Some(_) => (held, Err(RegistrationError::AlreadyRegistered)),
        None => match reply {
            Ok(_) => (Some(token), Ok(())),
            Err(e) => (None, Err(RegistrationError::Reactor(e))),
        },
    }
}

/// `reregister` as a transition. `reply` matters only when `held` is `Some`.
pub open spec fn reregister_spec(
    held: Option<Token>,
    token: Token,
    reply: Result<(), std::io::Error>,
) -> (Option<Token>, Result<(), RegistrationError>) {
    match held {
        None => (None, Err(RegistrationError::NotRegistered)),
        Some(_) => match reply {
            Ok(_) => (Some(token), Ok(())),
            Err(e) => (held, Err(RegistrationError::Reactor(e))),
        },
    }
}

/// `deregister` as a transition. `reply` matters only when `held` is `Some`.
pub open spec fn deregister_spec(held: Option<Token>, reply: Result<(), std::io::Error>) -> (
    Option<Token>,
    Result<(), RegistrationError>,
) {
    match held {
        None => (None, Err(RegistrationError::NotRegistered)),
        Some(_) => match reply {
            Ok(_) => (None, Ok(())),
            Err(e) => (held, Err(RegistrationError::Reactor(e))),
        },
    }
}

/// A resource that can be put into a reactor's wait set.
///
/// A source holds at most one token. The three calls follow
/// [`register_spec`], [`reregister_spec`] and [`deregister_spec`]. Where
/// the source itself does not refuse, the answer that decides is one that
/// the reactor passed in gave when asked with the token held, the token
/// given and the interests given. Calls on one source are not synchronised
/// with each other: they take `&mut self`.
///
/// Dropping a source does not deregister it. Deregister first.
pub trait Source {
    /// The token of the current registration.
    spec fn token(&self) -> Option<Token>;

    fn register<R: Registry + ?Sized>(
        &mut self,
        registry: &R,
        token: Token,
        interests: Interest,
    ) -> (r: Result<(), RegistrationError>)
        ensures
            exists|reply: Result<(), std::io::Error>|
                #[trigger] register_spec(old(self).token(), token, reply) == (
                    final(self).token(),
                    r,
                ),
            old(self).token() is None ==> exists|reply: Result<Arc<dyn Waker>, std::io::Error>|
                #[trigger] registry.register_reply(token, interests, reply) && (
                    final(self).token(),
                    r,
                ) == register_spec(old(self).token(), token, answer(reply)),
    ;

    fn reregister<R: Registry + ?Sized>(
        &mut self,
        registry: &R,
        token: Token,
        interests: Interest,
    ) -> (r: Result<(), RegistrationError>)
        ensures
            exists|reply: Result<(), std::io::Error>|
                #[trigger] reregister_spec(old(self).token(), token, reply) == (
                    final(self).token(),
                    r,
                ),
            old(self).token() matches Some(current) ==> exists|
                reply: Result<Arc<dyn Waker>, std::io::Error>,
            |
                #[trigger] registry.reregister_reply(current, token, interests, reply) && (
                    final(self).token(),
                    r,
                ) == reregister_spec(old(self).token(), token, answer(reply)),
    ;

    fn deregister<R: Registry + ?Sized>(&mut self, registry: &R) -> (r: Result<
        (),
        RegistrationError,
    >)
        ensures
            exists|reply: Result<(), std::io::Error>|
                #[trigger] deregister_spec(old(self).token(), reply) == (final(self).token(), r),
            old(self).token() matches Some(current) ==> exists|reply: Result<(), std::io::Error>|
                #[trigger] registry.deregister_reply(current, reply) && (final(self).token(), r)
                    == deregister_spec(old(self).token(), reply),
    ;
}

/// A second `deregister` with no `register` in between reports
/// `NotRegistered` and leaves the source without a token, unless the reactor
/// refused the first one (the source is then still registered).
pub proof fn lemma_deregister_twice(
    held: Option<Token>,
    first: Result<(), std::io::Error>,
    second: Result<(), std::io::Error>,
)
    requires
        !(deregister_spec(held, first).1 matches Err(RegistrationError::Reactor(_))),
    ensures
        deregister_spec(held, first).0 is None,
        deregister_spec(deregister_spec(held, first).0, second) == (
            None::<Token>,
            Err::<(), RegistrationError>(RegistrationError::NotRegistered),
        ),
{
}

/// A lifecycle call that fails leaves the token as it was.
pub proof fn lemma_failure_keeps_token(
    held: Option<Token>,
    token: Token,
    reply: Result<(), std::io::Error>,
)
    ensures
        register_spec(held, token, reply).1 is Err ==> register_spec(held, token, reply).0 == held,
        reregister_spec(held, token, reply).1 is Err ==> reregister_spec(held, token, reply).0
            == held,
        deregister_spec(held, reply).1 is Err ==> deregister_spec(held, reply).0 == held,
{
}

/// A source never holds two tokens: `register` on a registered source is
/// refused and the first token stays.
pub proof fn lemma_register_twice(
    held: Option<Token>,
    first: Token,
    second: Token,
    reply1: Result<(), std::io::Error>,
    reply2: Result<(), std::io::Error>,
)
    requires
        register_spec(held, first, reply1).1 is Ok,
    ensures
        register_spec(register_spec(held, first, reply1).0, second, reply2) == (
            Some(first),
            Err::<(), RegistrationError>(RegistrationError::AlreadyRegistered),
        ),
{
}

/// After a `deregister` that went through, the source can be registered
/// again: `register` is refused only if the reactor refuses it, and on
/// success the new token is held.
pub proof fn lemma_register_after_deregister(
    held: Option<Token>,
    gone: Result<(), std::io::Error>,
    token: Token,
    reply: Result<(), std::io::Error>,
)
    requires
        deregister_spec(held, gone).1 is Ok,
    ensures
        register_spec(deregister_spec(held, gone).0, token, reply) == (match reply {
            Ok(_) => (Some(token), Ok::<(), RegistrationError>(())),
            Err(e) => (None::<Token>, Err::<(), RegistrationError>(RegistrationError::Reactor(e))),
        }),
{
}

} // verus!
