//! Message queues that a readiness-polling reactor can wait on.
//!
//! A queue has no descriptor that an operating system could mark ready, so
//! the producing side signals the reactor by hand: every successful send
//! wakes the registration of the consuming endpoint. The consuming endpoint
//! is a pollable [`Source`]; the producing endpoints are plain handles.

pub mod event;
pub mod interest;
pub mod io_source;
pub mod mpsc;
pub mod registry;
pub mod token;

pub use crate::event::RegistrationError;
pub use crate::event::Source;
pub use crate::interest::Interest;
pub use crate::io_source::IoSource;
pub use crate::registry::Registry;
pub use crate::registry::Waker;
pub use crate::token::Token;
