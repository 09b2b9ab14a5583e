use vstd::prelude::*;

verus! {

/// Names one registration in a reactor's interest table.
///
/// The caller picks the number when registering; the reactor hands it back
/// with every readiness notification for that registration.
#[derive(Clone, Copy, Debug, PartialEq, Eq, Hash, Structural)]
pub struct Token(pub usize);

} // verus!
