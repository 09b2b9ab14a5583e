use vstd::prelude::*;

verus! {

/// The readiness a registration asks to be told about: readable, writable,
/// or both. There is no empty interest.
#[derive(Clone, Copy, Debug, PartialEq, Eq, Structural)]
pub enum Interest {
    Readable,
    Writable,
    Both,
}

impl Interest {
    /// Whether readable readiness is asked for.
    pub open spec fn readable(self) -> bool {
        self is Readable || self is Both
    }

    /// Whether writable readiness is asked for.
    pub open spec fn writable(self) -> bool {
        self is Writable || self is Both
    }

    /// Whether readable readiness is asked for.
    pub fn is_readable(self) -> (b: bool)
        ensures
            b == self.readable(),
    {
        match self {
            Interest::Readable => true,
            Interest::Writable => false,
            Interest::Both => true,
        }
    }

    /// Whether writable readiness is asked for.
    pub fn is_writable(self) -> (b: bool)
        ensures
            b == self.writable(),
    {
        match self {
            Interest::Readable => false,
            Interest::Writable => true,
            Interest::Both => true,
        }
    }

    /// The union of two interests.
    pub fn add(self, other: Interest) -> (sum: Interest)
        ensures
            sum.readable() == (self.readable() || other.readable()),
            sum.writable() == (self.writable() || other.writable()),
    {
        let readable = self.is_readable() || other.is_readable();
        let writable = self.is_writable() || other.is_writable();
        if readable && writable {
            Interest::Both
        } else if readable {
            Interest::Readable
        } else {
            Interest::Writable
        }
    }
}

} // verus!
