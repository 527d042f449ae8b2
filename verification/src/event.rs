//! Tokens and event sets: how the event loop names sockets and what may
//! happen to them.

use vstd::prelude::*;

verus! {

/// The number under which the event loop knows a socket.
#[derive(Debug, Clone, Copy, PartialEq, Eq, Structural)]
pub struct Token(pub usize);

impl Token {
    /// The number itself.
    pub fn as_usize(&self) -> (n: usize)
        ensures
            n == self.0,
    {
        self.0
    }
}

/// A set of the events that can be waited for on a socket, or that happened to it.
#[derive(Debug, Clone, Copy, PartialEq, Eq, Structural)]
pub struct EventSet {
    pub readable: bool,
    pub writable: bool,
    pub error: bool,
    pub hup: bool,
}

impl EventSet {
    /// The set that holds only the readable event.
    #[verifier::allow_in_spec]
    pub fn readable() -> EventSet
        returns
            (EventSet { readable: true, writable: false, error: false, hup: false }),
    {
        EventSet { readable: true, writable: false, error: false, hup: false }
    }

    /// The set that holds only the writable event.
    #[verifier::allow_in_spec]
    pub fn writable() -> EventSet
        returns
            (EventSet { readable: false, writable: true, error: false, hup: false }),
    {
        EventSet { readable: false, writable: true, error: false, hup: false }
    }

    /// The set that holds every event.
    #[verifier::allow_in_spec]
    pub fn all() -> EventSet
        returns
            (EventSet { readable: true, writable: true, error: true, hup: true }),
    {
        EventSet { readable: true, writable: true, error: true, hup: true }
    }

    /// Whether the readable event is in the set.
    #[verifier::allow_in_spec]
    pub fn is_readable(&self) -> bool
        returns
            self.readable,
    {
        self.readable
    }

    /// Whether the writable event is in the set.
    #[verifier::allow_in_spec]
    pub fn is_writable(&self) -> bool
        returns
            self.writable,
    {
        self.writable
    }

    /// Whether the hang-up event is in the set.
    #[verifier::allow_in_spec]
    pub fn is_hup(&self) -> bool
        returns
            self.hup,
    {
        self.hup
    }

    /// The union of two sets.
    pub open spec fn with(self, other: EventSet) -> EventSet {
        EventSet {
            readable: self.readable || other.readable,
            writable: self.writable || other.writable,
            error: self.error || other.error,
            hup: self.hup || other.hup,
        }
    }

    /// The events of this set that are not in the other.
    pub open spec fn without(self, other: EventSet) -> EventSet {
        EventSet {
            readable: self.readable && !other.readable,
            writable: self.writable && !other.writable,
            error: self.error && !other.error,
            hup: self.hup && !other.hup,
        }
    }

    /// Adds every event of `other`.
    pub fn insert(&mut self, other: EventSet)
        ensures
            *final(self) == old(self).with(other),
    {
        self.readable = self.readable || other.readable;
        self.writable = self.writable || other.writable;
        self.error = self.error || other.error;
        self.hup = self.hup || other.hup;
    }

    /// Takes out every event of `other`.
    pub fn remove(&mut self, other: EventSet)
        ensures
            *final(self) == old(self).without(other),
    {
        self.readable = self.readable && !other.readable;
        self.writable = self.writable && !other.writable;
        self.error = self.error && !other.error;
        self.hup = self.hup && !other.hup;
    }
}

} // verus!
