//! Where the current time comes from.

use crate::time::Timestamp;
use vstd::prelude::*;

verus! {

/// A source of the current instant.
pub trait Clock: Send + Sync {
    fn now(&self) -> Timestamp;
}

/// The real clock. Adapters use this; tests do not.
#[derive(Debug, Clone, Copy, Default)]
pub struct SystemClock;

impl Clock for SystemClock {
    fn now(&self) -> (r: Timestamp)
        ensures
            r.on_calendar(),
    {
        Timestamp::now()
    }
}

/// A clock pinned to an instant, for tests.
#[derive(Debug, Clone, Copy)]
pub struct FixedClock(Timestamp);

impl View for FixedClock {
    type V = Timestamp;

    closed spec fn view(&self) -> Timestamp {
        self.0
    }
}

impl FixedClock {
    /// A clock pinned to `at`.
    pub fn new(at: Timestamp) -> (r: FixedClock)
        ensures
            r@ == at,
    {
        FixedClock(at)
    }

    /// Pins the clock to another instant.
    pub fn set(&mut self, at: Timestamp)
        ensures
            final(self)@ == at,
    {
        self.0 = at;
    }
}

impl Clock for FixedClock {
    fn now(&self) -> (r: Timestamp)
        ensures
            r == self@,
    {
        self.0
    }
}

} // verus!
