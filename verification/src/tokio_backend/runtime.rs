//! The scheduler-facing helpers of the backend's dispatch cycle.

use vstd::prelude::*;

verus! {

/// A future that reports readiness only on its third poll.  A zero
/// dispatch timeout blocks on one of these: the two intermediate wakes
/// give every already-ready task a scheduler tick to run, and then the
/// dispatch returns without waiting for anything further.
#[derive(Clone, Copy, Debug, PartialEq, Eq, Structural)]
pub struct YieldFuture {
    /// How many polls the future has answered so far.
    pub polls: u8,
}

impl YieldFuture {
    /// A future that has not been polled yet.
    pub fn new() -> (r: Self)
        ensures
            r.polls == 0u8,
    {
        YieldFuture { polls: 0 }
    }

    /// One poll: the first two ask to be woken again and count
    /// themselves; from the third on, the future is ready.
    pub fn poll_once(&mut self) -> (ready: bool)
        ensures
            ready <==> old(self).polls >= 2,
            final(self).polls == (if old(self).polls < 2 {
                old(self).polls + 1
            } else {
                old(self).polls as int
            }),
    {
        if self.polls < 2 {
            self.polls = self.polls + 1;
            false
        } else {
            true
        }
    }
}

impl Default for YieldFuture {
    /// A future that has not been polled yet.
    fn default() -> (r: Self)
        ensures
            r.polls == 0u8,
    {
        YieldFuture { polls: 0 }
    }
}

} // verus!
