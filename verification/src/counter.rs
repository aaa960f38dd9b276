//! The count of outstanding work, by which a run detects that it is done.

use vstd::prelude::*;

verus! {

/// Number of work items that were enqueued and are not yet retired.
///
/// The count goes up by one at every enqueue and down by one for every result
/// that the event loop has finished with. A run is complete exactly when a
/// decrement brings it to zero.
#[derive(Clone, Copy, Debug, PartialEq, Eq, Structural)]
pub struct PendingCounter {
    value: usize,
}

impl View for PendingCounter {
    type V = nat;

    closed spec fn view(&self) -> nat {
        self.value as nat
    }
}

/// The count of outstanding work once a result has been handled, when it
/// was `pending` before and the handlers enqueued `enqueued` items: each of
/// these is counted, and the one unit of work that the result stands for is
/// retired.
pub open spec fn count_after_result(pending: int, enqueued: int) -> int {
    pending + enqueued - 1
}

impl PendingCounter {
    /// A counter with nothing outstanding.
    pub fn new() -> (counter: Self)
        ensures
            counter@ == 0,
    {
        PendingCounter { value: 0 }
    }

    /// Counts one more outstanding item.
    pub fn increment(&mut self)
        requires
            old(self)@ < usize::MAX,
        ensures
            final(self)@ == old(self)@ + 1,
    {
        self.value = self.value + 1;
    }

    /// Counts `count` more outstanding items.
    pub fn increment_by(&mut self, count: usize)
        requires
            old(self)@ + count <= usize::MAX,
        ensures
            final(self)@ == old(self)@ + count,
    {
        self.value = self.value + count;
    }

    /// Retires one item and returns what is left outstanding.
    ///
    /// Retiring from an empty counter would make the count negative, which no
    /// run may do.
    pub fn decrement(&mut self) -> (left: usize)
        requires
            old(self)@ > 0,
        ensures
            final(self)@ == old(self)@ - 1,
            left == final(self)@,
    {
        self.value = self.value - 1;
        self.value
    }

    /// The number of outstanding items.
    pub fn peek(&self) -> (value: usize)
        ensures
            value == self@,
    {
        self.value
    }
}

} // verus!
