//! The sending side of the work channel, which counts what it takes.

use crate::counter::PendingCounter;
use crate::work::WorkInput;
use vstd::prelude::*;

verus! {

/// A handle through which work is enqueued.
///
/// It holds, in the order of their arrival, the items that were enqueued and
/// not yet passed on to the workers, and beside them the count of
/// outstanding work. An item is counted before it is held, so at no moment
/// is an item on its way that the count does not cover.
#[derive(Debug)]
pub struct WorkSender {
    queue: Vec<WorkInput>,
    counter: PendingCounter,
    closed: bool,
}

impl WorkSender {
    /// The items enqueued and not yet passed on, oldest first.
    pub closed spec fn queued(&self) -> Seq<WorkInput> {
        self.queue@
    }

    /// The count of outstanding work.
    pub closed spec fn pending(&self) -> nat {
        self.counter@
    }

    /// Whether the channel has been closed.
    pub closed spec fn is_closed(&self) -> bool {
        self.closed
    }

    /// Whether `count` more items can be enqueued: none always can; any
    /// other number while the channel is open and the counter can count them.
    pub open spec fn accepts(&self, count: nat) -> bool {
        count == 0 || (!self.is_closed() && self.pending() + count <= usize::MAX)
    }

    /// An open handle that holds nothing; `counter` is the count of
    /// outstanding work at this moment.
    pub fn new(counter: PendingCounter) -> (sender: Self)
        ensures
            sender.queued() == Seq::<WorkInput>::empty(),
            sender.pending() == counter@,
            !sender.is_closed(),
    {
        WorkSender { queue: Vec::new(), counter, closed: false }
    }

    /// A further handle on the same channel: it holds nothing yet, counts
    /// on from the same count, and is closed if this one is.
    pub fn fork(&self) -> (sender: Self)
        ensures
            sender.queued() == Seq::<WorkInput>::empty(),
            sender.pending() == self.pending(),
            sender.is_closed() == self.is_closed(),
    {
        WorkSender { queue: Vec::new(), counter: self.counter, closed: self.closed }
    }

    /// Whether one more item can be enqueued.
    pub fn ready(&self) -> (ready: bool)
        ensures
            ready == self.accepts(1),
    {
        !self.closed && self.counter.peek() < usize::MAX
    }

    /// Enqueues `item`, counting it first. Where it cannot be enqueued the
    /// item comes back and nothing changes.
    pub fn send(&mut self, item: WorkInput) -> (refused: Option<WorkInput>)
        ensures
            final(self).is_closed() == old(self).is_closed(),
            old(self).accepts(1) ==> {
                &&& refused is None
                &&& final(self).queued() == old(self).queued().push(item)
                &&& final(self).pending() == old(self).pending() + 1
            },
            !old(self).accepts(1) ==> {
                &&& refused == Some(item)
                &&& final(self).queued() == old(self).queued()
                &&& final(self).pending() == old(self).pending()
            },
    {
        if !self.closed && self.counter.peek() < usize::MAX {
            self.counter.increment();
            self.queue.push(item);
            None
        } else {
            Some(item)
        }
    }

    /// Enqueues all of `items` in their order, or, where they cannot all be
    /// enqueued, none of them.
    pub fn send_all(&mut self, items: Vec<WorkInput>) -> (sent: bool)
        ensures
            sent == old(self).accepts(items@.len()),
            final(self).is_closed() == old(self).is_closed(),
            sent ==> {
                &&& final(self).queued() == old(self).queued() + items@
                &&& final(self).pending() == old(self).pending() + items@.len()
            },
            !sent ==> {
                &&& final(self).queued() == old(self).queued()
                &&& final(self).pending() == old(self).pending()
            },
    {
        let count = items.len();
        if count == 0 {
            return true;
        }
        if self.closed || count > usize::MAX - self.counter.peek() {
            return false;
        }
        let mut items = items;
        self.counter.increment_by(count);
        self.queue.append(&mut items);
        true
    }

    /// Retires one unit of work and returns what is left outstanding.
    pub fn retire(&mut self) -> (left: usize)
        requires
            old(self).pending() > 0,
        ensures
            final(self).pending() == old(self).pending() - 1,
            left == final(self).pending(),
            final(self).queued() == old(self).queued(),
            final(self).is_closed() == old(self).is_closed(),
    {
        self.counter.decrement()
    }

    /// Whether the channel has been closed.
    pub fn closed(&self) -> (closed: bool)
        ensures
            closed == self.is_closed(),
    {
        self.closed
    }

    /// The count of outstanding work.
    pub fn outstanding(&self) -> (count: usize)
        ensures
            count == self.pending(),
    {
        self.counter.peek()
    }

    /// Enqueues `item` without counting it. For the stop sentinels of a
    /// shutdown, which stand for no unit of work.
    pub fn send_uncounted(&mut self, item: WorkInput)
        ensures
            final(self).queued() == old(self).queued().push(item),
            final(self).pending() == old(self).pending(),
            final(self).is_closed() == old(self).is_closed(),
    {
        self.queue.push(item);
    }

    /// Closes the channel: from now on nothing more is taken.
    pub fn close(&mut self)
        ensures
            final(self).is_closed(),
            final(self).queued() == old(self).queued(),
            final(self).pending() == old(self).pending(),
    {
        self.closed = true;
    }

    /// Takes out the items held, oldest first, to pass them on to the
    /// workers. They stay counted.
    pub fn drain(&mut self) -> (items: Vec<WorkInput>)
        ensures
            items@ == old(self).queued(),
            final(self).queued() == Seq::<WorkInput>::empty(),
            final(self).pending() == old(self).pending(),
            final(self).is_closed() == old(self).is_closed(),
    {
        let mut items: Vec<WorkInput> = Vec::new();
        core::mem::swap(&mut self.queue, &mut items);
        items
    }

    /// Gives up the handle for the items held.
    pub fn into_queued(self) -> (items: Vec<WorkInput>)
        ensures
            items@ == self.queued(),
    {
        self.queue
    }
}

} // verus!
