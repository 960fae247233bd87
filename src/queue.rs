//! Pending UI events, bounded, handled strictly in arrival order.
//!
//! Overflow policy: an event that arrives while the queue is full is
//! rejected and the caller is told so; queued events are never dropped or
//! reordered.
use vstd::prelude::*;
use std::collections::VecDeque;

verus! {

/// Events that may wait while an operation runs.
pub const QUEUE_CAPACITY: usize = 32;

/// A first-in first-out queue that holds at most `capacity` events.
pub struct EventQueue<T> {
    pub events: VecDeque<T>,
    pub capacity: usize,
}

impl<T> EventQueue<T> {
    pub open spec fn wf(&self) -> bool {
        self.events@.len() <= self.capacity
    }

    /// An empty queue that holds at most `capacity` events.
    pub fn new(capacity: usize) -> (r: EventQueue<T>)
        ensures
            r.wf(),
            r.events@.len() == 0,
            r.capacity == capacity,
    {
        EventQueue { events: VecDeque::new(), capacity }
    }

    /// Number of waiting events.
    pub fn len(&self) -> (r: usize)
        ensures
            r == self.events@.len(),
    {
        self.events.len()
    }

    /// Appends an event unless the queue is full; returns whether it was
    /// taken. A rejected event leaves the queue as it was.
    pub fn push(&mut self, event: T) -> (accepted: bool)
        requires
            old(self).wf(),
        ensures
            final(self).wf(),
            final(self).capacity == old(self).capacity,
            accepted == (old(self).events@.len() < old(self).capacity),
            accepted ==> final(self).events@ == old(self).events@.push(event),
            !accepted ==> final(self).events@ == old(self).events@,
    {
        if self.events.len() < self.capacity {
            self.events.push_back(event);
            true
        } else {
            false
        }
    }

    /// Takes the oldest waiting event.
    pub fn pop(&mut self) -> (r: Option<T>)
        requires
            old(self).wf(),
        ensures
            final(self).wf(),
            final(self).capacity == old(self).capacity,
            match r {
                Some(e) => {
                    &&& old(self).events@.len() > 0
                    &&& e == old(self).events@[0]
                    &&& final(self).events@ == old(self).events@.drop_first()
                },
                None => old(self).events@.len() == 0 && final(self).events@ == old(self).events@,
            },
    {
        let r = self.events.pop_front();
        proof {
            if r.is_some() {
                assert(self.events@ =~= old(self).events@.drop_first());
            }
        }
        r
    }
}

} // verus!
