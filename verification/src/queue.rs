//! The FIFO event queue that bridges the push-based native callbacks to the
//! pull-based consumer API. Callbacks append at the tail; the consumer
//! removes from the head; order is never changed and entries are never
//! merged.

use vstd::prelude::*;
use std::collections::VecDeque;
use crate::events::Event;

verus! {

/// An ordered, first-in first-out sequence of events. Created empty at
/// window construction, appended to only by the callback path, drained only
/// by the owning thread.
pub struct EventQueue {
    events: VecDeque<Event>,
}

impl View for EventQueue {
    type V = Seq<Event>;

    closed spec fn view(&self) -> Seq<Event> {
        self.events@
    }
}

impl EventQueue {
    /// A new, empty queue.
    pub fn new() -> (q: EventQueue)
        ensures
            q@ =~= Seq::<Event>::empty(),
    {
        EventQueue { events: VecDeque::new() }
    }

    /// How many events are pending.
    pub fn len(&self) -> (n: usize)
        ensures
            n == self@.len(),
    {
        self.events.len()
    }

    /// Whether no event is pending.
    pub fn is_empty(&self) -> (b: bool)
        ensures
            b <==> self@.len() == 0,
    {
        self.events.len() == 0
    }

    /// Appends one event at the tail.
    pub fn push_back(&mut self, e: Event)
        ensures
            final(self)@ == old(self)@.push(e),
    {
        self.events.push_back(e);
    }

    /// Removes and returns the head event; `None` exactly when the queue is
    /// empty, and then the queue is left as it was.
    pub fn pop_front(&mut self) -> (e: Option<Event>)
        ensures
            match e {
                Some(x) => {
                    &&& old(self)@.len() > 0
                    &&& x == old(self)@[0]
                    &&& final(self)@ == old(self)@.subrange(1, old(self)@.len() as int)
                },
                None => {
                    &&& old(self)@.len() == 0
                    &&& final(self)@ == old(self)@
                },
            },
    {
        self.events.pop_front()
    }
}

} // verus!
