//! The event queue: the ordered buffer between the watch session and the
//! application's handler.

use std::collections::VecDeque;
use vstd::prelude::*;
use crate::event::ChangeEvent;
use crate::event::dispatchable;

verus! {

/// What is left of `events` once the events at its front that the
/// application does not get to see are dropped.
pub open spec fn skip_hidden<P>(events: Seq<ChangeEvent<P>>) -> Seq<ChangeEvent<P>>
    decreases events.len(),
{
    if events.len() == 0 || dispatchable(events[0].kind) {
        events
    } else {
        skip_hidden(events.subrange(1, events.len() as int))
    }
}

/// A first-in, first-out queue of change events, without a bound.
///
/// Its view is the sequence of the events that wait, oldest first.
pub struct EventQueue<P> {
    items: VecDeque<ChangeEvent<P>>,
}

impl<P> View for EventQueue<P> {
    type V = Seq<ChangeEvent<P>>;

    closed spec fn view(&self) -> Seq<ChangeEvent<P>> {
        self.items@
    }
}

impl<P> EventQueue<P> {
    /// An empty queue.
    pub fn new() -> (queue: Self)
        ensures
            queue@ == Seq::<ChangeEvent<P>>::empty(),
    {
        EventQueue { items: VecDeque::new() }
    }

    /// Appends `event` behind everything that waits.
    pub fn push(&mut self, event: ChangeEvent<P>)
        ensures
            final(self)@ == old(self)@.push(event),
    {
        self.items.push_back(event);
    }

    /// Removes and returns the oldest event, or `None` when nothing waits.
    /// Never blocks.
    pub fn try_pop(&mut self) -> (event: Option<ChangeEvent<P>>)
        ensures
            old(self)@.len() == 0 ==> event.is_none() && final(self)@ == old(self)@,
            old(self)@.len() > 0 ==> event == Some(old(self)@[0]) && final(self)@ == old(
                self,
            )@.subrange(1, old(self)@.len() as int),
    {
        self.items.pop_front()
    }

    /// Removes the events at the front that the application does not get to
    /// see, then removes and returns the oldest one that it does, or `None`
    /// when no such event waits (the queue is then empty).
    pub fn pop_dispatchable(&mut self) -> (event: Option<ChangeEvent<P>>)
        ensures
            skip_hidden(old(self)@).len() == 0 ==> event.is_none() && final(self)@.len() == 0,
            skip_hidden(old(self)@).len() > 0 ==> event == Some(skip_hidden(old(self)@)[0])
                && final(self)@ == skip_hidden(old(self)@).subrange(
                1,
                skip_hidden(old(self)@).len() as int,
            ),
    {
        loop
            invariant
                skip_hidden(self@) == skip_hidden(old(self)@),
            decreases self@.len(),
        {
            match self.try_pop() {
                None => {
                    return None;
                },
                Some(event) => {
                    if event.kind.is_dispatchable() {
                        return Some(event);
                    }
                },
            }
        }
    }

    /// The number of events that wait.
    pub fn len(&self) -> (n: usize)
        ensures
            n == self@.len(),
    {
        self.items.len()
    }

    /// Whether nothing waits.
    pub fn is_empty(&self) -> (empty: bool)
        ensures
            empty == (self@.len() == 0),
    {
        self.items.len() == 0
    }
}

} // verus!
