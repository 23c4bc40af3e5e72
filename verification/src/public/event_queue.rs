//! The event queue: a first-in-first-out buffer of change hints and the
//! single-slot signal that wakes the dispatcher.

use crate::public::ServiceType;
use std::collections::VecDeque;
use vstd::prelude::*;

verus! {

/// A hint that the named source has new data. Events carry no payload.
#[derive(Clone, Copy, Debug, PartialEq, Eq, Structural)]
pub struct Event {
    pub service_type: ServiceType,
}

/// The queue as a mathematical value: the buffered events, oldest first, and
/// whether a wake-up is pending.
pub struct EventQView {
    pub events: Seq<Event>,
    pub notified: bool,
}

impl EventQView {
    /// No event, no pending wake-up.
    pub open spec fn empty() -> EventQView {
        EventQView { events: Seq::empty(), notified: false }
    }

    /// Appends `event` and raises the signal. A signal that is already up
    /// stays up: wake-ups coalesce, events never do.
    pub open spec fn push(self, event: Event) -> EventQView {
        EventQView { events: self.events.push(event), notified: true }
    }

    /// Pushes `events` one after the other.
    pub open spec fn push_all(self, events: Seq<Event>) -> EventQView
        decreases events.len(),
    {
        if events.len() == 0 {
            self
        } else {
            self.push_all(events.drop_last()).push(events.last())
        }
    }

    /// Removes every event. The signal is left as it is.
    pub open spec fn drain(self) -> EventQView {
        EventQView { events: Seq::empty(), notified: self.notified }
    }

    /// Consumes the signal. The events are left as they are.
    pub open spec fn wake(self) -> EventQView {
        EventQView { events: self.events, notified: false }
    }
}

/// The event queue.
#[derive(Debug)]
pub struct EventQ {
    q: VecDeque<Event>,
    signal: bool,
}

impl View for EventQ {
    type V = EventQView;

    closed spec fn view(&self) -> EventQView {
        EventQView { events: self.q@, notified: self.signal }
    }
}

impl EventQ {
    /// Capacity that the buffer starts with. The queue grows beyond it.
    pub const QLEN: usize = 10;

    pub fn new() -> (queue: Self)
        ensures
            queue@ == EventQView::empty(),
    {
        EventQ { q: VecDeque::with_capacity(Self::QLEN), signal: false }
    }

    /// Appends `event` and raises the signal. Returns `true` when this push
    /// raised it, `false` when it was up already and the wake-up coalesced
    /// with the pending one.
    pub fn push(&mut self, event: Event) -> (raised: bool)
        ensures
            final(self)@ == old(self)@.push(event),
            raised == !old(self)@.notified,
    {
        self.q.push_back(event);
        let raised = !self.signal;
        self.signal = true;
        raised
    }

    /// Removes all queued events and returns them in insertion order. The
    /// signal is not touched.
    pub fn drain(&mut self) -> (events: Vec<Event>)
        ensures
            events@ == old(self)@.events,
            final(self)@ == old(self)@.drain(),
    {
        let mut events: Vec<Event> = Vec::new();
        loop
            invariant
                events@ + self.q@ == old(self).q@,
                self.signal == old(self).signal,
            ensures
                events@ == old(self).q@,
                self.q@.len() == 0,
                self.signal == old(self).signal,
            decreases self.q@.len(),
        {
            match self.q.pop_front() {
                Some(event) => {
                    events.push(event);
                },
                None => {
                    break;
                },
            }
        }
        assert(self.q@ =~= Seq::empty());
        events
    }

    /// Polls the signal: returns whether a wake-up was pending and consumes
    /// it. The dispatcher suspends while this returns `false`.
    pub fn notified(&mut self) -> (woken: bool)
        ensures
            woken == old(self)@.notified,
            final(self)@ == old(self)@.wake(),
    {
        let woken = self.signal;
        self.signal = false;
        woken
    }

    /// Number of queued events.
    pub fn len(&self) -> (n: usize)
        ensures
            n == self@.events.len(),
    {
        self.q.len()
    }
}

/// Pushing never loses an event and leaves at most one wake-up pending:
/// after any number of pushes the queue holds what it held, followed by
/// the pushed events in order, and the signal is up if it was up or
/// anything was pushed.
pub proof fn lemma_push_all(queue: EventQView, events: Seq<Event>)
    ensures
        queue.push_all(events).events == queue.events + events,
        queue.push_all(events).notified == (queue.notified || events.len() > 0),
    decreases events.len(),
{
    if events.len() == 0 {
        assert(queue.events + events =~= queue.events);
    } else {
        lemma_push_all(queue, events.drop_last());
        assert((queue.events + events.drop_last()).push(events.last()) =~= queue.events + events);
    }
}

} // verus!
