//! Submissions and the queue that holds the deferred ones until the next
//! drain.

use std::collections::VecDeque;
use vstd::prelude::*;

use super::event::{Event, EventMarker, EventType};
use super::listener::{EventListener, Outbox};
use super::registry::{dispatch_emitted, dispatched, ListenerRegistry};

verus! {

/// How a submitted event is to be delivered. The priority belongs to the
/// submission, not to the event: it is used up when the event is submitted.
#[derive(Debug, PartialEq, Eq, Clone, Copy, Hash, Structural)]
pub enum EventPriority {
    /// The event waits in the queue until the next drain.
    Queued,
    /// The event is dispatched at once, before the submission returns.
    Blocking,
}

/// One submission: an event of the catalog together with its priority.
pub struct EventInfo<T: EventMarker> {
    event: T,
    priority: EventPriority,
}

impl<T: EventMarker> EventInfo<T> {
    /// The event that is submitted.
    pub closed spec fn event(self) -> Event {
        self.event.event()
    }

    /// The priority it is submitted with.
    pub closed spec fn priority(self) -> EventPriority {
        self.priority
    }

    /// A submission of `event` that is deferred to the next drain.
    pub fn queued(event: T) -> (info: Self)
        ensures
            info.event() == event.event(),
            info.priority() == EventPriority::Queued,
    {
        EventInfo { event, priority: EventPriority::Queued }
    }

    /// A submission of `event` that is dispatched at once.
    pub fn blocking(event: T) -> (info: Self)
        ensures
            info.event() == event.event(),
            info.priority() == EventPriority::Blocking,
    {
        EventInfo { event, priority: EventPriority::Blocking }
    }

    /// Takes the submission apart.
    pub fn into_parts(self) -> (parts: (Event, EventPriority))
        ensures
            parts.0 == self.event(),
            parts.1 == self.priority(),
    {
        (self.event.into_event(), self.priority)
    }
}

/// The registry after the events of `queue` have been dispatched one after
/// the other, the first of the queue first.
pub open spec fn drained<L: EventListener>(
    registry: Map<EventType, Seq<L::Model>>,
    queue: Seq<Event>,
) -> Map<EventType, Seq<L::Model>>
    decreases queue.len(),
{
    if queue.len() == 0 {
        registry
    } else {
        drained::<L>(dispatched::<L>(registry, queue[0]), queue.drop_first())
    }
}

/// The events that the listeners submit while the events of `queue` are
/// dispatched one after the other, in the order in which they are submitted.
pub open spec fn drain_emitted<L: EventListener>(
    registry: Map<EventType, Seq<L::Model>>,
    queue: Seq<Event>,
) -> Seq<Event>
    decreases queue.len(),
{
    if queue.len() == 0 {
        Seq::empty()
    } else {
        dispatch_emitted::<L>(registry, queue[0]) + drain_emitted::<L>(
            dispatched::<L>(registry, queue[0]),
            queue.drop_first(),
        )
    }
}

/// The events whose delivery was deferred, oldest first. Only submissions
/// with priority `Queued` ever enter the queue, and they enter it without
/// their priority. The queue has no bound.
pub struct DeliveryQueue {
    pending: VecDeque<Event>,
}

impl View for DeliveryQueue {
    type V = Seq<Event>;

    closed spec fn view(&self) -> Seq<Event> {
        self.pending@
    }
}

impl DeliveryQueue {
    /// An empty queue.
    pub fn new() -> (queue: Self)
        ensures
            queue@ == Seq::<Event>::empty(),
    {
        DeliveryQueue { pending: VecDeque::new() }
    }

    /// The number of events that wait.
    pub fn len(&self) -> (n: usize)
        ensures
            n == self@.len(),
    {
        self.pending.len()
    }

    /// Whether no event waits.
    pub fn is_empty(&self) -> (empty: bool)
        ensures
            empty <==> self@.len() == 0,
    {
        self.pending.len() == 0
    }

    /// Appends `event` behind the events that already wait.
    pub fn enqueue(&mut self, event: Event)
        ensures
            final(self)@ == old(self)@.push(event),
    {
        self.pending.push_back(event);
    }

    /// Removes the event that has waited longest, if there is one.
    pub fn dequeue(&mut self) -> (event: Option<Event>)
        ensures
            old(self)@.len() == 0 ==> event is None && final(self)@ == old(self)@,
            old(self)@.len() > 0 ==> event == Some(old(self)@[0]) && final(self)@ == old(
                self,
            )@.drop_first(),
    {
        self.pending.pop_front()
    }

    /// Appends the events of `outbox`, in their order, behind the events that
    /// already wait.
    pub fn take_in(&mut self, outbox: Outbox)
        ensures
            final(self)@ == old(self)@ + outbox@,
    {
        let events = outbox.into_events();
        let n = events.len();
        let mut i: usize = 0;
        assert(self@ =~= old(self)@ + events@.take(0));
        while i < n
            invariant
                i <= n,
                n == events@.len(),
                self@ == old(self)@ + events@.take(i as int),
            decreases n - i,
        {
            self.enqueue(events[i]);
            i += 1;
            assert(self@ =~= old(self)@ + events@.take(i as int));
        }
        assert(events@.take(n as int) =~= events@);
    }

    /// Drains the queue into `registry`: removes the events that wait one by
    /// one, oldest first, and dispatches each. The events that listeners
    /// submit meanwhile are not delivered by this drain: they are what waits
    /// in the queue afterwards, in the order in which they were submitted.
    pub fn drain<L: EventListener>(&mut self, registry: &mut ListenerRegistry<L>)
        ensures
            final(registry)@ == drained::<L>(old(registry)@, old(self)@),
            final(self)@ == drain_emitted::<L>(old(registry)@, old(self)@),
    {
        let mut outbox = Outbox::new();
        assert(outbox@ + drain_emitted::<L>(registry@, self@) =~= drain_emitted::<L>(
            registry@,
            self@,
        ));
        loop
            invariant
                drained::<L>(registry@, self@) == drained::<L>(old(registry)@, old(self)@),
                outbox@ + drain_emitted::<L>(registry@, self@) == drain_emitted::<L>(
                    old(registry)@,
                    old(self)@,
                ),
            ensures
                self@.len() == 0,
                registry@ == drained::<L>(old(registry)@, old(self)@),
                outbox@ == drain_emitted::<L>(old(registry)@, old(self)@),
            decreases self@.len(),
        {
            let ghost queue = self@;
            let ghost listeners = registry@;
            let ghost sent = outbox@;
            match self.dequeue() {
                Some(event) => {
                    registry.dispatch(&event, &mut outbox);
                    assert(outbox@ + drain_emitted::<L>(registry@, self@) =~= sent + drain_emitted::<
                        L,
                    >(listeners, queue));
                },
                None => {
                    assert(outbox@ =~= outbox@ + drain_emitted::<L>(registry@, self@));
                    break ;
                },
            }
        }
        self.take_in(outbox);
        assert(self@ =~= drain_emitted::<L>(old(registry)@, old(self)@));
    }
}

} // verus!
