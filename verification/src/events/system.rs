//! The event system: the one owner of the listener registry and the delivery
//! queue, and the only way in for the rest of an application.

use vstd::prelude::*;

use super::event::{Event, EventMarker, EventType};
use super::listener::{EventListener, Outbox};
use super::queue::{drain_emitted, drained, DeliveryQueue, EventInfo, EventPriority};
use super::registry::{dispatch_emitted, dispatched, registered, ListenerRegistry};

verus! {

/// The state of an event system as a mathematical value.
pub struct EventSystemModel<M> {
    /// For each kind that has listeners, their models in registration order.
    pub listeners: Map<EventType, Seq<M>>,
    /// The events that wait for the next drain, oldest first.
    pub pending: Seq<Event>,
}

/// The system after `listener` has been registered for `kind`.
pub open spec fn listening<M>(
    system: EventSystemModel<M>,
    kind: EventType,
    listener: M,
) -> EventSystemModel<M> {
    EventSystemModel {
        listeners: registered(system.listeners, kind, listener),
        pending: system.pending,
    }
}

/// The system after `event` has been dispatched without passing through the
/// queue. The events that listeners submitted meanwhile have joined the end
/// of the queue.
pub open spec fn executed<L: EventListener>(
    system: EventSystemModel<L::Model>,
    event: Event,
) -> EventSystemModel<L::Model> {
    EventSystemModel {
        listeners: dispatched::<L>(system.listeners, event),
        pending: system.pending + dispatch_emitted::<L>(system.listeners, event),
    }
}

/// The system after `event` has been submitted with `priority`: a blocking
/// submission has been dispatched and is not in the queue, a queued one has
/// joined the end of the queue and has reached no listener.
pub open spec fn submitted<L: EventListener>(
    system: EventSystemModel<L::Model>,
    event: Event,
    priority: EventPriority,
) -> EventSystemModel<L::Model> {
    match priority {
        EventPriority::Queued => EventSystemModel {
            listeners: system.listeners,
            pending: system.pending.push(event),
        },
        EventPriority::Blocking => executed::<L>(system, event),
    }
}

/// The system after a drain: every event that waited has been dispatched,
/// oldest first. What waits now are the events that listeners submitted
/// during the drain, none of which the drain has delivered.
pub open spec fn updated<L: EventListener>(system: EventSystemModel<L::Model>) -> EventSystemModel<
    L::Model,
> {
    EventSystemModel {
        listeners: drained::<L>(system.listeners, system.pending),
        pending: drain_emitted::<L>(system.listeners, system.pending),
    }
}

/// Handles an application's events: takes submissions, keeps the listeners,
/// and delivers the deferred events when it is drained.
pub struct EventSystem<L: EventListener> {
    queue: DeliveryQueue,
    listeners: ListenerRegistry<L>,
}

impl<L: EventListener> View for EventSystem<L> {
    type V = EventSystemModel<L::Model>;

    closed spec fn view(&self) -> EventSystemModel<L::Model> {
        EventSystemModel { listeners: self.listeners@, pending: self.queue@ }
    }
}

impl<L: EventListener> EventSystem<L> {
    /// A system without listeners and without pending events.
    pub fn new() -> (system: Self)
        ensures
            system@.listeners == Map::<EventType, Seq<L::Model>>::empty(),
            system@.pending == Seq::<Event>::empty(),
    {
        EventSystem { queue: DeliveryQueue::new(), listeners: ListenerRegistry::new() }
    }

    /// Registers `listener` for the events of `kind`, behind the listeners
    /// that are already registered for it.
    pub fn register_listener(&mut self, kind: EventType, listener: L)
        ensures
            final(self)@ == listening(old(self)@, kind, listener.model()),
    {
        self.listeners.register(kind, listener);
    }

    /// Registers `listener` for the events of the kind `T`.
    pub fn add_listener<T: EventMarker>(&mut self, listener: Box<L>) -> (system: &mut Self)
        ensures
            system@ == listening(old(self)@, T::kind(), listener.model()),
            *final(self) == *final(system),
    {
        let kind = T::event_type();
        self.listeners.register(kind, *listener);
        self
    }

    /// The one way to the listeners: dispatches `event` and queues what the
    /// listeners submit meanwhile.
    fn dispatch_now(&mut self, event: &Event)
        ensures
            final(self)@ == executed::<L>(old(self)@, *event),
    {
        let mut outbox = Outbox::new();
        self.listeners.dispatch(event, &mut outbox);
        assert(outbox@ =~= dispatch_emitted::<L>(old(self)@.listeners, *event));
        self.queue.take_in(outbox);
    }

    /// Submits `event` with `priority`.
    pub fn submit(&mut self, event: Event, priority: EventPriority)
        ensures
            final(self)@ == submitted::<L>(old(self)@, event, priority),
    {
        match priority {
            EventPriority::Queued => {
                self.queue.enqueue(event);
            },
            EventPriority::Blocking => {
                self.dispatch_now(&event);
            },
        }
    }

    /// Submits the event of `event` with the priority of `event`.
    pub fn queue_event<T: EventMarker>(&mut self, event: EventInfo<T>)
        ensures
            final(self)@ == submitted::<L>(old(self)@, event.event(), event.priority()),
    {
        let (value, priority) = event.into_parts();
        self.submit(value, priority);
    }

    /// Dispatches the event of `event` at once, whatever its priority.
    pub fn execute<T: EventMarker>(&mut self, event: EventInfo<T>)
        ensures
            final(self)@ == executed::<L>(old(self)@, event.event()),
    {
        let (value, _) = event.into_parts();
        self.dispatch_now(&value);
    }

    /// Drains the queue: dispatches every pending event, oldest first. Events
    /// that listeners submit during the drain wait for the next one.
    pub fn update(&mut self)
        ensures
            final(self)@ == updated::<L>(old(self)@),
    {
        self.queue.drain(&mut self.listeners);
    }
}

} // verus!
