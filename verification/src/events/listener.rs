//! What a listener is to the engine: a state machine that is shown one event
//! at a time and says each time whether it has dealt with it.

use vstd::prelude::*;

use super::event::Event;

verus! {

/// A listener's answer to one event.
#[derive(Debug, PartialEq, Eq, Clone, Copy, Hash, Structural)]
pub enum EventEvaluateState {
    /// The listener has dealt with the event: no later listener sees it.
    Handled,
    /// The listener lets the event pass on to the next listener.
    Unhandled,
}

/// Where a listener puts the events that it submits while it is shown an
/// event. These events are submitted as queued: they join the delivery queue
/// when the dispatch that is under way is over, and are delivered at a later
/// drain. Events can only be added to an outbox.
pub struct Outbox {
    events: Vec<Event>,
}

impl View for Outbox {
    type V = Seq<Event>;

    closed spec fn view(&self) -> Seq<Event> {
        self.events@
    }
}

impl Outbox {
    /// An outbox without events.
    pub fn new() -> (outbox: Self)
        ensures
            outbox@ == Seq::<Event>::empty(),
    {
        Outbox { events: Vec::new() }
    }

    /// Submits `event`, behind the events that the outbox already holds.
    pub fn submit(&mut self, event: Event)
        ensures
            final(self)@ == old(self)@.push(event),
    {
        self.events.push(event);
    }

    /// The number of events in the outbox.
    pub fn len(&self) -> (n: usize)
        ensures
            n == self@.len(),
    {
        self.events.len()
    }

    /// The events of the outbox, in the order in which they were submitted.
    pub fn into_events(self) -> (events: Vec<Event>)
        ensures
            events@ == self@,
    {
        self.events
    }
}

/// An observer of events.
///
/// A listener may change its own state each time it is shown an event, and
/// may submit events of its own. The engine reasons about it through
/// `Model`, a mathematical value that stands for that state, and through
/// three functions of the model and the event: `verdict`, the answer the
/// listener gives; `next`, the model it is left with; and `emits`, the
/// events it submits. An implementation owes `invoke_event` to behave as the
/// three say.
pub trait EventListener {
    /// The mathematical value that stands for the listener's state.
    type Model;

    /// The model of this listener as it stands.
    spec fn model(&self) -> Self::Model;

    /// The answer a listener with this model gives to `event`.
    spec fn verdict(model: Self::Model, event: Event) -> EventEvaluateState;

    /// The model a listener is left with once it has been shown `event`.
    spec fn next(model: Self::Model, event: Event) -> Self::Model;

    /// The events a listener with this model submits when it is shown
    /// `event`, in the order in which it submits them. A listener that does
    /// not say otherwise submits none.
    open spec fn emits(model: Self::Model, event: Event) -> Seq<Event> {
        Seq::empty()
    }

    /// Shows `event` to the listener, which puts the events it submits into
    /// `outbox`.
    fn invoke_event(&mut self, event: &Event, outbox: &mut Outbox) -> (state: EventEvaluateState)
        ensures
            state == Self::verdict(old(self).model(), *event),
            final(self).model() == Self::next(old(self).model(), *event),
            final(outbox)@ == old(outbox)@ + Self::emits(old(self).model(), *event),
    ;
}

/// Whether `f` can be shown every event and answers each event in one way
/// only.
pub open spec fn answers_every_event<F: Fn(&Event) -> EventEvaluateState>(f: F) -> bool {
    &&& forall|event: Event| call_requires(f, (&event,))
    &&& forall|event: Event, first: EventEvaluateState, second: EventEvaluateState|
        call_ensures(f, (&event,), first) && call_ensures(f, (&event,), second) ==> first
            == second
}

/// The answer of `f` to `event`.
pub open spec fn answer_of<F: Fn(&Event) -> EventEvaluateState>(
    f: F,
    event: Event,
) -> EventEvaluateState {
    choose|state: EventEvaluateState| call_ensures(f, (&event,), state)
}

/// The answers of `f` to all events.
pub open spec fn answers<F: Fn(&Event) -> EventEvaluateState>(f: F) -> Map<
    Event,
    EventEvaluateState,
> {
    Map::total(|event: Event| answer_of(f, event))
}

/// A listener made of a function: it answers what the function answers,
/// keeps no state of its own, and submits nothing.
pub struct FuncEventListener<F: Fn(&Event) -> EventEvaluateState> {
    f: F,
}

impl<F: Fn(&Event) -> EventEvaluateState> FuncEventListener<F> {
    #[verifier::type_invariant]
    spec fn well_formed(&self) -> bool {
        answers_every_event(self.f)
    }

    /// The function that the listener is made of.
    pub closed spec fn func(&self) -> F {
        self.f
    }
}

impl<F: Fn(&Event) -> EventEvaluateState> EventListener for FuncEventListener<F> {
    /// The answer to each event.
    type Model = Map<Event, EventEvaluateState>;

    open spec fn model(&self) -> Map<Event, EventEvaluateState> {
        answers(self.func())
    }

    open spec fn verdict(model: Map<Event, EventEvaluateState>, event: Event) -> EventEvaluateState {
        model[event]
    }

    open spec fn next(model: Map<Event, EventEvaluateState>, event: Event) -> Map<
        Event,
        EventEvaluateState,
    > {
        model
    }

    fn invoke_event(&mut self, event: &Event, outbox: &mut Outbox) -> (state: EventEvaluateState) {
        proof {
            use_type_invariant(&*self);
        }
        (self.f)(event)
    }
}

/// Makes a listener of the function `f`.
pub fn listener_from_func<F: Fn(&Event) -> EventEvaluateState>(f: F) -> (listener:
    FuncEventListener<F>)
    requires
        answers_every_event(f),
    ensures
        listener.func() == f,
{
    FuncEventListener { f }
}

} // verus!
