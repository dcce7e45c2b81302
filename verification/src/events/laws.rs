//! What holds of the engine as a whole, proved from the models that the
//! contracts of the registry, the queue and the event system are stated in.

use vstd::prelude::*;

use super::event::{Event, EventType};
use super::listener::{EventEvaluateState, EventListener};
use super::queue::{drain_emitted, drained, EventPriority};
use super::registry::{
    chain_of, delivered, dispatch_emitted, dispatched, emitted_by, lemma_reach_skip, reach,
};
use super::system::{submitted, updated, EventSystemModel};

verus! {

/// Kind isolation. Dispatching an event touches the listeners of the event's
/// kind and no others: the listeners of every other kind are exactly as they
/// were, and no sequence appears or disappears.
pub proof fn law_kind_isolation<L: EventListener>(
    registry: Map<EventType, Seq<L::Model>>,
    event: Event,
    kind: EventType,
)
    requires
        kind != event.kind(),
    ensures
        chain_of(dispatched::<L>(registry, event), kind) == chain_of(registry, kind),
        dispatched::<L>(registry, event).dom() == registry.dom(),
{
    assert(dispatched::<L>(registry, event).dom() =~= registry.dom());
}

/// Kind isolation across a drain. A drain leaves the listeners of `kind` as
/// they were unless an event of that kind was waiting.
pub proof fn law_kind_isolation_drain<L: EventListener>(
    registry: Map<EventType, Seq<L::Model>>,
    queue: Seq<Event>,
    kind: EventType,
)
    requires
        forall|i: int| 0 <= i < queue.len() ==> (#[trigger] queue[i]).kind() != kind,
    ensures
        chain_of(drained::<L>(registry, queue), kind) == chain_of(registry, kind),
    decreases queue.len(),
{
    if queue.len() > 0 {
        law_kind_isolation::<L>(registry, queue[0], kind);
        assert forall|i: int| 0 <= i < queue.drop_first().len() implies (
        #[trigger] queue.drop_first()[i]).kind() != kind by {
            assert(queue.drop_first()[i] == queue[i + 1]);
        }
        law_kind_isolation_drain::<L>(
            dispatched::<L>(registry, queue[0]),
            queue.drop_first(),
            kind,
        );
    }
}

/// Short-circuit. Where the listener at position `first` is the first of the
/// chain to answer `Handled`, the event reaches the listeners up to and
/// including that one, each of which moves on to its next model, and no
/// listener behind it.
pub proof fn law_short_circuit<L: EventListener>(chain: Seq<L::Model>, event: Event, first: int)
    requires
        0 <= first < chain.len(),
        L::verdict(chain[first], event) == EventEvaluateState::Handled,
        forall|j: int|
            0 <= j < first ==> L::verdict(#[trigger] chain[j], event)
                == EventEvaluateState::Unhandled,
    ensures
        reach::<L>(chain, event) == first + 1,
        delivered::<L>(chain, event).len() == chain.len(),
        forall|j: int|
            0 <= j <= first ==> #[trigger] delivered::<L>(chain, event)[j] == L::next(
                chain[j],
                event,
            ),
        forall|j: int|
            first < j < chain.len() ==> #[trigger] delivered::<L>(chain, event)[j] == chain[j],
{
    lemma_reach_skip::<L>(chain, event, first);
    assert(chain.skip(first)[0] == chain[first]);
}

/// Where no listener of the chain answers `Handled`, the event reaches every
/// listener of the chain.
pub proof fn law_unclaimed_reaches_all<L: EventListener>(chain: Seq<L::Model>, event: Event)
    requires
        forall|j: int|
            0 <= j < chain.len() ==> L::verdict(#[trigger] chain[j], event)
                == EventEvaluateState::Unhandled,
    ensures
        reach::<L>(chain, event) == chain.len(),
        delivered::<L>(chain, event).len() == chain.len(),
        forall|j: int|
            0 <= j < chain.len() ==> #[trigger] delivered::<L>(chain, event)[j] == L::next(
                chain[j],
                event,
            ),
{
    lemma_reach_skip::<L>(chain, event, chain.len() as int);
    assert(chain.skip(chain.len() as int).len() == 0);
}

/// Blocking immediacy. A blocking submission has reached the listeners of
/// its kind by the time it returns, and the event is not in the queue for a
/// later drain to deliver again: the queue has grown by nothing but what the
/// listeners themselves submitted.
pub proof fn law_blocking_immediacy<L: EventListener>(
    system: EventSystemModel<L::Model>,
    event: Event,
)
    ensures
        submitted::<L>(system, event, EventPriority::Blocking).listeners == dispatched::<L>(
            system.listeners,
            event,
        ),
        submitted::<L>(system, event, EventPriority::Blocking).pending == system.pending
            + dispatch_emitted::<L>(system.listeners, event),
{
}

/// Draining a queue with one more event at its end is draining the queue and
/// then dispatching that event.
pub proof fn lemma_drained_push<L: EventListener>(
    registry: Map<EventType, Seq<L::Model>>,
    queue: Seq<Event>,
    event: Event,
)
    ensures
        drained::<L>(registry, queue.push(event)) == dispatched::<L>(
            drained::<L>(registry, queue),
            event,
        ),
        drain_emitted::<L>(registry, queue.push(event)) == drain_emitted::<L>(registry, queue)
            + dispatch_emitted::<L>(drained::<L>(registry, queue), event),
    decreases queue.len(),
{
    if queue.len() == 0 {
        assert(queue.push(event).drop_first() =~= queue);
        assert(drained::<L>(dispatched::<L>(registry, event), queue) == dispatched::<L>(
            registry,
            event,
        ));
        assert(queue.push(event)[0] == event);
        assert(drain_emitted::<L>(dispatched::<L>(registry, event), queue) =~= Seq::<
            Event,
        >::empty());
        assert(drain_emitted::<L>(registry, queue.push(event)) =~= dispatch_emitted::<L>(
            registry,
            event,
        ));
        assert(drain_emitted::<L>(registry, queue) + dispatch_emitted::<L>(registry, event)
            =~= dispatch_emitted::<L>(registry, event));
    } else {
        let next = dispatched::<L>(registry, queue[0]);
        assert(queue.push(event).drop_first() =~= queue.drop_first().push(event));
        lemma_drained_push::<L>(next, queue.drop_first(), event);
        assert(drain_emitted::<L>(registry, queue.push(event)) =~= drain_emitted::<L>(
            registry,
            queue,
        ) + dispatch_emitted::<L>(drained::<L>(registry, queue), event));
    }
}

/// Queued deferral. A queued submission reaches no listener when it is made.
/// The next drain delivers it, once and behind the events that waited before
/// it. That drain delivers the events that waited when it began and no
/// others: what listeners submit during the drain is what waits after it.
pub proof fn law_queued_deferral<L: EventListener>(
    system: EventSystemModel<L::Model>,
    event: Event,
)
    ensures
        submitted::<L>(system, event, EventPriority::Queued).listeners == system.listeners,
        submitted::<L>(system, event, EventPriority::Queued).pending == system.pending.push(event),
        updated::<L>(submitted::<L>(system, event, EventPriority::Queued)).listeners
            == dispatched::<L>(updated::<L>(system).listeners, event),
        updated::<L>(submitted::<L>(system, event, EventPriority::Queued)).pending == updated::<L>(
            system,
        ).pending + dispatch_emitted::<L>(updated::<L>(system).listeners, event),
{
    lemma_drained_push::<L>(system.listeners, system.pending, event);
}

/// A drain with nothing in the queue changes nothing.
pub proof fn law_idle_drain<L: EventListener>(system: EventSystemModel<L::Model>)
    requires
        system.pending.len() == 0,
    ensures
        updated::<L>(system) == system,
{
    assert(system.pending =~= Seq::<Event>::empty());
}

/// Listeners that submit nothing leave nothing behind.
pub proof fn lemma_silent_chain<L: EventListener>(chain: Seq<L::Model>, event: Event, n: nat)
    requires
        forall|model: L::Model, shown: Event| #[trigger] L::emits(model, shown).len() == 0,
    ensures
        emitted_by::<L>(chain, event, n).len() == 0,
    decreases n,
{
    if n != 0 && n <= chain.len() {
        lemma_silent_chain::<L>(chain, event, (n - 1) as nat);
    }
}

/// Where no listener ever submits an event, a drain leaves the queue empty.
pub proof fn law_silent_listeners_empty_queue<L: EventListener>(
    registry: Map<EventType, Seq<L::Model>>,
    queue: Seq<Event>,
)
    requires
        forall|model: L::Model, shown: Event| #[trigger] L::emits(model, shown).len() == 0,
    ensures
        drain_emitted::<L>(registry, queue).len() == 0,
    decreases queue.len(),
{
    if queue.len() > 0 {
        let chain = chain_of(registry, queue[0].kind());
        lemma_silent_chain::<L>(chain, queue[0], reach::<L>(chain, queue[0]));
        law_silent_listeners_empty_queue::<L>(
            dispatched::<L>(registry, queue[0]),
            queue.drop_first(),
        );
    }
}

/// First in, first out. Of two events queued one after the other, the drain
/// delivers the first before the second.
pub proof fn law_fifo<L: EventListener>(
    system: EventSystemModel<L::Model>,
    first: Event,
    second: Event,
)
    ensures
        updated::<L>(
            submitted::<L>(
                submitted::<L>(system, first, EventPriority::Queued),
                second,
                EventPriority::Queued,
            ),
        ).listeners == dispatched::<L>(
            dispatched::<L>(updated::<L>(system).listeners, first),
            second,
        ),
{
    lemma_drained_push::<L>(system.listeners, system.pending, first);
    lemma_drained_push::<L>(system.listeners, system.pending.push(first), second);
}

/// No listener, no effect. Dispatching an event of a kind for which no
/// listener is registered changes nothing and submits nothing, whether the
/// registry holds no sequence for the kind or an empty one.
pub proof fn law_no_listener_no_effect<L: EventListener>(
    registry: Map<EventType, Seq<L::Model>>,
    event: Event,
)
    requires
        chain_of(registry, event.kind()).len() == 0,
    ensures
        dispatched::<L>(registry, event) == registry,
        dispatch_emitted::<L>(registry, event) == Seq::<Event>::empty(),
{
    if registry.contains_key(event.kind()) {
        assert(delivered::<L>(registry[event.kind()], event) =~= registry[event.kind()]);
        assert(dispatched::<L>(registry, event) =~= registry);
    }
}

/// A blocking submission of an event of a kind without listeners leaves the
/// whole system as it was.
pub proof fn law_no_listener_no_effect_blocking<L: EventListener>(
    system: EventSystemModel<L::Model>,
    event: Event,
)
    requires
        chain_of(system.listeners, event.kind()).len() == 0,
    ensures
        submitted::<L>(system, event, EventPriority::Blocking) == system,
{
    law_no_listener_no_effect::<L>(system.listeners, event);
    assert(system.pending + Seq::<Event>::empty() =~= system.pending);
}

} // verus!
