//! The listener registry and the dispatch step that runs over it.

use std::collections::hash_map::Entry;
use std::collections::HashMap;
use vstd::prelude::*;

use super::event::{Event, EventType};
use super::listener::{EventEvaluateState, EventListener, Outbox};

verus! {

broadcast use vstd::std_specs::hash::group_hash_axioms;

/// The models of a sequence of listeners, in the same order.
pub open spec fn models<L: EventListener>(listeners: Seq<L>) -> Seq<L::Model> {
    listeners.map_values(|l: L| l.model())
}

/// How many listeners of `chain`, counted from the front, are shown `event`:
/// every listener up to and including the first whose verdict is `Handled`,
/// or all of them where none claims the event.
pub open spec fn reach<L: EventListener>(chain: Seq<L::Model>, event: Event) -> nat
    decreases chain.len(),
{
    if chain.len() == 0 {
        0
    } else if L::verdict(chain[0], event) == EventEvaluateState::Handled {
        1
    } else {
        1 + reach::<L>(chain.drop_first(), event)
    }
}

/// The chain after `event` has been delivered to it: the listeners that the
/// event reaches have moved on to their next model, the others are as they
/// were. The order of the chain does not change.
pub open spec fn delivered<L: EventListener>(chain: Seq<L::Model>, event: Event) -> Seq<L::Model> {
    Seq::new(
        chain.len(),
        |i: int|
            if i < reach::<L>(chain, event) {
                L::next(chain[i], event)
            } else {
                chain[i]
            },
    )
}

/// The events that the first `n` listeners of `chain` submit when they are
/// shown `event`, in the order of the listeners.
pub open spec fn emitted_by<L: EventListener>(chain: Seq<L::Model>, event: Event, n: nat) -> Seq<
    Event,
>
    decreases n,
{
    if n == 0 || n > chain.len() {
        Seq::empty()
    } else {
        emitted_by::<L>(chain, event, (n - 1) as nat) + L::emits(chain[n - 1], event)
    }
}

/// The events that the listeners of `chain` submit while `event` is
/// delivered to it: those of the listeners that the event reaches, in the
/// order of the listeners.
pub open spec fn emitted<L: EventListener>(chain: Seq<L::Model>, event: Event) -> Seq<Event> {
    emitted_by::<L>(chain, event, reach::<L>(chain, event))
}

/// The listeners registered for `kind`, in registration order; empty where
/// the registry holds no sequence for the kind.
pub open spec fn chain_of<M>(registry: Map<EventType, Seq<M>>, kind: EventType) -> Seq<M> {
    if registry.contains_key(kind) {
        registry[kind]
    } else {
        Seq::empty()
    }
}

/// The registry after one more listener has been registered for `kind`: the
/// listener stands at the end of the kind's sequence, which is created if the
/// registry had none.
pub open spec fn registered<M>(
    registry: Map<EventType, Seq<M>>,
    kind: EventType,
    listener: M,
) -> Map<EventType, Seq<M>> {
    registry.insert(kind, chain_of(registry, kind).push(listener))
}

/// The registry after `event` has been dispatched: the sequence of the
/// event's kind has had the event delivered, every other sequence is as it
/// was. Where the kind has no sequence, nothing changes.
pub open spec fn dispatched<L: EventListener>(
    registry: Map<EventType, Seq<L::Model>>,
    event: Event,
) -> Map<EventType, Seq<L::Model>> {
    if registry.contains_key(event.kind()) {
        registry.insert(event.kind(), delivered::<L>(registry[event.kind()], event))
    } else {
        registry
    }
}

/// The events that are submitted while `event` is dispatched: those that the
/// listeners of the event's kind submit.
pub open spec fn dispatch_emitted<L: EventListener>(
    registry: Map<EventType, Seq<L::Model>>,
    event: Event,
) -> Seq<Event> {
    emitted::<L>(chain_of(registry, event.kind()), event)
}

/// Where no listener among the first `n` claims the event, the event reaches
/// the `n`th listener exactly if it reaches that listener in the chain that
/// starts there.
pub proof fn lemma_reach_skip<L: EventListener>(chain: Seq<L::Model>, event: Event, n: int)
    requires
        0 <= n <= chain.len(),
        forall|j: int|
            0 <= j < n ==> L::verdict(#[trigger] chain[j], event) == EventEvaluateState::Unhandled,
    ensures
        reach::<L>(chain, event) == n + reach::<L>(chain.skip(n), event),
    decreases n,
{
    if n == 0 {
        assert(chain.skip(0) =~= chain);
    } else {
        lemma_reach_skip::<L>(chain.drop_first(), event, n - 1);
        assert(chain.drop_first().skip(n - 1) =~= chain.skip(n));
    }
}

/// For each event kind, the listeners registered for it, in the order in
/// which they were registered.
pub struct ListenerRegistry<L: EventListener> {
    listeners: HashMap<u8, Vec<L>>,
}

impl<L: EventListener> View for ListenerRegistry<L> {
    type V = Map<EventType, Seq<L::Model>>;

    closed spec fn view(&self) -> Map<EventType, Seq<L::Model>> {
        Map::new(
            |kind: EventType| self.listeners@.contains_key(kind.index()),
            |kind: EventType| models(self.listeners@[kind.index()]@),
        )
    }
}

/// Delivers `event` to `chain`: shows it to the listeners in order and stops
/// after the first that answers `Handled`. What the listeners submit
/// meanwhile is added to `outbox`.
pub fn deliver<L: EventListener>(chain: &mut Vec<L>, event: &Event, outbox: &mut Outbox)
    ensures
        models(final(chain)@) == delivered::<L>(models(old(chain)@), *event),
        final(outbox)@ == old(outbox)@ + emitted::<L>(models(old(chain)@), *event),
{
    let ghost before = models(chain@);
    let n = chain.len();
    let mut i: usize = 0;
    assert(outbox@ =~= old(outbox)@ + emitted_by::<L>(before, *event, 0));
    while i < n
        invariant_except_break
            forall|j: int|
                0 <= j < i ==> L::verdict(#[trigger] before[j], *event)
                    == EventEvaluateState::Unhandled,
        invariant
            i <= n,
            chain.len() == n,
            before.len() == n,
            forall|j: int| 0 <= j < i ==> (#[trigger] chain@[j]).model() == L::next(before[j], *event),
            forall|j: int| i <= j < n ==> (#[trigger] chain@[j]).model() == before[j],
            outbox@ == old(outbox)@ + emitted_by::<L>(before, *event, i as nat),
        ensures
            reach::<L>(before, *event) == i || (i == n && forall|j: int|
                0 <= j < n ==> L::verdict(#[trigger] before[j], *event)
                    == EventEvaluateState::Unhandled),
        decreases n - i,
    {
        let state = chain[i].invoke_event(event, outbox);
        i += 1;
        assert(outbox@ =~= old(outbox)@ + emitted_by::<L>(before, *event, i as nat));
        match state {
            EventEvaluateState::Handled => {
                proof {
                    lemma_reach_skip::<L>(before, *event, i - 1);
                    assert(before.skip(i - 1)[0] == before[i - 1]);
                }
                break ;
            },
            EventEvaluateState::Unhandled => {},
        }
    }
    proof {
        if reach::<L>(before, *event) != i {
            lemma_reach_skip::<L>(before, *event, n as int);
        }
        assert(models(chain@) =~= delivered::<L>(before, *event));
    }
}

impl<L: EventListener> ListenerRegistry<L> {
    /// A registry without listeners.
    pub fn new() -> (registry: Self)
        ensures
            registry@ == Map::<EventType, Seq<L::Model>>::empty(),
    {
        let registry = ListenerRegistry { listeners: HashMap::new() };
        assert(registry@ =~= Map::<EventType, Seq<L::Model>>::empty());
        registry
    }

    /// Appends `listener` to the listeners of `kind`.
    pub fn register(&mut self, kind: EventType, listener: L)
        ensures
            final(self)@ == registered(old(self)@, kind, listener.model()),
    {
        let key = kind.number();
        let chain = self.listeners.entry(key).or_insert(Vec::new());
        let ghost before = chain@;
        chain.push(listener);
        proof {
            assert forall|k: EventType| k.index() == key implies k == kind by {
                EventType::lemma_index_injective(k, kind);
            }
            assert(models(before.push(listener)) =~= models(before).push(listener.model()));
            assert(models(before) =~= chain_of(old(self)@, kind));
            assert(self.listeners@.contains_key(key));
            assert(self.listeners@[key]@ == before.push(listener));
            let after = registered(old(self)@, kind, listener.model());
            assert(after[kind] == chain_of(old(self)@, kind).push(listener.model()));
            assert forall|k: EventType| self@.contains_key(k) implies self@[k] == after[k] by {
                if k != kind {
                    assert(k.index() != key);
                }
            }
            assert(self@ =~= after);
        }
    }

    /// Dispatches `event`: delivers it to the listeners of its kind. Where
    /// none is registered for the kind, nothing happens. What the listeners
    /// submit meanwhile is added to `outbox`.
    pub fn dispatch(&mut self, event: &Event, outbox: &mut Outbox)
        ensures
            final(self)@ == dispatched::<L>(old(self)@, *event),
            final(outbox)@ == old(outbox)@ + dispatch_emitted::<L>(old(self)@, *event),
    {
        let kind = event.as_type();
        let key = kind.number();
        match self.listeners.entry(key) {
            Entry::Occupied(entry) => {
                let chain = entry.into_mut();
                deliver(chain, event, outbox);
            },
            Entry::Vacant(_) => {
                assert(outbox@ =~= old(outbox)@ + Seq::<Event>::empty());
            },
        }
        proof {
            assert forall|k: EventType| k.index() == key implies k == kind by {
                EventType::lemma_index_injective(k, kind);
            }
            assert(self@ =~= dispatched::<L>(old(self)@, *event));
        }
    }
}

} // verus!
