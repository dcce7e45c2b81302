//! Named input actions: an action is bound to one or more keys, and asking
//! for an action answers with the state that prevails among its keys.

use std::collections::HashMap;
use vstd::prelude::*;

use crate::events::event::Event;
use crate::events::keyboard::{KeyState, Keycode};
use crate::events::listener::{EventEvaluateState, EventListener, Outbox};

verus! {

broadcast use vstd::std_specs::hash::group_hash_axioms;

/// Names an action of an input system: the position at which it was
/// registered.
#[derive(Copy, Clone, Debug)]
pub struct ActionId(usize);

/// Names a binding: its position among the bindings of its action, and the
/// action.
#[derive(Copy, Clone, Debug)]
pub struct BindingId(usize, ActionId);

impl ActionId {
    /// The position at which the action was registered.
    pub closed spec fn index(self) -> nat {
        self.0 as nat
    }
}

impl BindingId {
    /// The position of the binding among the bindings of its action.
    pub closed spec fn index(self) -> nat {
        self.0 as nat
    }

    /// The action that the binding belongs to.
    pub closed spec fn action(self) -> ActionId {
        self.1
    }
}

struct Binding {
    id: BindingId,
    key: Keycode,
}

struct Action {
    id: ActionId,
    bindings: Vec<Binding>,
}

/// The state of an input system as a mathematical value.
pub struct InputSystemModel {
    /// For each action, in registration order, the keys bound to it, in
    /// binding order. A key may be bound more than once.
    pub bindings: Seq<Seq<Keycode>>,
    /// The name each action was registered under.
    pub names: Seq<Seq<char>>,
    /// The last state seen of each key that some action is bound to.
    pub states: Map<Keycode, KeyState>,
}

impl InputSystemModel {
    /// Whether the model is one of an input system: every action has a name,
    /// and a state is kept for every key that is bound.
    pub open spec fn wf(self) -> bool {
        &&& self.names.len() == self.bindings.len()
        &&& forall|i: int, j: int|
            0 <= i < self.bindings.len() && 0 <= j < self.bindings[i].len()
                ==> self.states.contains_key(#[trigger] self.bindings[i][j])
    }
}

/// The state that prevails among `states`: `Repeat` if any key repeats,
/// else `Down` if any key is down, else `Up`.
pub open spec fn prevailing(states: Seq<KeyState>) -> KeyState {
    if states.contains(KeyState::Repeat) {
        KeyState::Repeat
    } else if states.contains(KeyState::Down) {
        KeyState::Down
    } else {
        KeyState::Up
    }
}

/// The state that prevails between two.
pub open spec fn stronger(a: KeyState, b: KeyState) -> KeyState {
    match a {
        KeyState::Repeat => KeyState::Repeat,
        KeyState::Down => match b {
            KeyState::Up => KeyState::Down,
            _ => b,
        },
        KeyState::Up => b,
    }
}

/// One more state at the end of a sequence prevails over what prevailed
/// before it, or gives way to it.
pub proof fn lemma_prevailing_push(states: Seq<KeyState>, seen: KeyState)
    ensures
        prevailing(states.push(seen)) == stronger(prevailing(states), seen),
{
    let longer = states.push(seen);
    assert forall|s: KeyState| longer.contains(s) <==> (states.contains(s) || s == seen) by {
        if longer.contains(s) {
            let k = choose|k: int| 0 <= k < longer.len() && longer[k] == s;
            if k < states.len() {
                assert(states[k] == s);
            }
        }
        if states.contains(s) {
            let k = choose|k: int| 0 <= k < states.len() && states[k] == s;
            assert(longer[k] == s);
        }
        if s == seen {
            assert(longer[states.len() as int] == s);
        }
    }
}

/// The states of `keys` in `states`, in the order of `keys`.
pub open spec fn states_of(states: Map<Keycode, KeyState>, keys: Seq<Keycode>) -> Seq<KeyState> {
    keys.map_values(|key: Keycode| states[key])
}

/// An event leaves a model of an input system one.
pub proof fn lemma_observed_wf(model: InputSystemModel, event: Event)
    requires
        model.wf(),
    ensures
        observed(model, event).wf(),
{
}

/// The model once a keyboard event has been seen: a key that some action is
/// bound to takes the state that the event reports. Every other event, and
/// an event of a key that nothing is bound to, leaves the model as it was.
pub open spec fn observed(model: InputSystemModel, event: Event) -> InputSystemModel {
    match event {
        Event::KeyboardEvent(key, state) => if model.states.contains_key(key) {
            InputSystemModel {
                bindings: model.bindings,
                names: model.names,
                states: model.states.insert(key, state),
            }
        } else {
            model
        },
        _ => model,
    }
}

/// Keeps the actions of an application, the keys they are bound to, and the
/// last state seen of each of these keys.
pub struct InputSystem {
    actions: Vec<Action>,
    names: Vec<&'static str>,
    listening_for: HashMap<u32, KeyState>,
}

/// The keys of a sequence of bindings, in the same order.
spec fn keys_of(bindings: Seq<Binding>) -> Seq<Keycode> {
    bindings.map_values(|binding: Binding| binding.key)
}

/// A map over key positions read as a map over the keys at these positions.
spec fn key_states(by_position: Map<u32, KeyState>) -> Map<Keycode, KeyState> {
    Map::new(
        |key: Keycode| by_position.contains_key(key.index()),
        |key: Keycode| by_position[key.index()],
    )
}

/// An entry at the position of a key is an entry at the key.
proof fn lemma_key_states_insert(by_position: Map<u32, KeyState>, key: Keycode, state: KeyState)
    ensures
        key_states(by_position.insert(key.index(), state)) == key_states(by_position).insert(
            key,
            state,
        ),
{
    assert forall|other: Keycode| other.index() == key.index() implies other == key by {
        Keycode::lemma_index_injective(other, key);
    }
    assert(key_states(by_position.insert(key.index(), state)) =~= key_states(by_position).insert(
        key,
        state,
    ));
}

impl View for InputSystem {
    type V = InputSystemModel;

    closed spec fn view(&self) -> InputSystemModel {
        InputSystemModel {
            bindings: self.actions@.map_values(|action: Action| keys_of(action.bindings@)),
            names: self.names@.map_values(|name: &'static str| name@),
            states: key_states(self.listening_for@),
        }
    }
}

impl InputSystem {
    /// An input system without actions.
    pub fn build() -> (input: InputSystem)
        ensures
            input@.wf(),
            input@.bindings == Seq::<Seq<Keycode>>::empty(),
            input@.names == Seq::<Seq<char>>::empty(),
            input@.states == Map::<Keycode, KeyState>::empty(),
    {
        let input = InputSystem {
            actions: Vec::new(),
            names: Vec::new(),
            listening_for: HashMap::new(),
        };
        assert(input@.bindings =~= Seq::<Seq<Keycode>>::empty());
        assert(input@.names =~= Seq::<Seq<char>>::empty());
        assert(input@.states =~= Map::<Keycode, KeyState>::empty());
        input
    }

    /// Registers a new action under `name`; it has no bindings yet.
    pub fn register(&mut self, name: &'static str) -> (id: ActionId)
        requires
            old(self)@.wf(),
        ensures
            final(self)@.wf(),
            id.index() == old(self)@.bindings.len(),
            final(self)@.bindings == old(self)@.bindings.push(Seq::<Keycode>::empty()),
            final(self)@.names == old(self)@.names.push(name@),
            final(self)@.states == old(self)@.states,
    {
        let id = ActionId(self.actions.len());
        let action = Action { id, bindings: Vec::new() };
        self.actions.push(action);
        self.names.push(name);
        proof {
            assert(keys_of(action.bindings@) =~= Seq::<Keycode>::empty());
            assert(self@.bindings =~= old(self)@.bindings.push(Seq::<Keycode>::empty()));
            assert(self@.names =~= old(self)@.names.push(name@));
        }
        id
    }

    /// Binds `key` to the action `action_id`, behind the keys already bound
    /// to it. The key is taken to be up from now on, also where it was
    /// already bound and seen in another state.
    pub fn bind(&mut self, action_id: ActionId, key: Keycode) -> (id: BindingId)
        requires
            old(self)@.wf(),
            action_id.index() < old(self)@.bindings.len(),
        ensures
            final(self)@.wf(),
            id.action() == action_id,
            id.index() == old(self)@.bindings[action_id.index() as int].len(),
            final(self)@.bindings == old(self)@.bindings.update(
                action_id.index() as int,
                old(self)@.bindings[action_id.index() as int].push(key),
            ),
            final(self)@.names == old(self)@.names,
            final(self)@.states == old(self)@.states.insert(key, KeyState::Up),
    {
        self.listening_for.insert(key.number(), KeyState::Up);
        let input_action = &mut self.actions[action_id.0];
        let id = BindingId(input_action.bindings.len(), action_id);
        let binding = Binding { id, key };
        input_action.bindings.push(binding);
        proof {
            lemma_key_states_insert(old(self).listening_for@, key, KeyState::Up);
            let at = action_id.index() as int;
            assert(self.actions@[at].bindings@ == old(self).actions@[at].bindings@.push(binding));
            assert(keys_of(self.actions@[at].bindings@) =~= keys_of(
                old(self).actions@[at].bindings@,
            ).push(key));
            assert(self@.bindings =~= old(self)@.bindings.update(
                at,
                old(self)@.bindings[at].push(key),
            ));
        }
        id
    }

    /// Whether `action_id` names an action of this system, so that a key can
    /// be bound to it.
    pub fn can_bind(&self, action_id: ActionId) -> (known: bool)
        ensures
            known <==> action_id.index() < self@.bindings.len(),
    {
        action_id.0 < self.actions.len()
    }

    /// Whether `action` names an action of this system that has a key bound
    /// to it, so that it can be queried.
    pub fn can_query(&self, action: ActionId) -> (bound: bool)
        ensures
            bound <==> action.index() < self@.bindings.len() && self@.bindings[action.index() as int].len()
                > 0,
    {
        action.0 < self.actions.len() && self.actions[action.0].bindings.len() > 0
    }

    /// The state of the action `action`: the state that prevails among the
    /// keys bound to it.
    pub fn query(&self, action: ActionId) -> (state: KeyState)
        requires
            self@.wf(),
            action.index() < self@.bindings.len(),
            self@.bindings[action.index() as int].len() > 0,
        ensures
            state == prevailing(states_of(self@.states, self@.bindings[action.index() as int])),
    {
        let bindings = &self.actions[action.0].bindings;
        let ghost keys = self@.bindings[action.index() as int];
        let ghost states = states_of(self@.states, keys);
        let mut state = KeyState::Up;
        let mut i: usize = 0;
        while i < bindings.len()
            invariant
                i <= bindings.len(),
                bindings == &self.actions@[action.0 as int].bindings,
                action.0 < self.actions@.len(),
                keys == self@.bindings[action.index() as int],
                keys.len() == bindings@.len(),
                states == states_of(self@.states, keys),
                self@.wf(),
                forall|j: int| 0 <= j < keys.len() ==> keys[j] == (#[trigger] bindings@[j]).key,
                state == prevailing(states.take(i as int)),
            decreases bindings.len() - i,
        {
            let seen = *self.listening_for.get(&bindings[i].key.number()).unwrap();
            proof {
                assert(seen == states[i as int]);
                assert(states.take(i + 1) =~= states.take(i as int).push(seen));
                lemma_prevailing_push(states.take(i as int), seen);
            }
            state =
            match state {
                KeyState::Repeat => KeyState::Repeat,
                KeyState::Down => match seen {
                    KeyState::Up => KeyState::Down,
                    _ => seen,
                },
                KeyState::Up => seen,
            };
            i += 1;
        }
        assert(states.take(i as int) =~= states);
        state
    }
}

impl EventListener for InputSystem {
    type Model = InputSystemModel;

    open spec fn model(&self) -> InputSystemModel {
        self@
    }

    open spec fn verdict(model: InputSystemModel, event: Event) -> EventEvaluateState {
        EventEvaluateState::Unhandled
    }

    open spec fn next(model: InputSystemModel, event: Event) -> InputSystemModel {
        observed(model, event)
    }

    /// Takes note of a keyboard event, lets every event pass on, and submits
    /// nothing.
    fn invoke_event(&mut self, event: &Event, outbox: &mut Outbox) -> (state: EventEvaluateState) {
        match event {
            Event::KeyboardEvent(keycode, keystate) => {
                let number = keycode.number();
                if self.listening_for.contains_key(&number) {
                    self.listening_for.insert(number, *keystate);
                }
                proof {
                    lemma_key_states_insert(old(self).listening_for@, *keycode, *keystate);
                }
            },
            _ => {},
        }
        EventEvaluateState::Unhandled
    }
}

/// What can be asked of an input system, whoever holds it.
pub trait InputSystemMarker {
    /// The input system behind this handle.
    spec fn input(&self) -> InputSystemModel;

    /// Registers a new action under `name`; it has no bindings yet.
    fn register(&mut self, name: &'static str) -> (id: ActionId)
        requires
            old(self).input().wf(),
        ensures
            final(self).input().wf(),
            id.index() == old(self).input().bindings.len(),
            final(self).input().bindings == old(self).input().bindings.push(
                Seq::<Keycode>::empty(),
            ),
            final(self).input().names == old(self).input().names.push(name@),
            final(self).input().states == old(self).input().states,
    ;

    /// Binds `key` to the action `action_id`; the key is taken to be up.
    fn bind(&mut self, action_id: ActionId, key: Keycode) -> (id: BindingId)
        requires
            old(self).input().wf(),
            action_id.index() < old(self).input().bindings.len(),
        ensures
            final(self).input().wf(),
            id.action() == action_id,
            id.index() == old(self).input().bindings[action_id.index() as int].len(),
            final(self).input().bindings == old(self).input().bindings.update(
                action_id.index() as int,
                old(self).input().bindings[action_id.index() as int].push(key),
            ),
            final(self).input().names == old(self).input().names,
            final(self).input().states == old(self).input().states.insert(key, KeyState::Up),
    ;

    /// The state that prevails among the keys bound to `action`.
    fn query(&self, action: ActionId) -> (state: KeyState)
        requires
            self.input().wf(),
            action.index() < self.input().bindings.len(),
            self.input().bindings[action.index() as int].len() > 0,
        ensures
            state == prevailing(
                states_of(self.input().states, self.input().bindings[action.index() as int]),
            ),
    ;
}

impl InputSystemMarker for InputSystem {
    open spec fn input(&self) -> InputSystemModel {
        self@
    }

    fn register(&mut self, name: &'static str) -> (id: ActionId) {
        InputSystem::register(self, name)
    }

    fn bind(&mut self, action_id: ActionId, key: Keycode) -> (id: BindingId) {
        InputSystem::bind(self, action_id, key)
    }

    fn query(&self, action: ActionId) -> (state: KeyState) {
        InputSystem::query(self, action)
    }
}

} // verus!
