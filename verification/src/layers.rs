//! Layers: the units an application is composed of.

use vstd::prelude::*;

use crate::events::listener::EventListener;
use crate::events::system::{EventSystem, EventSystemModel};

verus! {

/// A layer of an application: a system of its own that the application
/// starts, runs once per frame, and shuts down.
///
/// Like a listener, a layer is known to the engine through a mathematical
/// model of its state and through functions that name what each of its three
/// operations does to that model. Starting a layer may also change the event
/// system, for instance by registering a listener.
pub trait Layer<L: EventListener> {
    /// The mathematical value that stands for the layer's state.
    type Model;

    /// The model of this layer as it stands.
    spec fn model(&self) -> Self::Model;

    /// The layer and the event system once the layer has been started.
    spec fn initialised(model: Self::Model, events: EventSystemModel<L::Model>) -> (
        Self::Model,
        EventSystemModel<L::Model>,
    );

    /// The layer once it has run for one frame.
    spec fn updated(model: Self::Model) -> Self::Model;

    /// The layer once it has been shut down.
    spec fn closed(model: Self::Model) -> Self::Model;

    /// Starts the layer; called when the layer is added to an application.
    fn init(&mut self, events: &mut EventSystem<L>)
        ensures
            (final(self).model(), final(events)@) == Self::initialised(
                old(self).model(),
                old(events)@,
            ),
    ;

    /// Runs the layer for one frame.
    fn update(&mut self)
        ensures
            final(self).model() == Self::updated(old(self).model()),
    ;

    /// Shuts the layer down; called when the application closes.
    fn close(&mut self)
        ensures
            final(self).model() == Self::closed(old(self).model()),
    ;
}

} // verus!
