//! The state of an application as a mathematical value, and what each
//! operation of the application does to it.

use vstd::prelude::*;

use crate::events::event::Event;
use crate::events::listener::EventListener;
use crate::events::queue::EventPriority;
use crate::events::system::{submitted, updated, EventSystemModel};
use crate::initialization::WindowData;
use crate::layers::Layer;
use crate::signals::{window_submission, WindowSignal};

verus! {

/// The state of an application as a mathematical value.
pub struct AppModel<LM, YM> {
    /// What the window is to look like.
    pub window_data: WindowData,
    /// The event system.
    pub events: EventSystemModel<LM>,
    /// The number of frames so far; it starts over after `u64::MAX`.
    pub frame_num: u64,
    /// The models of the layers, in the order in which they were added.
    pub layers: Seq<YM>,
}

/// The application as it is before anything has been added to it.
pub open spec fn fresh<LM, YM>(window_data: WindowData) -> AppModel<LM, YM> {
    AppModel {
        window_data,
        events: EventSystemModel { listeners: Map::empty(), pending: Seq::empty() },
        frame_num: 0,
        layers: Seq::empty(),
    }
}

/// The application after `layer` has been started and added behind the
/// layers it already has.
pub open spec fn with_layer<L: EventListener, Y: Layer<L>>(
    app: AppModel<L::Model, Y::Model>,
    layer: Y::Model,
) -> AppModel<L::Model, Y::Model> {
    let (started, events) = Y::initialised(layer, app.events);
    AppModel {
        window_data: app.window_data,
        events,
        frame_num: app.frame_num,
        layers: app.layers.push(started),
    }
}

/// The application after `submission` has been made, if there is one.
pub open spec fn after_submission<L: EventListener, Y: Layer<L>>(
    app: AppModel<L::Model, Y::Model>,
    submission: Option<(Event, EventPriority)>,
) -> AppModel<L::Model, Y::Model> {
    match submission {
        Some((event, priority)) => AppModel {
            window_data: app.window_data,
            events: submitted::<L>(app.events, event, priority),
            frame_num: app.frame_num,
            layers: app.layers,
        },
        None => app,
    }
}

/// The application after every layer has been shut down.
pub open spec fn shut_down<L: EventListener, Y: Layer<L>>(
    app: AppModel<L::Model, Y::Model>,
) -> AppModel<L::Model, Y::Model> {
    AppModel {
        window_data: app.window_data,
        events: app.events,
        frame_num: app.frame_num,
        layers: app.layers.map_values(|layer: Y::Model| Y::closed(layer)),
    }
}

/// The application after a window signal: the signal's submission has been
/// made, and on a request to close the layers have been shut down after it.
pub open spec fn after_window_signal<L: EventListener, Y: Layer<L>>(
    app: AppModel<L::Model, Y::Model>,
    signal: WindowSignal,
) -> AppModel<L::Model, Y::Model> {
    let submitted = after_submission::<L, Y>(app, window_submission(signal));
    if signal is CloseRequested {
        shut_down::<L, Y>(submitted)
    } else {
        submitted
    }
}

/// The application at the end of a frame: the frame is counted, the queue
/// has been drained, and then every layer has run once.
pub open spec fn after_frame<L: EventListener, Y: Layer<L>>(
    app: AppModel<L::Model, Y::Model>,
) -> AppModel<L::Model, Y::Model> {
    AppModel {
        window_data: app.window_data,
        events: updated::<L>(app.events),
        frame_num: if app.frame_num == u64::MAX {
            0
        } else {
            (app.frame_num + 1) as u64
        },
        layers: app.layers.map_values(|layer: Y::Model| Y::updated(layer)),
    }
}

/// The models of a sequence of layers, in the same order.
pub open spec fn layer_models<L: EventListener, Y: Layer<L>>(layers: Seq<Y>) -> Seq<Y::Model> {
    layers.map_values(|layer: Y| layer.model())
}

} // verus!
