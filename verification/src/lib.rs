//! A small engine core: typed events with immediate or deferred delivery,
//! an input layer on top of them, and the application that owns both.

use vstd::prelude::*;

pub mod application;
pub mod events;
pub mod initialization;
pub mod layers;
pub mod renderer;
pub mod runtime;
pub mod signals;

use application::{
    after_frame, after_submission, after_window_signal, fresh, layer_models, shut_down, with_layer,
    AppModel,
};
use events::listener::EventListener;
use events::system::{updated, EventSystem};
use initialization::{AppBuilder, InitStep, InitializeHook, WindowData};
use layers::Layer;
use signals::{
    device_submission, translate_device_signal, translate_window_signal, DeviceSignal,
    WindowSignal,
};

verus! {

/// An application: its event system, its layers, and a count of its frames.
pub struct App<L: EventListener, Y: Layer<L>> {
    window_data: WindowData,
    pub event_system: EventSystem<L>,
    frame_num: u64,
    layers: Vec<Y>,
}

impl<L: EventListener, Y: Layer<L>> View for App<L, Y> {
    type V = AppModel<L::Model, Y::Model>;

    closed spec fn view(&self) -> AppModel<L::Model, Y::Model> {
        AppModel {
            window_data: self.window_data,
            events: self.event_system@,
            frame_num: self.frame_num,
            layers: layer_models::<L, Y>(self.layers@),
        }
    }
}

impl<L: EventListener, Y: Layer<L>> App<L, Y> {
    /// An application without listeners, pending events or layers.
    pub fn new(window_data: WindowData) -> (app: Self)
        ensures
            app@ == fresh::<L::Model, Y::Model>(window_data),
    {
        let app = App {
            window_data,
            event_system: EventSystem::new(),
            frame_num: 0,
            layers: Vec::new(),
        };
        assert(app@.layers =~= Seq::<Y::Model>::empty());
        app
    }

    /// A builder for an application.
    pub fn begin_build<H: InitializeHook<L, Y>>() -> (builder: AppBuilder<L, Y, H>)
        ensures
            builder.steps() == Seq::<InitStep<L, H>>::empty(),
            builder.layers() == Seq::<Y>::empty(),
    {
        AppBuilder::new()
    }

    /// What the window is to look like.
    pub fn window_data(&self) -> (window_data: &WindowData)
        ensures
            *window_data == self@.window_data,
    {
        &self.window_data
    }

    /// The number of frames so far.
    pub fn frame_num(&self) -> (frame_num: u64)
        ensures
            frame_num == self@.frame_num,
    {
        self.frame_num
    }

    /// Starts `layer` and adds it to the application.
    pub fn add_layer(&mut self, layer: Box<Y>) -> (app: &mut Self)
        ensures
            app@ == with_layer::<L, Y>(old(self)@, layer.model()),
            *final(self) == *final(app),
    {
        let mut layer = *layer;
        layer.init(&mut self.event_system);
        self.layers.push(layer);
        proof {
            assert(self@.layers =~= old(self)@.layers.push(layer.model()));
        }
        self
    }

    /// Shuts every layer down, in the order in which the layers were added.
    pub fn close(&mut self)
        ensures
            final(self)@ == shut_down::<L, Y>(old(self)@),
    {
        let n = self.layers.len();
        let mut i: usize = 0;
        while i < n
            invariant
                i <= n,
                self.layers@.len() == n,
                old(self).layers@.len() == n,
                self.window_data == old(self).window_data,
                self.event_system == old(self).event_system,
                self.frame_num == old(self).frame_num,
                forall|j: int|
                    0 <= j < i ==> (#[trigger] self.layers@[j]).model() == Y::closed(
                        old(self).layers@[j].model(),
                    ),
                forall|j: int| i <= j < n ==> (#[trigger] self.layers@[j]) == old(self).layers@[j],
            decreases n - i,
        {
            self.layers[i].close();
            i += 1;
        }
        assert(self@.layers =~= shut_down::<L, Y>(old(self)@).layers);
    }

    /// Makes the submission that `signal` leads to. Returns whether the
    /// application is to leave its event loop, which is the case exactly on
    /// a request to close; the layers have then been shut down.
    pub fn window_event(&mut self, signal: WindowSignal) -> (exit: bool)
        ensures
            final(self)@ == after_window_signal::<L, Y>(old(self)@, signal),
            exit <==> signal is CloseRequested,
    {
        match translate_window_signal(signal) {
            Some((event, priority)) => {
                self.event_system.submit(event, priority);
            },
            None => {},
        }
        match signal {
            WindowSignal::CloseRequested => {
                self.close();
                true
            },
            _ => false,
        }
    }

    /// Makes the submission that `signal` leads to.
    pub fn device_event(&mut self, signal: DeviceSignal)
        ensures
            final(self)@ == after_submission::<L, Y>(old(self)@, device_submission(signal)),
    {
        match translate_device_signal(signal) {
            Some((event, priority)) => {
                self.event_system.submit(event, priority);
            },
            None => {},
        }
    }

    /// Ends a frame: counts it, drains the event queue, and runs every
    /// layer once, in the order in which the layers were added.
    pub fn about_to_wait(&mut self)
        ensures
            final(self)@ == after_frame::<L, Y>(old(self)@),
    {
        self.frame_num = self.frame_num.wrapping_add(1);
        self.event_system.update();
        let n = self.layers.len();
        let mut i: usize = 0;
        while i < n
            invariant
                i <= n,
                self.layers@.len() == n,
                old(self).layers@.len() == n,
                self.window_data == old(self).window_data,
                self.event_system@ == updated::<L>(old(self).event_system@),
                self.frame_num == after_frame::<L, Y>(old(self)@).frame_num,
                forall|j: int|
                    0 <= j < i ==> (#[trigger] self.layers@[j]).model() == Y::updated(
                        old(self).layers@[j].model(),
                    ),
                forall|j: int| i <= j < n ==> (#[trigger] self.layers@[j]) == old(self).layers@[j],
            decreases n - i,
        {
            self.layers[i].update();
            i += 1;
        }
        assert(self@.layers =~= after_frame::<L, Y>(old(self)@).layers);
    }
}

} // verus!
