//! Building an application: what the window is to look like, the steps that
//! prepare the application, and the layers it starts with.

use vstd::prelude::*;

use crate::application::{fresh, layer_models, with_layer, AppModel};
use crate::App;
use crate::events::event::{EventMarker, EventType};
use crate::events::listener::EventListener;
use crate::events::system::listening;
use crate::layers::Layer;

verus! {

/// What the window of an application is to look like.
#[derive(Debug, Clone, Copy)]
pub struct WindowData {
    pub title: &'static str,
    pub size: (u32, u32),
}

/// The window of an application that asks for nothing else: titled
/// "window", 1280 wide and 720 high.
pub open spec fn default_window_data() -> WindowData {
    WindowData { title: "window", size: (1280, 720) }
}

impl Default for WindowData {
    fn default() -> (window_data: Self)
        ensures
            window_data == default_window_data(),
    {
        WindowData { title: "window", size: (1280, 720) }
    }
}

/// A step that prepares an application before its layers are added. A step
/// may fail, and then no application is built.
///
/// `outcome` names what a hook does: the application it leaves behind, or
/// its failure. An implementation owes `init` to behave as `outcome` says.
pub trait InitializeHook<L: EventListener, Y: Layer<L>>: Sized {
    /// The application after the hook has run, or the hook's failure.
    spec fn outcome(self, app: AppModel<L::Model, Y::Model>) -> Result<
        AppModel<L::Model, Y::Model>,
        (),
    >;

    /// Runs the hook on `app`.
    fn init(self, app: &mut App<L, Y>) -> (result: Result<(), ()>)
        ensures
            match result {
                Ok(()) => self.outcome(old(app)@) == Ok::<AppModel<L::Model, Y::Model>, ()>(
                    final(app)@,
                ),
                Err(()) => self.outcome(old(app)@) is Err,
            },
    ;
}

/// One step of a builder: a hook of the application's own, or the
/// registration of a listener.
pub enum InitStep<L, H> {
    /// Run the hook.
    Hook(H),
    /// Register the listener for the kind.
    Listener(EventType, L),
}

/// The application after `step`, or the step's failure. Registering a
/// listener never fails.
pub open spec fn step_outcome<L: EventListener, Y: Layer<L>, H: InitializeHook<L, Y>>(
    step: InitStep<L, H>,
    app: AppModel<L::Model, Y::Model>,
) -> Result<AppModel<L::Model, Y::Model>, ()> {
    match step {
        InitStep::Hook(hook) => hook.outcome(app),
        InitStep::Listener(kind, listener) => Ok(
            AppModel {
                window_data: app.window_data,
                events: listening(app.events, kind, listener.model()),
                frame_num: app.frame_num,
                layers: app.layers,
            },
        ),
    }
}

/// The application after the steps have run one after the other, or failure
/// if one of them fails; the steps behind a failing one do not run.
pub open spec fn prepared<L: EventListener, Y: Layer<L>, H: InitializeHook<L, Y>>(
    steps: Seq<InitStep<L, H>>,
    app: AppModel<L::Model, Y::Model>,
) -> Result<AppModel<L::Model, Y::Model>, ()>
    decreases steps.len(),
{
    if steps.len() == 0 {
        Ok(app)
    } else {
        match step_outcome::<L, Y, H>(steps[0], app) {
            Ok(next) => prepared::<L, Y, H>(steps.drop_first(), next),
            Err(_) => Err(()),
        }
    }
}

/// The application after the layers have been started and added one after
/// the other.
pub open spec fn layered<L: EventListener, Y: Layer<L>>(
    layers: Seq<Y::Model>,
    app: AppModel<L::Model, Y::Model>,
) -> AppModel<L::Model, Y::Model>
    decreases layers.len(),
{
    if layers.len() == 0 {
        app
    } else {
        layered::<L, Y>(layers.drop_first(), with_layer::<L, Y>(app, layers[0]))
    }
}

/// The application that a builder with these steps and layers builds: the
/// steps run on a fresh application with the default window, and if none
/// fails the layers are added.
pub open spec fn built<L: EventListener, Y: Layer<L>, H: InitializeHook<L, Y>>(
    steps: Seq<InitStep<L, H>>,
    layers: Seq<Y::Model>,
    window_data: WindowData,
) -> Result<AppModel<L::Model, Y::Model>, ()> {
    match prepared::<L, Y, H>(steps, fresh::<L::Model, Y::Model>(window_data)) {
        Ok(app) => Ok(layered::<L, Y>(layers, app)),
        Err(_) => Err(()),
    }
}

/// Collects what an application is to be built from.
pub struct AppBuilder<L: EventListener, Y: Layer<L>, H: InitializeHook<L, Y>> {
    init_hooks: Vec<InitStep<L, H>>,
    layers: Vec<Y>,
}

impl<L: EventListener, Y: Layer<L>, H: InitializeHook<L, Y>> AppBuilder<L, Y, H> {
    /// The steps collected so far, in the order in which they will run.
    pub closed spec fn steps(&self) -> Seq<InitStep<L, H>> {
        self.init_hooks@
    }

    /// The layers collected so far, in the order in which they will be added.
    pub closed spec fn layers(&self) -> Seq<Y> {
        self.layers@
    }

    /// A builder without steps and layers.
    pub fn new() -> (builder: Self)
        ensures
            builder.steps() == Seq::<InitStep<L, H>>::empty(),
            builder.layers() == Seq::<Y>::empty(),
    {
        AppBuilder { init_hooks: Vec::new(), layers: Vec::new() }
    }

    /// Adds `f` behind the steps collected so far.
    pub fn add_init_hook(self, f: H) -> (builder: Self)
        ensures
            builder.steps() == self.steps().push(InitStep::Hook(f)),
            builder.layers() == self.layers(),
    {
        let mut builder = self;
        builder.init_hooks.push(InitStep::Hook(f));
        builder
    }

    /// Adds the registration of `listener` for the kind `T` behind the steps
    /// collected so far.
    pub fn with_event_listener<T: EventMarker>(self, listener: Box<L>) -> (builder: Self)
        ensures
            builder.steps() == self.steps().push(InitStep::Listener(T::kind(), *listener)),
            builder.layers() == self.layers(),
    {
        let mut builder = self;
        builder.init_hooks.push(InitStep::Listener(T::event_type(), *listener));
        builder
    }

    /// Adds `layer` behind the layers collected so far.
    pub fn add_layer(self, layer: Box<Y>) -> (builder: Self)
        ensures
            builder.steps() == self.steps(),
            builder.layers() == self.layers().push(*layer),
    {
        let mut builder = self;
        builder.layers.push(*layer);
        builder
    }

    /// What `build` will give: the application built from the steps and
    /// layers collected so far, or failure.
    pub open spec fn outcome(&self) -> Result<AppModel<L::Model, Y::Model>, ()> {
        built::<L, Y, H>(
            self.steps(),
            layer_models::<L, Y>(self.layers()),
            default_window_data(),
        )
    }

    /// Builds the application: runs the steps in order on an application
    /// with the default window and, if none of them fails, starts and adds
    /// the layers in order. Fails as soon as a step fails.
    pub fn build(self) -> (result: Result<App<L, Y>, ()>)
        ensures
            match result {
                Ok(app) => self.outcome() == Ok::<AppModel<L::Model, Y::Model>, ()>(app@),
                Err(()) => self.outcome() is Err,
            },
    {
        let mut app = App::new(WindowData::default());
        let ghost start = app@;
        let ghost steps = self.init_hooks@;
        let ghost models = layer_models::<L, Y>(self.layers@);
        let AppBuilder { init_hooks, layers } = self;
        assert(steps.skip(0) =~= steps);
        for step in it: init_hooks.into_iter()
            invariant
                it.seq() == steps,
                steps == self.steps(),
                start == fresh::<L::Model, Y::Model>(default_window_data()),
                prepared::<L, Y, H>(steps.skip(it.index() as int), app@) == prepared::<L, Y, H>(
                    steps,
                    start,
                ),
        {
            let ghost rest = steps.skip(it.index() as int);
            let ghost before = app@;
            assert(rest[0] == step);
            assert(rest.drop_first() =~= steps.skip(it.index() + 1));
            match step {
                InitStep::Hook(hook) => {
                    match hook.init(&mut app) {
                        Ok(()) => {},
                        Err(()) => {
                            assert(step_outcome::<L, Y, H>(rest[0], before) is Err);
                            assert(prepared::<L, Y, H>(rest, before) is Err);
                            return Err(());
                        },
                    }
                },
                InitStep::Listener(kind, listener) => {
                    app.event_system.register_listener(kind, listener);
                },
            }
        }
        let ghost ready = app@;
        assert(steps.skip(steps.len() as int).len() == 0);
        assert(models.skip(0) =~= models);
        for layer in it: layers.into_iter()
            invariant
                layer_models::<L, Y>(it.seq()) == models,
                layered::<L, Y>(models.skip(it.index() as int), app@) == layered::<L, Y>(
                    models,
                    ready,
                ),
        {
            assert(models.skip(it.index() as int)[0] == layer.model());
            assert(models.skip(it.index() as int).drop_first() =~= models.skip(it.index() + 1));
            app.add_layer(Box::new(layer));
        }
        assert(models.skip(models.len() as int).len() == 0);
        Ok(app)
    }
}

/// Whether `f` can be called and succeeds or fails in one way only.
pub open spec fn decides<F: Fn() -> Result<(), ()>>(f: F) -> bool {
    &&& call_requires(f, ())
    &&& forall|first: Result<(), ()>, second: Result<(), ()>|
        call_ensures(f, (), first) && call_ensures(f, (), second) ==> first == second
}

/// What `f` returns.
pub open spec fn decision_of<F: Fn() -> Result<(), ()>>(f: F) -> Result<(), ()> {
    choose|result: Result<(), ()>| call_ensures(f, (), result)
}

/// A hook made of a function that does not look at the application: it
/// succeeds or fails as the function does and leaves the application alone.
pub struct FnInitHook<F: Fn() -> Result<(), ()>>(F);

impl<F: Fn() -> Result<(), ()>> FnInitHook<F> {
    #[verifier::type_invariant]
    spec fn well_formed(&self) -> bool {
        decides(self.0)
    }

    /// The function that the hook is made of.
    pub closed spec fn func(self) -> F {
        self.0
    }

    /// Makes a hook of the function `f`.
    pub fn new(f: F) -> (hook: Self)
        requires
            decides(f),
        ensures
            hook.func() == f,
    {
        FnInitHook(f)
    }
}

impl<L: EventListener, Y: Layer<L>, F: Fn() -> Result<(), ()>> InitializeHook<L, Y> for FnInitHook<
    F,
> {
    open spec fn outcome(self, app: AppModel<L::Model, Y::Model>) -> Result<
        AppModel<L::Model, Y::Model>,
        (),
    > {
        match decision_of(self.func()) {
            Ok(_) => Ok(app),
            Err(_) => Err(()),
        }
    }

    fn init(self, app: &mut App<L, Y>) -> (result: Result<(), ()>) {
        proof {
            use_type_invariant(&self);
        }
        (self.0)()
    }
}

impl<L: EventListener, Y: Layer<L>, F: Fn() -> Result<(), ()>> AppBuilder<L, Y, FnInitHook<F>> {
    /// Adds a hook made of the function `f` behind the steps collected so
    /// far.
    pub fn add_init_func(self, f: F) -> (builder: Self)
        requires
            decides(f),
        ensures
            exists|hook: FnInitHook<F>|
                hook.func() == f && #[trigger] builder.steps() == self.steps().push(
                    InitStep::Hook(hook),
                ),
            builder.layers() == self.layers(),
    {
        self.add_init_hook(FnInitHook::new(f))
    }
}

} // verus!
