use std::cell::RefCell;
use std::rc::Rc;

use engine_lib::application::AppModel;
use engine_lib::events::event::{Event, EventType, KeyboardEvent, WindowClose};
use engine_lib::events::keyboard::{KeyState, Keycode};
use engine_lib::events::listener::{EventEvaluateState, EventListener, Outbox};
use engine_lib::events::mouse::MouseButton;
use engine_lib::events::queue::EventPriority;
use engine_lib::events::system::{EventSystem, EventSystemModel};
use engine_lib::initialization::{AppBuilder, FnInitHook, InitializeHook, WindowData};
use engine_lib::layers::Layer;
use engine_lib::signals::{
    translate_device_signal, translate_key_state, translate_window_signal, DeviceSignal,
    WindowSignal,
};
use engine_lib::App;

type Log = Rc<RefCell<Vec<String>>>;

struct Note {
    name: &'static str,
    log: Log,
}

impl EventListener for Note {
    type Model = usize;

    fn model(&self) -> usize {
        self.log.borrow().len()
    }

    fn verdict(_model: usize, _event: Event) -> EventEvaluateState {
        EventEvaluateState::Unhandled
    }

    fn next(model: usize, _event: Event) -> usize {
        model + 1
    }

    fn invoke_event(&mut self, event: &Event, _outbox: &mut Outbox) -> EventEvaluateState {
        self.log.borrow_mut().push(format!("{} saw {:?}", self.name, event));
        EventEvaluateState::Unhandled
    }
}

struct Stage {
    name: &'static str,
    log: Log,
}

impl Layer<Note> for Stage {
    type Model = usize;

    fn model(&self) -> usize {
        self.log.borrow().len()
    }

    fn initialised(model: usize, events: EventSystemModel<usize>) -> (usize, EventSystemModel<usize>) {
        (model + 1, events)
    }

    fn updated(model: usize) -> usize {
        model + 1
    }

    fn closed(model: usize) -> usize {
        model + 1
    }

    fn init(&mut self, events: &mut EventSystem<Note>) {
        self.log.borrow_mut().push(format!("{} init", self.name));
        events.register_listener(EventType::WindowClose, Note { name: self.name, log: self.log.clone() });
    }

    fn update(&mut self) {
        self.log.borrow_mut().push(format!("{} update", self.name));
    }

    fn close(&mut self) {
        self.log.borrow_mut().push(format!("{} close", self.name));
    }
}

struct Step {
    name: &'static str,
    succeeds: bool,
    log: Log,
}

impl InitializeHook<Note, Stage> for Step {
    fn outcome(self, app: AppModel<usize, usize>) -> Result<AppModel<usize, usize>, ()> {
        if self.succeeds {
            Ok(app)
        } else {
            Err(())
        }
    }

    fn init(self, app: &mut App<Note, Stage>) -> Result<(), ()> {
        self.log.borrow_mut().push(format!("{} ran at frame {}", self.name, app.frame_num()));
        if self.succeeds {
            Ok(())
        } else {
            Err(())
        }
    }
}

fn log() -> Log {
    Rc::new(RefCell::new(Vec::new()))
}

fn lines(log: &Log) -> Vec<String> {
    log.borrow().clone()
}

fn same(a: &Option<(Event, EventPriority)>, b: &Option<(Event, EventPriority)>) -> bool {
    format!("{:?}", a) == format!("{:?}", b)
}

#[test]
fn default_window() {
    let window = WindowData::default();
    assert_eq!(window.title, "window");
    assert_eq!(window.size, (1280, 720));
}

#[test]
fn key_states_of_signals() {
    assert_eq!(translate_key_state(true, false), KeyState::Down);
    assert_eq!(translate_key_state(true, true), KeyState::Repeat);
    assert_eq!(translate_key_state(false, false), KeyState::Up);
    assert_eq!(translate_key_state(false, true), KeyState::Up);
}

#[test]
fn window_signals_become_submissions() {
    assert!(same(
        &translate_window_signal(WindowSignal::KeyboardInput {
            key: Some(Keycode::KeyW),
            pressed: true,
            repeat: true,
        }),
        &Some((Event::KeyboardEvent(Keycode::KeyW, KeyState::Repeat), EventPriority::Queued)),
    ));
    assert!(same(
        &translate_window_signal(WindowSignal::KeyboardInput {
            key: None,
            pressed: true,
            repeat: false,
        }),
        &None,
    ));
    assert!(same(
        &translate_window_signal(WindowSignal::MouseInput {
            button: Some(MouseButton::Forward),
            pressed: false,
        }),
        &Some((Event::MouseEvent(MouseButton::Forward, KeyState::Up), EventPriority::Queued)),
    ));
    assert!(same(
        &translate_window_signal(WindowSignal::MouseInput { button: None, pressed: true }),
        &None,
    ));
    assert!(same(
        &translate_window_signal(WindowSignal::Resized { width: 800, height: 600 }),
        &Some((Event::WindowResize((800, 600)), EventPriority::Blocking)),
    ));
    assert!(same(
        &translate_window_signal(WindowSignal::Focused(true)),
        &Some((Event::WindowFocus, EventPriority::Blocking)),
    ));
    assert!(same(
        &translate_window_signal(WindowSignal::Focused(false)),
        &Some((Event::WindowLoseFocus, EventPriority::Blocking)),
    ));
    assert!(same(
        &translate_window_signal(WindowSignal::CloseRequested),
        &Some((Event::WindowClose, EventPriority::Blocking)),
    ));
    assert!(same(&translate_window_signal(WindowSignal::Other), &None));
}

#[test]
fn device_signals_become_queued_submissions() {
    let horizontal = 1.5f32.to_bits();
    let vertical = (-2.0f32).to_bits();
    assert!(same(
        &translate_device_signal(DeviceSignal::MouseMotion { horizontal, vertical }),
        &Some((Event::MouseMotion((horizontal, vertical)), EventPriority::Queued)),
    ));
    assert!(same(
        &translate_device_signal(DeviceSignal::MouseWheelLines { vertical }),
        &Some((Event::MouseScroll(vertical), EventPriority::Queued)),
    ));
    assert!(same(&translate_device_signal(DeviceSignal::Other), &None));
}

#[test]
fn builder_runs_steps_then_adds_layers() {
    let log = log();
    let app = AppBuilder::new()
        .add_layer(Box::new(Stage { name: "first", log: log.clone() }))
        .add_init_hook(Step { name: "one", succeeds: true, log: log.clone() })
        .with_event_listener::<KeyboardEvent>(Box::new(Note { name: "keys", log: log.clone() }))
        .add_init_hook(Step { name: "two", succeeds: true, log: log.clone() })
        .add_layer(Box::new(Stage { name: "second", log: log.clone() }))
        .build();
    assert!(app.is_ok());
    assert_eq!(
        lines(&log),
        vec!["one ran at frame 0", "two ran at frame 0", "first init", "second init"],
    );
    let app = app.unwrap();
    assert_eq!(app.window_data().title, "window");
    assert_eq!(app.window_data().size, (1280, 720));
}

#[test]
fn builder_stops_at_the_first_failing_step() {
    let log = log();
    let app = AppBuilder::new()
        .add_layer(Box::new(Stage { name: "first", log: log.clone() }))
        .add_init_hook(Step { name: "one", succeeds: true, log: log.clone() })
        .add_init_hook(Step { name: "two", succeeds: false, log: log.clone() })
        .add_init_hook(Step { name: "three", succeeds: true, log: log.clone() })
        .build();
    assert!(app.is_err());
    assert_eq!(lines(&log), vec!["one ran at frame 0", "two ran at frame 0"]);
}

#[test]
fn builder_without_steps_builds_a_fresh_application() {
    let app: Result<App<Note, Stage>, ()> = App::begin_build::<Step>().build();
    assert_eq!(app.unwrap().frame_num(), 0);
}

#[test]
fn builder_with_functions_as_hooks() {
    let built: Result<App<Note, Stage>, ()> =
        AppBuilder::new().add_init_func(|| Ok(())).build();
    assert!(built.is_ok());
    let failed: Result<App<Note, Stage>, ()> = AppBuilder::new()
        .add_init_hook(FnInitHook::new(|| Err(())))
        .build();
    assert!(failed.is_err());
}

#[test]
fn frame_drains_the_queue_before_the_layers_run() {
    let log = log();
    let mut app: App<Note, Stage> = App::new(WindowData { title: "game", size: (640, 480) });
    app.add_layer(Box::new(Stage { name: "stage", log: log.clone() }));
    app.event_system.submit(Event::WindowClose, EventPriority::Queued);
    assert_eq!(lines(&log), vec!["stage init"]);
    app.about_to_wait();
    assert_eq!(app.frame_num(), 1);
    assert_eq!(lines(&log), vec!["stage init", "stage saw WindowClose", "stage update"]);
    app.about_to_wait();
    assert_eq!(app.frame_num(), 2);
    assert_eq!(lines(&log).len(), 4);
    assert_eq!(app.window_data().title, "game");
}

#[test]
fn close_request_is_dispatched_and_shuts_the_layers_down() {
    let log = log();
    let mut app: App<Note, Stage> = App::new(WindowData::default());
    app.add_layer(Box::new(Stage { name: "a", log: log.clone() }))
        .add_layer(Box::new(Stage { name: "b", log: log.clone() }));
    assert!(!app.window_event(WindowSignal::Focused(true)));
    assert!(!app.window_event(WindowSignal::Other));
    assert!(app.window_event(WindowSignal::CloseRequested));
    assert_eq!(
        lines(&log),
        vec![
            "a init",
            "b init",
            "a saw WindowClose",
            "b saw WindowClose",
            "a close",
            "b close",
        ],
    );
}

#[test]
fn key_signal_waits_for_the_end_of_the_frame() {
    let log = log();
    let mut app: App<Note, Stage> = App::new(WindowData::default());
    app.event_system
        .add_listener::<KeyboardEvent>(Box::new(Note { name: "keys", log: log.clone() }))
        .add_listener::<WindowClose>(Box::new(Note { name: "close", log: log.clone() }));
    let exit = app.window_event(WindowSignal::KeyboardInput {
        key: Some(Keycode::Enter),
        pressed: true,
        repeat: false,
    });
    assert!(!exit);
    app.device_event(DeviceSignal::MouseWheelLines { vertical: 0 });
    assert!(log.borrow().is_empty());
    app.about_to_wait();
    assert_eq!(lines(&log), vec!["keys saw KeyboardEvent(Enter, Down)"]);
}
