use std::cell::RefCell;
use std::rc::Rc;

use engine_lib::events::event::{
    AppRender, AppUpdate, Event, EventMarker, EventType, KeyboardEvent, MouseEvent, MouseMotion,
    MouseScroll, WindowClose, WindowFocus, WindowLoseFocus, WindowResize,
};
use engine_lib::events::keyboard::{KeyState, Keycode};
use engine_lib::events::listener::{
    listener_from_func, EventEvaluateState, EventListener, Outbox,
};
use engine_lib::events::mouse::MouseButton;
use engine_lib::events::queue::{DeliveryQueue, EventInfo, EventPriority};
use engine_lib::events::registry::{deliver, ListenerRegistry};
use engine_lib::events::system::EventSystem;

/// Writes its name and the event it was shown to a shared log.
struct Recorder {
    name: &'static str,
    answer: EventEvaluateState,
    log: Rc<RefCell<Vec<(&'static str, Event)>>>,
    /// What the listener submits each time it is shown an event.
    follow_ups: Vec<Event>,
}

impl EventListener for Recorder {
    type Model = (usize, EventEvaluateState);

    fn model(&self) -> (usize, EventEvaluateState) {
        (self.log.borrow().len(), self.answer)
    }

    fn verdict(model: (usize, EventEvaluateState), _event: Event) -> EventEvaluateState {
        model.1
    }

    fn next(model: (usize, EventEvaluateState), _event: Event) -> (usize, EventEvaluateState) {
        (model.0 + 1, model.1)
    }

    fn invoke_event(&mut self, event: &Event, outbox: &mut Outbox) -> EventEvaluateState {
        self.log.borrow_mut().push((self.name, *event));
        for follow_up in &self.follow_ups {
            outbox.submit(*follow_up);
        }
        self.answer
    }
}

fn recorder(
    name: &'static str,
    answer: EventEvaluateState,
    log: &Rc<RefCell<Vec<(&'static str, Event)>>>,
) -> Recorder {
    Recorder { name, answer, log: log.clone(), follow_ups: vec![] }
}

fn names(log: &Rc<RefCell<Vec<(&'static str, Event)>>>) -> Vec<&'static str> {
    log.borrow().iter().map(|entry| entry.0).collect()
}

fn key(code: Keycode, state: KeyState) -> Event {
    Event::KeyboardEvent(code, state)
}

fn same(a: &Event, b: &Event) -> bool {
    format!("{:?}", a) == format!("{:?}", b)
}

#[test]
fn kinds_of_the_catalog() {
    assert_eq!(key(Keycode::KeyA, KeyState::Down).as_type(), EventType::KeyboardEvent);
    assert_eq!(key(Keycode::F1, KeyState::Up).as_type(), EventType::KeyboardEvent);
    assert_eq!(Event::MouseEvent(MouseButton::Back, KeyState::Up).as_type(), EventType::MouseEvent);
    assert_eq!(Event::MouseMotion((1, 2)).as_type(), EventType::MouseMotion);
    assert_eq!(Event::MouseScroll(7).as_type(), EventType::MouseScroll);
    assert_eq!(Event::AppUpdate.as_type(), EventType::AppUpdate);
    assert_eq!(Event::AppRender.as_type(), EventType::AppRender);
    assert_eq!(Event::WindowFocus.as_type(), EventType::WindowFocus);
    assert_eq!(Event::WindowLoseFocus.as_type(), EventType::WindowLoseFocus);
    assert_eq!(Event::WindowResize((3, 4)).as_type(), EventType::WindowResize);
    assert_eq!(Event::WindowClose.as_type(), EventType::WindowClose);
}

#[test]
fn payload_types_keep_their_payload_and_kind() {
    assert!(same(
        &KeyboardEvent(Keycode::KeyQ, KeyState::Repeat).into_event(),
        &key(Keycode::KeyQ, KeyState::Repeat)
    ));
    assert!(same(
        &MouseEvent(MouseButton::Middle, KeyState::Down).into_event(),
        &Event::MouseEvent(MouseButton::Middle, KeyState::Down)
    ));
    assert!(same(&MouseMotion((5, 6)).into_event(), &Event::MouseMotion((5, 6))));
    assert!(same(&MouseScroll(9).into_event(), &Event::MouseScroll(9)));
    assert!(same(&WindowResize((800, 600)).into_event(), &Event::WindowResize((800, 600))));
    assert!(same(&AppUpdate.into_event(), &Event::AppUpdate));
    assert!(same(&AppRender.into_event(), &Event::AppRender));
    assert!(same(&WindowFocus.into_event(), &Event::WindowFocus));
    assert!(same(&WindowLoseFocus.into_event(), &Event::WindowLoseFocus));
    assert!(same(&WindowClose.into_event(), &Event::WindowClose));
    assert_eq!(KeyboardEvent::event_type(), EventType::KeyboardEvent);
    assert_eq!(MouseEvent::event_type(), EventType::MouseEvent);
    assert_eq!(MouseMotion::event_type(), EventType::MouseMotion);
    assert_eq!(MouseScroll::event_type(), EventType::MouseScroll);
    assert_eq!(WindowResize::event_type(), EventType::WindowResize);
    assert_eq!(WindowClose::event_type(), EventType::WindowClose);
}

#[test]
fn kind_numbers_follow_the_catalog() {
    assert_eq!(EventType::KeyboardEvent.number(), 0);
    assert_eq!(EventType::AppUpdate.number(), 4);
    assert_eq!(EventType::WindowClose.number(), 9);
}

#[test]
fn kind_isolation() {
    let log = Rc::new(RefCell::new(Vec::new()));
    let mut system = EventSystem::new();
    system.register_listener(
        EventType::KeyboardEvent,
        recorder("keys", EventEvaluateState::Unhandled, &log),
    );
    system.submit(Event::MouseScroll(1), EventPriority::Blocking);
    system.submit(Event::WindowClose, EventPriority::Queued);
    system.update();
    assert!(log.borrow().is_empty());
    system.submit(key(Keycode::KeyA, KeyState::Down), EventPriority::Blocking);
    assert_eq!(names(&log), vec!["keys"]);
}

#[test]
fn short_circuit_at_the_first_handled() {
    let log = Rc::new(RefCell::new(Vec::new()));
    let mut registry = ListenerRegistry::new();
    registry.register(EventType::AppUpdate, recorder("one", EventEvaluateState::Unhandled, &log));
    registry.register(EventType::AppUpdate, recorder("two", EventEvaluateState::Unhandled, &log));
    registry.register(EventType::AppUpdate, recorder("three", EventEvaluateState::Handled, &log));
    registry.register(EventType::AppUpdate, recorder("four", EventEvaluateState::Handled, &log));
    registry.register(EventType::AppUpdate, recorder("five", EventEvaluateState::Unhandled, &log));
    registry.dispatch(&Event::AppUpdate, &mut Outbox::new());
    assert_eq!(names(&log), vec!["one", "two", "three"]);
}

#[test]
fn unclaimed_event_reaches_every_listener_in_registration_order() {
    let log = Rc::new(RefCell::new(Vec::new()));
    let mut chain = vec![
        recorder("one", EventEvaluateState::Unhandled, &log),
        recorder("two", EventEvaluateState::Unhandled, &log),
        recorder("three", EventEvaluateState::Unhandled, &log),
    ];
    deliver(&mut chain, &Event::AppRender, &mut Outbox::new());
    assert_eq!(names(&log), vec!["one", "two", "three"]);
    let mut none: Vec<Recorder> = vec![];
    deliver(&mut none, &Event::AppRender, &mut Outbox::new());
    assert_eq!(log.borrow().len(), 3);
}

#[test]
fn same_listener_registered_twice_is_shown_the_event_twice() {
    let log = Rc::new(RefCell::new(Vec::new()));
    let mut registry = ListenerRegistry::new();
    registry.register(EventType::AppUpdate, recorder("one", EventEvaluateState::Unhandled, &log));
    registry.register(EventType::AppUpdate, recorder("one", EventEvaluateState::Unhandled, &log));
    registry.dispatch(&Event::AppUpdate, &mut Outbox::new());
    assert_eq!(names(&log), vec!["one", "one"]);
}

#[test]
fn blocking_immediacy() {
    let log = Rc::new(RefCell::new(Vec::new()));
    let mut system = EventSystem::new();
    system.add_listener::<WindowResize>(Box::new(recorder(
        "resize",
        EventEvaluateState::Handled,
        &log,
    )));
    system.queue_event(EventInfo::blocking(WindowResize((640, 480))));
    assert_eq!(log.borrow().len(), 1);
    assert!(same(&log.borrow()[0].1, &Event::WindowResize((640, 480))));
    system.update();
    assert_eq!(log.borrow().len(), 1);
}

#[test]
fn queued_deferral() {
    let log = Rc::new(RefCell::new(Vec::new()));
    let mut system = EventSystem::new();
    system.add_listener::<MouseScroll>(Box::new(recorder(
        "scroll",
        EventEvaluateState::Handled,
        &log,
    )));
    system.queue_event(EventInfo::queued(MouseScroll(3)));
    system.queue_event(EventInfo::queued(MouseScroll(4)));
    assert!(log.borrow().is_empty());
    system.update();
    assert_eq!(log.borrow().len(), 2);
    system.update();
    assert_eq!(log.borrow().len(), 2);
}

#[test]
fn fifo_ordering() {
    let log = Rc::new(RefCell::new(Vec::new()));
    let mut system = EventSystem::new();
    system.register_listener(
        EventType::KeyboardEvent,
        recorder("keys", EventEvaluateState::Handled, &log),
    );
    system.register_listener(
        EventType::MouseEvent,
        recorder("buttons", EventEvaluateState::Handled, &log),
    );
    system.submit(key(Keycode::KeyA, KeyState::Down), EventPriority::Queued);
    system.submit(Event::MouseEvent(MouseButton::Left, KeyState::Down), EventPriority::Queued);
    system.submit(key(Keycode::KeyB, KeyState::Down), EventPriority::Queued);
    system.update();
    assert_eq!(names(&log), vec!["keys", "buttons", "keys"]);
    assert!(same(&log.borrow()[0].1, &key(Keycode::KeyA, KeyState::Down)));
    assert!(same(&log.borrow()[2].1, &key(Keycode::KeyB, KeyState::Down)));
}

#[test]
fn blocking_event_overtakes_the_queue() {
    let log = Rc::new(RefCell::new(Vec::new()));
    let mut system = EventSystem::new();
    system.register_listener(
        EventType::AppUpdate,
        recorder("update", EventEvaluateState::Handled, &log),
    );
    system.register_listener(
        EventType::AppRender,
        recorder("render", EventEvaluateState::Handled, &log),
    );
    system.submit(Event::AppUpdate, EventPriority::Queued);
    system.submit(Event::AppRender, EventPriority::Blocking);
    system.update();
    assert_eq!(names(&log), vec!["render", "update"]);
}

#[test]
fn execute_dispatches_at_once_whatever_the_priority() {
    let log = Rc::new(RefCell::new(Vec::new()));
    let mut system = EventSystem::new();
    system.add_listener::<AppUpdate>(Box::new(recorder(
        "update",
        EventEvaluateState::Handled,
        &log,
    )));
    system.execute(EventInfo::queued(AppUpdate));
    assert_eq!(log.borrow().len(), 1);
    system.update();
    assert_eq!(log.borrow().len(), 1);
}

#[test]
fn no_listener_no_effect() {
    let mut system: EventSystem<Recorder> = EventSystem::new();
    system.submit(Event::WindowClose, EventPriority::Blocking);
    system.submit(Event::WindowClose, EventPriority::Queued);
    system.update();
    let mut registry: ListenerRegistry<Recorder> = ListenerRegistry::new();
    let mut outbox = Outbox::new();
    registry.dispatch(&Event::MouseMotion((0, 0)), &mut outbox);
    assert_eq!(outbox.len(), 0);
}

#[test]
fn counter_scenario() {
    let log = Rc::new(RefCell::new(Vec::new()));
    let mut system = EventSystem::new();
    system.add_listener::<KeyboardEvent>(Box::new(recorder(
        "A",
        EventEvaluateState::Handled,
        &log,
    )));
    system.queue_event(EventInfo::queued(KeyboardEvent(Keycode::KeyA, KeyState::Down)));
    assert_eq!(log.borrow().len(), 0);
    system.update();
    assert_eq!(log.borrow().len(), 1);
    system.queue_event(EventInfo::blocking(KeyboardEvent(Keycode::KeyA, KeyState::Down)));
    assert_eq!(log.borrow().len(), 2);
}

#[test]
fn delivery_queue_is_first_in_first_out() {
    let mut queue = DeliveryQueue::new();
    assert!(queue.is_empty());
    assert!(queue.dequeue().is_none());
    queue.enqueue(Event::MouseScroll(1));
    queue.enqueue(Event::MouseScroll(2));
    queue.enqueue(Event::AppUpdate);
    assert_eq!(queue.len(), 3);
    assert!(same(&queue.dequeue().unwrap(), &Event::MouseScroll(1)));
    assert!(same(&queue.dequeue().unwrap(), &Event::MouseScroll(2)));
    assert!(same(&queue.dequeue().unwrap(), &Event::AppUpdate));
    assert!(queue.dequeue().is_none());
}

#[test]
fn delivery_queue_drains_into_a_registry() {
    let log = Rc::new(RefCell::new(Vec::new()));
    let mut registry = ListenerRegistry::new();
    registry.register(EventType::MouseScroll, recorder("scroll", EventEvaluateState::Handled, &log));
    let mut queue = DeliveryQueue::new();
    queue.enqueue(Event::MouseScroll(1));
    queue.enqueue(Event::AppUpdate);
    queue.enqueue(Event::MouseScroll(2));
    queue.drain(&mut registry);
    assert!(queue.is_empty());
    assert_eq!(log.borrow().len(), 2);
    assert!(same(&log.borrow()[0].1, &Event::MouseScroll(1)));
    assert!(same(&log.borrow()[1].1, &Event::MouseScroll(2)));
}

#[test]
fn submission_keeps_event_and_priority() {
    let (event, priority) = EventInfo::queued(MouseScroll(5)).into_parts();
    assert!(same(&event, &Event::MouseScroll(5)));
    assert_eq!(priority, EventPriority::Queued);
    let (event, priority) = EventInfo::blocking(WindowFocus).into_parts();
    assert!(same(&event, &Event::WindowFocus));
    assert_eq!(priority, EventPriority::Blocking);
}

#[test]
fn listener_from_a_function() {
    let mut system = EventSystem::new();
    system.add_listener::<KeyboardEvent>(Box::new(listener_from_func(|event: &Event| {
        match event {
            Event::KeyboardEvent(Keycode::Escape, _) => EventEvaluateState::Handled,
            _ => EventEvaluateState::Unhandled,
        }
    })));
    system.queue_event(EventInfo::blocking(KeyboardEvent(Keycode::Escape, KeyState::Down)));
    let mut listener = listener_from_func(|_event: &Event| EventEvaluateState::Handled);
    assert_eq!(
        listener.invoke_event(&Event::AppUpdate, &mut Outbox::new()),
        EventEvaluateState::Handled
    );
}

fn chatty(
    name: &'static str,
    answer: EventEvaluateState,
    log: &Rc<RefCell<Vec<(&'static str, Event)>>>,
    follow_ups: Vec<Event>,
) -> Recorder {
    Recorder { name, answer, log: log.clone(), follow_ups }
}

#[test]
fn outbox_keeps_the_order_of_submission() {
    let mut outbox = Outbox::new();
    assert_eq!(outbox.len(), 0);
    outbox.submit(Event::AppUpdate);
    outbox.submit(Event::MouseScroll(1));
    assert_eq!(outbox.len(), 2);
    let events = outbox.into_events();
    assert!(same(&events[0], &Event::AppUpdate));
    assert!(same(&events[1], &Event::MouseScroll(1)));
}

#[test]
fn submissions_of_listeners_are_collected_in_the_order_of_the_listeners() {
    let log = Rc::new(RefCell::new(Vec::new()));
    let mut chain = vec![
        chatty("one", EventEvaluateState::Unhandled, &log, vec![Event::MouseScroll(1)]),
        chatty(
            "two",
            EventEvaluateState::Handled,
            &log,
            vec![Event::MouseScroll(2), Event::MouseScroll(3)],
        ),
        chatty("three", EventEvaluateState::Unhandled, &log, vec![Event::MouseScroll(4)]),
    ];
    let mut outbox = Outbox::new();
    outbox.submit(Event::AppRender);
    deliver(&mut chain, &Event::AppUpdate, &mut outbox);
    let events = outbox.into_events();
    assert_eq!(events.len(), 4);
    assert!(same(&events[0], &Event::AppRender));
    assert!(same(&events[1], &Event::MouseScroll(1)));
    assert!(same(&events[2], &Event::MouseScroll(2)));
    assert!(same(&events[3], &Event::MouseScroll(3)));
}

#[test]
fn event_submitted_during_a_drain_waits_for_the_next_drain() {
    let log = Rc::new(RefCell::new(Vec::new()));
    let mut system = EventSystem::new();
    system.register_listener(
        EventType::AppUpdate,
        chatty("update", EventEvaluateState::Handled, &log, vec![Event::AppRender]),
    );
    system.register_listener(
        EventType::AppRender,
        recorder("render", EventEvaluateState::Handled, &log),
    );
    system.submit(Event::AppUpdate, EventPriority::Queued);
    system.update();
    assert_eq!(names(&log), vec!["update"]);
    system.update();
    assert_eq!(names(&log), vec!["update", "render"]);
    system.update();
    assert_eq!(names(&log), vec!["update", "render"]);
}

#[test]
fn event_submitted_during_a_blocking_dispatch_is_queued() {
    let log = Rc::new(RefCell::new(Vec::new()));
    let mut system = EventSystem::new();
    system.register_listener(
        EventType::WindowClose,
        chatty("close", EventEvaluateState::Unhandled, &log, vec![Event::AppUpdate]),
    );
    system.register_listener(
        EventType::AppUpdate,
        recorder("update", EventEvaluateState::Handled, &log),
    );
    system.submit(Event::AppRender, EventPriority::Queued);
    system.submit(Event::WindowClose, EventPriority::Blocking);
    assert_eq!(names(&log), vec!["close"]);
    system.update();
    assert_eq!(names(&log), vec!["close", "update"]);
}

#[test]
fn listener_that_answers_itself_is_shown_one_event_per_drain() {
    let log = Rc::new(RefCell::new(Vec::new()));
    let mut system = EventSystem::new();
    system.register_listener(
        EventType::AppUpdate,
        chatty("echo", EventEvaluateState::Handled, &log, vec![Event::AppUpdate]),
    );
    system.submit(Event::AppUpdate, EventPriority::Blocking);
    assert_eq!(log.borrow().len(), 1);
    system.update();
    assert_eq!(log.borrow().len(), 2);
    system.update();
    assert_eq!(log.borrow().len(), 3);
}

#[test]
fn queue_takes_in_an_outbox_behind_what_waits() {
    let mut queue = DeliveryQueue::new();
    queue.enqueue(Event::AppUpdate);
    let mut outbox = Outbox::new();
    outbox.submit(Event::MouseScroll(1));
    outbox.submit(Event::MouseScroll(2));
    queue.take_in(outbox);
    assert_eq!(queue.len(), 3);
    assert!(same(&queue.dequeue().unwrap(), &Event::AppUpdate));
    assert!(same(&queue.dequeue().unwrap(), &Event::MouseScroll(1)));
    assert!(same(&queue.dequeue().unwrap(), &Event::MouseScroll(2)));
}
