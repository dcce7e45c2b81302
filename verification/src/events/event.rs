//! The event catalog: one payload type per kind, the closed union of all of
//! them, and the kind of an event as a value of its own.

use vstd::prelude::*;
use vstd::std_specs::cmp::PartialEqSpecImpl;

use super::keyboard::{KeyState, Keycode};
use super::mouse::MouseButton;

verus! {

/// The kind of an event: the sole key by which listeners are found.
#[derive(Debug, PartialEq, Eq, Clone, Copy, Hash, Structural)]
pub enum EventType {
    KeyboardEvent,
    MouseEvent,
    MouseMotion,
    MouseScroll,
    AppUpdate,
    AppRender,
    WindowFocus,
    WindowLoseFocus,
    WindowResize,
    WindowClose,
}

/// The number of kinds in the catalog.
pub const KIND_COUNT: u8 = 10;

impl EventType {
    /// The position of the kind in the catalog, counted from zero.
    pub open spec fn index(self) -> u8 {
        match self {
            EventType::KeyboardEvent => 0u8,
            EventType::MouseEvent => 1u8,
            EventType::MouseMotion => 2u8,
            EventType::MouseScroll => 3u8,
            EventType::AppUpdate => 4u8,
            EventType::AppRender => 5u8,
            EventType::WindowFocus => 6u8,
            EventType::WindowLoseFocus => 7u8,
            EventType::WindowResize => 8u8,
            EventType::WindowClose => 9u8,
        }
    }

    /// Computes `index`.
    pub fn number(self) -> (n: u8)
        ensures
            n == self.index(),
            n < KIND_COUNT,
    {
        match self {
            EventType::KeyboardEvent => 0,
            EventType::MouseEvent => 1,
            EventType::MouseMotion => 2,
            EventType::MouseScroll => 3,
            EventType::AppUpdate => 4,
            EventType::AppRender => 5,
            EventType::WindowFocus => 6,
            EventType::WindowLoseFocus => 7,
            EventType::WindowResize => 8,
            EventType::WindowClose => 9,
        }
    }

    /// No two kinds share a position.
    pub proof fn lemma_index_injective(a: EventType, b: EventType)
        requires
            a.index() == b.index(),
        ensures
            a == b,
    {
    }
}

/// One occurrence of one kind, with the payload of that kind.
///
/// Pointer motion and scroll amounts are carried as the bit patterns of
/// IEEE 754 single-precision numbers; the engine moves them and never
/// computes with them.
///
/// `==` on events compares their kinds only: two key presses are equal as
/// events whichever key they name. Contracts that need the payload too use
/// spec equality on the value.
#[derive(Debug, Clone, Copy)]
pub enum Event {
    /// A key changed state.
    KeyboardEvent(Keycode, KeyState),
    /// A pointer button changed state.
    MouseEvent(MouseButton, KeyState),
    /// The pointer moved by the given horizontal and vertical amounts.
    MouseMotion((u32, u32)),
    /// The wheel turned by the given number of lines.
    MouseScroll(u32),
    /// The application is about to update its state.
    AppUpdate,
    /// The application is about to draw a frame.
    AppRender,
    /// The window gained the input focus.
    WindowFocus,
    /// The window lost the input focus.
    WindowLoseFocus,
    /// The window now has the given width and height.
    WindowResize((u32, u32)),
    /// The user asked for the window to be closed.
    WindowClose,
}

impl Event {
    /// The kind of the event. It depends on the variant alone, never on the
    /// payload.
    pub open spec fn kind(self) -> EventType {
        match self {
            Event::KeyboardEvent(_, _) => EventType::KeyboardEvent,
            Event::MouseEvent(_, _) => EventType::MouseEvent,
            Event::MouseMotion(_) => EventType::MouseMotion,
            Event::MouseScroll(_) => EventType::MouseScroll,
            Event::AppUpdate => EventType::AppUpdate,
            Event::AppRender => EventType::AppRender,
            Event::WindowFocus => EventType::WindowFocus,
            Event::WindowLoseFocus => EventType::WindowLoseFocus,
            Event::WindowResize(_) => EventType::WindowResize,
            Event::WindowClose => EventType::WindowClose,
        }
    }

    /// Classifies the event.
    pub fn as_type(&self) -> (kind: EventType)
        ensures
            kind == self.kind(),
    {
        match self {
            Event::KeyboardEvent(_, _) => EventType::KeyboardEvent,
            Event::MouseEvent(_, _) => EventType::MouseEvent,
            Event::MouseMotion(_) => EventType::MouseMotion,
            Event::MouseScroll(_) => EventType::MouseScroll,
            Event::AppUpdate => EventType::AppUpdate,
            Event::AppRender => EventType::AppRender,
            Event::WindowFocus => EventType::WindowFocus,
            Event::WindowLoseFocus => EventType::WindowLoseFocus,
            Event::WindowResize(_) => EventType::WindowResize,
            Event::WindowClose => EventType::WindowClose,
        }
    }
}

impl PartialEq for Event {
    fn eq(&self, other: &Self) -> (equal: bool) {
        self.as_type() == other.as_type()
    }
}

impl Eq for Event {

}

impl PartialEqSpecImpl for Event {
    open spec fn obeys_eq_spec() -> bool {
        true
    }

    open spec fn eq_spec(&self, other: &Self) -> bool {
        self.kind() == other.kind()
    }
}

/// A payload type of the catalog. Each such type belongs to exactly one
/// kind, whatever its fields hold.
pub trait EventMarker {
    /// The kind that every value of this type has.
    spec fn kind() -> EventType where Self: Sized;

    /// The catalog entry that this value stands for.
    spec fn event(self) -> Event where Self: Sized;

    /// Classification does not look at the payload.
    proof fn lemma_kind(self) where Self: Sized
        ensures
            self.event().kind() == Self::kind(),
    ;

    /// Computes `kind`.
    fn event_type() -> (kind: EventType) where Self: Sized
        ensures
            kind == Self::kind(),
    ;

    /// Moves the payload into the catalog's union.
    fn into_event(self) -> (event: Event) where Self: Sized
        ensures
            event == self.event(),
    ;
}

/// A key changed state.
#[derive(Debug, Clone, Copy)]
pub struct KeyboardEvent(pub Keycode, pub KeyState);

/// A pointer button changed state.
#[derive(Debug, Clone, Copy)]
pub struct MouseEvent(pub MouseButton, pub KeyState);

/// The pointer moved; the two amounts are single-precision bit patterns.
#[derive(Debug, Clone, Copy)]
pub struct MouseMotion(pub (u32, u32));

/// The wheel turned; the amount is a single-precision bit pattern.
#[derive(Debug, Clone, Copy)]
pub struct MouseScroll(pub u32);

/// The application is about to update its state.
#[derive(Debug, Clone, Copy)]
pub struct AppUpdate;

/// The application is about to draw a frame.
#[derive(Debug, Clone, Copy)]
pub struct AppRender;

/// The window gained the input focus.
#[derive(Debug, Clone, Copy)]
pub struct WindowFocus;

/// The window lost the input focus.
#[derive(Debug, Clone, Copy)]
pub struct WindowLoseFocus;

/// The window was resized to the given width and height.
#[derive(Debug, Clone, Copy)]
pub struct WindowResize(pub (u32, u32));

/// The user asked for the window to be closed.
#[derive(Debug, Clone, Copy)]
pub struct WindowClose;

impl EventMarker for KeyboardEvent {
    open spec fn kind() -> EventType {
        EventType::KeyboardEvent
    }

    fn event_type() -> (kind: EventType) {
        EventType::KeyboardEvent
    }

    open spec fn event(self) -> Event {
        Event::KeyboardEvent(self.0, self.1)
    }

    proof fn lemma_kind(self) {
    }

    fn into_event(self) -> (event: Event) {
        Event::KeyboardEvent(self.0, self.1)
    }
}

impl EventMarker for MouseEvent {
    open spec fn kind() -> EventType {
        EventType::MouseEvent
    }

    fn event_type() -> (kind: EventType) {
        EventType::MouseEvent
    }

    open spec fn event(self) -> Event {
        Event::MouseEvent(self.0, self.1)
    }

    proof fn lemma_kind(self) {
    }

    fn into_event(self) -> (event: Event) {
        Event::MouseEvent(self.0, self.1)
    }
}

impl EventMarker for MouseMotion {
    open spec fn kind() -> EventType {
        EventType::MouseMotion
    }

    fn event_type() -> (kind: EventType) {
        EventType::MouseMotion
    }

    open spec fn event(self) -> Event {
        Event::MouseMotion(self.0)
    }

    proof fn lemma_kind(self) {
    }

    fn into_event(self) -> (event: Event) {
        Event::MouseMotion(self.0)
    }
}

impl EventMarker for MouseScroll {
    open spec fn kind() -> EventType {
        EventType::MouseScroll
    }

    fn event_type() -> (kind: EventType) {
        EventType::MouseScroll
    }

    open spec fn event(self) -> Event {
        Event::MouseScroll(self.0)
    }

    proof fn lemma_kind(self) {
    }

    fn into_event(self) -> (event: Event) {
        Event::MouseScroll(self.0)
    }
}

impl EventMarker for AppUpdate {
    open spec fn kind() -> EventType {
        EventType::AppUpdate
    }

    fn event_type() -> (kind: EventType) {
        EventType::AppUpdate
    }

    open spec fn event(self) -> Event {
        Event::AppUpdate
    }

    proof fn lemma_kind(self) {
    }

    fn into_event(self) -> (event: Event) {
        Event::AppUpdate
    }
}

impl EventMarker for AppRender {
    open spec fn kind() -> EventType {
        EventType::AppRender
    }

    fn event_type() -> (kind: EventType) {
        EventType::AppRender
    }

    open spec fn event(self) -> Event {
        Event::AppRender
    }

    proof fn lemma_kind(self) {
    }

    fn into_event(self) -> (event: Event) {
        Event::AppRender
    }
}

impl EventMarker for WindowFocus {
    open spec fn kind() -> EventType {
        EventType::WindowFocus
    }

    fn event_type() -> (kind: EventType) {
        EventType::WindowFocus
    }

    open spec fn event(self) -> Event {
        Event::WindowFocus
    }

    proof fn lemma_kind(self) {
    }

    fn into_event(self) -> (event: Event) {
        Event::WindowFocus
    }
}

impl EventMarker for WindowLoseFocus {
    open spec fn kind() -> EventType {
        EventType::WindowLoseFocus
    }

    fn event_type() -> (kind: EventType) {
        EventType::WindowLoseFocus
    }

    open spec fn event(self) -> Event {
        Event::WindowLoseFocus
    }

    proof fn lemma_kind(self) {
    }

    fn into_event(self) -> (event: Event) {
        Event::WindowLoseFocus
    }
}

impl EventMarker for WindowResize {
    open spec fn kind() -> EventType {
        EventType::WindowResize
    }

    fn event_type() -> (kind: EventType) {
        EventType::WindowResize
    }

    open spec fn event(self) -> Event {
        Event::WindowResize(self.0)
    }

    proof fn lemma_kind(self) {
    }

    fn into_event(self) -> (event: Event) {
        Event::WindowResize(self.0)
    }
}

impl EventMarker for WindowClose {
    open spec fn kind() -> EventType {
        EventType::WindowClose
    }

    fn event_type() -> (kind: EventType) {
        EventType::WindowClose
    }

    open spec fn event(self) -> Event {
        Event::WindowClose
    }

    proof fn lemma_kind(self) {
    }

    fn into_event(self) -> (event: Event) {
        Event::WindowClose
    }
}

} // verus!
