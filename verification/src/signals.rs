//! Signals from the platform in plain values, and the submission that each
//! of them leads to.

use vstd::prelude::*;

use crate::events::event::Event;
use crate::events::keyboard::{KeyState, Keycode};
use crate::events::mouse::MouseButton;
use crate::events::queue::EventPriority;

verus! {

/// What a window reports, in plain values.
#[derive(Debug, Clone, Copy)]
pub enum WindowSignal {
    /// A key was pressed or released. `key` is `None` where the platform
    /// could not say which key it was.
    KeyboardInput { key: Option<Keycode>, pressed: bool, repeat: bool },
    /// A pointer button was pressed or released. `button` is `None` for a
    /// button that the catalog does not know.
    MouseInput { button: Option<MouseButton>, pressed: bool },
    /// The window has a new size.
    Resized { width: u32, height: u32 },
    /// The window gained (`true`) or lost (`false`) the input focus.
    Focused(bool),
    /// The user asked for the window to be closed.
    CloseRequested,
    /// Anything else.
    Other,
}

/// What an input device reports, in plain values. Amounts are
/// single-precision bit patterns.
#[derive(Debug, Clone, Copy)]
pub enum DeviceSignal {
    /// The pointer moved.
    MouseMotion { horizontal: u32, vertical: u32 },
    /// The wheel turned by a number of lines.
    MouseWheelLines { vertical: u32 },
    /// Anything else.
    Other,
}

/// The state that a key or button event reports.
pub open spec fn key_state(pressed: bool, repeat: bool) -> KeyState {
    if !pressed {
        KeyState::Up
    } else if repeat {
        KeyState::Repeat
    } else {
        KeyState::Down
    }
}

/// The submission that a window signal leads to, or `None` where the signal
/// is discarded. Key and button events are queued; a change of size or of
/// focus and a request to close are dispatched at once.
pub open spec fn window_submission(signal: WindowSignal) -> Option<(Event, EventPriority)> {
    match signal {
        WindowSignal::KeyboardInput { key: Some(key), pressed, repeat } => Some(
            (Event::KeyboardEvent(key, key_state(pressed, repeat)), EventPriority::Queued),
        ),
        WindowSignal::MouseInput { button: Some(button), pressed } => Some(
            (Event::MouseEvent(button, key_state(pressed, false)), EventPriority::Queued),
        ),
        WindowSignal::Resized { width, height } => Some(
            (Event::WindowResize((width, height)), EventPriority::Blocking),
        ),
        WindowSignal::Focused(true) => Some((Event::WindowFocus, EventPriority::Blocking)),
        WindowSignal::Focused(false) => Some((Event::WindowLoseFocus, EventPriority::Blocking)),
        WindowSignal::CloseRequested => Some((Event::WindowClose, EventPriority::Blocking)),
        _ => None,
    }
}

/// The submission that a device signal leads to, or `None` where the signal
/// is discarded. Motion and scrolling are queued.
pub open spec fn device_submission(signal: DeviceSignal) -> Option<(Event, EventPriority)> {
    match signal {
        DeviceSignal::MouseMotion { horizontal, vertical } => Some(
            (Event::MouseMotion((horizontal, vertical)), EventPriority::Queued),
        ),
        DeviceSignal::MouseWheelLines { vertical } => Some(
            (Event::MouseScroll(vertical), EventPriority::Queued),
        ),
        DeviceSignal::Other => None,
    }
}

/// Computes `key_state`.
pub fn translate_key_state(pressed: bool, repeat: bool) -> (state: KeyState)
    ensures
        state == key_state(pressed, repeat),
{
    if !pressed {
        KeyState::Up
    } else if repeat {
        KeyState::Repeat
    } else {
        KeyState::Down
    }
}

/// Computes `window_submission`.
pub fn translate_window_signal(signal: WindowSignal) -> (submission: Option<
    (Event, EventPriority),
>)
    ensures
        submission == window_submission(signal),
{
    match signal {
        WindowSignal::KeyboardInput { key, pressed, repeat } => match key {
            Some(key) => Some(
                (
                    Event::KeyboardEvent(key, translate_key_state(pressed, repeat)),
                    EventPriority::Queued,
                ),
            ),
            None => None,
        },
        WindowSignal::MouseInput { button, pressed } => match button {
            Some(button) => Some(
                (
                    Event::MouseEvent(button, translate_key_state(pressed, false)),
                    EventPriority::Queued,
                ),
            ),
            None => None,
        },
        WindowSignal::Resized { width, height } => Some(
            (Event::WindowResize((width, height)), EventPriority::Blocking),
        ),
        WindowSignal::Focused(focused) => if focused {
            Some((Event::WindowFocus, EventPriority::Blocking))
        } else {
            Some((Event::WindowLoseFocus, EventPriority::Blocking))
        },
        WindowSignal::CloseRequested => Some((Event::WindowClose, EventPriority::Blocking)),
        WindowSignal::Other => None,
    }
}

/// Computes `device_submission`.
pub fn translate_device_signal(signal: DeviceSignal) -> (submission: Option<
    (Event, EventPriority),
>)
    ensures
        submission == device_submission(signal),
{
    match signal {
        DeviceSignal::MouseMotion { horizontal, vertical } => Some(
            (Event::MouseMotion((horizontal, vertical)), EventPriority::Queued),
        ),
        DeviceSignal::MouseWheelLines { vertical } => Some(
            (Event::MouseScroll(vertical), EventPriority::Queued),
        ),
        DeviceSignal::Other => None,
    }
}

} // verus!
