//! Buttons of the pointing device.

use vstd::prelude::*;

verus! {

/// A button of a pointing device.
#[derive(Debug, PartialEq, Eq, Clone, Copy, Hash, Structural)]
pub enum MouseButton {
    Left,
    Right,
    Middle,
    Forward,
    Back,
}

} // verus!
