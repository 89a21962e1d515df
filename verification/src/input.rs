//! What the input devices report, reduced to what the game reacts to.

use vstd::prelude::*;

verus! {

/// A key of the keyboard. Keys the game has no use for are all `Other`.
#[derive(PartialEq, Eq, Clone, Copy, Debug, Structural)]
pub enum Keycode {
    Escape,
    Return,
    Up,
    Down,
    Left,
    Right,
    H,
    J,
    K,
    L,
    A,
    S,
    W,
    D,
    Other,
}

/// Something that happened at the window or the keyboard.
#[derive(PartialEq, Eq, Clone, Copy, Debug, Structural)]
pub enum Event {
    /// The window was asked to close.
    Quit,
    /// A key was released; the key is missing where the device names none.
    KeyUp { keycode: Option<Keycode> },
    /// Anything else.
    Other,
}

} // verus!
