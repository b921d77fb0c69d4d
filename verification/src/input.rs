//! What the runner asks of the input devices.
//!
//! The library never touches a device. It names keys and buttons by the
//! codes of the input backend, and hands each request to its caller as an
//! [`Invocation`] to carry out.

use vstd::prelude::*;
use crate::scripting::action::{CursorMovementMode, ScrollDirection};

verus! {

/// A keyboard key, by the code under which the input backend knows it.
#[derive(Debug, Clone, Copy, PartialEq, Eq, Hash, Structural)]
pub struct KeyId(pub u64);

/// A mouse button, by the code under which the input backend knows it.
#[derive(Debug, Clone, Copy, PartialEq, Eq, Hash, Structural)]
pub struct ButtonId(pub u32);

/// One request to the input devices, or to the thread that drives them.
#[derive(Debug, Clone, PartialEq)]
pub enum Invocation {
    /// Hold the key down.
    Press(KeyId),
    /// Let the key go.
    Release(KeyId),
    /// Hold the button down.
    PressButton(ButtonId),
    /// Let the button go.
    ReleaseButton(ButtonId),
    /// Move the cursor by, or to, the two coordinates.
    MoveCursor(CursorMovementMode, i32, i32),
    /// Turn the wheel along the axis; a negative amount turns it backwards.
    Scroll(ScrollDirection, i32),
    /// Type the text as it stands.
    TypeText(String),
    /// Let go every key and every button that is reported held down.
    ReleaseAll,
    /// Do nothing for this many nanoseconds.
    Sleep(u64),
}

} // verus!
