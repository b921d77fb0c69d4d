//! The actions that a macro is made of.

use vstd::prelude::*;
use crate::input::{ButtonId, Invocation, KeyId};
use crate::time::{Delay, DelayView};

verus! {

/// The axis along which the wheel turns.
#[derive(Debug, Clone, Copy, PartialEq, Eq, Structural)]
pub enum ScrollDirection {
    X,
    Y,
}

/// Whether a cursor movement is counted from where the cursor is or from
/// the origin of the screen.
#[derive(Debug, Clone, Copy, PartialEq, Eq, Structural)]
pub enum CursorMovementMode {
    Relative,
    Absolute,
}

/// One step of a macro.
#[derive(Debug, PartialEq)]
pub enum Action {
    /// Let the delay pass.
    Wait(Delay),
    /// Hold a key down.
    KeyPress(KeyId),
    /// Let a key go.
    KeyRelease(KeyId),
    /// Move the cursor by, or to, the two coordinates.
    MouseMove(CursorMovementMode, i32, i32),
    /// Hold a mouse button down.
    ButtonPress(ButtonId),
    /// Let a mouse button go.
    ButtonRelease(ButtonId),
    /// Turn the wheel along an axis; a negative amount turns it backwards.
    Scroll(ScrollDirection, i32),
    /// Type a text as it stands.
    TypeText(String),
    /// End the run.
    Stop,
}

/// An action with its delay, if it has one, taken by its view.
pub enum ActionView {
    Wait(DelayView),
    KeyPress(KeyId),
    KeyRelease(KeyId),
    MouseMove(CursorMovementMode, i32, i32),
    ButtonPress(ButtonId),
    ButtonRelease(ButtonId),
    Scroll(ScrollDirection, i32),
    TypeText(String),
    Stop,
}

impl ActionView {
    /// The request to the input devices that the action consists of. A wait
    /// makes none; a stop asks for every key and button to be let go.
    pub open spec fn invocation(self) -> Option<Invocation> {
        match self {
            ActionView::Wait(_) => None,
            ActionView::KeyPress(key) => Some(Invocation::Press(key)),
            ActionView::KeyRelease(key) => Some(Invocation::Release(key)),
            ActionView::MouseMove(mode, dx, dy) => Some(Invocation::MoveCursor(mode, dx, dy)),
            ActionView::ButtonPress(button) => Some(Invocation::PressButton(button)),
            ActionView::ButtonRelease(button) => Some(Invocation::ReleaseButton(button)),
            ActionView::Scroll(direction, amount) => Some(Invocation::Scroll(direction, amount)),
            ActionView::TypeText(text) => Some(Invocation::TypeText(text)),
            ActionView::Stop => Some(Invocation::ReleaseAll),
        }
    }

    /// Whether the action is neither a wait nor a stop: carrying it out is
    /// one request to the input devices and nothing else.
    pub open spec fn is_plain(self) -> bool {
        !(self is Wait) && !(self is Stop)
    }
}

impl View for Action {
    type V = ActionView;

    open spec fn view(&self) -> ActionView {
        match *self {
            Action::Wait(delay) => ActionView::Wait(delay@),
            Action::KeyPress(key) => ActionView::KeyPress(key),
            Action::KeyRelease(key) => ActionView::KeyRelease(key),
            Action::MouseMove(mode, dx, dy) => ActionView::MouseMove(mode, dx, dy),
            Action::ButtonPress(button) => ActionView::ButtonPress(button),
            Action::ButtonRelease(button) => ActionView::ButtonRelease(button),
            Action::Scroll(direction, amount) => ActionView::Scroll(direction, amount),
            Action::TypeText(text) => ActionView::TypeText(text),
            Action::Stop => ActionView::Stop,
        }
    }
}

impl Clone for Action {
    /// A copy that equals the action in everything.
    fn clone(&self) -> (copy: Action)
        ensures
            copy == *self,
    {
        match self {
            Action::Wait(delay) => Action::Wait(*delay),
            Action::KeyPress(key) => Action::KeyPress(*key),
            Action::KeyRelease(key) => Action::KeyRelease(*key),
            Action::MouseMove(mode, dx, dy) => Action::MouseMove(*mode, *dx, *dy),
            Action::ButtonPress(button) => Action::ButtonPress(*button),
            Action::ButtonRelease(button) => Action::ButtonRelease(*button),
            Action::Scroll(direction, amount) => Action::Scroll(*direction, *amount),
            Action::TypeText(text) => Action::TypeText(text.clone()),
            Action::Stop => Action::Stop,
        }
    }
}

impl Action {
    /// The request to the input devices that the action consists of.
    pub fn invocation(&self) -> (request: Option<Invocation>)
        ensures
            request == self@.invocation(),
    {
        match self {
            Action::Wait(_) => None,
            Action::KeyPress(key) => Some(Invocation::Press(*key)),
            Action::KeyRelease(key) => Some(Invocation::Release(*key)),
            Action::MouseMove(mode, dx, dy) => Some(Invocation::MoveCursor(*mode, *dx, *dy)),
            Action::ButtonPress(button) => Some(Invocation::PressButton(*button)),
            Action::ButtonRelease(button) => Some(Invocation::ReleaseButton(*button)),
            Action::Scroll(direction, amount) => Some(Invocation::Scroll(*direction, *amount)),
            Action::TypeText(text) => Some(Invocation::TypeText(text.clone())),
            Action::Stop => Some(Invocation::ReleaseAll),
        }
    }
}

/// The views of the actions of a list, in the order of the list.
pub open spec fn action_views(actions: Seq<Action>) -> Seq<ActionView> {
    actions.map_values(|action: Action| action@)
}

} // verus!
