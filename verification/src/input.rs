//! What a window system reports, in a form that belongs to no window system.

use vstd::prelude::*;
use crate::geometry::Vector;
use crate::keys::KeyCode;

verus! {

/// Whether a key or a button went down or came up.
#[derive(Clone, Copy, Debug, PartialEq, Eq, Structural)]
pub enum ElementState {
    Pressed,
    Released,
}

/// The modifier keys that are held.
#[derive(Clone, Copy, Debug, PartialEq, Eq, Structural)]
pub struct Modifiers {
    pub shift: bool,
    pub ctrl: bool,
    pub alt: bool,
    pub meta: bool,
}

/// A button of the mouse.
#[derive(Clone, Copy, Debug, PartialEq, Eq, Structural)]
pub enum MouseButton {
    Left,
    Right,
    Middle,
    Other(u16),
}

/// How far the wheel was turned.
#[derive(Clone, Copy, Debug, PartialEq, Eq, Structural)]
pub enum ScrollDelta {
    /// In lines or notches.
    Lines(Vector),
    /// In pixels.
    Pixels(Vector),
}

/// A key going down or coming up. A handler that has acted on the event sets
/// `cancelled`, so that nothing else acts on it.
#[derive(Clone, Copy, Debug, PartialEq, Eq, Structural)]
pub struct KeyEvent {
    pub state: ElementState,
    pub modifiers: Modifiers,
    pub keycode: KeyCode,
    pub cancelled: bool,
}

/// Something that happened to the window.
#[derive(Clone, Copy, Debug, PartialEq, Eq, Structural)]
pub enum WindowEvent {
    /// The window has a new size.
    Resized(Vector),
    /// The window gained or lost the focus.
    Focused,
    /// The window moved to a display of another pixel density.
    ScaleFactorChanged { scale_factor: i64, size: Vector },
    ModifiersChanged(Modifiers),
    KeyboardInput { keycode: KeyCode, state: ElementState },
    /// A character was typed.
    CharInput(char),
    /// The pointer is at this place of the window now.
    CursorMoved(Vector),
    MouseInput { button: MouseButton, state: ElementState },
    MouseWheel(ScrollDelta),
    CloseRequested,
}

/// One event of the event pump.
#[derive(Clone, Copy, Debug, PartialEq, Eq, Structural)]
pub enum Event {
    /// The pump has started.
    Init,
    /// The wake-up that was asked for has come.
    Timer,
    /// The window system wants the window painted.
    Repaint,
    /// The application sent an event of its own; the caller holds what it
    /// carries.
    App,
    /// All pending events have been handled.
    Idle,
    Window(WindowEvent),
}

impl Modifiers {
    /// Whether no modifier is held.
    pub open spec fn none_held(self) -> bool {
        !self.shift && !self.ctrl && !self.alt && !self.meta
    }

    /// No modifier held.
    pub fn none() -> (r: Modifiers)
        ensures
            r == (Modifiers { shift: false, ctrl: false, alt: false, meta: false }),
    {
        Modifiers { shift: false, ctrl: false, alt: false, meta: false }
    }

    /// Whether no modifier is held.
    pub fn is_empty(&self) -> (r: bool)
        ensures
            r == self.none_held(),
    {
        !self.shift && !self.ctrl && !self.alt && !self.meta
    }
}

impl KeyEvent {
    /// An event that nothing has acted on yet.
    pub fn new(state: ElementState, modifiers: Modifiers, keycode: KeyCode) -> (r: KeyEvent)
        ensures
            r == (KeyEvent { state, modifiers, keycode, cancelled: false }),
    {
        KeyEvent { state, modifiers, keycode, cancelled: false }
    }
}

} // verus!
