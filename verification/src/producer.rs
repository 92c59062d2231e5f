//! What a producer of scenes gets for free: the key bindings that apply where
//! it has none of its own, the window title, the window that a scene's size
//! asks for.

use vstd::prelude::*;
use crate::context::{Context, ViewState};
use crate::geometry::{Rect, Vector};
use crate::input::{ElementState, KeyEvent};
use crate::keys::KeyCode;
use crate::viewport::DEFAULT_SCALE;

verus! {

/// The factor of one step of zooming in: the fifth root of two.
pub const ZOOM_IN_FACTOR: i64 = 75281;

/// The factor of one step of zooming out: one over the fifth root of two.
pub const ZOOM_OUT_FACTOR: i64 = 57052;

/// What a key binding does.
#[derive(Clone, Copy, Debug, PartialEq, Eq, Structural)]
pub enum KeyAction {
    NextPage,
    PrevPage,
    ZoomIn,
    ZoomOut,
    ResetZoom,
}

/// The default bindings. With no modifier held, `PageDown` and `PageUp` turn
/// the page. With the control key held, `1` zooms in, `2` zooms out and `0`
/// goes back to the default zoom. A key binds when it goes down, not when it
/// comes up.
pub open spec fn default_binding(event: KeyEvent) -> Option<KeyAction> {
    if event.state != ElementState::Pressed {
        None
    } else if event.modifiers.none_held() && event.keycode == KeyCode::PageDown {
        Some(KeyAction::NextPage)
    } else if event.modifiers.none_held() && event.keycode == KeyCode::PageUp {
        Some(KeyAction::PrevPage)
    } else if event.modifiers.ctrl && event.keycode == KeyCode::Key1 {
        Some(KeyAction::ZoomIn)
    } else if event.modifiers.ctrl && event.keycode == KeyCode::Key2 {
        Some(KeyAction::ZoomOut)
    } else if event.modifiers.ctrl && event.keycode == KeyCode::Key0 {
        Some(KeyAction::ResetZoom)
    } else {
        None
    }
}

/// The state after `action`.
pub open spec fn perform(state: ViewState, action: KeyAction) -> ViewState {
    match action {
        KeyAction::NextPage => state.next_page(),
        KeyAction::PrevPage => state.prev_page(),
        KeyAction::ZoomIn => state.zoom_by(ZOOM_IN_FACTOR),
        KeyAction::ZoomOut => state.zoom_by(ZOOM_OUT_FACTOR),
        KeyAction::ResetZoom => state.set_zoom(DEFAULT_SCALE),
    }
}

/// The window that a scene of view box `view_box` asks for: one of the view
/// box's size, unless that is nothing at all.
pub open spec fn size_hint(view_box: Rect) -> Option<Vector> {
    let size = view_box.lower_right.minus(view_box.origin);
    if size.x == 0 && size.y == 0 {
        None
    } else {
        Some(size)
    }
}

/// The rectangle that a scene's content covers: its view box or, where that
/// is the default rectangle, the bounds of what is drawn in it.
pub open spec fn content_rect(view_box: Rect, drawn: Rect) -> Rect {
    if view_box == (Rect { origin: Vector { x: 0, y: 0 }, lower_right: Vector { x: 0, y: 0 } }) {
        drawn
    } else {
        view_box
    }
}

/// Finds the default binding of a key event.
pub fn find_default_binding(event: &KeyEvent) -> (r: Option<KeyAction>)
    ensures
        r == default_binding(*event),
{
    if event.state != ElementState::Pressed {
        None
    } else if event.modifiers.is_empty() && event.keycode == KeyCode::PageDown {
        Some(KeyAction::NextPage)
    } else if event.modifiers.is_empty() && event.keycode == KeyCode::PageUp {
        Some(KeyAction::PrevPage)
    } else if event.modifiers.ctrl && event.keycode == KeyCode::Key1 {
        Some(KeyAction::ZoomIn)
    } else if event.modifiers.ctrl && event.keycode == KeyCode::Key2 {
        Some(KeyAction::ZoomOut)
    } else if event.modifiers.ctrl && event.keycode == KeyCode::Key0 {
        Some(KeyAction::ResetZoom)
    } else {
        None
    }
}

/// Handles a key event as a producer without bindings of its own does: where
/// the key has a default binding, does what it says and cancels the event;
/// where it has none, changes nothing.
pub fn keyboard_input(ctx: &mut Context, event: &mut KeyEvent)
    ensures
        match default_binding(*old(event)) {
            Some(action) => {
                &&& final(ctx)@ == perform(old(ctx)@, action)
                &&& *final(event) == (KeyEvent { cancelled: true, ..*old(event) })
            },
            None => {
                &&& final(ctx)@ == old(ctx)@
                &&& *final(event) == *old(event)
            },
        },
{
    match find_default_binding(event) {
        Some(action) => {
            match action {
                KeyAction::NextPage => ctx.next_page(),
                KeyAction::PrevPage => ctx.prev_page(),
                KeyAction::ZoomIn => ctx.zoom_by(ZOOM_IN_FACTOR),
                KeyAction::ZoomOut => ctx.zoom_by(ZOOM_OUT_FACTOR),
                KeyAction::ResetZoom => ctx.set_zoom(DEFAULT_SCALE),
            }
            event.cancelled = true;
        },
        None => {},
    }
}

/// The title of a window whose producer names none.
pub fn title() -> (r: String)
    ensures
        r@ == "A fantastic window!"@,
{
    "A fantastic window!".to_owned()
}

/// The window that a scene of view box `view_box` asks for.
pub fn window_size_hint(view_box: Rect) -> (r: Option<Vector>)
    ensures
        r == size_hint(view_box),
{
    let size: Vector = view_box.size();
    if size.is_zero() {
        None
    } else {
        Some(size)
    }
}

/// The rectangle that a scene's content covers.
pub fn view_box(declared: Rect, drawn: Rect) -> (r: Rect)
    ensures
        r == content_rect(declared, drawn),
{
    if declared.is_default() {
        drawn
    } else {
        declared
    }
}

} // verus!
