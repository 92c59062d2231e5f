//! The decisions of the event loop: what one event does to the session, which
//! callback of the producer it is for, and what is to be done before the loop
//! waits for the next event. The loop itself, which waits, calls the producer
//! and paints, belongs to the caller.

use vstd::prelude::*;
use crate::config::Config;
use crate::context::{Context, ViewState};
use crate::fixed::{mul_div, mul_div_floor, saturate, saturated, ONE};
use crate::geometry::Vector;
use crate::input::{ElementState, Event, KeyEvent, Modifiers, MouseButton, ScrollDelta, WindowEvent};
use crate::transform::ViewTransform;

verus! {

/// How many units of wheel movement halve or double the zoom.
pub const WHEEL_UNITS_PER_OCTAVE: i64 = 50;

/// What the loop remembers between two events.
#[derive(Clone, Copy, Debug, PartialEq, Eq, Structural)]
pub struct Driver {
    /// Where the pointer was last seen, in window coordinates.
    pub cursor_pos: Vector,
    /// Whether a drag is under way.
    pub dragging: bool,
    /// The modifier keys that are held.
    pub modifiers: Modifiers,
}

/// The callback of the producer that an event is for.
#[derive(Clone, Copy, Debug, PartialEq, Eq, Structural)]
pub enum Reaction {
    /// The event is for no callback.
    Nothing,
    KeyboardInput(KeyEvent),
    CharInput(char),
    /// A button went down or came up over the point `position` of the scene.
    MouseInput { page: usize, position: Vector, state: ElementState },
    /// The pointer is at this place of the window.
    CursorMoved(Vector),
    /// The application's own event.
    AppEvent,
    Idle,
    /// The wheel asks to zoom: the caller raises two to the power of
    /// `log2_factor` and zooms by the result.
    Zoom { log2_factor: i64 },
}

/// What is to be done next, before the loop waits again.
#[derive(Clone, Copy, Debug, PartialEq, Eq, Structural)]
pub enum Action {
    /// Ask the producer for the scene, then report it with `scene_fetched`.
    FetchScene,
    /// Resize the backend to `window_size` and paint the scene through
    /// `transform`, then report it with `presented`.
    Present { window_size: Vector, transform: ViewTransform },
    /// End the loop.
    Exit,
    /// Wait for the next event, for no longer than `timeout` milliseconds
    /// where there is one.
    Wait { timeout: Option<u64> },
}

/// The outcome of one event.
pub struct Step {
    pub driver: Driver,
    pub state: ViewState,
    pub reaction: Reaction,
}

/// The delta of a wheel event in scene-independent units: what was turned,
/// times the session's factor for its kind.
pub open spec fn scroll_amount(state: ViewState, delta: ScrollDelta) -> Vector {
    match delta {
        ScrollDelta::Pixels(v) => v.times(state.pixel_scroll_factor),
        ScrollDelta::Lines(v) => v.times(state.line_scroll_factor),
    }
}

/// The pan that a movement of `delta` in the window asks for: against the
/// movement, in scene units.
pub open spec fn pan_for(state: ViewState, delta: Vector) -> Vector {
    delta.scaled(-(ONE as int), state.view.scale as int)
}

/// The power of two that a wheel movement of `amount` zooms by.
pub open spec fn zoom_exponent(amount: int) -> int {
    saturated(mul_div(amount, -1, WHEEL_UNITS_PER_OCTAVE as int))
}

/// What a window event does.
pub open spec fn window_step(driver: Driver, state: ViewState, event: WindowEvent) -> Step {
    match event {
        WindowEvent::Resized(size) => Step {
            driver,
            state: state.set_window_size(size),
            reaction: Reaction::Nothing,
        },
        WindowEvent::Focused => Step {
            driver,
            state: state.request_redraw(),
            reaction: Reaction::Nothing,
        },
        WindowEvent::ScaleFactorChanged { scale_factor, size } => Step {
            driver,
            state: state.set_scale_factor(scale_factor).set_window_size(size),
            reaction: Reaction::Nothing,
        },
        WindowEvent::ModifiersChanged(modifiers) => Step {
            driver: Driver { modifiers, ..driver },
            state,
            reaction: Reaction::Nothing,
        },
        WindowEvent::KeyboardInput { keycode, state: key_state } => Step {
            driver,
            state,
            reaction: Reaction::KeyboardInput(
                KeyEvent {
                    state: key_state,
                    modifiers: driver.modifiers,
                    keycode,
                    cancelled: false,
                },
            ),
        },
        WindowEvent::CharInput(c) => Step { driver, state, reaction: Reaction::CharInput(c) },
        WindowEvent::CursorMoved(position) => {
            let moved = Driver { cursor_pos: position, ..driver };
            if driver.dragging {
                Step {
                    driver: moved,
                    state: state.move_by(pan_for(state, position.minus(driver.cursor_pos))),
                    reaction: Reaction::Nothing,
                }
            } else {
                Step { driver: moved, state, reaction: Reaction::CursorMoved(position) }
            }
        },
        WindowEvent::MouseInput { button, state: button_state } => {
            if button != MouseButton::Left {
                Step { driver, state, reaction: Reaction::Nothing }
            } else if button_state == ElementState::Pressed && driver.modifiers.shift
                && state.config.pan {
                Step {
                    driver: Driver { dragging: true, ..driver },
                    state,
                    reaction: Reaction::Nothing,
                }
            } else if button_state == ElementState::Released && driver.dragging {
                Step {
                    driver: Driver { dragging: false, ..driver },
                    state,
                    reaction: Reaction::Nothing,
                }
            } else {
                Step {
                    driver,
                    state,
                    reaction: Reaction::MouseInput {
                        page: state.page_nr as usize,
                        position: state.view.transform(state.config.pan).scene_of(
                            driver.cursor_pos,
                        ),
                        state: button_state,
                    },
                }
            }
        },
        WindowEvent::MouseWheel(delta) => {
            let amount = scroll_amount(state, delta);
            if state.config.zoom && driver.modifiers.ctrl {
                Step {
                    driver,
                    state,
                    reaction: Reaction::Zoom { log2_factor: zoom_exponent(amount.y as int) as i64 },
                }
            } else if state.config.pan {
                Step {
                    driver,
                    state: state.move_by(pan_for(state, amount)),
                    reaction: Reaction::Nothing,
                }
            } else {
                Step { driver, state, reaction: Reaction::Nothing }
            }
        },
        WindowEvent::CloseRequested => Step {
            driver,
            state: state.close(),
            reaction: Reaction::Nothing,
        },
    }
}

/// What an event does: to what the loop remembers, to the session, and which
/// callback of the producer it is for.
pub open spec fn step(driver: Driver, state: ViewState, event: Event) -> Step {
    match event {
        Event::Init => Step { driver, state, reaction: Reaction::Nothing },
        Event::Timer => Step { driver, state: state.request_redraw(), reaction: Reaction::Nothing },
        Event::Repaint => Step {
            driver,
            state: state.request_redraw(),
            reaction: Reaction::Nothing,
        },
        Event::App => Step { driver, state, reaction: Reaction::AppEvent },
        Event::Idle => Step { driver, state, reaction: Reaction::Idle },
        Event::Window(event) => window_step(driver, state, event),
    }
}

/// What is to be done next in `state`: a stale scene is fetched before
/// anything is painted, a repaint that is due comes before the end of the
/// session, and the loop waits only when nothing is left to do.
pub open spec fn next_action_in(state: ViewState) -> Action {
    if state.scene_stale {
        Action::FetchScene
    } else if state.redraw_requested {
        Action::Present {
            window_size: state.view.window_size,
            transform: state.view.transform(state.config.pan),
        }
    } else if state.close_requested {
        Action::Exit
    } else {
        Action::Wait { timeout: state.update_interval }
    }
}

/// The session as it stands when the loop starts: on a display of pixel
/// density `scale_factor`, in a window of size `window_size`.
pub open spec fn started(
    config: Config,
    pixel_scroll_factor: Vector,
    line_scroll_factor: Vector,
    scale_factor: i64,
    window_size: Vector,
) -> ViewState {
    ViewState::initial(config, pixel_scroll_factor, line_scroll_factor).set_scale_factor(
        scale_factor,
    ).set_window_size(window_size)
}

impl Driver {
    /// A loop that has seen no event: the pointer at the origin, no drag, no
    /// modifier held.
    pub fn new() -> (r: Driver)
        ensures
            r == (Driver {
                cursor_pos: Vector { x: 0, y: 0 },
                dragging: false,
                modifiers: Modifiers { shift: false, ctrl: false, alt: false, meta: false },
            }),
    {
        Driver { cursor_pos: Vector::zero(), dragging: false, modifiers: Modifiers::none() }
    }

    /// Handles one event of the window.
    fn handle_window_event(&mut self, ctx: &mut Context, event: WindowEvent) -> (r: Reaction)
        ensures
            *final(self) == window_step(*old(self), old(ctx)@, event).driver,
            final(ctx)@ == window_step(*old(self), old(ctx)@, event).state,
            r == window_step(*old(self), old(ctx)@, event).reaction,
    {
        match event {
            WindowEvent::Resized(size) => {
                ctx.set_window_size(size);
                Reaction::Nothing
            },
            WindowEvent::Focused => {
                ctx.request_redraw();
                Reaction::Nothing
            },
            WindowEvent::ScaleFactorChanged { scale_factor, size } => {
                ctx.set_scale_factor(scale_factor);
                ctx.set_window_size(size);
                Reaction::Nothing
            },
            WindowEvent::ModifiersChanged(modifiers) => {
                self.modifiers = modifiers;
                Reaction::Nothing
            },
            WindowEvent::KeyboardInput { keycode, state } => {
                Reaction::KeyboardInput(KeyEvent::new(state, self.modifiers, keycode))
            },
            WindowEvent::CharInput(c) => Reaction::CharInput(c),
            WindowEvent::CursorMoved(position) => {
                let delta: Vector = position.saturating_sub(self.cursor_pos);
                self.cursor_pos = position;
                if self.dragging {
                    let scale: i64 = ctx.scale();
                    ctx.move_by(delta.scale(-ONE, scale));
                    Reaction::Nothing
                } else {
                    Reaction::CursorMoved(position)
                }
            },
            WindowEvent::MouseInput { button, state } => {
                let pan: bool = ctx.config().pan;
                if button != MouseButton::Left {
                    Reaction::Nothing
                } else if state == ElementState::Pressed && self.modifiers.shift && pan {
                    self.dragging = true;
                    Reaction::Nothing
                } else if state == ElementState::Released && self.dragging {
                    self.dragging = false;
                    Reaction::Nothing
                } else {
                    let position: Vector = ctx.view_transform().to_scene(self.cursor_pos);
                    Reaction::MouseInput { page: ctx.page_nr(), position, state }
                }
            },
            WindowEvent::MouseWheel(delta) => {
                let amount: Vector = match delta {
                    ScrollDelta::Pixels(v) => v.multiply(ctx.pixel_scroll_factor()),
                    ScrollDelta::Lines(v) => v.multiply(ctx.line_scroll_factor()),
                };
                let config: Config = ctx.config();
                if config.zoom && self.modifiers.ctrl {
                    let log2_factor: i64 = saturate(
                        mul_div_floor(amount.y, -1, WHEEL_UNITS_PER_OCTAVE),
                    );
                    Reaction::Zoom { log2_factor }
                } else if config.pan {
                    let scale: i64 = ctx.scale();
                    ctx.move_by(amount.scale(-ONE, scale));
                    Reaction::Nothing
                } else {
                    Reaction::Nothing
                }
            },
            WindowEvent::CloseRequested => {
                ctx.close();
                Reaction::Nothing
            },
        }
    }

    /// Handles one event: changes the session as the event asks and says which
    /// callback of the producer the event is for.
    pub fn handle_event(&mut self, ctx: &mut Context, event: Event) -> (r: Reaction)
        ensures
            *final(self) == step(*old(self), old(ctx)@, event).driver,
            final(ctx)@ == step(*old(self), old(ctx)@, event).state,
            r == step(*old(self), old(ctx)@, event).reaction,
    {
        match event {
            Event::Init => Reaction::Nothing,
            Event::Timer => {
                ctx.request_redraw();
                Reaction::Nothing
            },
            Event::Repaint => {
                ctx.request_redraw();
                Reaction::Nothing
            },
            Event::App => Reaction::AppEvent,
            Event::Idle => Reaction::Idle,
            Event::Window(event) => self.handle_window_event(ctx, event),
        }
    }
}

/// Makes the session that a loop starts with.
pub fn start(
    config: Config,
    pixel_scroll_factor: Vector,
    line_scroll_factor: Vector,
    scale_factor: i64,
    window_size: Vector,
) -> (r: Context)
    ensures
        r@ == started(config, pixel_scroll_factor, line_scroll_factor, scale_factor, window_size),
{
    let mut ctx = Context::new(config, pixel_scroll_factor, line_scroll_factor);
    ctx.set_scale_factor(scale_factor);
    ctx.set_window_size(window_size);
    ctx
}

/// Says what is to be done next, before the loop waits again.
pub fn next_action(ctx: &Context) -> (r: Action)
    ensures
        r == next_action_in(ctx@),
{
    if ctx.scene_stale() {
        Action::FetchScene
    } else if ctx.redraw_requested() {
        Action::Present { window_size: ctx.window_size(), transform: ctx.view_transform() }
    } else if ctx.close_requested() {
        Action::Exit
    } else {
        Action::Wait { timeout: ctx.update_interval() }
    }
}

/// The scene is fetched once for each time it goes stale. The next action is
/// to fetch the scene exactly when the scene is stale; once a fetched scene
/// has been reported the scene is stale no longer; and a timer tick or a
/// request to repaint leaves it as it was, so a frame of an animation paints
/// the scene at hand and fetches none.
pub proof fn lemma_scene_fetched_once(
    driver: Driver,
    state: ViewState,
    content: crate::geometry::Rect,
    event: Event,
)
    requires
        event is Timer || event is Repaint,
    ensures
        next_action_in(state) is FetchScene <==> state.scene_stale,
        !state.scene_fetched(content).scene_stale,
        next_action_in(state.scene_fetched(content)) is Present,
        step(driver, state, event).state.scene_stale == state.scene_stale,
        !state.scene_stale ==> next_action_in(step(driver, state, event).state) is Present,
{
}

} // verus!
