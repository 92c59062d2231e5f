//! The state of one viewer session and the operations that change it.
//!
//! `ViewState` is the state as a plain record, with each operation as a
//! function from state to state. `Context` is the value that a session owns:
//! its methods do to it what the functions of `ViewState` say.

use vstd::prelude::*;
use crate::config::Config;
use crate::geometry::{Rect, Vector};
use crate::icon::{Icon, IconView};
use crate::transform::ViewTransform;
use crate::viewport::{clamp_scale, Viewport, MAX_SCALE, MIN_SCALE};

verus! {

/// What a session's state holds.
pub struct ViewState {
    /// The window is to be painted again.
    pub redraw_requested: bool,
    /// The scene on display is out of date and is to be asked for again.
    pub scene_stale: bool,
    /// The session is to end.
    pub close_requested: bool,
    /// The page on display, counted from 0.
    pub page_nr: nat,
    /// How many pages there are.
    pub num_pages: nat,
    /// Zoom, pan position, window and bounds.
    pub view: Viewport,
    pub config: Config,
    /// Milliseconds between two wake-ups without input, where there are any.
    pub update_interval: Option<u64>,
    /// What one pixel of wheel movement scrolls.
    pub pixel_scroll_factor: Vector,
    /// What one line of wheel movement scrolls.
    pub line_scroll_factor: Vector,
    /// An icon that the window has not been given yet.
    pub icon: Option<IconView>,
}

impl ViewState {
    /// The page on display exists and the view is well formed.
    pub open spec fn wf(self) -> bool {
        &&& self.page_nr < self.num_pages
        &&& self.num_pages <= usize::MAX
        &&& self.view.wf()
        &&& self.icon matches Some(icon) ==> icon.wf()
    }

    /// The state of a new session: one page, nothing on display yet.
    pub open spec fn initial(
        config: Config,
        pixel_scroll_factor: Vector,
        line_scroll_factor: Vector,
    ) -> ViewState {
        ViewState {
            redraw_requested: true,
            scene_stale: true,
            close_requested: false,
            page_nr: 0,
            num_pages: 1,
            view: Viewport {
                scale: crate::viewport::DEFAULT_SCALE,
                scale_factor: crate::fixed::ONE,
                view_center: Vector { x: 0, y: 0 },
                window_size: Vector { x: 0, y: 0 },
                bounds: None,
            },
            config,
            update_interval: None,
            pixel_scroll_factor,
            line_scroll_factor,
            icon: None,
        }
    }

    pub open spec fn request_redraw(self) -> ViewState {
        ViewState { redraw_requested: true, ..self }
    }

    pub open spec fn update_scene(self) -> ViewState {
        ViewState { scene_stale: true, ..self }
    }

    pub open spec fn close(self) -> ViewState {
        ViewState { close_requested: true, ..self }
    }

    /// The page nearest to `page` that exists.
    pub open spec fn clamp_page(self, page: nat) -> nat {
        if page < self.num_pages {
            page
        } else {
            (self.num_pages - 1) as nat
        }
    }

    /// Shows the page nearest to `page`; where that is the page on display,
    /// nothing changes.
    pub open spec fn goto_page(self, page: nat) -> ViewState {
        let target = self.clamp_page(page);
        if target != self.page_nr {
            ViewState { page_nr: target, scene_stale: true, redraw_requested: true, ..self }
        } else {
            self
        }
    }

    pub open spec fn next_page(self) -> ViewState {
        self.goto_page(self.page_nr + 1)
    }

    pub open spec fn prev_page(self) -> ViewState {
        self.goto_page(if self.page_nr == 0 { 0 } else { (self.page_nr - 1) as nat })
    }

    /// Sets the number of pages, which is at least one. Where the page on
    /// display is no more, the last page takes its place.
    pub open spec fn set_num_pages(self, num_pages: nat) -> ViewState {
        let count = if num_pages == 0 { 1 } else { num_pages };
        (ViewState { num_pages: count, ..self }).goto_page(self.page_nr)
    }

    pub open spec fn zoom_by(self, factor: i64) -> ViewState {
        ViewState { view: self.view.zoomed_by(factor), redraw_requested: true, ..self }
    }

    /// Sets the zoom; where that is the zoom in force, nothing changes.
    pub open spec fn set_zoom(self, factor: i64) -> ViewState {
        if clamp_scale(factor as int) != self.view.scale {
            ViewState { view: self.view.with_scale(factor), redraw_requested: true, ..self }
        } else {
            self
        }
    }

    /// Sets the zoom and asks for no repaint.
    pub open spec fn set_scale(self, scale: i64) -> ViewState {
        ViewState { view: self.view.with_scale(scale), ..self }
    }

    pub open spec fn move_to(self, point: Vector) -> ViewState {
        ViewState { view: self.view.moved_to(point), redraw_requested: true, ..self }
    }

    pub open spec fn move_by(self, delta: Vector) -> ViewState {
        ViewState { view: self.view.moved_by(delta), redraw_requested: true, ..self }
    }

    /// Holds panning to `bounds`; a repaint is due where that moves the view.
    pub open spec fn set_bounds(self, bounds: Rect) -> ViewState {
        let view = self.view.with_bounds(bounds);
        ViewState {
            view,
            redraw_requested: self.redraw_requested || view.view_center != self.view.view_center,
            ..self
        }
    }

    pub open spec fn set_scale_factor(self, factor: i64) -> ViewState {
        ViewState { view: self.view.with_scale_factor(factor), redraw_requested: true, ..self }
    }

    pub open spec fn set_window_size(self, size: Vector) -> ViewState {
        ViewState { view: self.view.with_window_size(size), redraw_requested: true, ..self }
    }

    pub open spec fn set_view_box(self, view_box: Rect) -> ViewState {
        ViewState { view: self.view.with_view_box(view_box), redraw_requested: true, ..self }
    }

    pub open spec fn set_update_interval(self, interval: Option<u64>) -> ViewState {
        ViewState { update_interval: interval, ..self }
    }

    pub open spec fn set_icon(self, icon: IconView) -> ViewState {
        ViewState { icon: Some(icon), ..self }
    }

    pub open spec fn take_icon(self) -> ViewState {
        ViewState { icon: None, ..self }
    }

    /// A scene was fetched whose content covers `content`: the scene on
    /// display is current, panning is held to its content, a repaint is due.
    pub open spec fn scene_fetched(self, content: Rect) -> ViewState {
        ViewState {
            view: self.view.with_bounds(content),
            scene_stale: false,
            redraw_requested: true,
            ..self
        }
    }

    /// The window was painted.
    pub open spec fn presented(self) -> ViewState {
        ViewState { redraw_requested: false, ..self }
    }
}

/// The state of one session. It is changed only through its methods, which
/// keep the page in range and the view inside its bounds.
pub struct Context {
    redraw_requested: bool,
    scene_stale: bool,
    close: bool,
    page_nr: usize,
    num_pages: usize,
    view: Viewport,
    config: Config,
    update_interval: Option<u64>,
    pixel_scroll_factor: Vector,
    line_scroll_factor: Vector,
    icon: Option<Icon>,
}

impl View for Context {
    type V = ViewState;

    closed spec fn view(&self) -> ViewState {
        ViewState {
            redraw_requested: self.redraw_requested,
            scene_stale: self.scene_stale,
            close_requested: self.close,
            page_nr: self.page_nr as nat,
            num_pages: self.num_pages as nat,
            view: self.view,
            config: self.config,
            update_interval: self.update_interval,
            pixel_scroll_factor: self.pixel_scroll_factor,
            line_scroll_factor: self.line_scroll_factor,
            icon: match self.icon {
                Some(icon) => Some(icon@),
                None => None,
            },
        }
    }
}

impl Context {
    #[verifier::type_invariant]
    pub open spec fn inv(self) -> bool {
        self@.wf()
    }

    /// The state of a new session.
    pub fn new(config: Config, pixel_scroll_factor: Vector, line_scroll_factor: Vector) -> (r:
        Context)
        ensures
            r@ == ViewState::initial(config, pixel_scroll_factor, line_scroll_factor),
            r@.wf(),
    {
        Context {
            redraw_requested: true,
            scene_stale: true,
            close: false,
            page_nr: 0,
            num_pages: 1,
            view: Viewport::new(),
            config,
            update_interval: None,
            pixel_scroll_factor,
            line_scroll_factor,
            icon: None,
        }
    }

    /// Asks for the window to be painted again.
    pub fn request_redraw(&mut self)
        ensures
            final(self)@ == old(self)@.request_redraw(),
    {
        proof {
            use_type_invariant(&*self);
        }
        self.redraw_requested = true;
    }

    /// Says that the scene on display is out of date.
    pub fn update_scene(&mut self)
        ensures
            final(self)@ == old(self)@.update_scene(),
    {
        proof {
            use_type_invariant(&*self);
        }
        self.scene_stale = true;
    }

    /// Asks for the session to end.
    pub fn close(&mut self)
        ensures
            final(self)@ == old(self)@.close(),
    {
        proof {
            use_type_invariant(&*self);
        }
        self.close = true;
    }

    /// Shows the page nearest to `page`.
    pub fn goto_page(&mut self, page: usize)
        ensures
            final(self)@ == old(self)@.goto_page(page as nat),
    {
        proof {
            use_type_invariant(&*self);
        }
        let last: usize = self.num_pages - 1;
        let target: usize = if page < last { page } else { last };
        if target != self.page_nr {
            self.page_nr = target;
            self.scene_stale = true;
            self.redraw_requested = true;
        }
    }

    /// Shows the page after the one on display, if there is one.
    pub fn next_page(&mut self)
        ensures
            final(self)@ == old(self)@.next_page(),
    {
        proof {
            use_type_invariant(&*self);
        }
        self.goto_page(self.page_nr + 1);
    }

    /// Shows the page before the one on display, if there is one.
    pub fn prev_page(&mut self)
        ensures
            final(self)@ == old(self)@.prev_page(),
    {
        let target: usize = if self.page_nr == 0 { 0 } else { self.page_nr - 1 };
        self.goto_page(target);
    }

    /// Says how many pages there are.
    pub fn set_num_pages(&mut self, num_pages: usize)
        ensures
            final(self)@ == old(self)@.set_num_pages(num_pages as nat),
    {
        proof {
            use_type_invariant(&*self);
        }
        let count: usize = if num_pages == 0 { 1 } else { num_pages };
        if self.page_nr >= count {
            self.page_nr = count - 1;
            self.num_pages = count;
            self.scene_stale = true;
            self.redraw_requested = true;
        } else {
            self.num_pages = count;
        }
    }

    /// Multiplies the zoom by `factor`.
    pub fn zoom_by(&mut self, factor: i64)
        ensures
            final(self)@ == old(self)@.zoom_by(factor),
    {
        proof {
            use_type_invariant(&*self);
        }
        self.view = self.view.zoom_by(factor);
        self.redraw_requested = true;
    }

    /// Sets the zoom to `factor`.
    pub fn set_zoom(&mut self, factor: i64)
        ensures
            final(self)@ == old(self)@.set_zoom(factor),
    {
        proof {
            use_type_invariant(&*self);
        }
        let view: Viewport = self.view.set_scale(factor);
        if view.scale != self.view.scale {
            self.view = view;
            self.redraw_requested = true;
        }
    }

    /// Sets the zoom to `scale` without asking for a repaint.
    pub fn set_scale(&mut self, scale: i64)
        ensures
            final(self)@ == old(self)@.set_scale(scale),
    {
        proof {
            use_type_invariant(&*self);
        }
        self.view = self.view.set_scale(scale);
    }

    /// Centres the view at `point`, as far as the bounds allow.
    pub fn move_to(&mut self, point: Vector)
        ensures
            final(self)@ == old(self)@.move_to(point),
    {
        proof {
            use_type_invariant(&*self);
        }
        self.view = self.view.move_to(point);
        self.redraw_requested = true;
    }

    /// Shifts the view by `delta`, as far as the bounds allow.
    pub fn move_by(&mut self, delta: Vector)
        ensures
            final(self)@ == old(self)@.move_by(delta),
    {
        proof {
            use_type_invariant(&*self);
        }
        self.view = self.view.move_by(delta);
        self.redraw_requested = true;
    }

    /// Holds panning to `bounds` from now on.
    pub fn set_bounds(&mut self, bounds: Rect)
        ensures
            final(self)@ == old(self)@.set_bounds(bounds),
    {
        proof {
            use_type_invariant(&*self);
        }
        let view: Viewport = self.view.set_bounds(bounds);
        let moved: bool = view.view_center != self.view.view_center;
        self.view = view;
        if moved {
            self.redraw_requested = true;
        }
    }

    /// Sets the display's pixel density.
    pub fn set_scale_factor(&mut self, factor: i64)
        ensures
            final(self)@ == old(self)@.set_scale_factor(factor),
    {
        proof {
            use_type_invariant(&*self);
        }
        self.view = self.view.set_scale_factor(factor);
        self.redraw_requested = true;
    }

    /// Sets the window's size.
    pub fn set_window_size(&mut self, size: Vector)
        ensures
            final(self)@ == old(self)@.set_window_size(size),
    {
        proof {
            use_type_invariant(&*self);
        }
        self.view = self.view.set_window_size(size);
        self.redraw_requested = true;
    }

    /// Takes the window's size from the size of `view_box`.
    pub fn set_view_box(&mut self, view_box: Rect)
        ensures
            final(self)@ == old(self)@.set_view_box(view_box),
    {
        proof {
            use_type_invariant(&*self);
        }
        self.view = self.view.set_view_box(view_box);
        self.redraw_requested = true;
    }

    /// Sets or clears the time between two wake-ups without input.
    pub fn set_update_interval(&mut self, interval: Option<u64>)
        ensures
            final(self)@ == old(self)@.set_update_interval(interval),
    {
        proof {
            use_type_invariant(&*self);
        }
        self.update_interval = interval;
    }

    /// Sends data to the page that hosts the viewer. A session has no such
    /// page of its own, and nothing changes.
    pub fn send(&mut self, data: Vec<u8>)
        ensures
            final(self)@ == old(self)@,
    {
    }

    /// Leaves `icon` for the window to take.
    pub fn set_icon(&mut self, icon: Icon)
        ensures
            final(self)@ == old(self)@.set_icon(icon@),
    {
        proof {
            use_type_invariant(&*self);
            use_type_invariant(&icon);
        }
        self.icon = Some(icon);
    }

    /// Takes the icon that was left for the window, if there is one.
    pub fn take_icon(&mut self) -> (r: Option<Icon>)
        ensures
            final(self)@ == old(self)@.take_icon(),
            match r {
                Some(icon) => old(self)@.icon == Some(icon@),
                None => old(self)@.icon is None,
            },
    {
        proof {
            use_type_invariant(&*self);
        }
        // The icon cannot be moved out of a borrowed session: the session is
        // swapped for a copy with an empty slot, and the icon leaves with
        // what was swapped out.
        let mut taken = Context {
            redraw_requested: self.redraw_requested,
            scene_stale: self.scene_stale,
            close: self.close,
            page_nr: self.page_nr,
            num_pages: self.num_pages,
            view: self.view,
            config: self.config,
            update_interval: self.update_interval,
            pixel_scroll_factor: self.pixel_scroll_factor,
            line_scroll_factor: self.line_scroll_factor,
            icon: None,
        };
        core::mem::swap(self, &mut taken);
        taken.icon
    }

    /// Records that a scene was fetched whose content covers `content`.
    pub fn scene_fetched(&mut self, content: Rect)
        ensures
            final(self)@ == old(self)@.scene_fetched(content),
    {
        proof {
            use_type_invariant(&*self);
        }
        self.view = self.view.set_bounds(content);
        self.scene_stale = false;
        self.redraw_requested = true;
    }

    /// Records that the window was painted.
    pub fn presented(&mut self)
        ensures
            final(self)@ == old(self)@.presented(),
    {
        proof {
            use_type_invariant(&*self);
        }
        self.redraw_requested = false;
    }

    pub fn redraw_requested(&self) -> (r: bool)
        ensures
            r == self@.redraw_requested,
    {
        self.redraw_requested
    }

    pub fn scene_stale(&self) -> (r: bool)
        ensures
            r == self@.scene_stale,
    {
        self.scene_stale
    }

    pub fn close_requested(&self) -> (r: bool)
        ensures
            r == self@.close_requested,
    {
        self.close
    }

    pub fn page_nr(&self) -> (r: usize)
        ensures
            r == self@.page_nr,
            r < self@.num_pages,
    {
        proof {
            use_type_invariant(self);
        }
        self.page_nr
    }

    pub fn num_pages(&self) -> (r: usize)
        ensures
            r == self@.num_pages,
            r >= 1,
    {
        proof {
            use_type_invariant(self);
        }
        self.num_pages
    }

    /// Zoom, pan position, window and bounds, well formed.
    pub fn viewport(&self) -> (r: Viewport)
        ensures
            r == self@.view,
            r.wf(),
    {
        proof {
            use_type_invariant(self);
        }
        self.view
    }

    pub fn scale(&self) -> (r: i64)
        ensures
            r == self@.view.scale,
            MIN_SCALE <= r <= MAX_SCALE,
    {
        proof {
            use_type_invariant(self);
        }
        self.view.scale
    }

    pub fn scale_factor(&self) -> (r: i64)
        ensures
            r == self@.view.scale_factor,
            MIN_SCALE <= r <= MAX_SCALE,
    {
        proof {
            use_type_invariant(self);
        }
        self.view.scale_factor
    }

    pub fn view_center(&self) -> (r: Vector)
        ensures
            r == self@.view.view_center,
    {
        self.view.view_center
    }

    pub fn window_size(&self) -> (r: Vector)
        ensures
            r == self@.view.window_size,
    {
        self.view.window_size
    }

    pub fn bounds(&self) -> (r: Option<Rect>)
        ensures
            r == self@.view.bounds,
    {
        self.view.bounds
    }

    pub fn config(&self) -> (r: Config)
        ensures
            r == self@.config,
    {
        self.config
    }

    pub fn update_interval(&self) -> (r: Option<u64>)
        ensures
            r == self@.update_interval,
    {
        self.update_interval
    }

    pub fn pixel_scroll_factor(&self) -> (r: Vector)
        ensures
            r == self@.pixel_scroll_factor,
    {
        self.pixel_scroll_factor
    }

    pub fn line_scroll_factor(&self) -> (r: Vector)
        ensures
            r == self@.line_scroll_factor,
    {
        self.line_scroll_factor
    }

    /// The transform from scene to device coordinates, with or without
    /// panning as the session's settings say.
    pub fn view_transform(&self) -> (r: ViewTransform)
        ensures
            r == self@.view.transform(self@.config.pan),
            r.wf(),
    {
        proof {
            use_type_invariant(self);
        }
        self.view.view_transform(self.config.pan)
    }
}

/// Going to a page is idempotent. After `goto_page(page)` the page on display
/// is the one nearest to `page`, and a second `goto_page(page)` changes
/// nothing: not the page, and no flag, so it asks for no repaint of its own,
/// whether or not the first one's repaint has been served in between.
pub proof fn lemma_goto_page_idempotent(state: ViewState, page: nat)
    requires
        state.wf(),
    ensures
        state.goto_page(page).page_nr == state.clamp_page(page),
        state.goto_page(page).goto_page(page) == state.goto_page(page),
        state.goto_page(page).presented().goto_page(page) == state.goto_page(page).presented(),
        state.page_nr == state.clamp_page(page) ==> state.goto_page(page) == state,
{
}

} // verus!
