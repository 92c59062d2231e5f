//! The geometry of the view: zoom, pan position, window size and the bounds
//! that panning is held to, with the rule that keeps the visible part of the
//! scene inside those bounds.

use vstd::prelude::*;
use vstd::arithmetic::div_mod::lemma_fundamental_div_mod;
use crate::fixed::{
    lemma_floor_of_negative, lemma_product_bound, midpoint, mul_div, mul_div_floor, ONE,
};
use crate::geometry::{Rect, Vector};
use crate::transform::ViewTransform;

verus! {

/// The zoom of a new view: 96 dots per inch at 25.4 millimetres per inch.
pub const DEFAULT_SCALE: i64 = 247695;

/// The least zoom: the smallest positive fixed-point number.
pub const MIN_SCALE: i64 = 1;

/// The greatest zoom: two to the power of 24.
pub const MAX_SCALE: i64 = 1099511627776;

/// The greatest window extent that a scene's own size may ask for: 500 units.
pub const MAX_WINDOW_EXTENT: i64 = 32768000;

/// A zoom brought into the range from `MIN_SCALE` to `MAX_SCALE`.
pub open spec fn clamp_scale(v: int) -> int {
    if v < MIN_SCALE {
        MIN_SCALE as int
    } else if v > MAX_SCALE {
        MAX_SCALE as int
    } else {
        v
    }
}

/// A window extent, which is never negative.
pub open spec fn clamp_extent(v: int) -> int {
    if v < 0 {
        0
    } else {
        v
    }
}

/// How much of the scene a window of extent `window` shows at zoom `scale`,
/// along one axis: `window / scale`, rounded down.
pub open spec fn visible_extent(window: int, scale: int) -> int {
    mul_div(window, ONE as int, scale)
}

/// Where the centre of a visible stretch of length `extent` comes to lie when it
/// is wanted at `x` and the content reaches from `lo` to `hi`: on the content's
/// midpoint where the stretch covers all of the content, else as near to `x` as
/// keeps the stretch inside the content.
pub open spec fn clamp_axis(x: int, extent: int, lo: int, hi: int) -> int {
    if extent >= hi - lo {
        midpoint(lo, hi)
    } else {
        let half = (extent + 1) / 2;
        if x < lo + half {
            lo + half
        } else if x > hi - half {
            hi - half
        } else {
            x
        }
    }
}

/// Whether a visible stretch of length `extent` centred at `x` is in place:
/// centred on the content's midpoint where it covers all of the content, else
/// with both of its ends, `x - extent / 2` and `x + extent / 2`, inside the
/// content.
pub open spec fn framed_axis(x: int, extent: int, lo: int, hi: int) -> bool {
    if extent >= hi - lo {
        x == midpoint(lo, hi)
    } else {
        2 * lo + extent <= 2 * x && 2 * x + extent <= 2 * hi
    }
}

/// The zoom, the pan position and the window of one view.
#[derive(Clone, Copy, Debug, PartialEq, Eq, Structural)]
pub struct Viewport {
    /// Device-independent zoom: window units per scene unit.
    pub scale: i64,
    /// Device pixels per window unit.
    pub scale_factor: i64,
    /// The point of the scene that is shown at the window's centre.
    pub view_center: Vector,
    /// The window's size in device-independent units.
    pub window_size: Vector,
    /// The extent of the content; panning is free where there is none.
    pub bounds: Option<Rect>,
}

impl Viewport {
    /// Both zoom factors are in range and the window has no negative extent.
    pub open spec fn sane(self) -> bool {
        &&& MIN_SCALE <= self.scale <= MAX_SCALE
        &&& MIN_SCALE <= self.scale_factor <= MAX_SCALE
        &&& self.window_size.x >= 0
        &&& self.window_size.y >= 0
    }

    /// Whether the visible part of the scene is in place within `bounds`, on
    /// both axes.
    pub open spec fn framed_in(self, bounds: Rect) -> bool {
        &&& framed_axis(
            self.view_center.x as int,
            visible_extent(self.window_size.x as int, self.scale as int),
            bounds.origin.x as int,
            bounds.lower_right.x as int,
        )
        &&& framed_axis(
            self.view_center.y as int,
            visible_extent(self.window_size.y as int, self.scale as int),
            bounds.origin.y as int,
            bounds.lower_right.y as int,
        )
    }

    /// A view is well formed when it is sane and, where it has bounds, framed
    /// in them.
    pub open spec fn wf(self) -> bool {
        &&& self.sane()
        &&& self.bounds matches Some(b) ==> self.framed_in(b)
    }

    /// The view with its centre brought into place.
    pub open spec fn clamped(self) -> Viewport {
        match self.bounds {
            Some(b) => Viewport {
                view_center: Vector {
                    x: clamp_axis(
                        self.view_center.x as int,
                        visible_extent(self.window_size.x as int, self.scale as int),
                        b.origin.x as int,
                        b.lower_right.x as int,
                    ) as i64,
                    y: clamp_axis(
                        self.view_center.y as int,
                        visible_extent(self.window_size.y as int, self.scale as int),
                        b.origin.y as int,
                        b.lower_right.y as int,
                    ) as i64,
                },
                ..self
            },
            None => self,
        }
    }

    /// The view after a request to centre it at `point`.
    pub open spec fn moved_to(self, point: Vector) -> Viewport {
        (Viewport { view_center: point, ..self }).clamped()
    }

    /// The view after a request to shift its centre by `delta`.
    pub open spec fn moved_by(self, delta: Vector) -> Viewport {
        self.moved_to(self.view_center.plus(delta))
    }

    /// The view at zoom `scale`.
    pub open spec fn with_scale(self, scale: i64) -> Viewport {
        (Viewport { scale: clamp_scale(scale as int) as i64, ..self }).clamped()
    }

    /// The view with its zoom multiplied by `factor`.
    pub open spec fn zoomed_by(self, factor: i64) -> Viewport {
        (Viewport {
            scale: clamp_scale(mul_div(self.scale as int, factor as int, ONE as int)) as i64,
            ..self
        }).clamped()
    }

    /// The view held to `bounds`.
    pub open spec fn with_bounds(self, bounds: Rect) -> Viewport {
        (Viewport { bounds: Some(bounds), ..self }).clamped()
    }

    /// The view on a display of pixel density `factor`.
    pub open spec fn with_scale_factor(self, factor: i64) -> Viewport {
        (Viewport { scale_factor: clamp_scale(factor as int) as i64, ..self }).clamped()
    }

    /// The view in a window of size `size`.
    pub open spec fn with_window_size(self, size: Vector) -> Viewport {
        (Viewport {
            window_size: Vector {
                x: clamp_extent(size.x as int) as i64,
                y: clamp_extent(size.y as int) as i64,
            },
            ..self
        }).clamped()
    }

    /// The view with window and zoom shrunk by one common factor, so that the
    /// greater window extent is `MAX_WINDOW_EXTENT`, where it was more.
    pub open spec fn capped(self) -> Viewport {
        let longest = if self.window_size.x >= self.window_size.y {
            self.window_size.x
        } else {
            self.window_size.y
        };
        if longest > MAX_WINDOW_EXTENT {
            Viewport {
                scale: clamp_scale(
                    mul_div(self.scale as int, MAX_WINDOW_EXTENT as int, longest as int),
                ) as i64,
                window_size: Vector {
                    x: mul_div(self.window_size.x as int, MAX_WINDOW_EXTENT as int, longest as int) as i64,
                    y: mul_div(self.window_size.y as int, MAX_WINDOW_EXTENT as int, longest as int) as i64,
                },
                ..self
            }
        } else {
            self
        }
    }

    /// The view in a window as large as `view_box`, capped.
    pub open spec fn with_view_box(self, view_box: Rect) -> Viewport {
        let size = view_box.lower_right.minus(view_box.origin);
        (Viewport {
            window_size: Vector {
                x: clamp_extent(size.x as int) as i64,
                y: clamp_extent(size.y as int) as i64,
            },
            ..self
        }).capped().clamped()
    }

    /// The zoom from scene units to device pixels.
    pub open spec fn resolved_zoom(self) -> int {
        clamp_scale(mul_div(self.scale as int, self.scale_factor as int, ONE as int))
    }

    /// The transform from scene to device coordinates. With panning it takes
    /// the view centre to the window's centre; without, the origin of the
    /// bounds to the window's origin.
    pub open spec fn transform(self, pan: bool) -> ViewTransform {
        if pan {
            ViewTransform {
                zoom: self.resolved_zoom() as i64,
                window_anchor: Vector {
                    x: (self.window_size.x / 2) as i64,
                    y: (self.window_size.y / 2) as i64,
                },
                scene_anchor: self.view_center,
            }
        } else {
            ViewTransform {
                zoom: self.resolved_zoom() as i64,
                window_anchor: Vector { x: 0, y: 0 },
                scene_anchor: match self.bounds {
                    Some(b) => b.origin,
                    None => Vector { x: 0, y: 0 },
                },
            }
        }
    }

    /// A view at the default zoom on an empty window, without bounds.
    pub fn new() -> (r: Viewport)
        ensures
            r.wf(),
            r == (Viewport {
                scale: DEFAULT_SCALE,
                scale_factor: ONE,
                view_center: Vector { x: 0, y: 0 },
                window_size: Vector { x: 0, y: 0 },
                bounds: None,
            }),
    {
        Viewport {
            scale: DEFAULT_SCALE,
            scale_factor: ONE,
            view_center: Vector { x: 0, y: 0 },
            window_size: Vector { x: 0, y: 0 },
            bounds: None,
        }
    }

    /// Brings the centre into place within the bounds.
    pub fn check_bounds(self) -> (r: Viewport)
        requires
            self.sane(),
        ensures
            r == self.clamped(),
            r.wf(),
    {
        match self.bounds {
            Some(b) => {
                let x: i64 = clamp_coordinate(
                    self.view_center.x,
                    self.window_size.x,
                    self.scale,
                    b.origin.x,
                    b.lower_right.x,
                );
                let y: i64 = clamp_coordinate(
                    self.view_center.y,
                    self.window_size.y,
                    self.scale,
                    b.origin.y,
                    b.lower_right.y,
                );
                Viewport { view_center: Vector { x, y }, ..self }
            },
            None => self,
        }
    }

    /// Centres the view at `point`, as far as the bounds allow.
    pub fn move_to(self, point: Vector) -> (r: Viewport)
        requires
            self.sane(),
        ensures
            r == self.moved_to(point),
            r.wf(),
    {
        (Viewport { view_center: point, ..self }).check_bounds()
    }

    /// Shifts the centre by `delta`, as far as the bounds allow.
    pub fn move_by(self, delta: Vector) -> (r: Viewport)
        requires
            self.sane(),
        ensures
            r == self.moved_by(delta),
            r.wf(),
    {
        self.move_to(self.view_center.saturating_add(delta))
    }

    /// Sets the zoom; a value out of range is replaced by the nearest in range.
    pub fn set_scale(self, scale: i64) -> (r: Viewport)
        requires
            self.sane(),
        ensures
            r == self.with_scale(scale),
            r.wf(),
    {
        (Viewport { scale: clamped_scale(scale as i128), ..self }).check_bounds()
    }

    /// Multiplies the zoom by `factor`; the product is held in range.
    pub fn zoom_by(self, factor: i64) -> (r: Viewport)
        requires
            self.sane(),
        ensures
            r == self.zoomed_by(factor),
            r.wf(),
    {
        let scale: i64 = clamped_scale(mul_div_floor(self.scale, factor, ONE));
        (Viewport { scale, ..self }).check_bounds()
    }

    /// Holds panning to `bounds` from now on.
    pub fn set_bounds(self, bounds: Rect) -> (r: Viewport)
        requires
            self.sane(),
        ensures
            r == self.with_bounds(bounds),
            r.wf(),
            r.bounds == Some(bounds),
    {
        (Viewport { bounds: Some(bounds), ..self }).check_bounds()
    }

    /// Sets the display's pixel density.
    pub fn set_scale_factor(self, factor: i64) -> (r: Viewport)
        requires
            self.sane(),
        ensures
            r == self.with_scale_factor(factor),
            r.wf(),
    {
        (Viewport { scale_factor: clamped_scale(factor as i128), ..self }).check_bounds()
    }

    /// Sets the window's size; a negative extent counts as none.
    pub fn set_window_size(self, size: Vector) -> (r: Viewport)
        requires
            self.sane(),
        ensures
            r == self.with_window_size(size),
            r.wf(),
    {
        let window_size = Vector {
            x: if size.x < 0 { 0 } else { size.x },
            y: if size.y < 0 { 0 } else { size.y },
        };
        (Viewport { window_size, ..self }).check_bounds()
    }

    /// Shrinks window and zoom together where the window is larger than
    /// `MAX_WINDOW_EXTENT` on either axis.
    pub fn sanity_check(self) -> (r: Viewport)
        requires
            self.sane(),
        ensures
            r == self.capped(),
            r.sane(),
            r.window_size.x <= MAX_WINDOW_EXTENT,
            r.window_size.y <= MAX_WINDOW_EXTENT,
    {
        let w: Vector = self.window_size;
        let longest: i64 = if w.x >= w.y { w.x } else { w.y };
        if longest > MAX_WINDOW_EXTENT {
            proof {
                lemma_shrunk_extent(w.x as int, MAX_WINDOW_EXTENT as int, longest as int);
                lemma_shrunk_extent(w.y as int, MAX_WINDOW_EXTENT as int, longest as int);
            }
            let scale: i64 = clamped_scale(mul_div_floor(self.scale, MAX_WINDOW_EXTENT, longest));
            let x: i64 = mul_div_floor(w.x, MAX_WINDOW_EXTENT, longest) as i64;
            let y: i64 = mul_div_floor(w.y, MAX_WINDOW_EXTENT, longest) as i64;
            Viewport { scale, window_size: Vector { x, y }, ..self }
        } else {
            self
        }
    }

    /// Takes the window's size from `view_box`, capped by `sanity_check`.
    pub fn set_view_box(self, view_box: Rect) -> (r: Viewport)
        requires
            self.sane(),
        ensures
            r == self.with_view_box(view_box),
            r.wf(),
            r.window_size.x <= MAX_WINDOW_EXTENT,
            r.window_size.y <= MAX_WINDOW_EXTENT,
    {
        let size: Vector = view_box.size();
        let window_size = Vector {
            x: if size.x < 0 { 0 } else { size.x },
            y: if size.y < 0 { 0 } else { size.y },
        };
        (Viewport { window_size, ..self }).sanity_check().check_bounds()
    }

    /// The transform from scene to device coordinates.
    pub fn view_transform(self, pan: bool) -> (r: ViewTransform)
        requires
            self.sane(),
        ensures
            r == self.transform(pan),
            r.wf(),
    {
        let zoom: i64 = clamped_scale(mul_div_floor(self.scale, self.scale_factor, ONE));
        if pan {
            ViewTransform {
                zoom,
                window_anchor: Vector { x: self.window_size.x / 2, y: self.window_size.y / 2 },
                scene_anchor: self.view_center,
            }
        } else {
            ViewTransform {
                zoom,
                window_anchor: Vector { x: 0, y: 0 },
                scene_anchor: match self.bounds {
                    Some(b) => b.origin,
                    None => Vector { x: 0, y: 0 },
                },
            }
        }
    }
}

/// A shrunk extent is between nothing and the ceiling.
proof fn lemma_shrunk_extent(w: int, ceiling: int, longest: int)
    requires
        0 <= w <= longest,
        0 <= ceiling < longest,
    ensures
        0 <= mul_div(w, ceiling, longest) <= ceiling,
{
    lemma_fundamental_div_mod(w * ceiling, longest);
    let q = (w * ceiling) / longest;
    let r = (w * ceiling) % longest;
    assert(0 <= q <= ceiling) by (nonlinear_arith)
        requires
            0 <= w <= longest,
            0 <= ceiling < longest,
            w * ceiling == longest * q + r,
            0 <= r < longest,
    ;
}

/// What a window shows is never negative.
pub proof fn lemma_visible_extent_bound(window: int, scale: int)
    requires
        0 <= window <= i64::MAX,
        1 <= scale,
    ensures
        0 <= visible_extent(window, scale) <= window * ONE,
{
    lemma_fundamental_div_mod(window * ONE, scale);
    let q = (window * ONE) / scale;
    let r = (window * ONE) % scale;
    assert(0 <= q <= window * ONE) by (nonlinear_arith)
        requires
            0 <= window,
            1 <= scale,
            window * ONE == scale * q + r,
            0 <= r < scale,
    ;
}

fn clamped_scale(v: i128) -> (r: i64)
    ensures
        r == clamp_scale(v as int),
{
    if v < MIN_SCALE as i128 {
        MIN_SCALE
    } else if v > MAX_SCALE as i128 {
        MAX_SCALE
    } else {
        v as i64
    }
}

/// Half of `v`, rounded down.
fn half_floor(v: i128) -> (r: i128)
    requires
        i128::MIN + 2 <= v,
    ensures
        r == v / 2,
{
    if v >= 0 {
        v / 2
    } else {
        proof {
            lemma_floor_of_negative(-v as int, 2);
        }
        -((-v + 1) / 2)
    }
}

/// One axis of `check_bounds`.
fn clamp_coordinate(x: i64, window: i64, scale: i64, lo: i64, hi: i64) -> (r: i64)
    requires
        window >= 0,
        scale >= 1,
    ensures
        r == clamp_axis(x as int, visible_extent(window as int, scale as int), lo as int, hi as int),
        framed_axis(r as int, visible_extent(window as int, scale as int), lo as int, hi as int),
{
    proof {
        lemma_visible_extent_bound(window as int, scale as int);
        lemma_product_bound(window as int, ONE as int);
    }
    let extent: i128 = mul_div_floor(window, ONE, scale);
    let span: i128 = hi as i128 - lo as i128;
    if extent >= span {
        let mid: i128 = lo as i128 + half_floor(span);
        mid as i64
    } else {
        let half: i128 = (extent + 1) / 2;
        let least: i128 = lo as i128 + half;
        let most: i128 = hi as i128 - half;
        if (x as i128) < least {
            least as i64
        } else if (x as i128) > most {
            most as i64
        } else {
            x
        }
    }
}

/// One request to pan or to zoom.
#[derive(Clone, Copy, Debug, PartialEq, Eq, Structural)]
pub enum ViewRequest {
    MoveBy(Vector),
    ZoomBy(i64),
}

impl Viewport {
    /// The view after one request.
    pub open spec fn after(self, request: ViewRequest) -> Viewport {
        match request {
            ViewRequest::MoveBy(delta) => self.moved_by(delta),
            ViewRequest::ZoomBy(factor) => self.zoomed_by(factor),
        }
    }

    /// The view after a sequence of requests, the first of them first.
    pub open spec fn after_all(self, requests: Seq<ViewRequest>) -> Viewport
        decreases requests.len(),
    {
        if requests.len() == 0 {
            self
        } else {
            self.after(requests[0]).after_all(requests.skip(1))
        }
    }
}

/// Clamping along one axis puts the visible stretch in place, and the centre
/// stays a 64-bit number.
pub proof fn lemma_clamp_axis_frames(x: int, extent: int, lo: int, hi: int)
    requires
        extent >= 0,
        i64::MIN <= x <= i64::MAX,
        i64::MIN <= lo <= i64::MAX,
        i64::MIN <= hi <= i64::MAX,
    ensures
        framed_axis(clamp_axis(x, extent, lo, hi), extent, lo, hi),
        i64::MIN <= clamp_axis(x, extent, lo, hi) <= i64::MAX,
{
}

/// Bringing the centre into place changes nothing but the centre and leaves a
/// well-formed view.
pub proof fn lemma_clamped_is_framed(view: Viewport)
    requires
        view.sane(),
    ensures
        view.clamped().wf(),
        view.clamped().bounds == view.bounds,
        view.clamped().scale == view.scale,
        view.clamped().scale_factor == view.scale_factor,
        view.clamped().window_size == view.window_size,
{
    match view.bounds {
        Some(b) => {
            lemma_visible_extent_bound(view.window_size.x as int, view.scale as int);
            lemma_visible_extent_bound(view.window_size.y as int, view.scale as int);
            lemma_clamp_axis_frames(
                view.view_center.x as int,
                visible_extent(view.window_size.x as int, view.scale as int),
                b.origin.x as int,
                b.lower_right.x as int,
            );
            lemma_clamp_axis_frames(
                view.view_center.y as int,
                visible_extent(view.window_size.y as int, view.scale as int),
                b.origin.y as int,
                b.lower_right.y as int,
            );
        },
        None => {},
    }
}

/// A request to pan or to zoom leaves a well-formed view with the same
/// bounds.
pub proof fn lemma_request_keeps_frame(view: Viewport, request: ViewRequest)
    requires
        view.sane(),
    ensures
        view.after(request).wf(),
        view.after(request).bounds == view.bounds,
{
    match request {
        ViewRequest::MoveBy(delta) => {
            lemma_clamped_is_framed(
                Viewport { view_center: view.view_center.plus(delta), ..view },
            );
        },
        ViewRequest::ZoomBy(factor) => {
            lemma_clamped_is_framed(
                Viewport {
                    scale: clamp_scale(
                        mul_div(view.scale as int, factor as int, ONE as int),
                    ) as i64,
                    ..view
                },
            );
        },
    }
}

/// A view that is held to bounds stays in place within them, whatever is
/// asked of it afterwards. After `set_bounds(bounds)` and then any sequence
/// of requests to pan or to zoom, on each axis: where the window shows less
/// than the bounds hold, both ends of what it shows lie inside the bounds;
/// where it shows as much or more, what it shows is centred on the midpoint
/// of the bounds.
pub proof fn lemma_view_stays_in_bounds(view: Viewport, bounds: Rect, requests: Seq<ViewRequest>)
    requires
        view.sane(),
    ensures
        view.with_bounds(bounds).after_all(requests).wf(),
        view.with_bounds(bounds).after_all(requests).bounds == Some(bounds),
        view.with_bounds(bounds).after_all(requests).framed_in(bounds),
{
    lemma_clamped_is_framed(Viewport { bounds: Some(bounds), ..view });
    lemma_requests_keep_frame(view.with_bounds(bounds), requests);
}

/// A sequence of requests to pan or to zoom leaves a well-formed view
/// well formed, with the same bounds.
pub proof fn lemma_requests_keep_frame(view: Viewport, requests: Seq<ViewRequest>)
    requires
        view.wf(),
    ensures
        view.after_all(requests).wf(),
        view.after_all(requests).bounds == view.bounds,
    decreases requests.len(),
{
    if requests.len() > 0 {
        lemma_request_keeps_frame(view, requests[0]);
        lemma_requests_keep_frame(view.after(requests[0]), requests.skip(1));
    }
}

/// Zooming by a factor and then by its reciprocal brings the zoom back to
/// within rounding. For factors `f` and `g` whose product is no more than
/// one, and as long as the zoom stays in range in between, the zoom after
/// both is no greater than before, and less by no more than the two roundings
/// and what `f * g` falls short of one.
pub proof fn lemma_zoom_round_trip(view: Viewport, f: i64, g: i64)
    requires
        view.sane(),
        f >= 1,
        g >= 1,
        f * g <= ONE * ONE,
        MIN_SCALE <= mul_div(view.scale as int, f as int, ONE as int) <= MAX_SCALE,
        MIN_SCALE <= mul_div(
            mul_div(view.scale as int, f as int, ONE as int),
            g as int,
            ONE as int,
        ),
    ensures
        view.zoomed_by(f).zoomed_by(g).scale <= view.scale,
        (view.scale - view.zoomed_by(f).zoomed_by(g).scale) * (ONE * ONE) < view.scale * (ONE
            * ONE - f * g) + g * ONE + ONE * ONE,
{
    let s = view.scale as int;
    let s1 = mul_div(s, f as int, ONE as int);
    let s2 = mul_div(s1, g as int, ONE as int);
    lemma_fundamental_div_mod(s * f, ONE as int);
    lemma_fundamental_div_mod(s1 * g, ONE as int);
    let r1 = (s * f) % (ONE as int);
    let r2 = (s1 * g) % (ONE as int);
    assert(s2 <= s && (s - s2) * (65536 * 65536) < s * (65536 * 65536 - f * g) + g * 65536 + 65536
        * 65536) by (nonlinear_arith)
        requires
            s >= 1,
            f >= 1,
            g >= 1,
            f * g <= 65536 * 65536,
            s * f == 65536 * s1 + r1,
            0 <= r1 < 65536,
            s1 * g == 65536 * s2 + r2,
            0 <= r2 < 65536,
    ;
    let first = Viewport { scale: s1 as i64, ..view };
    lemma_clamped_is_framed(first);
    let second = Viewport { scale: s2 as i64, ..first.clamped() };
    lemma_clamped_is_framed(second);
}

} // verus!
