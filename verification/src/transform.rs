//! The transform between scene coordinates and device coordinates.

use vstd::prelude::*;
use crate::fixed::{floor_div, lemma_scale_round_trip, mul_div, saturate, saturated, ONE};
use crate::geometry::Vector;
use crate::viewport::{MAX_SCALE, MIN_SCALE};

verus! {

/// A uniform zoom about a pair of anchors: the point `scene_anchor` of the
/// scene is shown at the point `window_anchor` of the window, and one scene
/// unit is `zoom` device units long.
#[derive(Clone, Copy, Debug, PartialEq, Eq, Structural)]
pub struct ViewTransform {
    pub zoom: i64,
    pub window_anchor: Vector,
    pub scene_anchor: Vector,
}

/// Where the scene coordinate `p` lies on the device, along one axis.
pub open spec fn device_coordinate(zoom: int, window_anchor: int, scene_anchor: int, p: int) -> int {
    mul_div(p - scene_anchor, zoom, ONE as int) + window_anchor
}

/// Which scene coordinate the device coordinate `q` shows, along one axis.
pub open spec fn scene_coordinate(zoom: int, window_anchor: int, scene_anchor: int, q: int) -> int {
    mul_div(q - window_anchor, ONE as int, zoom) + scene_anchor
}

impl ViewTransform {
    /// The zoom is in range.
    pub open spec fn wf(self) -> bool {
        MIN_SCALE <= self.zoom <= MAX_SCALE
    }

    /// The device position of the scene point `p`, saturating.
    pub open spec fn device_of(self, p: Vector) -> Vector {
        Vector {
            x: saturated(
                device_coordinate(
                    self.zoom as int,
                    self.window_anchor.x as int,
                    self.scene_anchor.x as int,
                    p.x as int,
                ),
            ) as i64,
            y: saturated(
                device_coordinate(
                    self.zoom as int,
                    self.window_anchor.y as int,
                    self.scene_anchor.y as int,
                    p.y as int,
                ),
            ) as i64,
        }
    }

    /// The scene point at the device position `q`, saturating.
    pub open spec fn scene_of(self, q: Vector) -> Vector {
        Vector {
            x: saturated(
                scene_coordinate(
                    self.zoom as int,
                    self.window_anchor.x as int,
                    self.scene_anchor.x as int,
                    q.x as int,
                ),
            ) as i64,
            y: saturated(
                scene_coordinate(
                    self.zoom as int,
                    self.window_anchor.y as int,
                    self.scene_anchor.y as int,
                    q.y as int,
                ),
            ) as i64,
        }
    }

    /// Maps a point of the scene to its place on the device.
    pub fn to_device(&self, p: Vector) -> (r: Vector)
        requires
            self.wf(),
        ensures
            r == self.device_of(p),
    {
        Vector {
            x: along(p.x, self.scene_anchor.x, self.zoom, ONE, self.window_anchor.x),
            y: along(p.y, self.scene_anchor.y, self.zoom, ONE, self.window_anchor.y),
        }
    }

    /// Maps a place on the device to the point of the scene shown there.
    pub fn to_scene(&self, q: Vector) -> (r: Vector)
        requires
            self.wf(),
        ensures
            r == self.scene_of(q),
    {
        Vector {
            x: along(q.x, self.window_anchor.x, ONE, self.zoom, self.scene_anchor.x),
            y: along(q.y, self.window_anchor.y, ONE, self.zoom, self.scene_anchor.y),
        }
    }
}

/// `(v - from) * num / den + to`, rounded down once and saturating.
fn along(v: i64, from: i64, num: i64, den: i64, to: i64) -> (r: i64)
    requires
        1 <= num <= MAX_SCALE,
        1 <= den <= MAX_SCALE,
    ensures
        r == saturated(mul_div(v - from, num as int, den as int) + to),
{
    let offset: i128 = v as i128 - from as i128;
    assert(-0x2_0000_0000_0000_0000_0000_0000_0000 <= offset * num
        <= 0x2_0000_0000_0000_0000_0000_0000_0000) by (nonlinear_arith)
        requires
            -0x2_0000_0000_0000_0000 <= offset <= 0x2_0000_0000_0000_0000,
            1 <= num <= 0x100_0000_0000,
    ;
    let scaled: i128 = floor_div(offset * (num as i128), den);
    proof {
        crate::fixed::lemma_quotient_bound(
            offset * num,
            den as int,
            0x2_0000_0000_0000_0000_0000_0000_0000,
        );
    }
    saturate(scaled + to as i128)
}

/// Taking a scene coordinate to the device and back returns to within
/// `ONE / zoom + 1` below it, however large the numbers are.
pub proof fn lemma_scene_round_trip(zoom: int, window_anchor: int, scene_anchor: int, p: int)
    requires
        zoom >= 1,
    ensures
        0 <= p - scene_coordinate(
            zoom,
            window_anchor,
            scene_anchor,
            device_coordinate(zoom, window_anchor, scene_anchor, p),
        ) <= (ONE as int) / zoom + 1,
{
    lemma_scale_round_trip(p - scene_anchor, zoom, ONE as int);
}

/// Taking a device coordinate to the scene and back returns to within
/// `zoom / ONE + 1` below it, however large the numbers are.
pub proof fn lemma_device_round_trip(zoom: int, window_anchor: int, scene_anchor: int, q: int)
    requires
        zoom >= 1,
    ensures
        0 <= q - device_coordinate(
            zoom,
            window_anchor,
            scene_anchor,
            scene_coordinate(zoom, window_anchor, scene_anchor, q),
        ) <= zoom / (ONE as int) + 1,
{
    lemma_scale_round_trip(q - window_anchor, ONE as int, zoom);
}

/// Mapping a point of the scene to the device and back returns to within
/// `ONE / zoom + 1` below the point on each axis, for every point whose place
/// on the device is in range.
pub proof fn lemma_point_round_trip(t: ViewTransform, p: Vector)
    requires
        t.wf(),
        i64::MIN <= device_coordinate(
            t.zoom as int,
            t.window_anchor.x as int,
            t.scene_anchor.x as int,
            p.x as int,
        ) <= i64::MAX,
        i64::MIN <= device_coordinate(
            t.zoom as int,
            t.window_anchor.y as int,
            t.scene_anchor.y as int,
            p.y as int,
        ) <= i64::MAX,
    ensures
        0 <= p.x - t.scene_of(t.device_of(p)).x <= (ONE as int) / (t.zoom as int) + 1,
        0 <= p.y - t.scene_of(t.device_of(p)).y <= (ONE as int) / (t.zoom as int) + 1,
{
    lemma_scene_round_trip(
        t.zoom as int,
        t.window_anchor.x as int,
        t.scene_anchor.x as int,
        p.x as int,
    );
    lemma_scene_round_trip(
        t.zoom as int,
        t.window_anchor.y as int,
        t.scene_anchor.y as int,
        p.y as int,
    );
}

} // verus!
