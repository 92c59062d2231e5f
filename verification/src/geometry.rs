//! Points, sizes and rectangles in fixed-point coordinates.

use vstd::prelude::*;
use crate::fixed::{midpoint, mul_div, mul_div_floor, saturate, saturated, ONE};

verus! {

/// A point or an extent in the plane, each coordinate a fixed-point number.
#[derive(Clone, Copy, Debug, PartialEq, Eq, Structural)]
pub struct Vector {
    pub x: i64,
    pub y: i64,
}

/// An axis-parallel rectangle, given by its corner of least and its corner of
/// greatest coordinates. A rectangle whose corners are out of order has a
/// negative extent on that axis; nothing fits inside it.
#[derive(Clone, Copy, Debug, PartialEq, Eq, Structural)]
pub struct Rect {
    pub origin: Vector,
    pub lower_right: Vector,
}

/// A size in whole device pixels.
#[derive(Clone, Copy, Debug, PartialEq, Eq, Structural)]
pub struct IntVector {
    pub x: i32,
    pub y: i32,
}

/// The whole part of a fixed-point number, rounded towards zero.
pub open spec fn whole_part(v: int) -> int {
    if v >= 0 {
        v / (ONE as int)
    } else {
        -((-v) / (ONE as int))
    }
}

/// `v` brought into the range of `i32`.
pub open spec fn saturated_i32(v: int) -> int {
    if v < i32::MIN {
        i32::MIN as int
    } else if v > i32::MAX {
        i32::MAX as int
    } else {
        v
    }
}

impl Vector {
    /// The sum, each coordinate saturating.
    pub open spec fn plus(self, other: Vector) -> Vector {
        Vector {
            x: saturated(self.x + other.x) as i64,
            y: saturated(self.y + other.y) as i64,
        }
    }

    /// The difference, each coordinate saturating.
    pub open spec fn minus(self, other: Vector) -> Vector {
        Vector {
            x: saturated(self.x - other.x) as i64,
            y: saturated(self.y - other.y) as i64,
        }
    }

    /// Each coordinate times `num / den`, rounded down and saturating.
    pub open spec fn scaled(self, num: int, den: int) -> Vector {
        Vector {
            x: saturated(mul_div(self.x as int, num, den)) as i64,
            y: saturated(mul_div(self.y as int, num, den)) as i64,
        }
    }

    /// The product coordinate by coordinate, rounded down and saturating.
    pub open spec fn times(self, factor: Vector) -> Vector {
        Vector {
            x: saturated(mul_div(self.x as int, factor.x as int, ONE as int)) as i64,
            y: saturated(mul_div(self.y as int, factor.y as int, ONE as int)) as i64,
        }
    }

    /// The whole parts of the coordinates, saturating at the range of `i32`.
    pub open spec fn whole(self) -> IntVector {
        IntVector {
            x: saturated_i32(whole_part(self.x as int)) as i32,
            y: saturated_i32(whole_part(self.y as int)) as i32,
        }
    }

    pub fn new(x: i64, y: i64) -> (r: Vector)
        ensures
            r == (Vector { x, y }),
    {
        Vector { x, y }
    }

    /// The origin.
    pub fn zero() -> (r: Vector)
        ensures
            r == (Vector { x: 0, y: 0 }),
    {
        Vector { x: 0, y: 0 }
    }

    /// The vector of `x` and `y` whole units.
    pub fn from_units(x: i32, y: i32) -> (r: Vector)
        ensures
            r.x == x * ONE,
            r.y == y * ONE,
    {
        Vector { x: (x as i64) * ONE, y: (y as i64) * ONE }
    }

    pub fn is_zero(&self) -> (r: bool)
        ensures
            r == (self.x == 0 && self.y == 0),
    {
        self.x == 0 && self.y == 0
    }

    pub fn saturating_add(self, other: Vector) -> (r: Vector)
        ensures
            r == self.plus(other),
    {
        Vector {
            x: saturate(self.x as i128 + other.x as i128),
            y: saturate(self.y as i128 + other.y as i128),
        }
    }

    pub fn saturating_sub(self, other: Vector) -> (r: Vector)
        ensures
            r == self.minus(other),
    {
        Vector {
            x: saturate(self.x as i128 - other.x as i128),
            y: saturate(self.y as i128 - other.y as i128),
        }
    }

    /// Multiplies both coordinates by `num / den`.
    pub fn scale(self, num: i64, den: i64) -> (r: Vector)
        requires
            den > 0,
        ensures
            r == self.scaled(num as int, den as int),
    {
        Vector {
            x: saturate(mul_div_floor(self.x, num, den)),
            y: saturate(mul_div_floor(self.y, num, den)),
        }
    }

    /// Multiplies coordinate by coordinate.
    pub fn multiply(self, factor: Vector) -> (r: Vector)
        ensures
            r == self.times(factor),
    {
        Vector {
            x: saturate(mul_div_floor(self.x, factor.x, ONE)),
            y: saturate(mul_div_floor(self.y, factor.y, ONE)),
        }
    }

    /// Drops the fractions, as a size in whole pixels.
    pub fn to_int(self) -> (r: IntVector)
        ensures
            r == self.whole(),
    {
        IntVector { x: whole_i32(self.x), y: whole_i32(self.y) }
    }
}

impl Default for Vector {
    fn default() -> (r: Vector)
        ensures
            r == (Vector { x: 0, y: 0 }),
    {
        Vector { x: 0, y: 0 }
    }
}

fn whole_i32(v: i64) -> (r: i32)
    ensures
        r == saturated_i32(whole_part(v as int)),
{
    let w: i128 = if v >= 0 {
        (v as i128) / (ONE as i128)
    } else {
        -((-(v as i128)) / (ONE as i128))
    };
    if w < i32::MIN as i128 {
        i32::MIN
    } else if w > i32::MAX as i128 {
        i32::MAX
    } else {
        w as i32
    }
}

impl Rect {
    /// The extent along x, which is negative where the corners are out of order.
    pub open spec fn spec_width(self) -> int {
        self.lower_right.x - self.origin.x
    }

    /// The extent along y, which is negative where the corners are out of order.
    pub open spec fn spec_height(self) -> int {
        self.lower_right.y - self.origin.y
    }

    /// The point halfway between the corners.
    pub open spec fn spec_center(self) -> Vector {
        Vector {
            x: midpoint(self.origin.x as int, self.lower_right.x as int) as i64,
            y: midpoint(self.origin.y as int, self.lower_right.y as int) as i64,
        }
    }

    /// The rectangle at `origin` that extends by `size`; the far corner
    /// saturates.
    pub fn new(origin: Vector, size: Vector) -> (r: Rect)
        ensures
            r == (Rect { origin, lower_right: origin.plus(size) }),
    {
        Rect { origin, lower_right: origin.saturating_add(size) }
    }

    /// The rectangle between two corners.
    pub fn from_points(origin: Vector, lower_right: Vector) -> (r: Rect)
        ensures
            r == (Rect { origin, lower_right }),
    {
        Rect { origin, lower_right }
    }

    pub fn origin(&self) -> (r: Vector)
        ensures
            r == self.origin,
    {
        self.origin
    }

    pub fn lower_right(&self) -> (r: Vector)
        ensures
            r == self.lower_right,
    {
        self.lower_right
    }

    /// The extent on both axes, saturating.
    pub fn size(&self) -> (r: Vector)
        ensures
            r == self.lower_right.minus(self.origin),
    {
        self.lower_right.saturating_sub(self.origin)
    }

    /// Whether this is the rectangle that `default` returns.
    pub fn is_default(&self) -> (r: bool)
        ensures
            r == (*self == Rect {
                origin: Vector { x: 0, y: 0 },
                lower_right: Vector { x: 0, y: 0 },
            }),
    {
        self.origin.is_zero() && self.lower_right.is_zero()
    }
}

impl Default for Rect {
    fn default() -> (r: Rect)
        ensures
            r == (Rect { origin: Vector { x: 0, y: 0 }, lower_right: Vector { x: 0, y: 0 } }),
    {
        Rect { origin: Vector { x: 0, y: 0 }, lower_right: Vector { x: 0, y: 0 } }
    }
}

impl IntVector {
    pub fn new(x: i32, y: i32) -> (r: IntVector)
        ensures
            r == (IntVector { x, y }),
    {
        IntVector { x, y }
    }
}

} // verus!
