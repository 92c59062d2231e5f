//! Sizes in whole pixels: the renderer works in tiles of 16 by 16 pixels and
//! wants a frame buffer of whole tiles.

use vstd::prelude::*;
use pathfinder_geometry::vector::Vector2I;
use crate::geometry::{IntVector, Vector};

verus! {

/// The vector of two 32-bit integers of `pathfinder_geometry`.
#[verifier::external_type_specification]
#[verifier::external_body]
pub struct ExVector2I(pathfinder_geometry::vector::Vector2I);

/// What `Vector2I::x` returns: the first coordinate.
pub uninterp spec fn vector2i_x(v: Vector2I) -> i32;

/// What `Vector2I::y` returns: the second coordinate.
pub uninterp spec fn vector2i_y(v: Vector2I) -> i32;

/// `Vector2I::new`: the vector whose coordinates are `x` and `y`.
#[verifier::external_body]
fn vector2i(x: i32, y: i32) -> (r: Vector2I)
    ensures
        vector2i_x(r) == x,
        vector2i_y(r) == y,
{
    Vector2I::new(x, y)
}

/// `Vector2I::x`.
#[verifier::external_body]
fn x_of(v: Vector2I) -> (r: i32)
    ensures
        r == vector2i_x(v),
{
    v.x()
}

/// `Vector2I::y`.
#[verifier::external_body]
fn y_of(v: Vector2I) -> (r: i32)
    ensures
        r == vector2i_y(v),
{
    v.y()
}

/// The least multiple of 16 that is not less than `i`.
pub open spec fn rounded_up_to_16(i: int) -> int {
    ((i + 15) / 16) * 16
}

/// The frame buffer for a window of size `size`: the whole pixels of the
/// size, rounded up to whole tiles. There is none where the window has no
/// pixel on an axis, or more than a frame buffer can have.
pub open spec fn framebuffer_for(size: Vector) -> Option<IntVector> {
    let pixels = size.whole();
    if 0 < pixels.x <= i32::MAX - 15 && 0 < pixels.y <= i32::MAX - 15 {
        Some(
            IntVector {
                x: rounded_up_to_16(pixels.x as int) as i32,
                y: rounded_up_to_16(pixels.y as int) as i32,
            },
        )
    } else {
        None
    }
}

/// Rounds up to the next multiple of 16.
pub fn round_to_16(i: i32) -> (r: i32)
    requires
        i <= i32::MAX - 15,
    ensures
        r == rounded_up_to_16(i as int),
        r >= i,
        r - i < 16,
{
    let j: i32 = i + 15;
    assert(j & !0xfi32 == (j / 16) * 16) by (bit_vector);
    j & !0xf
}

/// Rounds both coordinates up to the next multiple of 16.
pub fn round_v_to_16(v: Vector2I) -> (r: Vector2I)
    requires
        vector2i_x(v) <= i32::MAX - 15,
        vector2i_y(v) <= i32::MAX - 15,
    ensures
        vector2i_x(r) == rounded_up_to_16(vector2i_x(v) as int),
        vector2i_y(r) == rounded_up_to_16(vector2i_y(v) as int),
{
    vector2i(round_to_16(x_of(v)), round_to_16(y_of(v)))
}

/// Finds the size of the frame buffer for a window of size `size`.
pub fn framebuffer_size(size: Vector) -> (r: Option<Vector2I>)
    ensures
        match r {
            Some(v) => framebuffer_for(size) == Some(
                IntVector { x: vector2i_x(v), y: vector2i_y(v) },
            ),
            None => framebuffer_for(size) is None,
        },
{
    let pixels: IntVector = size.to_int();
    if 0 < pixels.x && pixels.x <= i32::MAX - 15 && 0 < pixels.y && pixels.y <= i32::MAX - 15 {
        Some(round_v_to_16(vector2i(pixels.x, pixels.y)))
    } else {
        None
    }
}

} // verus!
