//! How much the wheel scrolls: the factors that a session starts with, and the
//! text form in which they can be set from outside.

use vstd::prelude::*;
use vstd::string::StrSliceExecFns;
use crate::geometry::Vector;

verus! {

/// Whether the first comma of `text` stands at `i`.
pub open spec fn first_comma_at(text: Seq<char>, i: int) -> bool {
    &&& 0 <= i < text.len()
    &&& text[i] == ','
    &&& forall|j: int| 0 <= j < i ==> text[j] != ','
}

/// What one pixel of wheel movement scrolls where nothing else is set: one
/// unit along each axis.
pub fn default_pixel_scroll_factor() -> (r: Vector)
    ensures
        r == (Vector { x: 65536, y: 65536 }),
{
    Vector::from_units(1, 1)
}

/// What one line of wheel movement scrolls where nothing else is set: ten
/// units, and upside down along y.
pub fn default_line_scroll_factor() -> (r: Vector)
    ensures
        r == (Vector { x: 655360, y: -655360i64 }),
{
    Vector::from_units(10, -10)
}

/// The factors that a session starts with: those that were set, and the
/// defaults in place of the others.
pub fn get_scroll_factors(pixel: Option<Vector>, line: Option<Vector>) -> (r: (Vector, Vector))
    ensures
        r.0 == match pixel {
            Some(v) => v,
            None => Vector { x: 65536, y: 65536 },
        },
        r.1 == match line {
            Some(v) => v,
            None => Vector { x: 655360, y: -655360i64 },
        },
{
    let pixel: Vector = match pixel {
        Some(v) => v,
        None => default_pixel_scroll_factor(),
    };
    let line: Vector = match line {
        Some(v) => v,
        None => default_line_scroll_factor(),
    };
    (pixel, line)
}

/// Splits a text of the form `x,y` at its first comma into what stands
/// before it and what stands behind it. A text without a comma is no pair.
pub fn split_pair(text: &str) -> (r: Option<(String, String)>)
    ensures
        match r {
            Some((x, y)) => exists|i: int|
                {
                    &&& first_comma_at(text@, i)
                    &&& x@ == text@.subrange(0, i)
                    &&& y@ == text@.subrange(i + 1, text@.len() as int)
                },
            None => forall|i: int| 0 <= i < text@.len() ==> text@[i] != ',',
        },
{
    let len: usize = text.unicode_len();
    let mut at: usize = 0;
    while at < len
        invariant
            at <= len,
            len == text@.len(),
            forall|j: int| 0 <= j < at ==> text@[j] != ',',
        decreases len - at,
    {
        if text.get_char(at) == ',' {
            let x = text.substring_char(0, at);
            let y = text.substring_char(at + 1, len);
            assert(first_comma_at(text@, at as int));
            return Some((x.to_owned(), y.to_owned()));
        }
        at += 1;
    }
    None
}

} // verus!
