//! Anchor arithmetic for aligned text placement.
//!
//! A text-drawing primitive anchors text at its top-left corner. These
//! functions translate two other anchor conventions into that one:
//! a center point, and a top-right corner. The translation subtracts half
//! the measured text width (and half the font size, a stand-in for the line
//! height) or the whole width from the anchor coordinate. The subtraction
//! wraps around on `i32` overflow; within range it is the plain difference.

use vstd::prelude::*;

verus! {

/// Half of `v`, rounded toward zero, as `v / 2` on a signed machine integer.
pub open spec fn half_toward_zero(v: int) -> int {
    if v >= 0 {
        v / 2
    } else {
        -((-v) / 2)
    }
}

/// The top-left x coordinate for text of the given width whose horizontal
/// center is to sit at `x`: `x - width / 2`, wrapping on overflow.
pub open spec fn centered_left_x(x: i32, width: i32) -> i32 {
    vstd::wrapping::i32_specs::wrapping_sub(x, half_toward_zero(width as int) as i32)
}

/// The top-left y coordinate for text of the given font size whose vertical
/// center is to sit at `y`: `y - font_size / 2`, wrapping on overflow.
pub open spec fn centered_top_y(y: i32, font_size: i32) -> i32 {
    vstd::wrapping::i32_specs::wrapping_sub(y, half_toward_zero(font_size as int) as i32)
}

/// The top-left x coordinate for text of the given width whose right edge is
/// to sit at `x`: `x - width`, wrapping on overflow.
pub open spec fn right_aligned_left_x(x: i32, width: i32) -> i32 {
    vstd::wrapping::i32_specs::wrapping_sub(x, width)
}

/// Half of `v`, rounded toward zero.
pub fn halve_i32(v: i32) -> (r: i32)
    ensures
        r == half_toward_zero(v as int),
{
    v / 2
}

/// The top-left anchor at which text of the given measured width must be
/// drawn so that the point `(x, y)` falls at its center: `x - width / 2`
/// horizontally, and `y - font_size / 2` vertically, the font size standing
/// in for the line height. Each subtraction wraps on `i32` overflow; within
/// range it is the plain difference, as the last two clauses state.
pub fn centered_anchor(x: i32, y: i32, width: i32, font_size: i32) -> (r: (i32, i32))
    ensures
        r.0 == centered_left_x(x, width),
        r.1 == centered_top_y(y, font_size),
        i32::MIN <= x - half_toward_zero(width as int) <= i32::MAX ==> r.0 == x
            - half_toward_zero(width as int),
        i32::MIN <= y - half_toward_zero(font_size as int) <= i32::MAX ==> r.1 == y
            - half_toward_zero(font_size as int),
{
    let half_w: i32 = halve_i32(width);
    let half_f: i32 = halve_i32(font_size);
    (x.wrapping_sub(half_w), y.wrapping_sub(half_f))
}

/// The top-left x coordinate at which text of the given measured width must
/// be drawn so that its right edge falls at `x`: `x - width`, wrapping on
/// `i32` overflow; within range it is the plain difference. The y coordinate
/// of a right-aligned draw is the anchor's own y, unchanged.
pub fn right_aligned_anchor(x: i32, width: i32) -> (r: i32)
    ensures
        r == right_aligned_left_x(x, width),
        i32::MIN <= x - width <= i32::MAX ==> r == x - width,
{
    x.wrapping_sub(width)
}

} // verus!
