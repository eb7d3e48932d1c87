//! The measured extent of text: the width the rendering backend reports,
//! paired with a height.
//!
//! The backend's metrics give only a width. The height of a single line is
//! approximated by the font size itself, not by measured ascent and descent;
//! callers that need exact glyph bounds must not rely on it.

use vstd::prelude::*;

verus! {

/// The extent reported for text measured as `width` pixels wide at
/// `font_size`: the width unchanged, and the font size as the height.
pub open spec fn extent_of(width: i32, font_size: i32) -> (i32, i32) {
    (width, font_size)
}

/// Pairs a measured text width with its font size as `(width, height)`,
/// the font size standing in for the height.
pub fn measure_ext(width: i32, font_size: i32) -> (r: (i32, i32))
    ensures
        r == extent_of(width, font_size),
        r.0 == width,
        r.1 == font_size,
{
    (width, font_size)
}

/// Measurement is a pure function of the reported width and the font size:
/// two measurements that agree on both agree on the whole extent. There is
/// no hidden state in the pairing itself; only the backend's own report
/// could differ between calls.
pub proof fn lemma_extent_deterministic(w1: i32, f1: i32, w2: i32, f2: i32)
    requires
        w1 == w2,
        f1 == f2,
    ensures
        extent_of(w1, f1) == extent_of(w2, f2),
{
}

} // verus!
