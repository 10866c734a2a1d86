//! Nearest-lower-sample mapping from destination pixels back to source
//! pixels, at a fixed scale of five thirds.

use crate::{CANVAS_HEIGHT, SOURCE_HEIGHT, SOURCE_WIDTH, VISIBLE_WIDTH};
use vstd::prelude::*;

verus! {

/// The source coordinate under destination coordinate `v`: `v` divided by
/// five thirds, rounded down.
pub open spec fn source_coord(v: int) -> int {
    v * 3 / 5
}

/// The source pixel under destination pixel `(x, y)`.
pub open spec fn scale_spec(x: int, y: int) -> (int, int) {
    (source_coord(x), source_coord(y))
}

/// Row-major index into the source screen of the pixel shown at destination
/// `(x, y)`.
pub open spec fn source_index_spec(x: int, y: int) -> int {
    source_coord(y) * SOURCE_WIDTH + source_coord(x)
}

/// Divides one destination coordinate by the scale, rounding down.
pub fn scale_coord(v: usize) -> (r: usize)
    requires
        v <= usize::MAX / 3,
    ensures
        r == source_coord(v as int),
        r * 5 <= v * 3 < (r + 1) * 5,
{
    v * 3 / 5
}

/// Maps a visible destination pixel to the source pixel it shows. The
/// result always lies on the source screen.
pub fn scale(x: usize, y: usize) -> (r: (usize, usize))
    requires
        x < VISIBLE_WIDTH,
        y < CANVAS_HEIGHT,
    ensures
        (r.0 as int, r.1 as int) == scale_spec(x as int, y as int),
        r.0 < SOURCE_WIDTH,
        r.1 < SOURCE_HEIGHT,
{
    (scale_coord(x), scale_coord(y))
}

/// Every visible destination pixel shows a pixel of the source screen.
pub proof fn lemma_source_index_bound(x: int, y: int)
    requires
        0 <= x < VISIBLE_WIDTH,
        0 <= y < CANVAS_HEIGHT,
    ensures
        0 <= source_coord(x) < SOURCE_WIDTH,
        0 <= source_coord(y) < SOURCE_HEIGHT,
        0 <= source_index_spec(x, y) < SOURCE_WIDTH * SOURCE_HEIGHT,
{
    assert(0 <= source_coord(y) * 160 <= 143 * 160) by (nonlinear_arith)
        requires
            0 <= source_coord(y) <= 143,
    ;
}

/// Row-major index into the source screen of the pixel shown at the visible
/// destination pixel `(x, y)`.
pub fn source_index(x: usize, y: usize) -> (i: usize)
    requires
        x < VISIBLE_WIDTH,
        y < CANVAS_HEIGHT,
    ensures
        i == source_index_spec(x as int, y as int),
        i < SOURCE_WIDTH * SOURCE_HEIGHT,
{
    let (sx, sy) = scale(x, y);
    sy * SOURCE_WIDTH + sx
}

/// Mapping a destination pixel is a function of its coordinates and the
/// fixed constants alone: equal coordinates give equal source pixels.
pub proof fn lemma_scale_deterministic(x1: usize, y1: usize, x2: usize, y2: usize)
    requires
        x1 < VISIBLE_WIDTH,
        y1 < CANVAS_HEIGHT,
        x1 == x2,
        y1 == y2,
    ensures
        scale_spec(x1 as int, y1 as int) == scale_spec(x2 as int, y2 as int),
{
}

} // verus!
