//! Composition of one destination frame from one source frame.

use crate::framebuffer::{draw_pixel_at, in_canvas, pixel_on};
use crate::scaler::{source_index, source_index_spec};
use crate::shade::{dither, dither_spec, Shade};
use crate::{CANVAS_HEIGHT, FRAME_BYTES, SOURCE_HEIGHT, SOURCE_WIDTH, START_X, VISIBLE_WIDTH};
use vstd::prelude::*;

verus! {

/// An inclusive range of destination rows that a frame changed.
#[derive(Clone, Copy, Debug, PartialEq, Eq, Structural)]
pub struct RowRange {
    pub first: usize,
    pub last: usize,
}

/// Whether column `px` (margin included) of row `y` shows the scaled source.
pub open spec fn in_view(px: int, y: int) -> bool {
    START_X <= px < START_X + VISIBLE_WIDTH && 0 <= y < CANVAS_HEIGHT
}

/// The value of the visible pixel in column `px` (margin included) of row
/// `y`, for source frame `frame`.
pub open spec fn composed_pixel(frame: Seq<Shade>, px: int, y: int) -> bool {
    dither_spec(frame[source_index_spec(px - START_X, y)], px - START_X, y)
}

/// Whether the pixel `(px, y)` is rewritten before the pixel in visible
/// column `x` of row `row`.
pub open spec fn drawn_before(px: int, y: int, x: int, row: int) -> bool {
    in_view(px, y) && (y < row || (y == row && px < START_X + x))
}

/// Rewrites every visible pixel of `framebuffer` from the source frame
/// `frame`, leaves the margins and padding as they were, and reports that
/// every row of the display was modified.
pub fn compose_frame(frame: &[Shade], framebuffer: &mut [u8]) -> (rows: RowRange)
    requires
        frame@.len() == SOURCE_WIDTH * SOURCE_HEIGHT,
        old(framebuffer)@.len() == FRAME_BYTES,
    ensures
        final(framebuffer)@.len() == FRAME_BYTES,
        forall|px: int, y: int|
            in_canvas(px, y) ==> #[trigger] pixel_on(final(framebuffer)@, px, y) == if in_view(
                px,
                y,
            ) {
                composed_pixel(frame@, px, y)
            } else {
                pixel_on(old(framebuffer)@, px, y)
            },
        rows == (RowRange { first: 0, last: (CANVAS_HEIGHT - 1) as usize }),
{
    let ghost initial = framebuffer@;
    let mut y: usize = 0;
    while y < CANVAS_HEIGHT
        invariant
            y <= CANVAS_HEIGHT,
            frame@.len() == SOURCE_WIDTH * SOURCE_HEIGHT,
            framebuffer@.len() == FRAME_BYTES,
            forall|px: int, qy: int|
                in_canvas(px, qy) ==> #[trigger] pixel_on(framebuffer@, px, qy) == if drawn_before(
                    px,
                    qy,
                    0,
                    y as int,
                ) {
                    composed_pixel(frame@, px, qy)
                } else {
                    pixel_on(initial, px, qy)
                },
        decreases CANVAS_HEIGHT - y,
    {
        let mut x: usize = 0;
        while x < VISIBLE_WIDTH
            invariant
                x <= VISIBLE_WIDTH,
                y < CANVAS_HEIGHT,
                frame@.len() == SOURCE_WIDTH * SOURCE_HEIGHT,
                framebuffer@.len() == FRAME_BYTES,
                forall|px: int, qy: int|
                    in_canvas(px, qy) ==> #[trigger] pixel_on(framebuffer@, px, qy)
                        == if drawn_before(px, qy, x as int, y as int) {
                        composed_pixel(frame@, px, qy)
                    } else {
                        pixel_on(initial, px, qy)
                    },
            decreases VISIBLE_WIDTH - x,
        {
            let shade = frame[source_index(x, y)];
            let white = dither(shade, x, y);
            draw_pixel_at(framebuffer, x, y, white);
            x = x + 1;
        }
        y = y + 1;
    }
    RowRange { first: 0, last: CANVAS_HEIGHT - 1 }
}

/// A source frame that is white everywhere composes to a visible region
/// that is on everywhere.
pub proof fn lemma_all_white_frame(frame: Seq<Shade>)
    requires
        frame.len() == SOURCE_WIDTH * SOURCE_HEIGHT,
        forall|i: int| 0 <= i < frame.len() ==> #[trigger] frame[i] == Shade::White,
    ensures
        forall|px: int, y: int| #[trigger] in_view(px, y) ==> composed_pixel(frame, px, y),
{
    assert forall|px: int, y: int| #[trigger] in_view(px, y) implies composed_pixel(frame, px, y) by {
        crate::scaler::lemma_source_index_bound(px - START_X, y);
    }
}

} // verus!
