//! The destination display buffer: row-major, one bit per pixel, eight
//! pixels per byte, leftmost pixel in the most significant bit.

use crate::{CANVAS_HEIGHT, FRAME_BYTES, ROW_BYTES, START_X, VISIBLE_WIDTH};
use vstd::prelude::*;

verus! {

/// Pixels per buffer row, padding included.
pub open spec fn row_pixels() -> int {
    ROW_BYTES * 8
}

/// Byte that holds the pixel in column `px` (margin included) of row `y`.
pub open spec fn byte_index_spec(px: int, y: int) -> int {
    y * ROW_BYTES + px / 8
}

/// Position within its byte of the pixel in column `px`, counted from the
/// least significant bit.
pub open spec fn bit_index_spec(px: int) -> int {
    7 - px % 8
}

/// Whether bit `i` of `b` is set.
pub open spec fn bit_of(b: u8, i: u8) -> bool {
    (b >> i) & 1u8 == 1u8
}

/// `b` with bit `i` set to `on` and the other bits kept.
pub open spec fn with_bit(b: u8, i: u8, on: bool) -> u8 {
    (b & !(1u8 << i)) | ((if on { 1u8 } else { 0u8 }) << i)
}

/// Whether the pixel in column `px` (margin included) of row `y` is on.
pub open spec fn pixel_on(fb: Seq<u8>, px: int, y: int) -> bool {
    bit_of(fb[byte_index_spec(px, y)], bit_index_spec(px) as u8)
}

/// The buffer after the pixel in column `px` of row `y` is set to `on`.
pub open spec fn write_pixel_spec(fb: Seq<u8>, px: int, y: int, on: bool) -> Seq<u8> {
    let i = byte_index_spec(px, y);
    fb.update(i, with_bit(fb[i], bit_index_spec(px) as u8, on))
}

/// Whether `(px, y)` is a pixel of the buffer, margins and padding included.
pub open spec fn in_canvas(px: int, y: int) -> bool {
    0 <= px < row_pixels() && 0 <= y < CANVAS_HEIGHT
}

/// Setting one bit of a byte changes that bit to the wanted value and keeps
/// the seven others.
pub proof fn lemma_with_bit(b: u8, i: u8, j: u8, on: bool)
    requires
        i < 8,
        j < 8,
    ensures
        bit_of(with_bit(b, i, on), j) == if i == j { on } else { bit_of(b, j) },
{
    if on {
        assert(((((b & !(1u8 << i)) | (1u8 << i)) >> j) & 1u8 == 1u8) == if i == j {
            true
        } else {
            (b >> j) & 1u8 == 1u8
        }) by (bit_vector)
            requires
                i < 8u8,
                j < 8u8,
        ;
    } else {
        assert(((((b & !(1u8 << i)) | (0u8 << i)) >> j) & 1u8 == 1u8) == if i == j {
            false
        } else {
            (b >> j) & 1u8 == 1u8
        }) by (bit_vector)
            requires
                i < 8u8,
                j < 8u8,
        ;
    }
}

/// Two distinct pixels of the buffer never share both byte and bit.
pub proof fn lemma_pixel_position_unique(px1: int, y1: int, px2: int, y2: int)
    requires
        in_canvas(px1, y1),
        in_canvas(px2, y2),
        byte_index_spec(px1, y1) == byte_index_spec(px2, y2),
        bit_index_spec(px1) == bit_index_spec(px2),
    ensures
        px1 == px2,
        y1 == y2,
{
    assert(0 <= px1 / 8 < ROW_BYTES);
    assert(0 <= px2 / 8 < ROW_BYTES);
    assert(y1 == y2) by (nonlinear_arith)
        requires
            y1 * 52 + px1 / 8 == y2 * 52 + px2 / 8,
            0 <= px1 / 8 < 52,
            0 <= px2 / 8 < 52,
    ;
    assert(px1 == 8 * (px1 / 8) + px1 % 8);
    assert(px2 == 8 * (px2 / 8) + px2 % 8);
}

/// Each pixel of the buffer lies in a byte of the buffer.
pub proof fn lemma_byte_in_frame(px: int, y: int)
    requires
        in_canvas(px, y),
    ensures
        0 <= byte_index_spec(px, y) < FRAME_BYTES,
        0 <= bit_index_spec(px) < 8,
{
    assert(0 <= px / 8 < ROW_BYTES);
    assert(0 <= y * 52 <= 239 * 52) by (nonlinear_arith)
        requires
            0 <= y < 240,
    ;
}

/// Writing a pixel sets that pixel to the value written and leaves every
/// other pixel of the buffer as it was.
pub proof fn lemma_write_pixel(fb: Seq<u8>, px: int, y: int, on: bool)
    requires
        fb.len() == FRAME_BYTES,
        in_canvas(px, y),
    ensures
        write_pixel_spec(fb, px, y, on).len() == FRAME_BYTES,
        forall|qx: int, qy: int|
            in_canvas(qx, qy) ==> #[trigger] pixel_on(write_pixel_spec(fb, px, y, on), qx, qy)
                == if qx == px && qy == y {
                on
            } else {
                pixel_on(fb, qx, qy)
            },
{
    lemma_byte_in_frame(px, y);
    let nf = write_pixel_spec(fb, px, y, on);
    assert forall|qx: int, qy: int| in_canvas(qx, qy) implies #[trigger] pixel_on(nf, qx, qy)
        == if qx == px && qy == y {
        on
    } else {
        pixel_on(fb, qx, qy)
    } by {
        lemma_byte_in_frame(qx, qy);
        let i = byte_index_spec(px, y);
        if byte_index_spec(qx, qy) == i {
            lemma_with_bit(fb[i], bit_index_spec(px) as u8, bit_index_spec(qx) as u8, on);
            if bit_index_spec(qx) == bit_index_spec(px) {
                lemma_pixel_position_unique(qx, qy, px, y);
            }
        }
    }
}

/// A pixel written on reads back on; writing it on and then off leaves the
/// seven other bits of its byte, and every other byte, as they were.
pub proof fn lemma_pixel_round_trip(fb: Seq<u8>, px: int, y: int)
    requires
        fb.len() == FRAME_BYTES,
        in_canvas(px, y),
    ensures
        pixel_on(write_pixel_spec(fb, px, y, true), px, y),
        ({
            let i = byte_index_spec(px, y);
            let mask = !(1u8 << (bit_index_spec(px) as u8));
            let twice = write_pixel_spec(write_pixel_spec(fb, px, y, true), px, y, false);
            &&& twice.len() == fb.len()
            &&& twice[i] & mask == fb[i] & mask
            &&& forall|j: int| 0 <= j < fb.len() && j != i ==> twice[j] == fb[j]
        }),
{
    lemma_write_pixel(fb, px, y, true);
    lemma_byte_in_frame(px, y);
    let i = byte_index_spec(px, y);
    let k = bit_index_spec(px) as u8;
    let b = fb[i];
    assert(((((b & !(1u8 << k)) | (1u8 << k)) & !(1u8 << k)) | (0u8 << k)) & !(1u8 << k) == b
        & !(1u8 << k)) by (bit_vector)
        requires
            k < 8u8,
    ;
}

/// Sets the pixel in visible column `raw_x` of row `y` to `white`; the
/// column is shifted right by the left margin before the write.
pub fn draw_pixel_at(framebuffer: &mut [u8], raw_x: usize, y: usize, white: bool)
    requires
        old(framebuffer)@.len() == FRAME_BYTES,
        raw_x < VISIBLE_WIDTH,
        y < CANVAS_HEIGHT,
    ensures
        final(framebuffer)@ == write_pixel_spec(
            old(framebuffer)@,
            raw_x + START_X,
            y as int,
            white,
        ),
        final(framebuffer)@.len() == FRAME_BYTES,
        forall|qx: int, qy: int|
            in_canvas(qx, qy) ==> #[trigger] pixel_on(final(framebuffer)@, qx, qy) == if qx == raw_x
                + START_X && qy == y {
                white
            } else {
                pixel_on(old(framebuffer)@, qx, qy)
            },
{
    let x = raw_x + START_X;
    proof {
        lemma_byte_in_frame(x as int, y as int);
        lemma_write_pixel(old(framebuffer)@, x as int, y as int, white);
    }
    let byte_index = y * ROW_BYTES + x / 8;
    let bit_index: u8 = (7 - x % 8) as u8;
    let mask: u8 = !(1u8 << bit_index);
    let desired_bit: u8 = if white { 1 } else { 0 };
    let mut frame_byte = framebuffer[byte_index];
    frame_byte = frame_byte & mask;
    frame_byte = frame_byte | (desired_bit << bit_index);
    framebuffer[byte_index] = frame_byte;
}

/// Reads back the pixel in visible column `raw_x` of row `y`.
pub fn pixel_at(framebuffer: &[u8], raw_x: usize, y: usize) -> (on: bool)
    requires
        framebuffer@.len() == FRAME_BYTES,
        raw_x < VISIBLE_WIDTH,
        y < CANVAS_HEIGHT,
    ensures
        on == pixel_on(framebuffer@, raw_x + START_X, y as int),
{
    let x = raw_x + START_X;
    proof {
        lemma_byte_in_frame(x as int, y as int);
    }
    let bit_index: u8 = (7 - x % 8) as u8;
    (framebuffer[y * ROW_BYTES + x / 8] >> bit_index) & 1u8 == 1u8
}

} // verus!
