use playboy::compose::{compose_frame, RowRange};
use playboy::framebuffer::{draw_pixel_at, pixel_at};
use playboy::scaler::{scale, scale_coord, source_index};
use playboy::shade::{dither, Shade};
use playboy::{CANVAS_HEIGHT, FRAME_BYTES, ROW_BYTES, SOURCE_HEIGHT, SOURCE_WIDTH, START_X, VISIBLE_WIDTH};

fn uniform_frame(s: Shade) -> Vec<Shade> {
    vec![s; SOURCE_WIDTH * SOURCE_HEIGHT]
}

#[test]
fn scale_maps_by_five_thirds_rounding_down() {
    assert_eq!(scale_coord(0), 0);
    assert_eq!(scale_coord(1), 0);
    assert_eq!(scale_coord(2), 1);
    assert_eq!(scale_coord(4), 2);
    assert_eq!(scale_coord(5), 3);
    assert_eq!(scale(5, 5), (3, 3));
    assert_eq!(scale(4, 0), (2, 0));
}

#[test]
fn scale_stays_on_source_screen_at_far_corner() {
    assert_eq!(scale(VISIBLE_WIDTH - 1, CANVAS_HEIGHT - 1), (159, 143));
    assert_eq!(source_index(VISIBLE_WIDTH - 1, CANVAS_HEIGHT - 1), 143 * 160 + 159);
}

#[test]
fn scale_is_deterministic() {
    for y in 0..CANVAS_HEIGHT {
        for x in 0..VISIBLE_WIDTH {
            assert_eq!(scale(x, y), scale(x, y));
        }
    }
}

#[test]
fn dither_extremes() {
    for y in 0..50 {
        for x in 0..50 {
            assert!(!dither(Shade::Black, x, y));
            assert!(dither(Shade::White, x, y));
        }
    }
}

#[test]
fn dither_patterns() {
    // Dark grey: (x + y mod 2) mod 3 == 0.
    assert!(dither(Shade::DarkGrey, 0, 0));
    assert!(!dither(Shade::DarkGrey, 1, 0));
    assert!(!dither(Shade::DarkGrey, 2, 0));
    assert!(dither(Shade::DarkGrey, 3, 0));
    assert!(!dither(Shade::DarkGrey, 0, 1));
    assert!(dither(Shade::DarkGrey, 2, 1));
    // Light grey: checkerboard whose phase follows row parity.
    assert!(dither(Shade::LightGrey, 0, 0));
    assert!(!dither(Shade::LightGrey, 1, 0));
    assert!(!dither(Shade::LightGrey, 0, 1));
    assert!(dither(Shade::LightGrey, 1, 1));
    assert!(dither(Shade::LightGrey, 4, 2));
}

#[test]
fn dither_is_stable_across_calls() {
    let shades = [Shade::Black, Shade::DarkGrey, Shade::LightGrey, Shade::White];
    for s in shades {
        for y in 0..20 {
            for x in 0..20 {
                let first = dither(s, x, y);
                for _ in 0..3 {
                    assert_eq!(dither(s, x, y), first);
                }
            }
        }
    }
}

#[test]
fn dither_density_of_greys() {
    let mut dark = 0usize;
    let mut light = 0usize;
    for y in 0..120 {
        for x in 0..240 {
            if dither(Shade::DarkGrey, x, y) {
                dark += 1;
            }
            if dither(Shade::LightGrey, x, y) {
                light += 1;
            }
        }
    }
    assert_eq!(dark, 240 * 120 / 3);
    assert_eq!(light, 240 * 120 / 2);
}

#[test]
fn pixel_written_on_reads_back_on() {
    let mut fb = vec![0u8; FRAME_BYTES];
    draw_pixel_at(&mut fb, 10, 7, true);
    assert!(pixel_at(&fb, 10, 7));
    // Column 10 + 67 = 77: byte 9 of row 7, bit 7 - 5 = 2.
    assert_eq!(fb[7 * ROW_BYTES + 9], 0b0000_0100);
}

#[test]
fn pixel_on_then_off_keeps_sibling_bits() {
    let mut fb = vec![0u8; FRAME_BYTES];
    for b in fb.iter_mut() {
        *b = 0b1010_1010;
    }
    let before = fb.clone();
    let x = 12usize;
    let y = 100usize;
    let byte = y * ROW_BYTES + (x + START_X) / 8;
    let mask = !(1u8 << (7 - (x + START_X) % 8));
    draw_pixel_at(&mut fb, x, y, true);
    assert!(pixel_at(&fb, x, y));
    draw_pixel_at(&mut fb, x, y, false);
    assert!(!pixel_at(&fb, x, y));
    assert_eq!(fb[byte] & mask, before[byte] & mask);
    for i in 0..FRAME_BYTES {
        if i != byte {
            assert_eq!(fb[i], before[i]);
        }
    }
}

#[test]
fn all_white_frame_is_all_on() {
    let frame = uniform_frame(Shade::White);
    let mut fb = vec![0u8; FRAME_BYTES];
    let rows = compose_frame(&frame, &mut fb);
    assert_eq!(rows, RowRange { first: 0, last: 239 });
    for y in 0..CANVAS_HEIGHT {
        for x in 0..VISIBLE_WIDTH {
            assert!(pixel_at(&fb, x, y));
        }
    }
}

#[test]
fn compose_reports_full_height_for_any_content() {
    let mut fb = vec![0xFFu8; FRAME_BYTES];
    let rows = compose_frame(&uniform_frame(Shade::Black), &mut fb);
    assert_eq!(rows, RowRange { first: 0, last: CANVAS_HEIGHT - 1 });
    for y in 0..CANVAS_HEIGHT {
        for x in 0..VISIBLE_WIDTH {
            assert!(!pixel_at(&fb, x, y));
        }
    }
}

#[test]
fn compose_leaves_margins_alone() {
    let mut fb = vec![0b0101_0101u8; FRAME_BYTES];
    compose_frame(&uniform_frame(Shade::White), &mut fb);
    for y in 0..CANVAS_HEIGHT {
        // Columns 0..64 and 336..416 are margin or padding only.
        for i in 0..8 {
            assert_eq!(fb[y * ROW_BYTES + i], 0b0101_0101);
        }
        for i in 42..ROW_BYTES {
            assert_eq!(fb[y * ROW_BYTES + i], 0b0101_0101);
        }
        // Byte 8 holds columns 64..72: 64..67 are margin, 67.. are visible.
        assert_eq!(fb[y * ROW_BYTES + 8], 0b0101_1111);
        // Byte 41 holds columns 328..336: 328..333 visible, 333.. margin.
        assert_eq!(fb[y * ROW_BYTES + 41], 0b1111_1101);
    }
}

#[test]
fn compose_follows_source_pixels() {
    let mut frame = uniform_frame(Shade::Black);
    // Source pixel (1, 0) covers destination columns 2..4 of rows 0..1.
    frame[1] = Shade::White;
    frame[SOURCE_WIDTH + 2] = Shade::LightGrey;
    let mut fb = vec![0u8; FRAME_BYTES];
    compose_frame(&frame, &mut fb);
    assert!(!pixel_at(&fb, 1, 0));
    assert!(pixel_at(&fb, 2, 0));
    assert!(pixel_at(&fb, 3, 0));
    assert!(pixel_at(&fb, 3, 1));
    assert!(!pixel_at(&fb, 4, 0));
    // Source pixel (2, 1) covers destination columns 4..5 of rows 2..3.
    assert!(pixel_at(&fb, 4, 2));
    assert!(!pixel_at(&fb, 4, 3));
    for y in 0..CANVAS_HEIGHT {
        for x in 0..VISIBLE_WIDTH {
            let s = frame[source_index(x, y)];
            assert_eq!(pixel_at(&fb, x, y), dither(s, x, y));
        }
    }
}
