//! Scaling, dithering and input logic that shows a four-shade handheld
//! screen on a larger one-bit display.

pub mod compose;
pub mod framebuffer;
pub mod impulse;
pub mod save;
pub mod scaler;
pub mod shade;

use vstd::prelude::*;

verus! {

/// Width in pixels of the source (emulated) screen.
pub const SOURCE_WIDTH: usize = 160;

/// Height in pixels of the source (emulated) screen.
pub const SOURCE_HEIGHT: usize = 144;

/// Number of rows of the destination display.
pub const CANVAS_HEIGHT: usize = 240;

/// Width in pixels of the scaled source image on the destination display:
/// the source width times five thirds, rounded down.
pub const VISIBLE_WIDTH: usize = 266;

/// Left margin that centres the scaled image on the destination display.
pub const START_X: usize = 67;

/// Bytes per destination row, padding included.
pub const ROW_BYTES: usize = 52;

/// Bytes of a whole destination frame.
pub const FRAME_BYTES: usize = 12480;

/// Refresh rate of the destination display, half the source's own.
pub const FRAME_RATE: usize = 30;

} // verus!
