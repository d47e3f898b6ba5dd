//! Driver library for a two-module LED-matrix display peripheral driven over
//! a point-to-point serial link.
//!
//! The library covers the binary command protocol (fixed 42-byte frames), the
//! two framebuffer representations that feed it, and the link-failure
//! classification that a caller applies around writes. Opening the serial
//! device and performing the writes is left to the surrounding application.

use vstd::prelude::*;

mod bitmap;
mod command;
mod link;

pub use bitmap::Bitmap;
pub use bitmap::Bitmap8;
pub use bitmap::bit_of;
pub use bitmap::boxed;
pub use bitmap::cell_index;
pub use bitmap::in_box;
pub use bitmap::lemma_bitmap8_len;
pub use bitmap::lemma_bitmap_len;
pub use bitmap::lemma_draw_box_corner_order;
pub use bitmap::lemma_draw_point_bit_effect;
pub use bitmap::lemma_draw_point_readback;
pub use bitmap::lemma_draw_point_round_trip;
pub use bitmap::mask_of;
pub use bitmap::with_bit;
pub use command::Command;
pub use command::EncodeError;
pub use command::Patterns;
pub use command::frame_bytes;
pub use command::lemma_frame_layout;
pub use command::packed;
pub use command::pattern_encoding;
pub use link::LinkAction;
pub use link::LinkState;
pub use link::WriteError;
pub use link::step_reconnect;
pub use link::step_write;

verus! {

/// Length in bytes of the monochrome draw payload: one bit per pixel.
pub const DRAW_COMMAND_LENGTH: usize = 39;

/// Every frame written to the wire is exactly this many bytes.
pub const MAX_COMMAND_LENGTH: usize = 42;

/// Number of columns of the physical matrix.
pub const DISPLAY_WIDTH: usize = 9;

/// Number of rows of the physical matrix.
pub const DISPLAY_HEIGHT: usize = 34;

/// Length in bytes of the greyscale framebuffer: one byte per pixel,
/// stored column-major.
pub const GREYSCALE_BUFFER_LENGTH: usize = DISPLAY_WIDTH * DISPLAY_HEIGHT;

/// Fixed baud rate of the serial link.
pub const BAUD_RATE: u32 = 115_200;

/// Timeout in milliseconds for the first connection attempt.
pub const CONNECT_DELAY_MILLIS: u64 = 100;

/// Longer timeout in milliseconds used when reopening after a disconnect.
pub const RECONNECT_DELAY_MILLIS: u64 = 500;

} // verus!
