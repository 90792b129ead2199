//! VGA frame buffer for embedded microcontrollers.
//!
//! Generates an 800 x 600 @ 60 Hz SVGA signal from a 48 column x 36 row
//! text buffer with a colour attribute per cell, optional double-height
//! rows and an optional 1-bit-per-pixel graphics overlay. The hardware calls
//! `FrameBuffer::isr_sol` at the start of every line; the frame buffer
//! raises and lowers V-Sync and hands over the line's pixels through the
//! `Hardware` trait.
pub mod charset;
pub mod colour;
pub mod console;
pub mod font;
pub mod font8x32;
pub mod framebuffer;
pub mod laws;
pub mod render;
pub mod screen;
pub mod timing;

pub use charset::Char;
pub use colour::{Attr, Colour, XRGBColour};
pub use console_traits::{Col, ControlCharMode, EscapeCharMode, Position, Row};
pub use font::{Font, Font8x16, Glyph};
pub use font8x32::Font8x32;
pub use framebuffer::{FrameBuffer, Mode0TextRow, Mode2, ModeInfo};
pub use screen::{
    DoubleHeightMode, MODE0_HORIZONTAL_OCTETS, MODE0_TEXT_MAX_COL, MODE0_TEXT_MAX_ROW,
    MODE0_TEXT_NUM_COLS, MODE0_TEXT_NUM_ROWS, MODE0_USABLE_COLS, MODE0_USABLE_HORIZONTAL_OCTETS,
    MODE0_USABLE_LINES, MODE2_USABLE_LINES, MODE2_WIDTH_PIXELS,
};
pub use timing::{Hardware, LineAction, Signal, SignalLog};
