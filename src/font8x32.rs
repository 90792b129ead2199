//! A font twice as tall as the built-in one, for double-height text.
use vstd::prelude::*;

use crate::charset::Char;
use crate::font::{font_byte, Font, Font8x16};

verus! {

/// The built-in 8x16 font stretched to be double the height: each of its
/// rows is shown twice.
pub struct Font8x32;

impl Font for Font8x32 {
    open spec fn height(&self) -> nat {
        32
    }

    fn pixels(&self, glyph: Char, row: usize) -> (r: u8)
        ensures
            r == font_byte(glyph.code(), row as int / 2),
    {
        Font8x16.pixels(glyph, row / 2)
    }

    fn height_pixels(&self) -> (r: usize) {
        Font8x16.height_pixels() * 2
    }

    fn width_pixels(&self) -> (r: usize)
        ensures
            r == 8,
    {
        Font8x16.width_pixels()
    }

    fn length_bytes(&self) -> (r: usize)
        ensures
            r == 4096,
    {
        Font8x16.length_bytes()
    }
}

} // verus!
