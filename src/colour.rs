//! Colours, packed foreground/background attributes, and the words of
//! eight RGB pixels that the renderer hands to the hardware.
use vstd::prelude::*;

verus! {

/// One of the eight colours of the palette. Its index has one bit per
/// primary: red is 4, green is 2 and blue is 1.
#[derive(Copy, Clone, PartialEq, Eq, Structural, Debug)]
pub enum Colour {
    Black,
    Blue,
    Green,
    Cyan,
    Red,
    Magenta,
    Yellow,
    White,
}

impl Colour {
    /// The palette index of this colour.
    pub open spec fn index(self) -> u8 {
        match self {
            Colour::Black => 0,
            Colour::Blue => 1,
            Colour::Green => 2,
            Colour::Cyan => 3,
            Colour::Red => 4,
            Colour::Magenta => 5,
            Colour::Yellow => 6,
            Colour::White => 7,
        }
    }

    /// The palette index of this colour.
    pub fn as_u8(self) -> (r: u8)
        ensures
            r == self.index(),
    {
        match self {
            Colour::Black => 0,
            Colour::Blue => 1,
            Colour::Green => 2,
            Colour::Cyan => 3,
            Colour::Red => 4,
            Colour::Magenta => 5,
            Colour::Yellow => 6,
            Colour::White => 7,
        }
    }

    /// Generate 8 pixels in RGB which are all this colour.
    pub fn into_pixels(self) -> (r: XRGBColour)
        ensures
            r == XRGBColour::spec_new(
                if self.index() / 4 % 2 == 1 { 0xFFu8 } else { 0u8 },
                if self.index() / 2 % 2 == 1 { 0xFFu8 } else { 0u8 },
                if self.index() % 2 == 1 { 0xFFu8 } else { 0u8 },
            ),
    {
        match self {
            Colour::White => XRGBColour::new(0xFF, 0xFF, 0xFF),
            Colour::Yellow => XRGBColour::new(0xFF, 0xFF, 0x00),
            Colour::Magenta => XRGBColour::new(0xFF, 0x00, 0xFF),
            Colour::Red => XRGBColour::new(0xFF, 0x00, 0x00),
            Colour::Cyan => XRGBColour::new(0x00, 0xFF, 0xFF),
            Colour::Green => XRGBColour::new(0x00, 0xFF, 0x00),
            Colour::Blue => XRGBColour::new(0x00, 0x00, 0xFF),
            Colour::Black => XRGBColour::new(0x00, 0x00, 0x00),
        }
    }
}

/// A foreground and a background colour, packed into one byte as
/// `0b00FF_FBBB` to save RAM.
#[derive(Copy, Clone, PartialEq, Eq, Structural, Debug)]
pub struct Attr(pub(crate) u8);

/// Eight pixels of one primary: where a pixel bit of `pixels` is set the
/// primary is on if the foreground has it, elsewhere if the background has
/// it.
pub open spec fn channel_byte(fg_on: bool, bg_on: bool, pixels: u8) -> u8 {
    (if fg_on { pixels } else { 0u8 }) | (if bg_on { !pixels } else { 0u8 })
}

impl Attr {
    /// The packed byte.
    pub open(crate) spec fn bits(self) -> u8 {
        self.0
    }

    /// This attribute with its foreground replaced by `fg`.
    pub open(crate) spec fn with_fg(self, fg: Colour) -> Attr {
        Attr((self.0 & 0xC7u8) | (fg.index() << 3u8))
    }

    /// This attribute with its background replaced by `bg`.
    pub open(crate) spec fn with_bg(self, bg: Colour) -> Attr {
        Attr((self.0 & 0xF8u8) | bg.index())
    }

    /// The foreground's palette index.
    pub open spec fn fg_index(self) -> u8 {
        (self.bits() >> 3u8) & 7u8
    }

    /// The background's palette index.
    pub open spec fn bg_index(self) -> u8 {
        self.bits() & 7u8
    }

    /// Only the six colour bits are in use.
    pub open spec fn wf(self) -> bool {
        self.bits() < 64
    }

    /// The attribute with foreground `fg` and background `bg`.
    pub open spec fn of(fg: Colour, bg: Colour) -> u8 {
        (fg.index() * 8 + bg.index()) as u8
    }

    /// The eight RGB pixels that `pixels` shows in this attribute.
    pub open spec fn spec_colour_pixels(self, pixels: u8) -> XRGBColour {
        let fg = self.fg_index();
        let bg = self.bg_index();
        XRGBColour::spec_new(
            channel_byte(fg & 4 != 0, bg & 4 != 0, pixels),
            channel_byte(fg & 2 != 0, bg & 2 != 0, pixels),
            channel_byte(fg & 1 != 0, bg & 1 != 0, pixels),
        )
    }

    pub fn new(fg: Colour, bg: Colour) -> (r: Attr)
        ensures
            r.bits() == Attr::of(fg, bg),
            r.fg_index() == fg.index(),
            r.bg_index() == bg.index(),
            r.wf(),
    {
        let f = fg.as_u8();
        let b = bg.as_u8();
        let r = Attr((f << 3u8) | b);
        proof {
            assert(f < 8 && b < 8);
            assert((f << 3u8) | b == f * 8 + b) by (bit_vector)
                requires f < 8u8, b < 8u8;
            assert((((f * 8 + b) as u8 >> 3u8) & 7u8) == f) by (bit_vector)
                requires f < 8u8, b < 8u8;
            assert((((f * 8 + b) as u8) & 7u8) == b) by (bit_vector)
                requires f < 8u8, b < 8u8;
        }
        r
    }

    /// Change the foreground, keeping the background.
    pub fn set_fg(&mut self, fg: Colour) -> (r: &mut Attr)
        ensures
            *r == old(self).with_fg(fg),
            r.bits() == (old(self).bits() & 0xC7u8) | (fg.index() << 3u8),
            r.fg_index() == fg.index(),
            r.bg_index() == old(self).bg_index(),
            old(self).wf() ==> r.wf(),
            *final(self) == *final(r),
    {
        let f = fg.as_u8();
        let old_bits = self.0;
        self.0 = (self.0 & 0xC7u8) | (f << 3u8);
        proof {
            let n = (old_bits & 0xC7u8) | (f << 3u8);
            assert(f < 8);
            assert((n >> 3u8) & 7u8 == f) by (bit_vector)
                requires f < 8u8, n == (old_bits & 0xC7u8) | (f << 3u8);
            assert(n & 7u8 == old_bits & 7u8) by (bit_vector)
                requires f < 8u8, n == (old_bits & 0xC7u8) | (f << 3u8);
            assert(old_bits < 64 ==> n < 64) by (bit_vector)
                requires f < 8u8, n == (old_bits & 0xC7u8) | (f << 3u8);
        }
        self
    }

    /// Change the background, keeping the foreground.
    pub fn set_bg(&mut self, bg: Colour) -> (r: &mut Attr)
        ensures
            *r == old(self).with_bg(bg),
            r.bits() == (old(self).bits() & 0xF8u8) | bg.index(),
            r.fg_index() == old(self).fg_index(),
            r.bg_index() == bg.index(),
            old(self).wf() ==> r.wf(),
            *final(self) == *final(r),
    {
        let b = bg.as_u8();
        let old_bits = self.0;
        self.0 = (self.0 & 0xF8u8) | b;
        proof {
            let n = (old_bits & 0xF8u8) | b;
            assert(b < 8);
            assert((n >> 3u8) & 7u8 == (old_bits >> 3u8) & 7u8) by (bit_vector)
                requires b < 8u8, n == (old_bits & 0xF8u8) | b;
            assert(n & 7u8 == b) by (bit_vector)
                requires b < 8u8, n == (old_bits & 0xF8u8) | b;
            assert(old_bits < 64 ==> n < 64) by (bit_vector)
                requires b < 8u8, n == (old_bits & 0xF8u8) | b;
        }
        self
    }

    /// The packed byte.
    pub fn as_u8(self) -> (r: u8)
        ensures
            r == self.bits(),
    {
        self.0
    }

    /// The eight RGB pixels that the font byte `pixels` shows in this
    /// attribute: foreground where a bit is set, background elsewhere.
    pub fn colour_pixels(self, pixels: u8) -> (r: XRGBColour)
        ensures
            r == self.spec_colour_pixels(pixels),
    {
        let fg = (self.0 >> 3u8) & 7u8;
        let bg = self.0 & 7u8;
        let red = (if fg & 4 != 0 { pixels } else { 0u8 }) | (if bg & 4 != 0 { !pixels } else { 0u8 });
        let green = (if fg & 2 != 0 { pixels } else { 0u8 }) | (if bg & 2 != 0 { !pixels } else { 0u8 });
        let blue = (if fg & 1 != 0 { pixels } else { 0u8 }) | (if bg & 1 != 0 { !pixels } else { 0u8 });
        XRGBColour::new(red, green, blue)
    }
}

impl Default for Attr {
    /// White on blue.
    fn default() -> (r: Attr)
        ensures
            r.bits() == Attr::of(Colour::White, Colour::Blue),
            r.fg_index() == 7,
            r.bg_index() == 1,
            r.wf(),
    {
        Attr::new(Colour::White, Colour::Blue)
    }
}

/// Represents 8 pixels, each of which can be any 3-bit RGB colour: red in
/// bits 16 to 23, green in bits 8 to 15 and blue in bits 0 to 7, the
/// leftmost pixel in the most significant bit of each.
#[derive(Copy, Clone, PartialEq, Eq, Structural, Debug)]
pub struct XRGBColour(pub u32);

impl XRGBColour {
    /// The word that mixes eight red/black, eight green/black and eight
    /// blue/black pixels.
    pub open spec fn spec_new(red: u8, green: u8, blue: u8) -> XRGBColour {
        XRGBColour(((red as u32) << 16u32) | ((green as u32) << 8u32) | (blue as u32))
    }

    /// Create a new block of 8 coloured pixels by mixing 8 red/black pixels,
    /// 8 green/black pixels and 8 blue/black pixels.
    pub fn new(red: u8, green: u8, blue: u8) -> (r: XRGBColour)
        ensures
            r == XRGBColour::spec_new(red, green, blue),
    {
        XRGBColour(((red as u32) << 16u32) | ((green as u32) << 8u32) | (blue as u32))
    }

    /// Get the 8 red/black pixels in the bottom 8 bits.
    pub fn red(self) -> (r: u32)
        ensures
            r == (self.0 >> 16u32) & 0xFFu32,
    {
        (self.0 >> 16u32) & 0xFF
    }

    /// Get the 8 green/black pixels in the bottom 8 bits.
    pub fn green(self) -> (r: u32)
        ensures
            r == (self.0 >> 8u32) & 0xFFu32,
    {
        (self.0 >> 8u32) & 0xFF
    }

    /// Get the 8 blue/black pixels in the bottom 8 bits.
    pub fn blue(self) -> (r: u32)
        ensures
            r == self.0 & 0xFFu32,
    {
        self.0 & 0xFF
    }

    /// Whether pixel `pixel` (0 is the rightmost) has red in it.
    pub fn pixel_has_red(self, pixel: u8) -> (r: bool)
        requires
            pixel < 8,
        ensures
            r == ((self.0 >> (16 + (7 - pixel)) as u32) & 1u32 == 1u32),
    {
        ((self.0 >> (16 + (7 - pixel)) as u32) & 1) == 1
    }

    /// Whether pixel `pixel` (0 is the rightmost) has green in it.
    pub fn pixel_has_green(self, pixel: u8) -> (r: bool)
        requires
            pixel < 8,
        ensures
            r == ((self.0 >> (8 + (7 - pixel)) as u32) & 1u32 == 1u32),
    {
        ((self.0 >> (8 + (7 - pixel)) as u32) & 1) == 1
    }

    /// Whether pixel `pixel` (0 is the rightmost) has blue in it.
    pub fn pixel_has_blue(self, pixel: u8) -> (r: bool)
        requires
            pixel < 8,
        ensures
            r == ((self.0 >> (7 - pixel) as u32) & 1u32 == 1u32),
    {
        ((self.0 >> (7 - pixel) as u32) & 1) == 1
    }
}

} // verus!
