use vga_framebuffer::{Attr, Char, Colour, Font, Font8x16, Font8x32, Glyph, XRGBColour};

#[test]
fn attr_packs_foreground_and_background() {
    assert_eq!(Attr::new(Colour::White, Colour::Blue).as_u8(), 0b0011_1001);
    assert_eq!(Attr::new(Colour::Black, Colour::Black).as_u8(), 0);
    assert_eq!(Attr::new(Colour::Red, Colour::Cyan).as_u8(), 0b0010_0011);
    assert_eq!(Attr::default(), Attr::new(Colour::White, Colour::Blue));
}

#[test]
fn attr_setters_keep_the_other_colour() {
    let mut a = Attr::new(Colour::Green, Colour::Magenta);
    a.set_fg(Colour::Yellow);
    assert_eq!(a, Attr::new(Colour::Yellow, Colour::Magenta));
    a.set_bg(Colour::Black).set_fg(Colour::Cyan);
    assert_eq!(a, Attr::new(Colour::Cyan, Colour::Black));
    assert_eq!(a.as_u8(), 0b0001_1000);
}

#[test]
fn colour_into_pixels() {
    assert_eq!(Colour::White.into_pixels(), XRGBColour(0xFF_FF_FF));
    assert_eq!(Colour::Yellow.into_pixels(), XRGBColour(0xFF_FF_00));
    assert_eq!(Colour::Magenta.into_pixels(), XRGBColour(0xFF_00_FF));
    assert_eq!(Colour::Red.into_pixels(), XRGBColour(0xFF_00_00));
    assert_eq!(Colour::Cyan.into_pixels(), XRGBColour(0x00_FF_FF));
    assert_eq!(Colour::Green.into_pixels(), XRGBColour(0x00_FF_00));
    assert_eq!(Colour::Blue.into_pixels(), XRGBColour(0x00_00_FF));
    assert_eq!(Colour::Black.into_pixels(), XRGBColour(0));
    assert_eq!(Colour::Red.as_u8(), 4);
}

#[test]
fn xrgb_channels_and_pixels() {
    let w = XRGBColour::new(0x12, 0x34, 0x56);
    assert_eq!(w.0, 0x12_34_56);
    assert_eq!(w.red(), 0x12);
    assert_eq!(w.green(), 0x34);
    assert_eq!(w.blue(), 0x56);
    let p = XRGBColour::new(0b1000_0000, 0b0000_0001, 0b0100_0000);
    assert!(p.pixel_has_red(0));
    assert!(!p.pixel_has_red(1));
    assert!(p.pixel_has_green(7));
    assert!(!p.pixel_has_green(0));
    assert!(p.pixel_has_blue(1));
    assert!(!p.pixel_has_blue(2));
}

#[test]
fn colour_pixels_mixes_foreground_and_background() {
    let a = Attr::new(Colour::Yellow, Colour::Blue);
    assert_eq!(a.colour_pixels(0b1100_0011), XRGBColour::new(0b1100_0011, 0b1100_0011, 0b0011_1100));
    let b = Attr::new(Colour::Black, Colour::White);
    assert_eq!(b.colour_pixels(0x0F), XRGBColour::new(0xF0, 0xF0, 0xF0));
}

#[test]
fn char_codes_round_trip() {
    for b in 0..=255u8 {
        assert_eq!(Char::from_byte(b).as_u8(), b);
        assert_eq!(Glyph::from_byte(b).as_u8(), b);
    }
    assert_eq!(Char::from_byte(0x41), Char::LatinCapitalLetterA);
    assert_eq!(Char::default(), Char::Space);
    assert_eq!(Glyph::default(), Glyph::Space);
}

#[test]
fn map_char_uses_code_page_850() {
    assert_eq!(Char::map_char('A'), Char::LatinCapitalLetterA);
    assert_eq!(Char::map_char('~').as_u8(), 0x7E);
    assert_eq!(Char::map_char('\u{e9}').as_u8(), 130);
    assert_eq!(Char::map_char('\u{2642}'), Char::VT);
    assert_eq!(Char::map_char('\u{20ac}'), Char::QuestionMark);
    assert_eq!(Glyph::map_char('\u{e9}'), Glyph::LatinSmallLetterEWithAcute);
    assert_eq!(Glyph::map_char('\u{263a}'), Glyph::SOH);
    assert_eq!(Glyph::map_char('\u{20ac}'), Glyph::QuestionMark);
}

#[test]
fn glyph_rows_of_builtin_font() {
    let a = Glyph::map_char('A');
    assert_eq!(a.pixels(0), 0x00);
    assert_eq!(a.pixels(3), 0x38);
    assert_eq!(a.pixels(7), 0xFE);
    assert_eq!(Glyph::LowLine.pixels(13), 0xFF);
    assert_eq!(Font8x16.pixels(Char::LatinCapitalLetterA, 7), 0xFE);
    assert_eq!(Font8x16.height_pixels(), 16);
    assert_eq!(Font8x16.width_pixels(), 8);
    assert_eq!(Font8x16.length_bytes(), 4096);
}

#[test]
fn tall_font_doubles_rows() {
    for row in 0..32 {
        assert_eq!(
            Font8x32.pixels(Char::LatinCapitalLetterA, row),
            Font8x16.pixels(Char::LatinCapitalLetterA, row / 2)
        );
    }
    assert_eq!(Font8x32.pixels(Char::LatinCapitalLetterA, 7), 0x38);
    assert_eq!(Font8x32.height_pixels(), 32);
    assert_eq!(Font8x32.width_pixels(), 8);
    assert_eq!(Font8x32.length_bytes(), 4096);
}
