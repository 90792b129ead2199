use vga_framebuffer::{
    Attr, Char, Col, Colour, DoubleHeightMode, FrameBuffer, Hardware, LineAction, ModeInfo,
    Position, Row, SignalLog, XRGBColour, MODE0_HORIZONTAL_OCTETS,
};

#[derive(Default)]
struct Recorder {
    vsync_on: Vec<usize>,
    vsync_off: Vec<usize>,
    words: usize,
    last_words: Vec<XRGBColour>,
    call: usize,
}

impl Hardware for Recorder {
    fn signals(&self) -> SignalLog {
        unreachable!("a view for proofs only")
    }

    fn vsync_on(&mut self) {
        self.vsync_on.push(self.call);
    }

    fn vsync_off(&mut self) {
        self.vsync_off.push(self.call);
    }

    fn write_pixels(&mut self, xrgb: XRGBColour) {
        self.words += 1;
        self.last_words.push(xrgb);
    }
}

const WHITE: XRGBColour = XRGBColour(0xFF_FF_FF);

/// Rows of 'A' in the built-in font.
const GLYPH_A: [u8; 16] = [
    0x00, 0x00, 0x10, 0x38, 0x6c, 0xc6, 0xc6, 0xfe, 0xc6, 0xc6, 0xc6, 0xc6, 0x00, 0x00, 0x00, 0x00,
];

fn render(fb: &FrameBuffer, line: usize) -> Vec<XRGBColour> {
    let mut out = Vec::new();
    fb.render_data_line(line, &mut out);
    out
}

fn white_on_blue(pixels: u8) -> XRGBColour {
    XRGBColour::new(pixels, pixels, 0xFF)
}

#[test]
fn frame_timing_events() {
    let mut fb = FrameBuffer::new();
    let mut hw = Recorder::default();
    for call in 0..(3 * 628) {
        hw.call = call;
        fb.isr_sol(&mut hw);
        if call % 628 == 627 {
            assert_eq!(fb.frame(), call / 628 + 1);
        }
    }
    assert_eq!(hw.vsync_on, vec![628, 1256]);
    assert_eq!(hw.vsync_off, vec![4, 632, 1260]);
    assert_eq!(hw.words, 3 * 600 * MODE0_HORIZONTAL_OCTETS);
    assert_eq!(fb.frame(), 3);
}

#[test]
fn first_sync_pulse_is_silent() {
    let mut fb = FrameBuffer::new();
    let mut hw = Recorder::default();
    for call in 0..5 {
        hw.call = call;
        fb.isr_sol(&mut hw);
    }
    assert!(hw.vsync_on.is_empty());
    assert_eq!(hw.vsync_off, vec![4]);
    assert_eq!(hw.words, 0);
    assert_eq!(fb.frame(), 0);
    assert_eq!(fb.line(), None);
}

#[test]
fn border_and_text_lines_send_their_words() {
    let mut fb = FrameBuffer::new();
    fb.set_cursor_visible(false);
    fb.write_str("A");
    let mut hw = Recorder::default();
    for _ in 0..27 {
        fb.isr_sol(&mut hw);
    }
    hw.last_words.clear();
    fb.isr_sol(&mut hw);
    assert_eq!(hw.last_words, vec![WHITE; MODE0_HORIZONTAL_OCTETS]);
    for _ in 28..42 {
        fb.isr_sol(&mut hw);
    }
    hw.last_words.clear();
    fb.isr_sol(&mut hw);
    assert_eq!(hw.last_words, render(&fb, 3));
    assert_eq!(hw.last_words[1], white_on_blue(0x38));
}

#[test]
fn line_and_total_line_follow_counter() {
    let mut fb = FrameBuffer::new();
    let mut hw = Recorder::default();
    assert_eq!(fb.line(), None);
    for _ in 0..39 {
        fb.isr_sol(&mut hw);
    }
    assert_eq!(fb.line(), Some(0));
    assert_eq!(fb.total_line(), 39);
    for _ in 0..576 {
        fb.isr_sol(&mut hw);
    }
    assert_eq!(fb.line(), None);
    for _ in 0..(628 - 615 + 1) {
        fb.isr_sol(&mut hw);
    }
    assert_eq!(fb.frame(), 1);
    assert_eq!(fb.total_line(), 628 + 1);
}

#[test]
fn advance_reports_line_actions() {
    let mut fb = FrameBuffer::new();
    assert_eq!(fb.advance_one_line(), LineAction::Blank);
    for _ in 1..4 {
        assert_eq!(fb.advance_one_line(), LineAction::Blank);
    }
    assert_eq!(fb.advance_one_line(), LineAction::VsyncOff);
    for _ in 5..27 {
        fb.advance_one_line();
    }
    assert_eq!(fb.advance_one_line(), LineAction::Border);
    for _ in 28..39 {
        fb.advance_one_line();
    }
    assert_eq!(fb.advance_one_line(), LineAction::Data(0));
    for _ in 40..614 {
        fb.advance_one_line();
    }
    assert_eq!(fb.advance_one_line(), LineAction::Data(575));
    assert_eq!(fb.advance_one_line(), LineAction::Border);
    for _ in 616..627 {
        fb.advance_one_line();
    }
    assert_eq!(fb.advance_one_line(), LineAction::FrameEnd);
    assert_eq!(fb.frame(), 1);
    assert_eq!(fb.advance_one_line(), LineAction::VsyncOn);
}

#[test]
fn init_reports_mode() {
    let mut fb = FrameBuffer::new();
    let mut seen: Option<(u32, u32, u32, u32, u32, u32, u32)> = None;
    fb.init(|m: &ModeInfo| {
        seen = Some((
            m.width,
            m.visible_width,
            m.sync_end,
            m.line_start,
            m.clock_rate,
            m.num_lines,
            m.visible_lines,
        ))
    });
    assert_eq!(seen, Some((528, 400, 64, 108, 20_000_000, 628, 600)));
}

#[test]
fn text_line_pixels() {
    let mut fb = FrameBuffer::new();
    fb.set_cursor_visible(false);
    fb.write_glyph_at(Char::map_char('A'), Position::new(Row(0), Col(1)), None);
    for line in 0..16 {
        let words = render(&fb, line);
        assert_eq!(words.len(), MODE0_HORIZONTAL_OCTETS);
        assert_eq!(words[0], WHITE);
        assert_eq!(words[49], WHITE);
        assert_eq!(words[1], white_on_blue(0));
        assert_eq!(words[2], white_on_blue(GLYPH_A[line]));
    }
    assert_eq!(render(&fb, 3)[2], XRGBColour(0x38_38_FF));
}

#[test]
fn cursor_glyph_is_drawn() {
    let fb = FrameBuffer::new();
    assert_eq!(render(&fb, 13)[1], white_on_blue(0xFF));
    assert_eq!(render(&fb, 12)[1], white_on_blue(0x00));
}

#[test]
fn rendering_twice_gives_same_words() {
    let mut fb = FrameBuffer::new();
    fb.write_str("Same words \u{1b}Rtwice");
    for line in [0usize, 7, 15, 300] {
        assert_eq!(render(&fb, line), render(&fb, line));
    }
    let mut hw = Recorder::default();
    let before = render(&fb, 5);
    for _ in 0..700 {
        fb.isr_sol(&mut hw);
    }
    assert_eq!(render(&fb, 5), before);
}

#[test]
fn double_height_rows_stretch_glyph_halves() {
    let mut fb = FrameBuffer::new();
    fb.set_cursor_visible(false);
    fb.write_glyph_at(Char::map_char('A'), Position::new(Row(0), Col(0)), None);
    fb.write_glyph_at(Char::map_char('A'), Position::new(Row(1), Col(0)), None);
    fb.set_line_mode_at(Row(0), DoubleHeightMode::Top);
    fb.set_line_mode_at(Row(1), DoubleHeightMode::Bottom);
    for line in 0..16 {
        assert_eq!(render(&fb, line)[1], white_on_blue(GLYPH_A[line / 2]));
        assert_eq!(render(&fb, 16 + line)[1], white_on_blue(GLYPH_A[8 + line / 2]));
    }
}

#[test]
fn escape_sets_double_height_of_current_row() {
    let mut fb = FrameBuffer::new();
    fb.set_cursor_visible(false);
    fb.write_str("\u{1b}^A\n\u{1b}vA\n\u{1b}-A");
    for line in 0..16 {
        assert_eq!(render(&fb, line)[1], white_on_blue(GLYPH_A[line / 2]));
        assert_eq!(render(&fb, 16 + line)[1], white_on_blue(GLYPH_A[8 + line / 2]));
        assert_eq!(render(&fb, 32 + line)[1], white_on_blue(GLYPH_A[line]));
    }
    fb.set_line_mode(DoubleHeightMode::Normal);
    fb.set_pos(Position::new(Row(0), Col(0))).unwrap();
    fb.set_line_mode(DoubleHeightMode::Normal);
    assert_eq!(render(&fb, 3)[1], white_on_blue(GLYPH_A[3]));
}

#[test]
fn overlay_attach_and_release() {
    let mut fb = FrameBuffer::new();
    fb.set_cursor_visible(false);
    fb.write_str("AAAA");
    let text: Vec<Vec<XRGBColour>> = (0..20).map(|l| render(&fb, l)).collect();
    let buffer: Vec<u8> = (0..480).map(|i| (i % 251) as u8).collect();
    fb.mode2(buffer.clone(), 0);
    assert_eq!(fb.mode2_span(), Some((0, 20)));
    for line in 0..20 {
        let words = render(&fb, line);
        for col in 0..48 {
            assert_eq!(words[col + 1], white_on_blue(buffer[(line / 2) * 48 + col]));
        }
    }
    assert_eq!(render(&fb, 20), render(&fb, 20));
    let (back, start) = fb.mode2_release().unwrap();
    assert_eq!(back, buffer);
    assert_eq!(start, 0);
    assert_eq!(fb.mode2_span(), None);
    assert_eq!(fb.mode2_release(), None);
    for line in 0..20 {
        assert_eq!(render(&fb, line), text[line]);
    }
}

#[test]
fn overlay_takes_cell_colours_and_shifts() {
    let mut fb = FrameBuffer::new();
    fb.set_attr_at(Position::new(Row(6), Col(0)), Attr::new(Colour::Red, Colour::Black));
    fb.mode2(vec![0xF0; 48 * 3 + 10], 100);
    assert_eq!(fb.mode2_span(), Some((100, 106)));
    assert_eq!(render(&fb, 100)[1], XRGBColour::new(0xF0, 0x00, 0x00));
    assert_eq!(render(&fb, 106)[1], XRGBColour::new(0x00, 0x00, 0x00));
    assert_eq!(render(&fb, 106)[2], white_on_blue(0));
    fb.mode2_shift(10);
    assert_eq!(fb.mode2_span(), Some((10, 16)));
    assert_eq!(render(&fb, 100)[1], XRGBColour::new(0x00, 0x00, 0x00));
    assert_eq!(render(&fb, 15)[2], XRGBColour::new(0xF0, 0xF0, 0xFF));
}

#[test]
fn map_line_redirects_a_visible_line() {
    let mut fb = FrameBuffer::new();
    fb.set_cursor_visible(false);
    fb.write_str("A");
    fb.map_line(100, 3);
    assert_eq!(render(&fb, 100), render(&fb, 3));
    fb.map_line(101, 576);
    fb.map_line(576, 3);
    assert_eq!(render(&fb, 101)[1], white_on_blue(0));
}

#[test]
fn custom_font_replaces_builtin() {
    let mut fb = FrameBuffer::new();
    fb.set_cursor_visible(false);
    fb.write_str("A");
    let stripes: &'static [u8] = Box::leak(vec![0xAAu8; 4096].into_boxed_slice());
    fb.set_custom_font(Some(stripes));
    assert_eq!(render(&fb, 0)[1], white_on_blue(0xAA));
    fb.set_custom_font(None);
    assert_eq!(render(&fb, 3)[1], white_on_blue(0x38));
}

#[test]
fn border_and_attribute_colours() {
    let mut fb = FrameBuffer::new();
    fb.set_cursor_visible(false);
    fb.set_attr_at(Position::new(Row(0), Col(0)), Attr::new(Colour::Yellow, Colour::Magenta));
    assert_eq!(render(&fb, 0)[1], XRGBColour::new(0xFF, 0x00, 0xFF));
    fb.write_glyph_at(
        Char::BlackSquare,
        Position::new(Row(0), Col(0)),
        Some(Attr::new(Colour::Yellow, Colour::Magenta)),
    );
    let w = render(&fb, 5)[1];
    assert_eq!(w, XRGBColour::new(0xFF, 0x7e, 0x81));
}
