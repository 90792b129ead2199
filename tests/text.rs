use vga_framebuffer::{
    Attr, Char, Col, Colour, ControlCharMode, EscapeCharMode, FrameBuffer, Position, Row,
    MODE0_TEXT_MAX_COL, MODE0_TEXT_MAX_ROW, MODE0_TEXT_NUM_COLS, MODE0_TEXT_NUM_ROWS,
};

fn at(row: usize, col: usize) -> Position {
    Position::new(Row(row as u8), Col(col as u8))
}

fn read(fb: &mut FrameBuffer, row: usize, col: usize) -> (Char, Attr) {
    fb.read_glyph_at(at(row, col)).unwrap()
}

fn default_attr() -> Attr {
    Attr::new(Colour::White, Colour::Blue)
}

#[test]
fn new_screen_is_blank_with_cursor_at_origin() {
    let mut fb = FrameBuffer::new();
    assert_eq!(fb.get_pos().row, Row(0));
    assert_eq!(fb.get_pos().col, Col(0));
    for row in 0..MODE0_TEXT_NUM_ROWS {
        for col in 0..MODE0_TEXT_NUM_COLS {
            assert_eq!(read(&mut fb, row, col), (Char::Space, default_attr()));
        }
    }
    assert_eq!(fb.get_attr(), default_attr());
    assert_eq!(fb.get_attr().as_u8(), 0x39);
}

#[test]
fn write_corners_leaves_other_cells_blank() {
    let mut fb = FrameBuffer::new();
    fb.write_glyph_at(Char::map_char('A'), at(0, 0), None);
    fb.write_glyph_at(Char::map_char('B'), at(MODE0_TEXT_MAX_ROW, MODE0_TEXT_MAX_COL), None);
    assert_eq!(read(&mut fb, 0, 0), (Char::LatinCapitalLetterA, default_attr()));
    assert_eq!(read(&mut fb, 35, 47), (Char::LatinCapitalLetterB, default_attr()));
    let mut spaces = 0;
    for row in 0..MODE0_TEXT_NUM_ROWS {
        for col in 0..MODE0_TEXT_NUM_COLS {
            if (row, col) != (0, 0) && (row, col) != (35, 47) {
                assert_eq!(read(&mut fb, row, col), (Char::Space, default_attr()));
                spaces += 1;
            }
        }
    }
    assert_eq!(spaces, 1726);
}

#[test]
fn write_then_read_with_hidden_cursor_elsewhere() {
    let mut fb = FrameBuffer::new();
    fb.set_cursor_visible(false);
    let red_on_green = Attr::new(Colour::Red, Colour::Green);
    for row in [0usize, 7, 35] {
        for col in [0usize, 20, 47] {
            fb.write_glyph_at(Char::from_byte((row * 3 + col) as u8), at(row, col), Some(red_on_green));
            assert_eq!(
                read(&mut fb, row, col),
                (Char::from_byte((row * 3 + col) as u8), red_on_green)
            );
        }
    }
}

#[test]
fn write_under_visible_cursor_keeps_cursor_glyph() {
    let mut fb = FrameBuffer::new();
    fb.set_pos(at(3, 4)).unwrap();
    fb.write_glyph_at(Char::map_char('x'), at(3, 4), None);
    assert_eq!(read(&mut fb, 3, 4).0, Char::LatinSmallLetterX);
    fb.set_cursor_visible(false);
    assert_eq!(read(&mut fb, 3, 4).0, Char::LatinSmallLetterX);
    fb.set_cursor_visible(true);
    fb.set_pos(at(0, 0)).unwrap();
    assert_eq!(read(&mut fb, 3, 4).0, Char::LatinSmallLetterX);
}

#[test]
fn off_screen_positions_are_ignored() {
    let mut fb = FrameBuffer::new();
    assert_eq!(fb.read_glyph_at(at(36, 0)), None);
    assert_eq!(fb.read_glyph_at(at(0, 48)), None);
    fb.write_glyph_at(Char::map_char('Q'), at(36, 0), None);
    fb.set_attr_at(at(0, 48), Attr::new(Colour::Black, Colour::Black));
    for row in 0..MODE0_TEXT_NUM_ROWS {
        for col in 0..MODE0_TEXT_NUM_COLS {
            assert_eq!(read(&mut fb, row, col), (Char::Space, default_attr()));
        }
    }
}

#[test]
fn cursor_moves_are_checked() {
    let mut fb = FrameBuffer::new();
    assert_eq!(fb.set_pos(at(36, 0)), Err(()));
    assert_eq!(fb.set_pos(at(0, 48)), Err(()));
    assert_eq!(fb.set_col(Col(48)), Err(()));
    assert_eq!(fb.set_row(Row(36)), Err(()));
    assert_eq!(fb.get_pos().row, Row(0));
    assert_eq!(fb.set_col(Col(47)), Ok(()));
    assert_eq!(fb.set_row(Row(35)), Ok(()));
    assert_eq!(fb.get_pos().row, Row(35));
    assert_eq!(fb.get_pos().col, Col(47));
    assert_eq!(fb.get_width(), Col(47));
    assert_eq!(fb.get_height(), Row(35));
}

#[test]
fn cursor_round_trip_keeps_true_glyphs() {
    let mut fb = FrameBuffer::new();
    fb.set_cursor_visible(false);
    fb.write_glyph_at(Char::map_char('1'), at(5, 5), None);
    fb.write_glyph_at(Char::map_char('2'), at(6, 6), None);
    fb.set_cursor_visible(true);
    fb.set_pos(at(5, 5)).unwrap();
    fb.set_pos(at(6, 6)).unwrap();
    fb.set_cursor_visible(false);
    fb.set_cursor_visible(true);
    fb.set_pos(at(5, 5)).unwrap();
    fb.set_cursor_visible(false);
    assert_eq!(read(&mut fb, 5, 5).0, Char::DigitOne);
    assert_eq!(read(&mut fb, 6, 6).0, Char::DigitTwo);
}

#[test]
fn clear_blanks_every_cell_and_homes_cursor() {
    let mut fb = FrameBuffer::new();
    fb.write_str("Hello\nWorld");
    fb.set_pos(at(10, 10)).unwrap();
    fb.clear();
    assert_eq!(fb.get_pos().row, Row(0));
    assert_eq!(fb.get_pos().col, Col(0));
    for row in 0..MODE0_TEXT_NUM_ROWS {
        for col in 0..MODE0_TEXT_NUM_COLS {
            assert_eq!(read(&mut fb, row, col), (Char::Space, default_attr()));
        }
    }
}

#[test]
fn scroll_moves_rows_up() {
    let mut fb = FrameBuffer::new();
    for row in 0..MODE0_TEXT_NUM_ROWS {
        for col in 0..MODE0_TEXT_NUM_COLS {
            fb.write_glyph_at(Char::from_byte(0x41 + row as u8), at(row, col), None);
        }
    }
    assert_eq!(fb.scroll_screen(), Ok(()));
    for row in 0..MODE0_TEXT_MAX_ROW {
        for col in 0..MODE0_TEXT_NUM_COLS {
            assert_eq!(read(&mut fb, row, col).0, Char::from_byte(0x42 + row as u8));
        }
    }
    for col in 0..MODE0_TEXT_NUM_COLS {
        assert_eq!(read(&mut fb, 35, col), (Char::Space, default_attr()));
    }
}

#[test]
fn write_glyph_wraps_and_scrolls() {
    let mut fb = FrameBuffer::new();
    fb.set_pos(at(35, 47)).unwrap();
    fb.write_glyph_at(Char::map_char('t'), at(0, 0), None);
    fb.write_glyph(Char::map_char('z'), None);
    assert_eq!(fb.get_pos().row, Row(35));
    assert_eq!(fb.get_pos().col, Col(0));
    assert_eq!(read(&mut fb, 34, 47).0, Char::LatinSmallLetterZ);
    assert_eq!(read(&mut fb, 0, 0).0, Char::Space);
    fb.write_char(0x41, Some(Attr::new(Colour::Black, Colour::White)));
    assert_eq!(
        read(&mut fb, 35, 0),
        (Char::LatinCapitalLetterA, Attr::new(Colour::Black, Colour::White))
    );
    assert_eq!(fb.get_pos().col, Col(1));
}

#[test]
fn move_cursor_right_wraps_to_next_row() {
    let mut fb = FrameBuffer::new();
    fb.set_pos(at(2, 47)).unwrap();
    assert_eq!(fb.move_cursor_right(), Ok(()));
    assert_eq!(fb.get_pos().row, Row(3));
    assert_eq!(fb.get_pos().col, Col(0));
}

#[test]
fn set_attr_at_keeps_glyph() {
    let mut fb = FrameBuffer::new();
    fb.write_glyph_at(Char::map_char('k'), at(1, 1), None);
    fb.set_attr_at(at(1, 1), Attr::new(Colour::Yellow, Colour::Black));
    assert_eq!(
        read(&mut fb, 1, 1),
        (Char::LatinSmallLetterK, Attr::new(Colour::Yellow, Colour::Black))
    );
}

#[test]
fn set_attr_returns_previous() {
    let mut fb = FrameBuffer::new();
    let cyan = Attr::new(Colour::Cyan, Colour::Magenta);
    assert_eq!(fb.set_attr(cyan), default_attr());
    assert_eq!(fb.get_attr(), cyan);
    fb.write_str("c");
    fb.set_cursor_visible(false);
    assert_eq!(read(&mut fb, 0, 0), (Char::LatinSmallLetterC, cyan));
}

#[test]
fn text_writer_control_characters() {
    let mut fb = FrameBuffer::new();
    fb.set_cursor_visible(false);
    fb.write_str("Hello\r123");
    assert_eq!(read(&mut fb, 0, 0).0, Char::DigitOne);
    assert_eq!(read(&mut fb, 0, 3).0, Char::LatinSmallLetterL);
    assert_eq!(fb.get_pos().col, Col(3));
    fb.write_str("\n");
    assert_eq!(fb.get_pos().row, Row(1));
    assert_eq!(fb.get_pos().col, Col(0));
    fb.write_str("1\t2");
    assert_eq!(read(&mut fb, 1, 9).0, Char::DigitTwo);
    fb.write_str("~\u{8}!");
    assert_eq!(read(&mut fb, 1, 10).0, Char::ExclamationMark);
    fb.write_str("\u{7f}");
    assert_eq!(fb.get_pos().col, Col(11));
    assert_eq!(fb.write_string(&[0x41, 0x0A]), Ok(()));
    assert_eq!(read(&mut fb, 1, 11).0, Char::LatinCapitalLetterA);
    assert_eq!(fb.get_pos().row, Row(2));
}

#[test]
fn tab_stops_at_last_column() {
    let mut fb = FrameBuffer::new();
    fb.set_pos(at(0, 46)).unwrap();
    fb.write_character(0x09).unwrap();
    assert_eq!(fb.get_pos().col, Col(47));
}

#[test]
fn line_feed_on_last_row_scrolls() {
    let mut fb = FrameBuffer::new();
    fb.write_str("top");
    fb.set_pos(at(35, 4)).unwrap();
    fb.write_str("\n");
    assert_eq!(fb.get_pos().row, Row(35));
    assert_eq!(fb.get_pos().col, Col(0));
    assert_eq!(read(&mut fb, 0, 0).0, Char::Space);
}

#[test]
fn display_mode_draws_control_bytes() {
    let mut fb = FrameBuffer::new();
    fb.set_control_char_mode(ControlCharMode::Display);
    assert!(matches!(fb.get_control_char_mode(), ControlCharMode::Display));
    fb.write_character(0x0A).unwrap();
    fb.write_character(0x1B).unwrap();
    fb.set_cursor_visible(false);
    assert_eq!(read(&mut fb, 0, 0).0, Char::LF);
    assert_eq!(read(&mut fb, 0, 1).0, Char::Escape);
    assert!(matches!(fb.get_escape_char_mode(), EscapeCharMode::Waiting));
}

#[test]
fn escape_sequences_set_colours() {
    let mut fb = FrameBuffer::new();
    fb.write_str("\u{1b}R\u{1b}k");
    assert_eq!(fb.get_attr(), Attr::new(Colour::Red, Colour::Black));
    fb.write_str("\u{1b}");
    assert!(matches!(fb.get_escape_char_mode(), EscapeCharMode::Seen));
    fb.write_str("G");
    assert!(matches!(fb.get_escape_char_mode(), EscapeCharMode::Waiting));
    assert_eq!(fb.get_attr(), Attr::new(Colour::Green, Colour::Black));
    fb.write_str("\u{1b}?x");
    fb.set_cursor_visible(false);
    assert_eq!(read(&mut fb, 0, 0), (Char::LatinSmallLetterX, Attr::new(Colour::Green, Colour::Black)));
}

#[test]
fn escape_z_clears() {
    let mut fb = FrameBuffer::new();
    fb.write_str("abc\u{1b}Z");
    assert_eq!(fb.get_pos().col, Col(0));
    fb.set_cursor_visible(false);
    assert_eq!(read(&mut fb, 0, 1).0, Char::Space);
}

#[test]
fn handle_escape_always_completes() {
    let mut fb = FrameBuffer::new();
    assert!(fb.handle_escape(b'W'));
    assert!(fb.handle_escape(b'y'));
    assert_eq!(fb.get_attr(), Attr::new(Colour::White, Colour::Yellow));
    assert!(fb.handle_escape(b'!'));
    assert_eq!(fb.get_attr(), Attr::new(Colour::White, Colour::Yellow));
}

#[test]
fn write_char_at_keeps_position() {
    let mut fb = FrameBuffer::new();
    assert_eq!(fb.write_char_at(0x24, at(35, 47)), Ok(()));
    assert_eq!(fb.get_pos().col, Col(0));
    assert_eq!(read(&mut fb, 35, 47).0, Char::DollarSign);
}

#[test]
fn unmapped_characters_become_question_marks() {
    let mut fb = FrameBuffer::new();
    fb.set_cursor_visible(false);
    fb.write_str("\u{20ac}\u{e9}");
    assert_eq!(read(&mut fb, 0, 0).0, Char::QuestionMark);
    assert_eq!(read(&mut fb, 0, 1).0, Char::LatinSmallLetterEWithAcute);
}
