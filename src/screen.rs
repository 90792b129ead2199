//! The text screen as a mathematical value: what each cell holds, the
//! double-height mode of each row, the cursor, the current attribute and
//! the state of the escape-sequence interpreter. Every text operation of
//! the frame buffer is stated as a function on this value.
use vstd::prelude::*;

use crate::charset::Char;
use crate::colour::{Attr, Colour};

verus! {

/// Number of lines in frame buffer
pub const MODE0_USABLE_LINES: usize = 576;
/// Number of columns in frame buffer
pub const MODE0_USABLE_COLS: usize = 384;
/// How many words in a line (including the border)
pub const MODE0_HORIZONTAL_OCTETS: usize = 50;
/// How many words in a line (excluding the border)
pub const MODE0_USABLE_HORIZONTAL_OCTETS: usize = 48;
/// Height of a glyph of the font the frame buffer draws with
pub const MAX_FONT_HEIGHT: usize = 16;
/// Width of a glyph of the font the frame buffer draws with
pub const MAX_FONT_WIDTH: usize = 8;
/// How many characters in a row
pub const MODE0_TEXT_NUM_COLS: usize = MODE0_USABLE_COLS / MAX_FONT_WIDTH;
/// Highest X co-ord for text
pub const MODE0_TEXT_MAX_COL: usize = MODE0_TEXT_NUM_COLS - 1;
/// How many rows of characters on the screen
pub const MODE0_TEXT_NUM_ROWS: usize = MODE0_USABLE_LINES / MAX_FONT_HEIGHT;
/// Highest Y co-ord for text
pub const MODE0_TEXT_MAX_ROW: usize = MODE0_TEXT_NUM_ROWS - 1;
/// Number of pixels in a scan-line in Mode 2
pub const MODE2_WIDTH_PIXELS: usize = 384;
/// Number of scan-lines in an image in Mode 2. Note, we print each one twice.
pub const MODE2_USABLE_LINES: usize = 288;

/// The byte that starts an escape sequence.
pub const ESCAPE_BYTE: u8 = 0x1B;

/// Columns between tab stops.
pub const TAB_WIDTH: u8 = 9;

/// You can set this on a row to make the text double-height. This was common
/// on the BBC Micro in Mode 7/Teletext mode: the `Top` row shows the upper
/// half of each glyph, the `Bottom` row the lower half.
#[derive(Copy, Clone, PartialEq, Eq, Structural, Debug)]
pub enum DoubleHeightMode {
    Normal,
    Top,
    Bottom,
}

/// The logical state of the text screen. `text[r][c]` is the character and
/// attribute of the cell at row `r`, column `c`, as a reader of the screen
/// sees it: the cursor glyph drawn over a cell is not part of it.
pub struct Screen {
    pub text: Seq<Seq<(Char, Attr)>>,
    pub modes: Seq<DoubleHeightMode>,
    pub row: int,
    pub col: int,
    pub attr: Attr,
    pub cursor_visible: bool,
    pub escape_seen: bool,
    pub interpret: bool,
}

/// A row of spaces in attribute `attr`.
pub open spec fn blank_row(attr: Attr) -> Seq<(Char, Attr)> {
    Seq::new(MODE0_TEXT_NUM_COLS as nat, |c: int| (Char::Space, attr))
}

/// The foreground colour that an escaped upper-case letter selects.
pub open spec fn escape_fg(b: u8) -> Option<Colour> {
    // 'W', 'Y', 'M', 'R', 'C', 'G', 'B', 'K'
    if b == 0x57 {
        Some(Colour::White)
    } else if b == 0x59 {
        Some(Colour::Yellow)
    } else if b == 0x4D {
        Some(Colour::Magenta)
    } else if b == 0x52 {
        Some(Colour::Red)
    } else if b == 0x43 {
        Some(Colour::Cyan)
    } else if b == 0x47 {
        Some(Colour::Green)
    } else if b == 0x42 {
        Some(Colour::Blue)
    } else if b == 0x4B {
        Some(Colour::Black)
    } else {
        None
    }
}

/// The background colour that an escaped lower-case letter selects: the
/// same letters as for the foreground, in lower case.
pub open spec fn escape_bg(b: u8) -> Option<Colour> {
    if 0x61 <= b <= 0x7A {
        escape_fg((b - 0x20) as u8)
    } else {
        None
    }
}

/// Whether byte `b` after the escape byte does anything.
pub open spec fn escape_known(b: u8) -> bool {
    escape_fg(b) is Some || escape_bg(b) is Some || b == 0x5E || b == 0x76 || b == 0x2D || b
        == 0x5A
}

/// The next tab stop after column `col`, or the last column.
pub open spec fn tab_stop(col: int) -> int {
    let next = (col / TAB_WIDTH as int + 1) * TAB_WIDTH as int;
    if next > MODE0_TEXT_NUM_COLS - 1 {
        MODE0_TEXT_NUM_COLS - 1
    } else {
        next
    }
}

impl Screen {
    /// Rows, columns and the cursor are within the screen.
    pub open spec fn wf(self) -> bool {
        &&& self.text.len() == MODE0_TEXT_NUM_ROWS
        &&& forall|r: int| 0 <= r < MODE0_TEXT_NUM_ROWS ==> (#[trigger] self.text[r]).len() == MODE0_TEXT_NUM_COLS
        &&& self.modes.len() == MODE0_TEXT_NUM_ROWS
        &&& 0 <= self.row < MODE0_TEXT_NUM_ROWS
        &&& 0 <= self.col < MODE0_TEXT_NUM_COLS
    }

    /// A screen of spaces in attribute `attr`, with the cursor shown at the
    /// origin, control characters obeyed and no escape pending.
    pub open spec fn fresh(attr: Attr) -> Screen {
        Screen {
            text: Seq::new(MODE0_TEXT_NUM_ROWS as nat, |r: int| blank_row(attr)),
            modes: Seq::new(MODE0_TEXT_NUM_ROWS as nat, |r: int| DoubleHeightMode::Normal),
            row: 0,
            col: 0,
            attr,
            cursor_visible: true,
            escape_seen: false,
            interpret: true,
        }
    }

    /// The cell at row `r`, column `c` holds `v`.
    pub open spec fn put(self, r: int, c: int, v: (Char, Attr)) -> Screen {
        Screen { text: self.text.update(r, self.text[r].update(c, v)), ..self }
    }

    /// The cursor stands at row `r`, column `c`.
    pub open spec fn moved_to(self, r: int, c: int) -> Screen {
        Screen { row: r, col: c, ..self }
    }

    /// Every row moves up by one; the last row becomes spaces in the current
    /// attribute, with normal height. The cursor stays where it is.
    pub open spec fn scrolled(self) -> Screen {
        Screen {
            text: self.text.subrange(1, MODE0_TEXT_NUM_ROWS as int).push(blank_row(self.attr)),
            modes: self.modes.subrange(1, MODE0_TEXT_NUM_ROWS as int).push(DoubleHeightMode::Normal),
            ..self
        }
    }

    /// Every cell holds a space in the current attribute and the cursor is
    /// at the origin; the rows keep their height modes.
    pub open spec fn cleared(self) -> Screen {
        Screen {
            text: Seq::new(MODE0_TEXT_NUM_ROWS as nat, |r: int| blank_row(self.attr)),
            row: 0,
            col: 0,
            ..self
        }
    }

    /// The cursor moves one column right, wrapping to the start of the next
    /// row, and the screen scrolls when the cursor leaves the last row.
    pub open spec fn moved_right(self) -> Screen {
        if self.col < MODE0_TEXT_NUM_COLS - 1 {
            self.moved_to(self.row, self.col + 1)
        } else {
            self.line_feed()
        }
    }

    /// The cursor moves to the start of the next row; the screen scrolls when
    /// it is on the last row.
    pub open spec fn line_feed(self) -> Screen {
        if self.row < MODE0_TEXT_NUM_ROWS - 1 {
            self.moved_to(self.row + 1, 0)
        } else {
            self.moved_to(self.row, 0).scrolled()
        }
    }

    /// The effect of the byte that follows the escape byte. Upper-case
    /// W, Y, M, R, C, G, B, K set the foreground, the same letters in lower
    /// case set the background, `^`, `v` and `-` make the cursor's row the
    /// top half of double-height text, its bottom half, or normal, and `Z`
    /// clears the screen. Any other byte does nothing.
    pub open spec fn escape_action(self, b: u8) -> Screen {
        let s = self;
        if escape_fg(b) is Some {
            Screen { attr: s.attr.with_fg(escape_fg(b)->0), ..s }
        } else if escape_bg(b) is Some {
            Screen { attr: s.attr.with_bg(escape_bg(b)->0), ..s }
        } else if b == 0x5E {
            Screen { modes: s.modes.update(s.row, DoubleHeightMode::Top), ..s }
        } else if b == 0x76 {
            Screen { modes: s.modes.update(s.row, DoubleHeightMode::Bottom), ..s }
        } else if b == 0x2D {
            Screen { modes: s.modes.update(s.row, DoubleHeightMode::Normal), ..s }
        } else if b == 0x5A {
            s.cleared()
        } else {
            s
        }
    }

    /// The cell under the cursor shows byte `b` in the current attribute and
    /// the cursor moves right.
    pub open spec fn printed(self, b: u8) -> Screen {
        self.put(self.row, self.col, (Char::from_code(b), self.attr)).moved_right()
    }

    /// One step of the text writer on byte `b`.
    pub open spec fn write_byte(self, b: u8) -> Screen {
        if self.escape_seen {
            Screen { escape_seen: false, ..self.escape_action(b) }
        } else if !self.interpret {
            self.printed(b)
        } else if b == 0x0A {
            self.line_feed()
        } else if b == 0x0D {
            self.moved_to(self.row, 0)
        } else if b == 0x09 {
            self.moved_to(self.row, tab_stop(self.col))
        } else if b == 0x08 {
            if self.col > 0 {
                self.moved_to(self.row, self.col - 1)
            } else {
                self
            }
        } else if b == 0x7F {
            self
        } else if b == ESCAPE_BYTE {
            Screen { escape_seen: true, ..self }
        } else {
            self.printed(b)
        }
    }

    /// The text writer run over the bytes `bytes`, in order.
    pub open spec fn write_bytes(self, bytes: Seq<u8>) -> Screen
        decreases bytes.len(),
    {
        if bytes.len() == 0 {
            self
        } else {
            self.write_bytes(bytes.drop_last()).write_byte(bytes.last())
        }
    }
}

} // verus!
