//! The frame buffer: a grid of text cells with a cursor, drawn by the
//! scan-line renderer.
//!
//! There is optional cursor support. Rather than check each text cell at
//! render time to see if it is in the cursor position, we swap chars in and
//! out of the text buffer as the cursor moves. It's a little more expensive,
//! but the cost is at text write time, not at render time (and so it won't
//! break sync).
use vstd::prelude::*;

use console_traits::{Col, ControlCharMode, EscapeCharMode, Position, Row};

use crate::charset::Char;
use crate::colour::{Attr, Colour};
use crate::screen::{
    blank_row, escape_bg, escape_fg, escape_known, DoubleHeightMode, Screen, ESCAPE_BYTE, TAB_WIDTH, MODE0_TEXT_MAX_COL, MODE0_TEXT_MAX_ROW,
    MAX_FONT_HEIGHT, MODE0_TEXT_NUM_COLS, MODE0_TEXT_NUM_ROWS, MODE0_USABLE_HORIZONTAL_OCTETS,
    MODE0_USABLE_LINES,
};
use crate::timing::{
    H_BACK_PORCH_20MHZ, H_SYNC_PULSE_20MHZ, H_VISIBLE_AREA_20MHZ, H_WHOLE_LINE_20MHZ,
    PIXEL_CLOCK_HZ, V_VISIBLE_AREA, V_WHOLE_FRAME, mode_info_spec,
};

verus! {

/// The glyph drawn over the cell under the cursor.
pub const CURSOR: Char = Char::LowLine;

/// One row of text cells, and whether it is drawn at double height.
#[derive(Copy, Clone)]
pub struct Mode0TextRow {
    pub glyphs: [(Char, Attr); MODE0_TEXT_NUM_COLS],
    pub double_height: DoubleHeightMode,
}

/// A 1-bit-per-pixel graphics buffer laid over the text from scan-line
/// `start`; each of its rows of 48 bytes is shown on two scan-lines, up to
/// scan-line `end`.
pub struct Mode2 {
    pub(crate) buffer: Vec<u8>,
    pub(crate) start: usize,
    pub(crate) end: usize,
}

/// The scan-line after the last one that a buffer of `len` bytes attached at
/// scan-line `start` covers (or the largest `usize`, if that is beyond it).
pub open spec fn mode2_end(start: int, len: int) -> int {
    let end = start + 2 * (len / MODE0_USABLE_HORIZONTAL_OCTETS as int);
    if end > usize::MAX {
        usize::MAX as int
    } else {
        end
    }
}

/// Describes a video mode.
#[derive(Debug)]
pub struct ModeInfo {
    /// Number of pixels in a line (including blanking)
    pub width: u32,
    /// Number of pixels in a line (excluding blanking)
    pub visible_width: u32,
    /// Elapsed time (in `clock_rate` pixels) before H-Sync needs to fall
    pub sync_end: u32,
    /// Elapsed time (in `clock_rate` pixels) before line_start ISR needs to
    /// fire
    pub line_start: u32,
    /// The pixel clock rate in Hz (e.g. 40_000_000 for 40 MHz)
    pub clock_rate: u32,
    /// Number of lines on the screen (including blanking)
    pub num_lines: u32,
    /// Number of lines on the screen (excluding blanking)
    pub visible_lines: u32,
}

/// This structure represents the framebuffer: the text grid, the cursor,
/// the current attribute, the scan-line counter and what the renderer
/// draws with.
pub struct FrameBuffer {
    pub(crate) line_no: usize,
    /// Whether the line counter has gone round the frame at least once.
    pub(crate) wrapped: bool,
    pub(crate) frame: usize,
    pub(crate) text_buffer: Vec<Mode0TextRow>,
    /// Allows us to map any visible line to any other visible line.
    pub(crate) roller_buffer: Vec<u16>,
    pub(crate) attr: Attr,
    pub(crate) pos: Position,
    pub(crate) mode: ControlCharMode,
    pub(crate) escape_mode: EscapeCharMode,
    pub(crate) mode2: Option<Mode2>,
    pub(crate) font: Option<&'static [u8]>,
    pub(crate) cursor_visible: bool,
    pub(crate) under_cursor: Char,
}

impl FrameBuffer {
    /// The cell as stored, with the cursor glyph where the cursor is shown.
    pub open(crate) spec fn raw(&self, r: int, c: int) -> (Char, Attr) {
        self.text_buffer@[r].glyphs@[c]
    }

    /// The rows as stored and drawn, the cursor glyph included.
    pub open(crate) spec fn grid(&self) -> Seq<Mode0TextRow> {
        self.text_buffer@
    }

    /// The glyph kept while the cursor is drawn over it.
    pub open(crate) spec fn hidden_glyph(&self) -> Char {
        self.under_cursor
    }

    /// Whether row `r`, column `c` is the cursor position.
    pub open(crate) spec fn at_cursor(&self, r: int, c: int) -> bool {
        r == self.pos.row.0 && c == self.pos.col.0
    }

    /// The cell as a reader sees it: under a shown cursor, the glyph that
    /// the cursor covers.
    pub open(crate) spec fn cell(&self, r: int, c: int) -> (Char, Attr) {
        if self.cursor_visible && self.at_cursor(r, c) {
            (self.under_cursor, self.raw(r, c).1)
        } else {
            self.raw(r, c)
        }
    }

    /// The text screen that this frame buffer holds.
    pub open(crate) spec fn screen(&self) -> Screen {
        Screen {
            text: Seq::new(
                MODE0_TEXT_NUM_ROWS as nat,
                |r: int| Seq::new(MODE0_TEXT_NUM_COLS as nat, |c: int| self.cell(r, c)),
            ),
            modes: Seq::new(MODE0_TEXT_NUM_ROWS as nat, |r: int| self.text_buffer@[r].double_height),
            row: self.pos.row.0 as int,
            col: self.pos.col.0 as int,
            attr: self.attr,
            cursor_visible: self.cursor_visible,
            escape_seen: self.escape_mode is Seen,
            interpret: self.mode is Interpret,
        }
    }

    /// The parts that the text operations leave alone: the scan-line
    /// counters, the line map, the graphics overlay and the font.
    pub open(crate) spec fn same_video(&self, other: &FrameBuffer) -> bool {
        &&& self.line_no == other.line_no
        &&& self.wrapped == other.wrapped
        &&& self.frame == other.frame
        &&& self.roller_buffer@ == other.roller_buffer@
        &&& self.mode2 == other.mode2
        &&& self.font == other.font
    }

    /// The frame buffer's invariant.
    pub open(crate) spec fn wf(&self) -> bool {
        &&& self.text_buffer.len() == MODE0_TEXT_NUM_ROWS
        &&& self.roller_buffer.len() == MODE0_USABLE_LINES
        &&& forall|i: int|
            0 <= i < MODE0_USABLE_LINES ==> #[trigger] self.roller_buffer@[i]
                < MODE0_USABLE_LINES
        &&& self.pos.row.0 <= MODE0_TEXT_MAX_ROW
        &&& self.pos.col.0 <= MODE0_TEXT_MAX_COL
        &&& self.cursor_visible ==> self.raw(self.pos.row.0 as int, self.pos.col.0 as int).0
            == CURSOR
        &&& (self.mode2 matches Some(m) ==> m.end == mode2_end(m.start as int, m.buffer.len() as int))
        &&& (self.font matches Some(f) ==> f@.len() == 256 * 16)
        &&& self.line_no < V_WHOLE_FRAME
    }

    /// Every part but the stored cells is as in `other`.
    pub open(crate) spec fn same_but_cells(&self, other: &FrameBuffer) -> bool {
        &&& self.same_video(other)
        &&& self.text_buffer.len() == other.text_buffer.len()
        &&& forall|r: int|
            0 <= r < self.text_buffer.len() ==> (#[trigger] self.text_buffer@[r]).double_height
                == other.text_buffer@[r].double_height
        &&& self.attr == other.attr
        &&& self.pos == other.pos
        &&& self.mode == other.mode
        &&& self.escape_mode == other.escape_mode
        &&& self.cursor_visible == other.cursor_visible
        &&& self.under_cursor == other.under_cursor
    }

    /// The stored cell at row `r`, column `c`.
    pub(crate) fn load(&self, r: usize, c: usize) -> (v: (Char, Attr))
        requires
            r < self.text_buffer.len(),
            c < MODE0_TEXT_NUM_COLS,
        ensures
            v == self.raw(r as int, c as int),
    {
        self.text_buffer[r].glyphs[c]
    }

    /// Store `v` in the cell at row `r`, column `c`.
    fn store(&mut self, r: usize, c: usize, v: (Char, Attr))
        requires
            r < old(self).text_buffer.len(),
            c < MODE0_TEXT_NUM_COLS,
        ensures
            final(self).same_but_cells(old(self)),
            forall|rr: int, cc: int|
                0 <= rr < old(self).text_buffer.len() && 0 <= cc < MODE0_TEXT_NUM_COLS
                    ==> #[trigger] final(self).raw(rr, cc) == if rr == r && cc == c {
                    v
                } else {
                    old(self).raw(rr, cc)
                },
    {
        let mut row = self.text_buffer[r];
        row.glyphs[c] = v;
        self.text_buffer.set(r, row);
    }
}

impl FrameBuffer {
    /// Move the cursor to row `r`, column `c`, carrying the cursor glyph
    /// along when it is shown.
    fn move_to(&mut self, r: u8, c: u8)
        requires
            old(self).wf(),
            r <= MODE0_TEXT_MAX_ROW,
            c <= MODE0_TEXT_MAX_COL,
        ensures
            final(self).wf(),
            final(self).same_video(old(self)),
            final(self).screen() == old(self).screen().moved_to(r as int, c as int),
    {
        let ghost s0 = *self;
        if self.cursor_visible {
            let (_, a) = self.load(self.pos.row.0 as usize, self.pos.col.0 as usize);
            let under = self.under_cursor;
            self.store(self.pos.row.0 as usize, self.pos.col.0 as usize, (under, a));
            let ghost s1 = *self;
            self.pos = Position { row: Row(r), col: Col(c) };
            let (g, a2) = self.load(r as usize, c as usize);
            self.under_cursor = g;
            self.store(r as usize, c as usize, (CURSOR, a2));
            proof {
                assert forall|rr: int, cc: int|
                    0 <= rr < MODE0_TEXT_NUM_ROWS && 0 <= cc < MODE0_TEXT_NUM_COLS implies self.cell(
                        rr,
                        cc,
                    ) == s0.cell(rr, cc) by {
                    assert(s1.raw(rr, cc) == if s0.at_cursor(rr, cc) {
                        (s0.under_cursor, s0.raw(rr, cc).1)
                    } else {
                        s0.raw(rr, cc)
                    });
                    assert(s1.raw(r as int, c as int) == if s0.at_cursor(r as int, c as int) {
                        (s0.under_cursor, s0.raw(r as int, c as int).1)
                    } else {
                        s0.raw(r as int, c as int)
                    });
                }
            }
        } else {
            self.pos = Position { row: Row(r), col: Col(c) };
        }
        proof {
            assert forall|rr: int, cc: int|
                0 <= rr < MODE0_TEXT_NUM_ROWS && 0 <= cc < MODE0_TEXT_NUM_COLS implies self.cell(rr, cc)
                    == s0.cell(rr, cc) by {}
            lemma_holds(self, s0.screen().moved_to(r as int, c as int));
        }
    }

    /// Show or hide the cursor. The text is unchanged either way.
    pub fn set_cursor_visible(&mut self, visible: bool)
        requires
            old(self).wf(),
        ensures
            final(self).wf(),
            final(self).same_video(old(self)),
            final(self).screen() == (Screen { cursor_visible: visible, ..old(self).screen() }),
            visible == old(self).screen().cursor_visible ==> *final(self) == *old(self),
    {
        let ghost s0 = *self;
        if visible != self.cursor_visible {
            let (g, a) = self.load(self.pos.row.0 as usize, self.pos.col.0 as usize);
            if visible {
                self.cursor_visible = true;
                self.under_cursor = g;
                self.store(self.pos.row.0 as usize, self.pos.col.0 as usize, (CURSOR, a));
            } else {
                self.cursor_visible = false;
                let under = self.under_cursor;
                self.store(self.pos.row.0 as usize, self.pos.col.0 as usize, (under, a));
            }
        }
        proof {
            assert forall|rr: int, cc: int|
                0 <= rr < MODE0_TEXT_NUM_ROWS && 0 <= cc < MODE0_TEXT_NUM_COLS implies self.cell(rr, cc)
                    == s0.cell(rr, cc) by {}
            lemma_holds(self, Screen { cursor_visible: visible, ..s0.screen() });
        }
    }

    /// Gets the last col on the screen.
    pub fn get_width(&self) -> (r: Col)
        ensures
            r.0 == MODE0_TEXT_MAX_COL,
    {
        Col(MODE0_TEXT_MAX_COL as u8)
    }

    /// Gets the last row on the screen.
    pub fn get_height(&self) -> (r: Row)
        ensures
            r.0 == MODE0_TEXT_MAX_ROW,
    {
        Row(MODE0_TEXT_MAX_ROW as u8)
    }

    /// Set the horizontal position for the next text output. A column beyond
    /// the last is refused and changes nothing.
    pub fn set_col(&mut self, col: Col) -> (r: Result<(), ()>)
        requires
            old(self).wf(),
        ensures
            final(self).wf(),
            final(self).same_video(old(self)),
            r is Ok <==> col.0 <= MODE0_TEXT_MAX_COL,
            r is Ok ==> final(self).screen() == old(self).screen().moved_to(
                old(self).screen().row,
                col.0 as int,
            ),
            r is Err ==> *final(self) == *old(self),
    {
        if col.0 as usize <= MODE0_TEXT_MAX_COL {
            self.move_to(self.pos.row.0, col.0);
            Ok(())
        } else {
            Err(())
        }
    }

    /// Set the vertical position for the next text output. A row beyond the
    /// last is refused and changes nothing.
    pub fn set_row(&mut self, row: Row) -> (r: Result<(), ()>)
        requires
            old(self).wf(),
        ensures
            final(self).wf(),
            final(self).same_video(old(self)),
            r is Ok <==> row.0 <= MODE0_TEXT_MAX_ROW,
            r is Ok ==> final(self).screen() == old(self).screen().moved_to(
                row.0 as int,
                old(self).screen().col,
            ),
            r is Err ==> *final(self) == *old(self),
    {
        if row.0 as usize <= MODE0_TEXT_MAX_ROW {
            self.move_to(row.0, self.pos.col.0);
            Ok(())
        } else {
            Err(())
        }
    }

    /// Set the horizontal and vertical position for the next text output. A
    /// position off the screen is refused and changes nothing.
    pub fn set_pos(&mut self, pos: Position) -> (r: Result<(), ()>)
        requires
            old(self).wf(),
        ensures
            final(self).wf(),
            final(self).same_video(old(self)),
            r is Ok <==> pos.row.0 <= MODE0_TEXT_MAX_ROW && pos.col.0 <= MODE0_TEXT_MAX_COL,
            r is Ok ==> final(self).screen() == old(self).screen().moved_to(
                pos.row.0 as int,
                pos.col.0 as int,
            ),
            r is Err ==> *final(self) == *old(self),
    {
        if pos.row.0 as usize <= MODE0_TEXT_MAX_ROW && pos.col.0 as usize <= MODE0_TEXT_MAX_COL {
            self.move_to(pos.row.0, pos.col.0);
            Ok(())
        } else {
            Err(())
        }
    }

    /// Get the current screen position.
    pub fn get_pos(&self) -> (r: Position)
        ensures
            r.row.0 == self.screen().row,
            r.col.0 == self.screen().col,
    {
        self.pos
    }
}

/// The attribute a write uses: the one given, or else the current one.
pub open spec fn chosen_attr(attr: Option<Attr>, current: Attr) -> Attr {
    match attr {
        Some(a) => a,
        None => current,
    }
}

/// Whether `pos` is on the screen.
pub open spec fn on_screen(pos: Position) -> bool {
    pos.row.0 <= MODE0_TEXT_MAX_ROW && pos.col.0 <= MODE0_TEXT_MAX_COL
}

impl FrameBuffer {
    /// Set the double-height mode of stored row `r`.
    fn store_mode(&mut self, r: usize, mode: DoubleHeightMode)
        requires
            r < old(self).text_buffer.len(),
        ensures
            final(self).same_video(old(self)),
            final(self).text_buffer.len() == old(self).text_buffer.len(),
            forall|rr: int, cc: int|
                0 <= rr < old(self).text_buffer.len() && 0 <= cc < MODE0_TEXT_NUM_COLS
                    ==> #[trigger] final(self).raw(rr, cc) == old(self).raw(rr, cc),
            forall|rr: int|
                0 <= rr < old(self).text_buffer.len() ==> #[trigger] final(self).text_buffer@[rr].double_height
                    == if rr == r {
                    mode
                } else {
                    old(self).text_buffer@[rr].double_height
                },
            final(self).attr == old(self).attr,
            final(self).pos == old(self).pos,
            final(self).mode == old(self).mode,
            final(self).escape_mode == old(self).escape_mode,
            final(self).cursor_visible == old(self).cursor_visible,
            final(self).under_cursor == old(self).under_cursor,
    {
        let mut row = self.text_buffer[r];
        row.double_height = mode;
        self.text_buffer.set(r, row);
    }

    /// Puts a glyph on screen at the specified place, in `attr` or else the
    /// current attribute. A position off the screen is ignored.
    pub fn write_glyph_at(&mut self, glyph: Char, pos: Position, attr: Option<Attr>)
        requires
            old(self).wf(),
        ensures
            final(self).wf(),
            final(self).same_video(old(self)),
            final(self).screen() == if on_screen(pos) {
                old(self).screen().put(
                    pos.row.0 as int,
                    pos.col.0 as int,
                    (glyph, chosen_attr(attr, old(self).screen().attr)),
                )
            } else {
                old(self).screen()
            },
            !on_screen(pos) ==> *final(self) == *old(self),
            forall|r: int, c: int|
                0 <= r < MODE0_TEXT_NUM_ROWS && 0 <= c < MODE0_TEXT_NUM_COLS && !(r == pos.row.0
                    && c == pos.col.0) ==> #[trigger] final(self).raw(r, c) == old(self).raw(r, c),
            !(old(self).screen().cursor_visible && pos.row.0 == old(self).screen().row && pos.col.0
                == old(self).screen().col) ==> final(self).hidden_glyph() == old(self).hidden_glyph(),
    {
        let ghost s0 = *self;
        let a = match attr {
            Some(a) => a,
            None => self.attr,
        };
        if pos.row.0 as usize <= MODE0_TEXT_MAX_ROW && pos.col.0 as usize <= MODE0_TEXT_MAX_COL {
            let r = pos.row.0 as usize;
            let c = pos.col.0 as usize;
            if self.cursor_visible && pos.row.0 == self.pos.row.0 && pos.col.0 == self.pos.col.0 {
                self.under_cursor = glyph;
                self.store(r, c, (CURSOR, a));
            } else {
                self.store(r, c, (glyph, a));
            }
            proof {
                let t = s0.screen().put(r as int, c as int, (glyph, a));
                assert forall|rr: int, cc: int|
                    0 <= rr < MODE0_TEXT_NUM_ROWS && 0 <= cc < MODE0_TEXT_NUM_COLS implies self.cell(
                        rr,
                        cc,
                    ) == #[trigger] t.text[rr][cc] by {}
                lemma_holds(self, t);
            }
        }
    }

    /// Read the glyph and attribute at the specified place, or `None` for a
    /// position off the screen. Under a shown cursor this is the glyph that
    /// the cursor covers.
    pub fn read_glyph_at(&mut self, pos: Position) -> (r: Option<(Char, Attr)>)
        requires
            old(self).wf(),
        ensures
            *final(self) == *old(self),
            r == if on_screen(pos) {
                Some(old(self).screen().text[pos.row.0 as int][pos.col.0 as int])
            } else {
                None
            },
    {
        if pos.row.0 as usize <= MODE0_TEXT_MAX_ROW && pos.col.0 as usize <= MODE0_TEXT_MAX_COL {
            let (g, a) = self.load(pos.row.0 as usize, pos.col.0 as usize);
            if self.cursor_visible && pos.row.0 == self.pos.row.0 && pos.col.0 == self.pos.col.0 {
                Some((self.under_cursor, a))
            } else {
                Some((g, a))
            }
        } else {
            None
        }
    }

    /// Changes the attribute for a given position, leaving the glyph
    /// unchanged. A position off the screen is ignored.
    pub fn set_attr_at(&mut self, pos: Position, attr: Attr)
        requires
            old(self).wf(),
        ensures
            final(self).wf(),
            final(self).same_video(old(self)),
            final(self).screen() == if on_screen(pos) {
                old(self).screen().put(
                    pos.row.0 as int,
                    pos.col.0 as int,
                    (old(self).screen().text[pos.row.0 as int][pos.col.0 as int].0, attr),
                )
            } else {
                old(self).screen()
            },
            !on_screen(pos) ==> *final(self) == *old(self),
    {
        let ghost s0 = *self;
        if pos.row.0 as usize <= MODE0_TEXT_MAX_ROW && pos.col.0 as usize <= MODE0_TEXT_MAX_COL {
            let r = pos.row.0 as usize;
            let c = pos.col.0 as usize;
            let (g, _) = self.load(r, c);
            self.store(r, c, (g, attr));
            proof {
                let t = s0.screen().put(r as int, c as int, (s0.screen().text[r as int][c as int].0, attr));
                assert forall|rr: int, cc: int|
                    0 <= rr < MODE0_TEXT_NUM_ROWS && 0 <= cc < MODE0_TEXT_NUM_COLS implies self.cell(
                        rr,
                        cc,
                    ) == #[trigger] t.text[rr][cc] by {}
                lemma_holds(self, t);
            }
        }
    }

    /// Change font height for a given line. A row off the screen is ignored.
    pub fn set_line_mode_at(&mut self, row: Row, double_height: DoubleHeightMode)
        requires
            old(self).wf(),
        ensures
            final(self).wf(),
            final(self).same_video(old(self)),
            final(self).screen() == if row.0 <= MODE0_TEXT_MAX_ROW {
                Screen {
                    modes: old(self).screen().modes.update(row.0 as int, double_height),
                    ..old(self).screen()
                }
            } else {
                old(self).screen()
            },
    {
        let ghost s0 = *self;
        if row.0 as usize <= MODE0_TEXT_MAX_ROW {
            self.store_mode(row.0 as usize, double_height);
            proof {
                let t = Screen {
                    modes: s0.screen().modes.update(row.0 as int, double_height),
                    ..s0.screen()
                };
                assert forall|rr: int, cc: int|
                    0 <= rr < MODE0_TEXT_NUM_ROWS && 0 <= cc < MODE0_TEXT_NUM_COLS implies self.cell(
                        rr,
                        cc,
                    ) == #[trigger] t.text[rr][cc] by {}
                lemma_holds(self, t);
            }
        }
    }

    /// Change font height for the current line.
    pub fn set_line_mode(&mut self, double_height: DoubleHeightMode)
        requires
            old(self).wf(),
        ensures
            final(self).wf(),
            final(self).same_video(old(self)),
            final(self).screen() == (Screen {
                modes: old(self).screen().modes.update(old(self).screen().row, double_height),
                ..old(self).screen()
            }),
    {
        let row = self.pos.row;
        self.set_line_mode_at(row, double_height);
    }

    /// Change the current character attribute, returning the previous one.
    pub fn set_attr(&mut self, attr: Attr) -> (r: Attr)
        requires
            old(self).wf(),
        ensures
            final(self).wf(),
            final(self).same_video(old(self)),
            r == old(self).screen().attr,
            final(self).screen() == (Screen { attr, ..old(self).screen() }),
    {
        let ghost s0 = *self;
        let old_attr = self.attr;
        self.attr = attr;
        proof {
            lemma_holds(self, Screen { attr, ..s0.screen() });
        }
        old_attr
    }

    /// Get the current character attribute.
    pub fn get_attr(&mut self) -> (r: Attr)
        ensures
            *final(self) == *old(self),
            r == old(self).screen().attr,
    {
        self.attr
    }

    /// Set the control char mode.
    pub fn set_control_char_mode(&mut self, mode: ControlCharMode)
        requires
            old(self).wf(),
        ensures
            final(self).wf(),
            final(self).same_video(old(self)),
            final(self).screen() == (Screen { interpret: mode is Interpret, ..old(self).screen() }),
    {
        let ghost s0 = *self;
        self.mode = mode;
        proof {
            lemma_holds(self, Screen { interpret: mode is Interpret, ..s0.screen() });
        }
    }

    /// Get the current control char mode.
    pub fn get_control_char_mode(&self) -> (r: ControlCharMode)
        ensures
            (r is Interpret) == self.screen().interpret,
    {
        self.mode
    }

    /// Set the escape char mode.
    pub fn set_escape_char_mode(&mut self, mode: EscapeCharMode)
        requires
            old(self).wf(),
        ensures
            final(self).wf(),
            final(self).same_video(old(self)),
            final(self).screen() == (Screen { escape_seen: mode is Seen, ..old(self).screen() }),
    {
        let ghost s0 = *self;
        self.escape_mode = mode;
        proof {
            lemma_holds(self, Screen { escape_seen: mode is Seen, ..s0.screen() });
        }
    }

    /// Get the current escape char mode.
    pub fn get_escape_char_mode(&self) -> (r: EscapeCharMode)
        ensures
            (r is Seen) == self.screen().escape_seen,
    {
        self.escape_mode
    }
}

impl FrameBuffer {
    /// A row of spaces in attribute `attr`, of normal height.
    fn blank_text_row(attr: Attr) -> (r: Mode0TextRow)
        ensures
            r.double_height == DoubleHeightMode::Normal,
            forall|c: int| 0 <= c < MODE0_TEXT_NUM_COLS ==> #[trigger] r.glyphs@[c] == (Char::Space, attr),
    {
        let glyphs = [(Char::Space, attr); MODE0_TEXT_NUM_COLS];
        Mode0TextRow { glyphs, double_height: DoubleHeightMode::Normal }
    }

    /// Move every stored row up by one and blank the last; the cursor must
    /// be hidden.
    fn shift_rows_up(&mut self)
        requires
            old(self).wf(),
            !old(self).cursor_visible,
        ensures
            final(self).wf(),
            final(self).same_video(old(self)),
            final(self).screen() == old(self).screen().scrolled(),
    {
        let ghost s0 = *self;
        let mut line: usize = 0;
        while line < MODE0_TEXT_MAX_ROW
            invariant
                0 <= line <= MODE0_TEXT_MAX_ROW,
                self.same_video(&s0),
                self.text_buffer.len() == MODE0_TEXT_NUM_ROWS,
                self.attr == s0.attr,
                self.pos == s0.pos,
                self.mode == s0.mode,
                self.escape_mode == s0.escape_mode,
                self.cursor_visible == s0.cursor_visible,
                self.under_cursor == s0.under_cursor,
                forall|r: int|
                    0 <= r < line ==> #[trigger] self.text_buffer@[r] == s0.text_buffer@[r + 1],
                forall|r: int|
                    line <= r < MODE0_TEXT_NUM_ROWS ==> #[trigger] self.text_buffer@[r]
                        == s0.text_buffer@[r],
            decreases MODE0_TEXT_MAX_ROW - line,
        {
            let next = self.text_buffer[line + 1];
            self.text_buffer.set(line, next);
            line = line + 1;
        }
        let blank = FrameBuffer::blank_text_row(self.attr);
        self.text_buffer.set(MODE0_TEXT_MAX_ROW, blank);
        proof {
            let t = s0.screen().scrolled();
            assert forall|rr: int, cc: int|
                0 <= rr < MODE0_TEXT_NUM_ROWS && 0 <= cc < MODE0_TEXT_NUM_COLS implies self.cell(rr, cc)
                    == #[trigger] t.text[rr][cc] by {
                if rr < MODE0_TEXT_MAX_ROW {
                    assert(t.text[rr] == s0.screen().text[rr + 1]);
                } else {
                    assert(t.text[rr] == blank_row(s0.attr));
                }
            }
            assert forall|rr: int|
                0 <= rr < MODE0_TEXT_NUM_ROWS implies self.text_buffer@[rr].double_height
                    == #[trigger] t.modes[rr] by {}
            lemma_holds(self, t);
        }
    }

    /// Called when the screen needs to scroll up one row: every row moves up
    /// and the last becomes spaces in the current attribute. Never fails.
    pub fn scroll_screen(&mut self) -> (r: Result<(), ()>)
        requires
            old(self).wf(),
        ensures
            final(self).wf(),
            final(self).same_video(old(self)),
            final(self).screen() == old(self).screen().scrolled(),
            forall|row: int, col: int|
                0 <= row < MODE0_TEXT_MAX_ROW && 0 <= col < MODE0_TEXT_NUM_COLS
                    ==> #[trigger] final(self).screen().text[row][col] == old(self).screen().text[row
                    + 1][col],
            forall|col: int|
                0 <= col < MODE0_TEXT_NUM_COLS ==> #[trigger] final(self).screen().text[MODE0_TEXT_MAX_ROW as int][col]
                    == (Char::Space, old(self).screen().attr),
            r is Ok,
    {
        let ghost s0 = *self;
        let old_cursor = self.cursor_visible;
        self.set_cursor_visible(false);
        self.shift_rows_up();
        self.set_cursor_visible(old_cursor);
        proof {
            assert(self.screen() == s0.screen().scrolled());
            assert forall|col: int| 0 <= col < MODE0_TEXT_NUM_COLS implies #[trigger] self.screen().text[MODE0_TEXT_MAX_ROW as int][col]
                == (Char::Space, s0.screen().attr) by {
                assert(self.screen().text[MODE0_TEXT_MAX_ROW as int] == blank_row(s0.attr));
            }
        }
        Ok(())
    }

    /// Clears the screen to spaces in the current attribute and puts the
    /// cursor at 0,0. The rows keep their height modes.
    pub fn clear(&mut self)
        requires
            old(self).wf(),
        ensures
            final(self).wf(),
            final(self).same_video(old(self)),
            final(self).screen() == old(self).screen().cleared(),
    {
        let ghost s0 = *self;
        let visible = self.cursor_visible;
        let blank = [(Char::Space, self.attr); MODE0_TEXT_NUM_COLS];
        let mut line: usize = 0;
        while line < MODE0_TEXT_NUM_ROWS
            invariant
                0 <= line <= MODE0_TEXT_NUM_ROWS,
                self.same_video(&s0),
                self.text_buffer.len() == MODE0_TEXT_NUM_ROWS,
                self.attr == s0.attr,
                self.pos == s0.pos,
                self.mode == s0.mode,
                self.escape_mode == s0.escape_mode,
                self.cursor_visible == s0.cursor_visible,
                forall|c: int| 0 <= c < MODE0_TEXT_NUM_COLS ==> #[trigger] blank@[c] == (Char::Space, s0.attr),
                forall|r: int| 0 <= r < line ==> #[trigger] self.text_buffer@[r].glyphs == blank,
                forall|r: int|
                    0 <= r < MODE0_TEXT_NUM_ROWS ==> #[trigger] self.text_buffer@[r].double_height
                        == s0.text_buffer@[r].double_height,
            decreases MODE0_TEXT_NUM_ROWS - line,
        {
            let mut row = self.text_buffer[line];
            row.glyphs = blank;
            self.text_buffer.set(line, row);
            line = line + 1;
        }
        self.pos = console_traits::Position::origin();
        self.under_cursor = Char::Space;
        if visible {
            self.store(0, 0, (CURSOR, self.attr));
        }
        proof {
            let t = s0.screen().cleared();
            assert forall|rr: int, cc: int|
                0 <= rr < MODE0_TEXT_NUM_ROWS && 0 <= cc < MODE0_TEXT_NUM_COLS implies self.cell(rr, cc)
                    == #[trigger] t.text[rr][cc] by {
                assert(t.text[rr] == blank_row(s0.attr));
            }
            assert forall|rr: int|
                0 <= rr < MODE0_TEXT_NUM_ROWS implies self.text_buffer@[rr].double_height
                    == #[trigger] t.modes[rr] by {}
            lemma_holds(self, t);
        }
    }

    /// Move the current cursor right one position. Wraps at the end of the
    /// line, and scrolls the screen when it wraps off the last line. Never
    /// fails.
    pub fn move_cursor_right(&mut self) -> (r: Result<(), ()>)
        requires
            old(self).wf(),
        ensures
            final(self).wf(),
            final(self).same_video(old(self)),
            final(self).screen() == old(self).screen().moved_right(),
            r is Ok,
    {
        let row = self.pos.row.0;
        let col = self.pos.col.0;
        if (col as usize) < MODE0_TEXT_MAX_COL {
            self.move_to(row, col + 1);
        } else if (row as usize) < MODE0_TEXT_MAX_ROW {
            self.move_to(row + 1, 0);
        } else {
            self.move_to(row, 0);
            let _ = self.scroll_screen();
        }
        Ok(())
    }

    /// Puts a glyph on screen at the current position, in `attr` or else the
    /// current attribute, and moves the cursor right.
    pub fn write_glyph(&mut self, glyph: Char, attr: Option<Attr>)
        requires
            old(self).wf(),
        ensures
            final(self).wf(),
            final(self).same_video(old(self)),
            final(self).screen() == old(self).screen().put(
                old(self).screen().row,
                old(self).screen().col,
                (glyph, chosen_attr(attr, old(self).screen().attr)),
            ).moved_right(),
    {
        let pos = self.pos;
        self.write_glyph_at(glyph, pos, attr);
        let _ = self.move_cursor_right();
    }

    /// Write a single Code Page 850 byte to the screen at the current
    /// position, and move the cursor right.
    pub fn write_char(&mut self, ch: u8, attr: Option<Attr>)
        requires
            old(self).wf(),
        ensures
            final(self).wf(),
            final(self).same_video(old(self)),
            final(self).screen() == old(self).screen().put(
                old(self).screen().row,
                old(self).screen().col,
                (Char::from_code(ch), chosen_attr(attr, old(self).screen().attr)),
            ).moved_right(),
    {
        self.write_glyph(Char::from_byte(ch), attr);
    }

    /// Write a single Code Page 850 byte to the screen at the given position
    /// in the current attribute, without updating the current position. A
    /// position off the screen is ignored. Never fails.
    pub fn write_char_at(&mut self, ch: u8, pos: Position) -> (r: Result<(), ()>)
        requires
            old(self).wf(),
        ensures
            final(self).wf(),
            final(self).same_video(old(self)),
            final(self).screen() == if on_screen(pos) {
                old(self).screen().put(
                    pos.row.0 as int,
                    pos.col.0 as int,
                    (Char::from_code(ch), old(self).screen().attr),
                )
            } else {
                old(self).screen()
            },
            r is Ok,
    {
        self.write_glyph_at(Char::from_byte(ch), pos, None);
        Ok(())
    }
}

/// The Code Page 850 bytes that `write_str` writes for the characters `s`.
pub open spec fn mapped_bytes(s: Seq<char>) -> Seq<u8> {
    s.map_values(|ch: char| Char::mapped(ch).code())
}

impl FrameBuffer {
    /// Handle the byte after an escape byte: a, b, c, ... pick a background
    /// colour and A, B, C, ... a foreground colour (see
    /// `Screen::escape_action`), `^`, `v` and `-` set the height of the
    /// current row, and `Z` clears the screen. Returns whether the sequence
    /// is complete, which it always is: only single bytes are escaped.
    pub fn handle_escape(&mut self, escaped_char: u8) -> (r: bool)
        requires
            old(self).wf(),
        ensures
            final(self).wf(),
            final(self).same_video(old(self)),
            final(self).screen() == old(self).screen().escape_action(escaped_char),
            !escape_known(escaped_char) ==> *final(self) == *old(self),
            r,
    {
        let ghost s0 = *self;
        match escaped_char {
            0x57 => {
                // 'W'
                self.attr.set_fg(Colour::White);
            },
            0x59 => {
                // 'Y'
                self.attr.set_fg(Colour::Yellow);
            },
            0x4D => {
                // 'M'
                self.attr.set_fg(Colour::Magenta);
            },
            0x52 => {
                // 'R'
                self.attr.set_fg(Colour::Red);
            },
            0x43 => {
                // 'C'
                self.attr.set_fg(Colour::Cyan);
            },
            0x47 => {
                // 'G'
                self.attr.set_fg(Colour::Green);
            },
            0x42 => {
                // 'B'
                self.attr.set_fg(Colour::Blue);
            },
            0x4B => {
                // 'K'
                self.attr.set_fg(Colour::Black);
            },
            0x77 => {
                // 'w'
                self.attr.set_bg(Colour::White);
            },
            0x79 => {
                // 'y'
                self.attr.set_bg(Colour::Yellow);
            },
            0x6D => {
                // 'm'
                self.attr.set_bg(Colour::Magenta);
            },
            0x72 => {
                // 'r'
                self.attr.set_bg(Colour::Red);
            },
            0x63 => {
                // 'c'
                self.attr.set_bg(Colour::Cyan);
            },
            0x67 => {
                // 'g'
                self.attr.set_bg(Colour::Green);
            },
            0x62 => {
                // 'b'
                self.attr.set_bg(Colour::Blue);
            },
            0x6B => {
                // 'k'
                self.attr.set_bg(Colour::Black);
            },
            0x5E => {
                // '^'
                self.set_line_mode(DoubleHeightMode::Top);
            },
            0x76 => {
                // 'v'
                self.set_line_mode(DoubleHeightMode::Bottom);
            },
            0x2D => {
                // '-'
                self.set_line_mode(DoubleHeightMode::Normal);
            },
            0x5A => {
                // 'Z'
                self.clear();
            },
            _ => {},
        }
        proof {
            if escape_fg(escaped_char) is Some || escape_bg(escaped_char) is Some {
                lemma_holds(self, Screen { attr: self.attr, ..s0.screen() });
            } else if escaped_char != 0x5E && escaped_char != 0x76 && escaped_char != 0x2D
                && escaped_char != 0x5A {
                lemma_holds(self, s0.screen());
            }
        }
        // We only have single char sequences
        true
    }

    /// Write a single Code Page 850 byte at the current position, as a text
    /// terminal does: after the escape byte the byte is handled by
    /// `handle_escape`; when control characters are obeyed, line feed, carriage
    /// return, tab, backspace and delete move the cursor (or do nothing), and
    /// the escape byte starts a sequence; any other byte is drawn and the
    /// cursor moves right. Never fails.
    pub fn write_character(&mut self, ch: u8) -> (r: Result<(), ()>)
        requires
            old(self).wf(),
        ensures
            final(self).wf(),
            final(self).same_video(old(self)),
            final(self).screen() == old(self).screen().write_byte(ch),
            r is Ok,
    {
        let ghost s0 = *self;
        match self.escape_mode {
            EscapeCharMode::Seen => {
                if self.handle_escape(ch) {
                    self.set_escape_char_mode(EscapeCharMode::Waiting);
                }
            },
            EscapeCharMode::Waiting => {
                let interpret = match self.mode {
                    ControlCharMode::Interpret => true,
                    ControlCharMode::Display => false,
                };
                let row = self.pos.row.0;
                let col = self.pos.col.0;
                if interpret && ch == 0x0A {
                    // Go to start of next row
                    if row as usize == MODE0_TEXT_MAX_ROW {
                        self.move_to(row, 0);
                        let _ = self.scroll_screen();
                    } else {
                        self.move_to(row + 1, 0);
                    }
                } else if interpret && ch == 0x0D {
                    // Go to start of this row
                    self.move_to(row, 0);
                } else if interpret && ch == 0x09 {
                    // Go to next tab stop
                    let mut next = (col / TAB_WIDTH + 1) * TAB_WIDTH;
                    if next as usize > MODE0_TEXT_MAX_COL {
                        next = MODE0_TEXT_MAX_COL as u8;
                    }
                    self.move_to(row, next);
                } else if interpret && ch == 0x08 {
                    // Go back one space (but don't erase anything there)
                    if col > 0 {
                        self.move_to(row, col - 1);
                    }
                } else if interpret && ch == 0x7F {
                    // Delete is ignored
                } else if interpret && ch == ESCAPE_BYTE {
                    self.set_escape_char_mode(EscapeCharMode::Seen);
                } else {
                    let pos = self.pos;
                    let _ = self.write_char_at(ch, pos);
                    let _ = self.move_cursor_right();
                }
            },
        }
        Ok(())
    }

    /// Write Code Page 850 bytes through `write_character`, in order.
    /// Never fails.
    pub fn write_string(&mut self, s: &[u8]) -> (r: Result<(), ()>)
        requires
            old(self).wf(),
        ensures
            final(self).wf(),
            final(self).same_video(old(self)),
            final(self).screen() == old(self).screen().write_bytes(s@),
            r is Ok,
    {
        let ghost s0 = *self;
        let mut i: usize = 0;
        while i < s.len()
            invariant
                0 <= i <= s@.len(),
                self.wf(),
                self.same_video(&s0),
                self.screen() == s0.screen().write_bytes(s@.take(i as int)),
            decreases s@.len() - i,
        {
            let _ = self.write_character(s[i]);
            proof {
                assert(s@.take(i + 1).drop_last() == s@.take(i as int));
                assert(s@.take(i + 1).last() == s@[i as int]);
            }
            i = i + 1;
        }
        proof {
            assert(s@.take(s@.len() as int) == s@);
        }
        Ok(())
    }

    /// Write Unicode text: each character is mapped to Code Page 850 with
    /// `Char::map_char` and written through `write_character`.
    pub fn write_str(&mut self, s: &str)
        requires
            old(self).wf(),
        ensures
            final(self).wf(),
            final(self).same_video(old(self)),
            final(self).screen() == old(self).screen().write_bytes(mapped_bytes(s@)),
    {
        let ghost s0 = *self;
        let ghost bytes = mapped_bytes(s@);
        let n = s.unicode_len();
        let mut i: usize = 0;
        while i < n
            invariant
                0 <= i <= n,
                n == s@.len(),
                bytes == mapped_bytes(s@),
                self.wf(),
                self.same_video(&s0),
                self.screen() == s0.screen().write_bytes(bytes.take(i as int)),
            decreases n - i,
        {
            let ch = s.get_char(i);
            let b = Char::map_char(ch).as_u8();
            let _ = self.write_character(b);
            proof {
                assert(bytes.take(i + 1).drop_last() == bytes.take(i as int));
                assert(bytes.take(i + 1).last() == bytes[i as int]);
            }
            i = i + 1;
        }
        proof {
            assert(bytes.take(n as int) == bytes);
        }
    }
}

/// The line map that sends each visible line to itself.
pub open spec fn identity_map(m: Seq<u16>) -> bool {
    &&& m.len() == MODE0_USABLE_LINES
    &&& forall|i: int| 0 <= i < MODE0_USABLE_LINES ==> #[trigger] m[i] == i
}

impl FrameBuffer {
    /// The graphics overlay: its bytes, its first scan-line and the
    /// scan-line after its last.
    pub open(crate) spec fn overlay(&self) -> Option<(Seq<u8>, int, int)> {
        match self.mode2 {
            Some(m) => Some((m.buffer@, m.start as int, m.end as int)),
            None => None,
        }
    }

    /// For each visible line, the line that is rendered there.
    pub open(crate) spec fn line_map(&self) -> Seq<u16> {
        self.roller_buffer@
    }

    /// The font that replaces the built-in one, if any.
    pub open(crate) spec fn custom_font(&self) -> Option<Seq<u8>> {
        match self.font {
            Some(f) => Some(f@),
            None => None,
        }
    }

    /// Everything but the graphics overlay is as in `other`.
    pub open(crate) spec fn same_but_overlay(&self, other: &FrameBuffer) -> bool {
        &&& self.line_no == other.line_no
        &&& self.wrapped == other.wrapped
        &&& self.frame == other.frame
        &&& self.text_buffer@ == other.text_buffer@
        &&& self.roller_buffer@ == other.roller_buffer@
        &&& self.attr == other.attr
        &&& self.pos == other.pos
        &&& self.mode == other.mode
        &&& self.escape_mode == other.escape_mode
        &&& self.font == other.font
        &&& self.cursor_visible == other.cursor_visible
        &&& self.under_cursor == other.under_cursor
    }

    /// Create a new FrameBuffer: spaces in white on blue everywhere, the
    /// cursor shown at the origin, the counters at zero, each visible line
    /// showing itself, the built-in font and no graphics overlay.
    pub fn new() -> (r: FrameBuffer)
        ensures
            r.wf(),
            r.screen() == Screen::fresh(r.screen().attr),
            r.screen().attr.bits() == Attr::of(Colour::White, Colour::Blue),
            r.line_counter() == 0,
            !r.has_wrapped(),
            r.frame_counter() == 0,
            identity_map(r.line_map()),
            r.overlay() is None,
            r.custom_font() is None,
    {
        let attr = Attr::default();
        let blank = FrameBuffer::blank_text_row(attr);
        let mut text_buffer: Vec<Mode0TextRow> = Vec::new();
        let mut i: usize = 0;
        while i < MODE0_TEXT_NUM_ROWS
            invariant
                0 <= i <= MODE0_TEXT_NUM_ROWS,
                text_buffer.len() == i,
                forall|r: int| 0 <= r < i ==> #[trigger] text_buffer@[r] == blank,
            decreases MODE0_TEXT_NUM_ROWS - i,
        {
            text_buffer.push(blank);
            i = i + 1;
        }
        let roller_buffer = FrameBuffer::identity_line_map();
        let mut fb = FrameBuffer {
            line_no: 0,
            wrapped: false,
            frame: 0,
            text_buffer,
            roller_buffer,
            attr,
            pos: console_traits::Position::origin(),
            mode: ControlCharMode::Interpret,
            escape_mode: EscapeCharMode::Waiting,
            mode2: None,
            font: None,
            cursor_visible: true,
            under_cursor: Char::Space,
        };
        fb.store(0, 0, (CURSOR, attr));
        proof {
            let t = Screen::fresh(attr);
            assert forall|rr: int, cc: int|
                0 <= rr < MODE0_TEXT_NUM_ROWS && 0 <= cc < MODE0_TEXT_NUM_COLS implies fb.cell(rr, cc)
                    == #[trigger] t.text[rr][cc] by {
                assert(t.text[rr] == blank_row(attr));
            }
            assert forall|rr: int|
                0 <= rr < MODE0_TEXT_NUM_ROWS implies fb.text_buffer@[rr].double_height
                    == #[trigger] t.modes[rr] by {}
            lemma_holds(&fb, t);
        }
        fb
    }

    /// The line map that shows each visible line on itself.
    fn identity_line_map() -> (r: Vec<u16>)
        ensures
            identity_map(r@),
    {
        let mut roller: Vec<u16> = Vec::new();
        let mut i: usize = 0;
        while i < MODE0_USABLE_LINES
            invariant
                0 <= i <= MODE0_USABLE_LINES,
                roller.len() == i,
                forall|j: int| 0 <= j < i ==> #[trigger] roller@[j] == j,
            decreases MODE0_USABLE_LINES - i,
        {
            roller.push(i as u16);
            i = i + 1;
        }
        roller
    }

    /// The video mode: an 800 x 600 @ 60 Hz signal, pixel-doubled
    /// horizontally by a 20 MHz pixel clock.
    fn mode_info() -> (r: ModeInfo)
        ensures
            mode_info_spec(r),
    {
        ModeInfo {
            width: H_WHOLE_LINE_20MHZ,
            visible_width: H_VISIBLE_AREA_20MHZ,
            sync_end: H_SYNC_PULSE_20MHZ,
            line_start: H_SYNC_PULSE_20MHZ + H_BACK_PORCH_20MHZ,
            clock_rate: PIXEL_CLOCK_HZ,
            num_lines: V_WHOLE_FRAME as u32,
            visible_lines: V_VISIBLE_AREA as u32,
        }
    }

    /// Initialise the hardware by handing the video mode (see
    /// `mode_info_spec`) to `hw_init_callback`, make each visible line show itself, and clear
    /// the screen.
    pub fn init<F>(&mut self, hw_init_callback: F)
        where
            F: FnOnce(&ModeInfo),
        requires
            old(self).wf(),
            forall|m: &ModeInfo| #[trigger] hw_init_callback.requires((m,)),
        ensures
            exists|m: ModeInfo|
                mode_info_spec(m) && #[trigger] hw_init_callback.ensures((&m,), ()),
            final(self).wf(),
            final(self).screen() == old(self).screen().cleared(),
            identity_map(final(self).line_map()),
            final(self).line_counter() == old(self).line_counter(),
            final(self).frame_counter() == old(self).frame_counter(),
            final(self).overlay() == old(self).overlay(),
            final(self).custom_font() == old(self).custom_font(),
    {
        let mode_info = FrameBuffer::mode_info();
        hw_init_callback(&mode_info);
        assert(mode_info_spec(mode_info) && hw_init_callback.ensures((&mode_info,), ()));
        self.roller_buffer = FrameBuffer::identity_line_map();
        self.clear();
    }

    /// Enable mode2 - a 1-bit-per-pixel graphical buffer which is coloured
    /// according to the colour attributes for the matching text cells. Each
    /// 48 bytes of `buffer` are one line of 384 pixels, shown twice from
    /// scan-line `start_line` on; a trailing part line is not shown.
    pub fn mode2(&mut self, buffer: Vec<u8>, start_line: usize)
        requires
            old(self).wf(),
        ensures
            final(self).wf(),
            final(self).same_but_overlay(old(self)),
            final(self).overlay() == Some(
                (buffer@, start_line as int, mode2_end(start_line as int, buffer.len() as int)),
            ),
    {
        let end = FrameBuffer::overlay_end(start_line, buffer.len());
        self.mode2 = Some(Mode2 { buffer, start: start_line, end });
    }

    /// The scan-line after the last that `len` bytes shown from `start`
    /// cover.
    fn overlay_end(start: usize, len: usize) -> (r: usize)
        ensures
            r == mode2_end(start as int, len as int),
    {
        // Framebuffer is line-doubled
        let span = 2 * (len / MODE0_USABLE_HORIZONTAL_OCTETS);
        if start <= usize::MAX - span {
            start + span
        } else {
            usize::MAX
        }
    }

    /// Move the graphics overlay to start at scan-line `new_start_line`.
    /// Without an overlay this does nothing.
    pub fn mode2_shift(&mut self, new_start_line: usize)
        requires
            old(self).wf(),
        ensures
            final(self).wf(),
            final(self).same_but_overlay(old(self)),
            final(self).overlay() == match old(self).overlay() {
                Some(o) => Some(
                    (o.0, new_start_line as int, mode2_end(new_start_line as int, o.0.len() as int)),
                ),
                None => None,
            },
    {
        if let Some(m) = self.mode2.as_mut() {
            m.start = new_start_line;
            m.end = FrameBuffer::overlay_end(new_start_line, m.buffer.len());
        }
    }

    /// Detach the graphics overlay and hand back its buffer and first
    /// scan-line.
    pub fn mode2_release(&mut self) -> (r: Option<(Vec<u8>, usize)>)
        requires
            old(self).wf(),
        ensures
            final(self).wf(),
            final(self).same_but_overlay(old(self)),
            final(self).overlay() is None,
            old(self).overlay() is None ==> r is None,
            old(self).overlay() matches Some(o) ==> r matches Some(b) && b.0@ == o.0 && b.1 == o.1,
    {
        match self.mode2.take() {
            Some(m) => Some((m.buffer, m.start)),
            None => None,
        }
    }

    /// The first scan-line of the graphics overlay and the scan-line after
    /// its last, if there is one.
    pub fn mode2_span(&self) -> (r: Option<(usize, usize)>)
        ensures
            self.overlay() is None ==> r is None,
            self.overlay() matches Some(o) ==> r matches Some(s) && s.0 == o.1 && s.1 == o.2,
    {
        match &self.mode2 {
            Some(m) => Some((m.start, m.end)),
            None => None,
        }
    }

    /// Show rendered line `rendered_line` on visible line `visible_line`.
    /// Either being off the screen, nothing changes.
    pub fn map_line(&mut self, visible_line: u16, rendered_line: u16)
        requires
            old(self).wf(),
        ensures
            final(self).wf(),
            final(self).screen() == old(self).screen(),
            final(self).line_counter() == old(self).line_counter(),
            final(self).frame_counter() == old(self).frame_counter(),
            final(self).overlay() == old(self).overlay(),
            final(self).custom_font() == old(self).custom_font(),
            final(self).line_map() == if (visible_line as int) < MODE0_USABLE_LINES
                && (rendered_line as int) < MODE0_USABLE_LINES {
                old(self).line_map().update(visible_line as int, rendered_line)
            } else {
                old(self).line_map()
            },
    {
        let ghost s0 = *self;
        if (rendered_line as usize) < MODE0_USABLE_LINES && (visible_line as usize)
            < MODE0_USABLE_LINES {
            self.roller_buffer.set(visible_line as usize, rendered_line);
        }
        proof {
            lemma_holds(self, s0.screen());
        }
    }

    /// Change the current font: a table of 16 rows for each of the 256
    /// characters, or `None` for the built-in font.
    pub fn set_custom_font(&mut self, new_font: Option<&'static [u8]>)
        requires
            old(self).wf(),
            new_font matches Some(x) ==> x@.len() == 256 * MAX_FONT_HEIGHT,
        ensures
            final(self).wf(),
            final(self).screen() == old(self).screen(),
            final(self).line_counter() == old(self).line_counter(),
            final(self).frame_counter() == old(self).frame_counter(),
            final(self).overlay() == old(self).overlay(),
            final(self).line_map() == old(self).line_map(),
            final(self).custom_font() == match new_font {
                Some(x) => Some(x@),
                None => None,
            },
    {
        let ghost s0 = *self;
        self.font = new_font;
        proof {
            lemma_holds(self, s0.screen());
        }
    }
}

/// `fb` holds the screen `s`.
proof fn lemma_holds(fb: &FrameBuffer, s: Screen)
    requires
        s.wf(),
        fb.text_buffer.len() == MODE0_TEXT_NUM_ROWS,
        forall|r: int, c: int|
            0 <= r < MODE0_TEXT_NUM_ROWS && 0 <= c < MODE0_TEXT_NUM_COLS ==> fb.cell(r, c)
                == #[trigger] s.text[r][c],
        forall|r: int|
            0 <= r < MODE0_TEXT_NUM_ROWS ==> fb.text_buffer@[r].double_height == #[trigger] s.modes[r],
        fb.pos.row.0 == s.row,
        fb.pos.col.0 == s.col,
        fb.attr == s.attr,
        fb.cursor_visible == s.cursor_visible,
        (fb.escape_mode is Seen) == s.escape_seen,
        (fb.mode is Interpret) == s.interpret,
    ensures
        fb.screen() == s,
{
    let t = fb.screen();
    assert forall|r: int| 0 <= r < MODE0_TEXT_NUM_ROWS implies t.text[r] =~= s.text[r] by {}
    assert(t.text =~= s.text);
    assert(t.modes =~= s.modes);
}

} // verus!
