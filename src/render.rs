//! The scan-line renderer: the words of eight pixels that make up one line
//! of text, or of the graphics overlay where it covers the line.
use vstd::prelude::*;

use crate::colour::XRGBColour;
use crate::font::{font_byte, font_row};
use crate::framebuffer::{FrameBuffer, Mode0TextRow};
use crate::screen::{
    DoubleHeightMode, MAX_FONT_HEIGHT, MODE0_HORIZONTAL_OCTETS, MODE0_TEXT_NUM_ROWS,
    MODE0_USABLE_HORIZONTAL_OCTETS, MODE0_USABLE_LINES,
};
use crate::timing::{pixel_signals, Hardware, Signal};

verus! {

/// The word of the border on either side of a text line: eight white
/// pixels.
pub open spec fn border_word() -> XRGBColour {
    XRGBColour::spec_new(0xFF, 0xFF, 0xFF)
}

/// The glyph row shown on pixel row `font_row` of a text row of height
/// mode `mode`: a `Top` row stretches the upper half of the glyph over its
/// height, a `Bottom` row the lower half.
pub open spec fn glyph_row(mode: DoubleHeightMode, font_row: int) -> int {
    match mode {
        DoubleHeightMode::Normal => font_row,
        DoubleHeightMode::Top => font_row / 2,
        DoubleHeightMode::Bottom => (font_row + MAX_FONT_HEIGHT) / 2,
    }
}

/// Row `row` of the glyph with code `code` in `font`, or in the built-in
/// font when there is none.
pub open spec fn font_pixels(font: Option<Seq<u8>>, code: u8, row: int) -> u8 {
    match font {
        Some(f) => f[code as int * MAX_FONT_HEIGHT + row],
        None => font_byte(code, row),
    }
}

/// Whether the graphics overlay covers rendered line `line`.
pub open spec fn overlay_covers(overlay: Option<(Seq<u8>, int, int)>, line: int) -> bool {
    match overlay {
        Some((_, start, end)) => start <= line < end && line / (MAX_FONT_HEIGHT as int)
            < MODE0_TEXT_NUM_ROWS,
        None => false,
    }
}

/// The pixels of column `col` on rendered line `line`, before colouring:
/// a byte of the overlay where it covers the line, else the glyph's row in
/// the font, stretched for a double-height row.
pub open spec fn cell_pixels(
    grid: Seq<Mode0TextRow>,
    font: Option<Seq<u8>>,
    overlay: Option<(Seq<u8>, int, int)>,
    line: int,
    col: int,
) -> u8 {
    let text_row = line / (MAX_FONT_HEIGHT as int);
    if overlay_covers(overlay, line) {
        let (bytes, start, _) = overlay->0;
        // Our framebuffer is line-doubled
        bytes[((line - start) / 2) * MODE0_USABLE_HORIZONTAL_OCTETS + col]
    } else {
        font_pixels(
            font,
            grid[text_row].glyphs@[col].0.code(),
            glyph_row(grid[text_row].double_height, line % (MAX_FONT_HEIGHT as int)),
        )
    }
}

/// Word `i` of rendered line `line`: the border, then one word per column,
/// coloured by the cell's attribute, then the border.
pub open spec fn word(
    grid: Seq<Mode0TextRow>,
    font: Option<Seq<u8>>,
    overlay: Option<(Seq<u8>, int, int)>,
    line: int,
    i: int,
) -> XRGBColour {
    if i == 0 || i == MODE0_HORIZONTAL_OCTETS - 1 {
        border_word()
    } else {
        let text_row = line / (MAX_FONT_HEIGHT as int);
        grid[text_row].glyphs@[i - 1].1.spec_colour_pixels(
            cell_pixels(grid, font, overlay, line, i - 1),
        )
    }
}

/// The words of rendered line `line`, drawn from the stored rows `grid`,
/// the font `font` and the graphics overlay `overlay` alone.
pub open spec fn line_words_of(
    grid: Seq<Mode0TextRow>,
    font: Option<Seq<u8>>,
    overlay: Option<(Seq<u8>, int, int)>,
    line: int,
) -> Seq<XRGBColour> {
    Seq::new(MODE0_HORIZONTAL_OCTETS as nat, |i: int| word(grid, font, overlay, line, i))
}

impl FrameBuffer {
    /// The words of rendered line `line`.
    pub open(crate) spec fn line_words(&self, line: int) -> Seq<XRGBColour> {
        line_words_of(self.grid(), self.custom_font(), self.overlay(), line)
    }

    /// The rendered line that visible text line `data_line` shows.
    pub open(crate) spec fn rendered_line(&self, data_line: int) -> int {
        self.roller_buffer@[data_line] as int
    }

    /// The pixels of column `col` on rendered line `line`.
    fn pixels_at(&self, line: usize, col: usize) -> (r: u8)
        requires
            self.wf(),
            line < MODE0_USABLE_LINES,
            col < MODE0_USABLE_HORIZONTAL_OCTETS,
        ensures
            r == cell_pixels(self.grid(), self.custom_font(), self.overlay(), line as int, col as int),
    {
        let text_row = line / MAX_FONT_HEIGHT;
        if let Some(mode2) = &self.mode2 {
            if line >= mode2.start && line < mode2.end && text_row < MODE0_TEXT_NUM_ROWS {
                // Our framebuffer is line-doubled
                let framebuffer_line = (line - mode2.start) / 2;
                proof {
                    let len = mode2.buffer.len() as int;
                    let lines = len / 48;
                    assert(line - mode2.start < 2 * lines);
                    assert(framebuffer_line < lines);
                    assert(framebuffer_line * 48 + col < len) by (nonlinear_arith)
                        requires
                            framebuffer_line < lines,
                            lines == len / 48,
                            col < 48,
                            len >= 0,
                    {
                        assert(framebuffer_line * 48 + col < lines * 48 + 48);
                        assert(lines * 48 <= len - len % 48);
                    }
                }
                return mode2.buffer[framebuffer_line * MODE0_USABLE_HORIZONTAL_OCTETS + col];
            }
        }
        let (ch, _) = self.load(text_row, col);
        let pixel_row = line % MAX_FONT_HEIGHT;
        let glyph_row = match self.text_buffer[text_row].double_height {
            DoubleHeightMode::Normal => pixel_row,
            DoubleHeightMode::Top => pixel_row / 2,
            DoubleHeightMode::Bottom => (pixel_row + MAX_FONT_HEIGHT) / 2,
        };
        let code = ch.as_u8();
        match self.font {
            Some(f) => f[(code as usize) * MAX_FONT_HEIGHT + glyph_row],
            None => font_row(code, glyph_row),
        }
    }

    /// Word `i` of rendered line `line`: the left border, 48 coloured
    /// columns, the right border.
    pub fn render_word(&self, line: usize, i: usize) -> (r: XRGBColour)
        requires
            self.wf(),
            line < MODE0_USABLE_LINES,
            i < MODE0_HORIZONTAL_OCTETS,
        ensures
            r == word(self.grid(), self.custom_font(), self.overlay(), line as int, i as int),
    {
        if i == 0 || i == MODE0_HORIZONTAL_OCTETS - 1 {
            XRGBColour::new(0xFF, 0xFF, 0xFF)
        } else {
            let text_row = line / MAX_FONT_HEIGHT;
            let (_, attr) = self.load(text_row, i - 1);
            attr.colour_pixels(self.pixels_at(line, i - 1))
        }
    }

    /// Append the words of visible text line `data_line` to `out`: those of
    /// the rendered line that the line map gives for it.
    pub fn render_data_line(&self, data_line: usize, out: &mut Vec<XRGBColour>)
        requires
            self.wf(),
            data_line < MODE0_USABLE_LINES,
        ensures
            final(out)@ == old(out)@ + self.line_words(self.rendered_line(data_line as int)),
    {
        let line = self.roller_buffer[data_line] as usize;
        let ghost start = out@;
        let mut i: usize = 0;
        while i < MODE0_HORIZONTAL_OCTETS
            invariant
                0 <= i <= MODE0_HORIZONTAL_OCTETS,
                line == self.rendered_line(data_line as int),
                line < MODE0_USABLE_LINES,
                self.wf(),
                out@ == start + self.line_words(line as int).take(i as int),
            decreases MODE0_HORIZONTAL_OCTETS - i,
        {
            out.push(self.render_word(line, i));
            proof {
                assert(self.line_words(line as int).take(i + 1) == self.line_words(line as int).take(
                    i as int,
                ).push(word(self.grid(), self.custom_font(), self.overlay(), line as int, i as int)));
            }
            i = i + 1;
        }
        proof {
            assert(self.line_words(line as int).take(MODE0_HORIZONTAL_OCTETS as int)
                == self.line_words(line as int));
        }
    }

    /// Emit the words of visible text line `data_line` to the hardware: the
    /// 50 words of `line_words` for the rendered line it shows, in order.
    pub(crate) fn calculate_pixels<T: Hardware>(&self, data_line: usize, hw: &mut T)
        requires
            self.wf(),
            data_line < MODE0_USABLE_LINES,
        ensures
            final(hw).signals() == old(hw).signals() + pixel_signals(
                self.line_words(self.rendered_line(data_line as int)),
            ),
    {
        let ghost start = hw.signals();
        let line = self.roller_buffer[data_line] as usize;
        let ghost words = self.line_words(line as int);
        let mut i: usize = 0;
        while i < MODE0_HORIZONTAL_OCTETS
            invariant
                0 <= i <= MODE0_HORIZONTAL_OCTETS,
                line < MODE0_USABLE_LINES,
                self.wf(),
                words == self.line_words(line as int),
                hw.signals() == start + pixel_signals(words.take(i as int)),
            decreases MODE0_HORIZONTAL_OCTETS - i,
        {
            hw.write_pixels(self.render_word(line, i));
            proof {
                assert(pixel_signals(words.take(i + 1)) == pixel_signals(words.take(i as int)).push(
                    Signal::Pixels(words[i as int]),
                ));
            }
            i = i + 1;
        }
        proof {
            assert(words.take(MODE0_HORIZONTAL_OCTETS as int) == words);
        }
    }
}

} // verus!
