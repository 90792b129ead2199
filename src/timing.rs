//! The vertical timing of the video signal: which part of the frame each
//! scan-line belongs to, and the scan-line counter that the hardware's
//! line interrupt advances.
//!
//! Generates an 800 x 600 @ 60 Hz SVGA signal: 400 double-width pixels
//! across (an 8 pixel border, 48 columns of 8 pixels, an 8 pixel border)
//! and 600 lines down (a 12 line border, 36 rows of 16 lines, a 12 line
//! border). Pixels are emitted with a 20 MHz pixel clock, half the nominal
//! 40 MHz, which doubles them horizontally.
use vstd::prelude::*;

use crate::colour::XRGBColour;
use crate::framebuffer::{FrameBuffer, ModeInfo};
use crate::render::border_word;
use crate::screen::{MAX_FONT_HEIGHT, MODE0_HORIZONTAL_OCTETS, MODE0_TEXT_NUM_ROWS, MODE0_USABLE_LINES};

verus! {

/// Visible pixels in a line, at 20 MHz.
pub const H_VISIBLE_AREA_20MHZ: u32 = 400;
/// Front porch of a line, in 20 MHz pixels.
pub const H_FRONT_PORCH_20MHZ: u32 = 20;
/// Sync pulse of a line, in 20 MHz pixels.
pub const H_SYNC_PULSE_20MHZ: u32 = 64;
/// Back porch of a line, in 20 MHz pixels.
pub const H_BACK_PORCH_20MHZ: u32 = 44;
/// A whole line, in 20 MHz pixels.
pub const H_WHOLE_LINE_20MHZ: u32 = H_VISIBLE_AREA_20MHZ + H_FRONT_PORCH_20MHZ
    + H_SYNC_PULSE_20MHZ + H_BACK_PORCH_20MHZ;
/// The pixel clock, in Hz.
pub const PIXEL_CLOCK_HZ: u32 = 20_000_000;

/// Lines of the visible area, borders included.
pub const V_VISIBLE_AREA: usize = 600;
/// Lines of the front porch.
pub const V_FRONT_PORCH: usize = 1;
/// Lines of the vertical sync pulse.
pub const V_SYNC_PULSE: usize = 4;
/// Lines of the back porch.
pub const V_BACK_PORCH: usize = 23;
/// Lines in a whole frame.
pub const V_WHOLE_FRAME: usize = V_SYNC_PULSE + V_BACK_PORCH + V_VISIBLE_AREA + V_FRONT_PORCH;
/// Lines of the border above the text.
pub const V_TOP_BORDER: usize = 12;
/// Lines of the border below the text.
pub const V_BOTTOM_BORDER: usize = 12;

/// First line of the sync pulse.
pub const V_SYNC_PULSE_FIRST: usize = 0;
/// First line of the back porch.
pub const V_BACK_PORCH_FIRST: usize = V_SYNC_PULSE_FIRST + V_SYNC_PULSE;
/// First line of the top border.
pub const V_TOP_BORDER_FIRST: usize = V_BACK_PORCH_FIRST + V_BACK_PORCH;
/// First line of the text.
pub const V_DATA_FIRST: usize = V_TOP_BORDER_FIRST + V_TOP_BORDER;
/// First line of the bottom border.
pub const V_BOTTOM_BORDER_FIRST: usize = V_DATA_FIRST + (MAX_FONT_HEIGHT * MODE0_TEXT_NUM_ROWS);
/// First line of the front porch.
pub const V_FRONT_PORCH_FIRST: usize = V_BOTTOM_BORDER_FIRST + V_BOTTOM_BORDER;

/// What the frame buffer hands to the hardware.
#[derive(Copy, Clone, PartialEq, Eq, Structural, Debug)]
pub enum Signal {
    /// V-Sync goes high.
    VsyncOn,
    /// V-Sync goes low.
    VsyncOff,
    /// A word of eight pixels.
    Pixels(XRGBColour),
}

/// The record of everything handed to the hardware, in order.
pub type SignalLog = Seq<Signal>;

/// Implement this for your microcontroller.
///
/// `signals` is a specification-only view: the frame buffer's contracts
/// say what each call hands over in terms of it. It is never called when
/// the program runs, so an implementation outside verified code may give it
/// a body that is never reached.
pub trait Hardware {
    /// Everything handed to this hardware so far, in order.
    spec fn signals(&self) -> SignalLog;

    /// Called when V-Sync needs to be high.
    fn vsync_on(&mut self)
        ensures
            final(self).signals() == old(self).signals().push(Signal::VsyncOn),
    ;

    /// Called when V-Sync needs to be low.
    fn vsync_off(&mut self)
        ensures
            final(self).signals() == old(self).signals().push(Signal::VsyncOff),
    ;

    /// Called word by word as pixels are calculated.
    fn write_pixels(&mut self, xrgb: XRGBColour)
        ensures
            final(self).signals() == old(self).signals().push(Signal::Pixels(xrgb)),
    ;
}

/// The signals that hand over the words `words`, in order.
pub open spec fn pixel_signals(words: Seq<XRGBColour>) -> Seq<Signal> {
    words.map_values(|w: XRGBColour| Signal::Pixels(w))
}

/// The signals of a line of solid border: 50 white words.
pub open spec fn border_signals() -> Seq<Signal> {
    Seq::new(MODE0_HORIZONTAL_OCTETS as nat, |i: int| Signal::Pixels(border_word()))
}

/// What the frame buffer does on one scan-line.
#[derive(Copy, Clone, PartialEq, Eq, Structural, Debug)]
pub enum LineAction {
    /// The frame starts: raise V-Sync.
    VsyncOn,
    /// The sync pulse is over: lower V-Sync.
    VsyncOff,
    /// Emit a line of solid border.
    Border,
    /// Emit text line `n` of the visible area.
    Data(usize),
    /// The visible frame is over: count it.
    FrameEnd,
    /// Nothing to do on this line.
    Blank,
}

/// What happens on scan-line `line` of the frame. V-Sync is raised when
/// the line counter wraps round to the first line, so not on the very first
/// line after start-up (`wrapped` says whether the counter has wrapped).
pub open spec fn line_action(line: int, wrapped: bool) -> LineAction {
    if line == V_SYNC_PULSE_FIRST && wrapped {
        LineAction::VsyncOn
    } else if line == V_BACK_PORCH_FIRST {
        LineAction::VsyncOff
    } else if V_TOP_BORDER_FIRST <= line < V_DATA_FIRST {
        LineAction::Border
    } else if V_DATA_FIRST <= line < V_BOTTOM_BORDER_FIRST {
        LineAction::Data((line - V_DATA_FIRST) as usize)
    } else if V_BOTTOM_BORDER_FIRST <= line < V_FRONT_PORCH_FIRST {
        LineAction::Border
    } else if line == V_FRONT_PORCH_FIRST {
        LineAction::FrameEnd
    } else {
        LineAction::Blank
    }
}

/// What happens on scan-line `line` of the frame.
pub fn action_for_line(line: usize, wrapped: bool) -> (r: LineAction)
    ensures
        r == line_action(line as int, wrapped),
{
    if line == V_SYNC_PULSE_FIRST && wrapped {
        LineAction::VsyncOn
    } else if line == V_BACK_PORCH_FIRST {
        LineAction::VsyncOff
    } else if V_TOP_BORDER_FIRST <= line && line < V_DATA_FIRST {
        LineAction::Border
    } else if V_DATA_FIRST <= line && line < V_BOTTOM_BORDER_FIRST {
        LineAction::Data(line - V_DATA_FIRST)
    } else if V_BOTTOM_BORDER_FIRST <= line && line < V_FRONT_PORCH_FIRST {
        LineAction::Border
    } else if line == V_FRONT_PORCH_FIRST {
        LineAction::FrameEnd
    } else {
        LineAction::Blank
    }
}

/// The description of the video mode that `FrameBuffer::init` hands to the
/// hardware.
pub open spec fn mode_info_spec(m: ModeInfo) -> bool {
    &&& m.width == H_WHOLE_LINE_20MHZ
    &&& m.visible_width == H_VISIBLE_AREA_20MHZ
    &&& m.sync_end == H_SYNC_PULSE_20MHZ
    &&& m.line_start == H_SYNC_PULSE_20MHZ + H_BACK_PORCH_20MHZ
    &&& m.clock_rate == PIXEL_CLOCK_HZ
    &&& m.num_lines == V_WHOLE_FRAME
    &&& m.visible_lines == V_VISIBLE_AREA
}

impl FrameBuffer {
    /// The scan-line counter: the line of the frame that the next call of
    /// `isr_sol` handles.
    pub open(crate) spec fn line_counter(&self) -> int {
        self.line_no as int
    }

    /// Whether the line counter has gone round the frame at least once.
    pub open(crate) spec fn has_wrapped(&self) -> bool {
        self.wrapped
    }

    /// The frame counter.
    pub open(crate) spec fn frame_counter(&self) -> int {
        self.frame as int
    }

    /// Everything but the two counters is as in `other`.
    pub open(crate) spec fn same_but_counters(&self, other: &FrameBuffer) -> bool {
        &&& self.text_buffer@ == other.text_buffer@
        &&& self.roller_buffer@ == other.roller_buffer@
        &&& self.attr == other.attr
        &&& self.pos == other.pos
        &&& self.mode == other.mode
        &&& self.escape_mode == other.escape_mode
        &&& self.mode2 == other.mode2
        &&& self.font == other.font
        &&& self.cursor_visible == other.cursor_visible
        &&& self.under_cursor == other.under_cursor
    }

    /// Decide what the current scan-line needs and step the counters: the
    /// line counter goes round the frame, and the frame counter (which
    /// wraps) counts each frame at the first line of the front porch.
    /// V-Sync is raised each time the line counter has wrapped to the first
    /// line, but not on the first line after start-up.
    pub fn advance_one_line(&mut self) -> (r: LineAction)
        requires
            old(self).wf(),
        ensures
            final(self).wf(),
            final(self).same_but_counters(old(self)),
            r == line_action(old(self).line_counter(), old(self).has_wrapped()),
            final(self).line_counter() == (old(self).line_counter() + 1) % (V_WHOLE_FRAME as int),
            final(self).has_wrapped() == (old(self).has_wrapped() || old(self).line_counter() + 1
                == V_WHOLE_FRAME),
            final(self).frame_counter() == if old(self).line_counter() == V_FRONT_PORCH_FIRST {
                (old(self).frame_counter() + 1) % (usize::MAX as int + 1)
            } else {
                old(self).frame_counter()
            },
    {
        let action = action_for_line(self.line_no, self.wrapped);
        if let LineAction::FrameEnd = action {
            // End of visible frame - increment counter
            self.frame = self.frame.wrapping_add(1);
        }
        if self.line_no + 1 == V_WHOLE_FRAME {
            // Wrap around
            self.line_no = 0;
            self.wrapped = true;
            proof {
                vstd::arithmetic::div_mod::lemma_mod_self_0(V_WHOLE_FRAME as int);
            }
        } else {
            proof {
                vstd::arithmetic::div_mod::lemma_small_mod(
                    (self.line_no + 1) as nat,
                    V_WHOLE_FRAME as nat,
                );
            }
            self.line_no = self.line_no + 1;
        }
        action
    }

    /// Returns the current frame number.
    pub fn frame(&self) -> (r: usize)
        ensures
            r == self.frame_counter(),
    {
        self.frame
    }

    /// Returns the current visible line number, counted from the first line
    /// of text, or None outside the text.
    pub fn line(&self) -> (r: Option<usize>)
        ensures
            r == if V_DATA_FIRST <= self.line_counter() < V_BOTTOM_BORDER_FIRST {
                Some((self.line_counter() - V_DATA_FIRST) as usize)
            } else {
                None
            },
    {
        let line = self.line_no;
        if line >= V_DATA_FIRST && line < V_BOTTOM_BORDER_FIRST {
            Some(line - V_DATA_FIRST)
        } else {
            None
        }
    }

    /// Returns the number of lines since startup: whole frames times the
    /// frame length, plus the current line, modulo 2^64.
    pub fn total_line(&self) -> (r: u64)
        ensures
            r == (self.frame_counter() * V_WHOLE_FRAME + self.line_counter()) % 0x1_0000_0000_0000_0000,
    {
        let f = self.frame as u64;
        let whole = (f as u64).wrapping_mul(V_WHOLE_FRAME as u64);
        let r = whole.wrapping_add(self.line_no as u64);
        proof {
            let m = 0x1_0000_0000_0000_0000int;
            assert(whole == (f * 628) % m);
            assert(r == (whole + self.line_no) % m);
            assert(((f * 628) % m + self.line_no) % m == (f * 628 + self.line_no) % m) by {
                vstd::arithmetic::div_mod::lemma_add_mod_noop(f * 628, self.line_no as int, m);
                vstd::arithmetic::div_mod::lemma_mod_twice(self.line_no as int, m);
            }
        }
        r
    }

    /// The signals that `isr_sol` hands over on a line whose action is
    /// `action`.
    pub open(crate) spec fn line_signals(&self, action: LineAction) -> Seq<Signal> {
        match action {
            LineAction::VsyncOn => seq![Signal::VsyncOn],
            LineAction::VsyncOff => seq![Signal::VsyncOff],
            LineAction::Border => border_signals(),
            LineAction::Data(l) => pixel_signals(self.line_words(self.rendered_line(l as int))),
            LineAction::FrameEnd => Seq::empty(),
            LineAction::Blank => Seq::empty(),
        }
    }

    /// Emit a solid line of border pixels.
    fn solid_line<T: Hardware>(hw: &mut T)
        ensures
            final(hw).signals() == old(hw).signals() + border_signals(),
    {
        let ghost start = hw.signals();
        let mut i: usize = 0;
        while i < MODE0_HORIZONTAL_OCTETS
            invariant
                0 <= i <= MODE0_HORIZONTAL_OCTETS,
                hw.signals() == start + border_signals().take(i as int),
            decreases MODE0_HORIZONTAL_OCTETS - i,
        {
            hw.write_pixels(XRGBColour::new(0xFF, 0xFF, 0xFF));
            proof {
                assert(border_signals().take(i + 1) == border_signals().take(i as int).push(
                    Signal::Pixels(border_word()),
                ));
            }
            i = i + 1;
        }
        proof {
            assert(border_signals().take(MODE0_HORIZONTAL_OCTETS as int) == border_signals());
        }
    }

    /// Call this at the start of every line: it hands the hardware what the
    /// line needs (see `advance_one_line` and `line_signals`): V-Sync going
    /// high or low, 50 white words on a border line, or the 50 words of
    /// `line_words` on a text line; and it steps the counters.
    pub fn isr_sol<T: Hardware>(&mut self, hw: &mut T)
        requires
            old(self).wf(),
        ensures
            final(self).wf(),
            final(self).same_but_counters(old(self)),
            final(hw).signals() == old(hw).signals() + old(self).line_signals(
                line_action(old(self).line_counter(), old(self).has_wrapped()),
            ),
            final(self).line_counter() == (old(self).line_counter() + 1) % (V_WHOLE_FRAME as int),
            final(self).has_wrapped() == (old(self).has_wrapped() || old(self).line_counter() + 1
                == V_WHOLE_FRAME),
            final(self).frame_counter() == if old(self).line_counter() == V_FRONT_PORCH_FIRST {
                (old(self).frame_counter() + 1) % (usize::MAX as int + 1)
            } else {
                old(self).frame_counter()
            },
    {
        let ghost s0 = *self;
        let ghost h0 = hw.signals();
        let action = self.advance_one_line();
        proof {
            assert(self.grid() == s0.grid());
            assert(self.custom_font() == s0.custom_font());
            assert(self.overlay() == s0.overlay());
        }
        match action {
            LineAction::VsyncOn => hw.vsync_on(),
            LineAction::VsyncOff => hw.vsync_off(),
            LineAction::Border => FrameBuffer::solid_line(hw),
            LineAction::Data(line) => {
                assert(line < MODE0_USABLE_LINES);
                self.calculate_pixels(line, hw);
                assert(self.line_words(self.rendered_line(line as int)) == s0.line_words(
                    s0.rendered_line(line as int),
                ));
            },
            LineAction::FrameEnd => {},
            LineAction::Blank => {},
        }
        proof {
            if action is FrameEnd || action is Blank {
                assert(hw.signals() == h0 + Seq::<Signal>::empty());
            }
        }
    }
}

} // verus!
