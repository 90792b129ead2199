//! What holds of the frame buffer across its operations.
use vstd::prelude::*;

use crate::charset::Char;
use crate::colour::Attr;
use crate::framebuffer::{FrameBuffer, CURSOR};
use crate::render::{cell_pixels, glyph_row, font_pixels, overlay_covers};
use crate::screen::{
    blank_row, DoubleHeightMode, Screen, MAX_FONT_HEIGHT, MODE0_TEXT_MAX_ROW, MODE0_TEXT_NUM_COLS,
    MODE0_TEXT_NUM_ROWS,
};
use crate::timing::{
    line_action, LineAction, V_BACK_PORCH_FIRST, V_FRONT_PORCH_FIRST, V_SYNC_PULSE_FIRST,
    V_WHOLE_FRAME,
};

verus! {

/// A change of the cursor: show or hide it, or move it (a position off the
/// screen is refused and changes nothing).
pub enum CursorOp {
    Visible(bool),
    Move(int, int),
}

/// The screen after the cursor changes `ops`, in order.
pub open spec fn after_cursor_ops(s: Screen, ops: Seq<CursorOp>) -> Screen
    decreases ops.len(),
{
    if ops.len() == 0 {
        s
    } else {
        let t = after_cursor_ops(s, ops.drop_last());
        match ops.last() {
            CursorOp::Visible(v) => Screen { cursor_visible: v, ..t },
            CursorOp::Move(r, c) => if 0 <= r < MODE0_TEXT_NUM_ROWS && 0 <= c
                < MODE0_TEXT_NUM_COLS {
                t.moved_to(r, c)
            } else {
                t
            },
        }
    }
}

/// Reading a cell back after writing it gives the glyph and attribute
/// written, and no other cell changes.
pub proof fn lemma_write_then_read(s: Screen, r: int, c: int, v: (Char, Attr))
    requires
        s.wf(),
        0 <= r < MODE0_TEXT_NUM_ROWS,
        0 <= c < MODE0_TEXT_NUM_COLS,
    ensures
        s.put(r, c, v).wf(),
        s.put(r, c, v).text[r][c] == v,
        forall|rr: int, cc: int|
            0 <= rr < MODE0_TEXT_NUM_ROWS && 0 <= cc < MODE0_TEXT_NUM_COLS && (rr != r || cc != c)
                ==> #[trigger] s.put(r, c, v).text[rr][cc] == s.text[rr][cc],
{
}

/// Showing, hiding and moving the cursor, in any order, never changes what
/// the screen holds: the glyph under the cursor is never lost.
pub proof fn lemma_cursor_keeps_text(s: Screen, ops: Seq<CursorOp>)
    requires
        s.wf(),
    ensures
        after_cursor_ops(s, ops).wf(),
        after_cursor_ops(s, ops).text == s.text,
        after_cursor_ops(s, ops).modes == s.modes,
        after_cursor_ops(s, ops).attr == s.attr,
    decreases ops.len(),
{
    if ops.len() > 0 {
        lemma_cursor_keeps_text(s, ops.drop_last());
    }
}

/// In every state, the stored grid shows the cursor glyph at the cursor
/// position exactly when the cursor is shown, and shows the screen's own
/// cell everywhere else.
pub proof fn lemma_cursor_shown(fb: &FrameBuffer, r: int, c: int)
    requires
        fb.wf(),
        0 <= r < MODE0_TEXT_NUM_ROWS,
        0 <= c < MODE0_TEXT_NUM_COLS,
    ensures
        fb.screen().cursor_visible && r == fb.screen().row && c == fb.screen().col ==> fb.raw(r, c)
            == (CURSOR, fb.screen().text[r][c].1),
        !(fb.screen().cursor_visible && r == fb.screen().row && c == fb.screen().col) ==> fb.raw(
            r,
            c,
        ) == fb.screen().text[r][c],
{
}

/// After clearing, every cell holds a space in the current attribute and
/// the cursor is at the origin.
pub proof fn lemma_clear_then_read(s: Screen, r: int, c: int)
    requires
        s.wf(),
        0 <= r < MODE0_TEXT_NUM_ROWS,
        0 <= c < MODE0_TEXT_NUM_COLS,
    ensures
        s.cleared().wf(),
        s.cleared().text[r][c] == (Char::Space, s.attr),
        s.cleared().row == 0,
        s.cleared().col == 0,
{
}

/// Scrolling moves each row's cells up one row, and the last row becomes
/// spaces in the current attribute.
pub proof fn lemma_scroll_shifts_rows(s: Screen, r: int, c: int)
    requires
        s.wf(),
        0 <= r < MODE0_TEXT_NUM_ROWS,
        0 <= c < MODE0_TEXT_NUM_COLS,
    ensures
        s.scrolled().wf(),
        r < MODE0_TEXT_MAX_ROW ==> s.scrolled().text[r][c] == s.text[r + 1][c],
        r == MODE0_TEXT_MAX_ROW ==> s.scrolled().text[r][c] == (Char::Space, s.attr),
{
    let t = s.scrolled();
    assert(t.text.len() == MODE0_TEXT_NUM_ROWS);
    assert forall|rr: int| 0 <= rr < MODE0_TEXT_NUM_ROWS implies (#[trigger] t.text[rr]).len()
        == MODE0_TEXT_NUM_COLS by {
        if rr == MODE0_TEXT_MAX_ROW {
            assert(t.text[rr] == blank_row(s.attr));
        }
    }
}

/// The line counter and whether it has wrapped, after `k` calls of
/// `isr_sol` on a new frame buffer (line 0, not yet wrapped), as
/// `advance_one_line` steps them.
pub open spec fn counter_after(k: nat) -> (int, bool)
    decreases k,
{
    if k == 0 {
        (0, false)
    } else {
        let (line, wrapped) = counter_after((k - 1) as nat);
        ((line + 1) % (V_WHOLE_FRAME as int), wrapped || line + 1 == V_WHOLE_FRAME)
    }
}

/// After `k` calls the counter is at `k` modulo the frame length, and it
/// has wrapped once a whole frame has gone by.
proof fn lemma_counter_after(k: nat)
    ensures
        counter_after(k) == ((k as int) % (V_WHOLE_FRAME as int), k >= V_WHOLE_FRAME),
    decreases k,
{
    let m = V_WHOLE_FRAME as int;
    if k > 0 {
        lemma_counter_after((k - 1) as nat);
        vstd::arithmetic::div_mod::lemma_add_mod_noop(k - 1, 1, m);
        vstd::arithmetic::div_mod::lemma_small_mod(1, m as nat);
        if k - 1 < m {
            vstd::arithmetic::div_mod::lemma_small_mod((k - 1) as nat, m as nat);
        }
    } else {
        vstd::arithmetic::div_mod::lemma_small_mod(0, m as nat);
    }
}

/// Call number `k` (from 0) of `isr_sol` on a new frame buffer raises V-Sync
/// exactly when `k` is a positive multiple of the frame length, that is
/// when the line counter has wrapped round: never in the first frame and
/// once in every frame after. It lowers V-Sync exactly at the first line of
/// the back porch of each frame, and counts a frame exactly at the first
/// line of each front porch: once per frame each.
pub proof fn lemma_frame_events(k: nat)
    ensures
        counter_after(k).0 == (k as int) % (V_WHOLE_FRAME as int),
        (line_action(counter_after(k).0, counter_after(k).1) == LineAction::VsyncOn) <==> (k
            >= V_WHOLE_FRAME && (k as int) % (V_WHOLE_FRAME as int) == V_SYNC_PULSE_FIRST),
        (line_action(counter_after(k).0, counter_after(k).1) == LineAction::VsyncOff) <==> (
        k as int) % (V_WHOLE_FRAME as int) == V_BACK_PORCH_FIRST,
        (line_action(counter_after(k).0, counter_after(k).1) == LineAction::FrameEnd) <==> (
        k as int) % (V_WHOLE_FRAME as int) == V_FRONT_PORCH_FIRST,
{
    lemma_counter_after(k);
    let l = (k as int) % (V_WHOLE_FRAME as int);
    assert(0 <= l < V_WHOLE_FRAME);
}

/// The words of a rendered line depend on the stored grid, the font and the
/// graphics overlay alone: not on the counters, the cursor state, the
/// current attribute or anything else, so rendering the same picture twice
/// gives the same words.
pub proof fn lemma_render_depends_on_picture(a: &FrameBuffer, b: &FrameBuffer, line: int)
    requires
        a.grid() == b.grid(),
        a.custom_font() == b.custom_font(),
        a.overlay() == b.overlay(),
    ensures
        a.line_words(line) == b.line_words(line),
{
}

/// A `Top` row shows the upper half of each glyph with each glyph row on two
/// scan-lines in succession; a `Bottom` row does the same with the lower
/// half.
pub proof fn lemma_double_height(fb: &FrameBuffer, text_row: int, j: int, col: int)
    requires
        fb.wf(),
        0 <= text_row < MODE0_TEXT_NUM_ROWS,
        0 <= j < MAX_FONT_HEIGHT / 2,
        0 <= col < MODE0_TEXT_NUM_COLS,
        !overlay_covers(fb.overlay(), text_row * 16 + 2 * j),
        !overlay_covers(fb.overlay(), text_row * 16 + 2 * j + 1),
        fb.screen().modes[text_row] != DoubleHeightMode::Normal,
    ensures
        cell_pixels(fb.grid(), fb.custom_font(), fb.overlay(), text_row * 16 + 2 * j, col)
            == cell_pixels(fb.grid(), fb.custom_font(), fb.overlay(), text_row * 16 + 2 * j + 1, col),
        cell_pixels(fb.grid(), fb.custom_font(), fb.overlay(), text_row * 16 + 2 * j, col)
            == font_pixels(
            fb.custom_font(),
            fb.grid()[text_row].glyphs@[col].0.code(),
            if fb.screen().modes[text_row] == DoubleHeightMode::Top {
                j
            } else {
                j + MAX_FONT_HEIGHT / 2
            },
        ),
{
    let l0 = text_row * 16 + 2 * j;
    let l1 = l0 + 1;
    assert(l0 / 16 == text_row && l0 % 16 == 2 * j) by (nonlinear_arith)
        requires l0 == text_row * 16 + 2 * j, 0 <= j < 8, 0 <= text_row;
    assert(l1 / 16 == text_row && l1 % 16 == 2 * j + 1) by (nonlinear_arith)
        requires l1 == text_row * 16 + 2 * j + 1, 0 <= j < 8, 0 <= text_row;
    let mode = fb.grid()[text_row].double_height;
    assert(mode == fb.screen().modes[text_row]);
    assert(glyph_row(mode, 2 * j) == glyph_row(mode, 2 * j + 1));
}

} // verus!
