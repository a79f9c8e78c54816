//! A textbox widget: a single-line editor over a `String`, with a caret
//! or selection addressed in character offsets, grapheme-aware cursor
//! movement, clipboard shortcuts, and a horizontal scroll offset that
//! keeps the caret visible.

use vstd::prelude::*;

use crate::constraints::BoxConstraints;
use crate::ctx::{BaseState, CursorStyle, EventCtx, UpdateCtx};
use crate::env::{Env, Key};
use crate::event::{Action, Event, KeyCode, KeyEvent, TimerToken};
use crate::geom::{Point, Rect, Size, Vec2, MAX_DIM};
use crate::paint::{Brush, DrawCmd, PaintCtx};
use crate::text::{
    char_count, grapheme_lens, grapheme_lens_of, lemma_sum_of_first, lemma_sum_of_nonneg,
    lemma_sum_of_split, spec_text_width, sum_of, text_width,
};
use crate::widget::Widget;

verus! {

pub const BORDER_WIDTH: i64 = 1;

pub const PADDING_TOP: i64 = 5;

pub const PADDING_LEFT: i64 = 4;

/// The cursor blink half-period, in milliseconds.
pub const CURSOR_BLINK_MS: u64 = 500;

/// The first grapheme boundary strictly after `from`, walking a cluster
/// length list; the end of the list if `from` lies at or past the end.
pub open spec fn next_from(lens: Seq<usize>, from: int) -> int
    decreases lens.len(),
{
    if lens.len() == 0 {
        0
    } else if lens[0] > from {
        lens[0] as int
    } else {
        lens[0] + next_from(lens.skip(1), from - lens[0])
    }
}

/// The last grapheme boundary strictly before `from`, walking a cluster
/// length list; zero if `from` lies at or before the first boundary.
pub open spec fn prev_from(lens: Seq<usize>, from: int) -> int
    decreases lens.len(),
{
    if lens.len() == 0 {
        0
    } else if lens[0] >= from {
        0
    } else {
        lens[0] + prev_from(lens.skip(1), from - lens[0])
    }
}

/// The next grapheme boundary of a string after `from` (in characters),
/// or the string's length when `from` is at or past the end.
pub open spec fn spec_next_grapheme(s: Seq<char>, from: int) -> int {
    if from >= s.len() {
        s.len() as int
    } else {
        next_from(grapheme_lens_of(s), from)
    }
}

/// The previous grapheme boundary of a string before `from` (in
/// characters), or zero.
pub open spec fn spec_prev_grapheme(s: Seq<char>, from: int) -> int {
    prev_from(grapheme_lens_of(s), from)
}

proof fn lemma_next_from_bounds(lens: Seq<usize>, from: int)
    requires
        forall|i: int| 0 <= i < lens.len() ==> lens[i] >= 1,
        0 <= from < sum_of(lens),
    ensures
        from < next_from(lens, from) <= sum_of(lens),
    decreases lens.len(),
{
    lemma_sum_of_first(lens);
    lemma_sum_of_nonneg(lens.skip(1));
    if lens[0] > from {
    } else {
        assert(forall|i: int|
            0 <= i < lens.skip(1).len() ==> #[trigger] lens.skip(1)[i] == lens[i + 1]);
        lemma_next_from_bounds(lens.skip(1), from - lens[0]);
    }
}

proof fn lemma_prev_from_bounds(lens: Seq<usize>, from: int)
    requires
        forall|i: int| 0 <= i < lens.len() ==> lens[i] >= 1,
        from > 0,
    ensures
        0 <= prev_from(lens, from) < from,
        prev_from(lens, from) <= sum_of(lens),
    decreases lens.len(),
{
    if lens.len() == 0 {
    } else {
        lemma_sum_of_first(lens);
        lemma_sum_of_nonneg(lens.skip(1));
        if lens[0] >= from {
        } else {
            assert(forall|i: int|
                0 <= i < lens.skip(1).len() ==> #[trigger] lens.skip(1)[i] == lens[i + 1]);
            lemma_prev_from_bounds(lens.skip(1), from - lens[0]);
        }
    }
}

/// The next grapheme boundary after `from`, or the end of the string.
pub fn next_grapheme(src: &str, from: usize) -> (r: usize)
    ensures
        r == spec_next_grapheme(src@, from as int),
        from < src@.len() ==> from < r <= src@.len(),
        from >= src@.len() ==> r == src@.len(),
{
    let n = char_count(src);
    if from >= n {
        return n;
    }
    let lens = grapheme_lens(src);
    proof {
        lemma_next_from_bounds(lens@, from as int);
        assert(lens@.skip(0) =~= lens@);
        assert(lens@.take(0) =~= Seq::<usize>::empty());
    }
    let ghost whole = lens@;
    let mut base: usize = 0;
    let mut rem: usize = from;
    let mut i: usize = 0;
    while i < lens.len()
        invariant
            i <= whole.len(),
            lens@ == whole,
            forall|j: int| 0 <= j < whole.len() ==> whole[j] >= 1,
            base + rem == from,
            base == sum_of(whole.take(i as int)),
            rem < sum_of(whole.skip(i as int)),
            next_from(whole, from as int) == base + next_from(whole.skip(i as int), rem as int),
            from < next_from(whole, from as int) <= src@.len(),
            sum_of(whole) == src@.len(),
            src@.len() <= usize::MAX,
            from < src@.len(),
            whole == grapheme_lens_of(src@),
        decreases whole.len() - i,
    {
        proof {
            lemma_sum_of_first(whole.skip(i as int));
            assert(whole.skip(i as int)[0] == whole[i as int]);
            assert(whole.skip(i as int).skip(1) =~= whole.skip(i as int + 1));
            lemma_sum_of_split(whole, i as int);
            lemma_sum_of_nonneg(whole.skip(i as int + 1));
            assert(whole.take(i as int + 1).drop_last() =~= whole.take(i as int));
            assert(whole.take(i as int + 1).last() == whole[i as int]);
        }
        if lens[i] > rem {
            return base + lens[i];
        }
        base = base + lens[i];
        rem = rem - lens[i];
        i = i + 1;
    }
    proof {
        assert(whole.skip(i as int) =~= Seq::<usize>::empty());
        assert(false);
    }
    0
}

/// The previous grapheme boundary before `from`, or zero.
pub fn prev_grapheme(src: &str, from: usize) -> (r: usize)
    ensures
        r == spec_prev_grapheme(src@, from as int),
        from > 0 ==> 0 <= r < from,
        r <= src@.len(),
        from == 0 ==> r == 0,
{
    let n = char_count(src);
    let lens = grapheme_lens(src);
    proof {
        if from > 0 {
            lemma_prev_from_bounds(lens@, from as int);
        }
        assert(lens@.skip(0) =~= lens@);
        assert(lens@.take(0) =~= Seq::<usize>::empty());
    }
    let ghost whole = lens@;
    let mut base: usize = 0;
    let mut rem: usize = from;
    let mut i: usize = 0;
    while i < lens.len()
        invariant
            i <= whole.len(),
            lens@ == whole,
            forall|j: int| 0 <= j < whole.len() ==> whole[j] >= 1,
            base + rem == from,
            base == sum_of(whole.take(i as int)),
            base <= src@.len(),
            prev_from(whole, from as int) == base + prev_from(whole.skip(i as int), rem as int),
            sum_of(whole) == src@.len(),
            src@.len() <= usize::MAX,
            whole == grapheme_lens_of(src@),
            from > 0 ==> prev_from(whole, from as int) < from,
            prev_from(whole, from as int) >= 0,
            prev_from(whole, from as int) <= sum_of(whole),
            from == 0 ==> prev_from(whole, from as int) == 0,
        decreases whole.len() - i,
    {
        proof {
            lemma_sum_of_first(whole.skip(i as int));
            assert(whole.skip(i as int)[0] == whole[i as int]);
            assert(whole.skip(i as int).skip(1) =~= whole.skip(i as int + 1));
            lemma_sum_of_split(whole, i as int);
            lemma_sum_of_nonneg(whole.skip(i as int + 1));
            assert(whole.take(i as int + 1).drop_last() =~= whole.take(i as int));
            assert(whole.take(i as int + 1).last() == whole[i as int]);
        }
        if lens[i] >= rem {
            return base;
        }
        base = base + lens[i];
        rem = rem - lens[i];
        i = i + 1;
    }
    proof {
        assert(whole.skip(i as int) =~= Seq::<usize>::empty());
    }
    base
}

/// A contiguous region of selected text, in character offsets; when the
/// two edges coincide the selection acts as a caret.
#[derive(Clone, Copy, PartialEq, Eq, Structural, Debug)]
pub struct Selection {
    /// The inactive edge of the selection.
    pub start: usize,
    /// The active edge of the selection.
    pub end: usize,
}

impl Selection {
    /// A selection from `start` to `end`, like dragging a mouse between
    /// the two.
    pub fn new(start: usize, end: usize) -> (s: Selection)
        ensures
            s.start == start,
            s.end == end,
    {
        Selection { start, end }
    }

    /// A caret: a selection whose edges coincide.
    pub fn caret(pos: usize) -> (s: Selection)
        ensures
            s.start == pos,
            s.end == pos,
    {
        Selection { start: pos, end: pos }
    }

    /// Whether the selection is a caret.
    pub fn is_caret(self) -> (r: bool)
        ensures
            r == (self.start == self.end),
    {
        self.start == self.end
    }

    /// The smaller edge.
    pub open spec fn spec_min(self) -> int {
        if self.start <= self.end {
            self.start as int
        } else {
            self.end as int
        }
    }

    /// The larger edge.
    pub open spec fn spec_max(self) -> int {
        if self.start >= self.end {
            self.start as int
        } else {
            self.end as int
        }
    }

    /// The smaller edge (left, in left-to-right scripts).
    pub fn min(self) -> (r: usize)
        ensures
            r == self.spec_min(),
    {
        if self.start <= self.end {
            self.start
        } else {
            self.end
        }
    }

    /// The larger edge (right, in left-to-right scripts).
    pub fn max(self) -> (r: usize)
        ensures
            r == self.spec_max(),
    {
        if self.start >= self.end {
            self.start
        } else {
            self.end
        }
    }

    /// The selected region as a pair, smaller edge first.
    pub fn range(self) -> (r: (usize, usize))
        ensures
            r.0 == self.spec_min(),
            r.1 == self.spec_max(),
    {
        (self.min(), self.max())
    }

    /// The selection with both edges clamped to a text length.
    pub fn clamped(self, len: usize) -> (s: Selection)
        ensures
            s.start == if self.start <= len {
                self.start as int
            } else {
                len as int
            },
            s.end == if self.end <= len {
                self.end as int
            } else {
                len as int
            },
    {
        Selection {
            start: if self.start <= len {
                self.start
            } else {
                len
            },
            end: if self.end <= len {
                self.end
            } else {
                len
            },
        }
    }
}

/// A text with the characters between `a` and `b` replaced by `new`.
pub open spec fn spec_replace(text: Seq<char>, a: int, b: int, new: Seq<char>) -> Seq<char> {
    text.subrange(0, a) + new + text.subrange(b, text.len() as int)
}

/// Replace the character range `[a, b)` of a text.
pub fn replace_range_chars(text: &String, a: usize, b: usize, new: &str) -> (r: String)
    requires
        a <= b <= text@.len(),
    ensures
        r@ == spec_replace(text@, a as int, b as int, new@),
{
    let s = text.as_str();
    let n = char_count(s);
    let mut r = String::from_str(s.substring_char(0, a));
    r.append(new);
    r.append(s.substring_char(b, n));
    r
}

/// A selection edge clamped to a text length.
pub open spec fn spec_clamp_pos(p: usize, len: nat) -> int {
    if p <= len {
        p as int
    } else {
        len as int
    }
}

/// The text and caret after inserting `new` over the region `[mn, mx)`.
pub open spec fn spec_insert_result(text: Seq<char>, mn: int, mx: int, new: Seq<char>) -> (
    Seq<char>,
    int,
    int,
) {
    (spec_replace(text, mn, mx, new), mn + new.len(), mn + new.len())
}

/// The text and caret after a backspace: a caret deletes back to the
/// previous grapheme boundary, a selection deletes its region.
pub open spec fn spec_backspace_result(text: Seq<char>, mn: int, mx: int) -> (Seq<char>, int, int) {
    if mn == mx {
        let p = spec_prev_grapheme(text, mx);
        (spec_replace(text, p, mx, Seq::<char>::empty()), p, p)
    } else {
        (spec_replace(text, mn, mx, Seq::<char>::empty()), mn, mn)
    }
}

/// What a key event does to the text and the selection (edges clamped to
/// the text first): the shortcut set of the editor, in match order —
/// copy, paste, select-all, jump to either end, grow the selection by a
/// grapheme, move the caret by a grapheme, backspace, and typed text.
pub open spec fn spec_key_result(text: Seq<char>, sel: Selection, k: KeyEvent, clip: Seq<char>)
    -> (Seq<char>, int, int) {
    let len = text.len() as int;
    let start = spec_clamp_pos(sel.start, text.len());
    let end = spec_clamp_pos(sel.end, text.len());
    let mn = if start <= end {
        start
    } else {
        end
    };
    let mx = if start >= end {
        start
    } else {
        end
    };
    if k.mods.cmd && !k.mods.shift && k.code == KeyCode::KeyC {
        (text, start, end)
    } else if k.mods.cmd && !k.mods.shift && k.code == KeyCode::KeyV {
        spec_insert_result(text, mn, mx, clip)
    } else if k.mods.cmd && !k.mods.shift && k.code == KeyCode::KeyA {
        (text, 0, len)
    } else if k.mods.cmd && !k.mods.shift && k.code == KeyCode::ArrowLeft {
        (text, 0, 0)
    } else if k.mods.cmd && !k.mods.shift && k.code == KeyCode::ArrowRight {
        (text, len, len)
    } else if k.mods.shift && !k.mods.cmd && k.code == KeyCode::ArrowLeft {
        (text, start, spec_prev_grapheme(text, end))
    } else if k.mods.shift && !k.mods.cmd && k.code == KeyCode::ArrowRight {
        (text, start, spec_next_grapheme(text, end))
    } else if !k.mods.cmd && !k.mods.shift && k.code == KeyCode::ArrowLeft {
        if start == end {
            let p = spec_prev_grapheme(text, end);
            (text, p, p)
        } else {
            (text, mn, mn)
        }
    } else if !k.mods.cmd && !k.mods.shift && k.code == KeyCode::ArrowRight {
        if start == end {
            let p = spec_next_grapheme(text, end);
            (text, p, p)
        } else {
            (text, mx, mx)
        }
    } else if !k.mods.cmd && !k.mods.shift && k.code == KeyCode::Backspace {
        spec_backspace_result(text, mn, mx)
    } else if k.spec_is_printable() {
        spec_insert_result(text, mn, mx, k.text@)
    } else {
        (text, start, end)
    }
}

/// What a key event leaves on the clipboard: the selected region after a
/// copy shortcut, the previous contents otherwise.
pub open spec fn spec_key_clip(text: Seq<char>, sel: Selection, k: KeyEvent, clip: Seq<char>)
    -> Seq<char> {
    let start = spec_clamp_pos(sel.start, text.len());
    let end = spec_clamp_pos(sel.end, text.len());
    let mn = if start <= end {
        start
    } else {
        end
    };
    let mx = if start >= end {
        start
    } else {
        end
    };
    if k.mods.cmd && !k.mods.shift && k.code == KeyCode::KeyC {
        text.subrange(mn, mx)
    } else {
        clip
    }
}

/// Whether a key event restarts the cursor blink: the editing and caret
/// motions do, the selection-only shortcuts do not.
pub open spec fn spec_key_resets_blink(k: KeyEvent) -> bool {
    if k.mods.cmd && !k.mods.shift && k.code == KeyCode::KeyC {
        false
    } else if k.mods.cmd && !k.mods.shift && k.code == KeyCode::KeyV {
        true
    } else if k.mods.cmd && !k.mods.shift && k.code == KeyCode::KeyA {
        false
    } else if k.mods.cmd && !k.mods.shift && k.code == KeyCode::ArrowLeft {
        true
    } else if k.mods.cmd && !k.mods.shift && k.code == KeyCode::ArrowRight {
        true
    } else if k.mods.shift && !k.mods.cmd && k.code == KeyCode::ArrowLeft {
        false
    } else if k.mods.shift && !k.mods.cmd && k.code == KeyCode::ArrowRight {
        false
    } else if !k.mods.cmd && !k.mods.shift && k.code == KeyCode::ArrowLeft {
        true
    } else if !k.mods.cmd && !k.mods.shift && k.code == KeyCode::ArrowRight {
        true
    } else if !k.mods.cmd && !k.mods.shift && k.code == KeyCode::Backspace {
        true
    } else if k.spec_is_printable() {
        true
    } else {
        false
    }
}

/// The horizontal scroll offset that keeps the caret visible: zero when
/// the text fits, pushed right when the caret left the right edge, pulled
/// back when the caret left the left edge, else unchanged.
pub open spec fn spec_hscroll(off0: int, w: int, cursor_x: int, total: int) -> int {
    let padding = 2 * PADDING_LEFT;
    if total < w {
        0
    } else if cursor_x > w + off0 - padding {
        cursor_x - w + padding
    } else if cursor_x < off0 {
        cursor_x
    } else {
        off0
    }
}

/// A single-line text editor over a `String`.
#[derive(Debug)]
pub struct TextBox {
    /// The width chosen in the last layout pass.
    pub width: i64,
    /// The horizontal scroll offset keeping the caret visible.
    pub hscroll_offset: i64,
    /// The selection, in character offsets into the edited text.
    pub selection: Selection,
    /// The outstanding cursor-blink timer.
    pub cursor_timer: TimerToken,
    /// Whether the blinking cursor is in its visible phase.
    pub cursor_on: bool,
}

impl TextBox {
    /// A new textbox with a caret at the start.
    pub fn new() -> (tb: TextBox)
        ensures
            tb.width == 0,
            tb.hscroll_offset == 0,
            tb.selection == (Selection { start: 0, end: 0 }),
            tb.cursor_timer.id == 0,
            tb.cursor_on == false,
    {
        TextBox {
            width: 0,
            hscroll_offset: 0,
            selection: Selection { start: 0, end: 0 },
            cursor_timer: TimerToken { id: 0 },
            cursor_on: false,
        }
    }

    /// Collapse the selection to a caret at `to`.
    fn cursor_to(&mut self, to: usize)
        ensures
            *final(self) == (TextBox {
                selection: Selection { start: to, end: to },
                ..*old(self)
            }),
    {
        self.selection = Selection { start: to, end: to };
    }

    /// The caret position: the active edge of the selection.
    fn cursor(&self) -> (r: usize)
        ensures
            r == self.selection.end,
    {
        self.selection.end
    }

    /// Replace the selected region (edges clamped to the text) by `new`
    /// and leave a caret after the inserted text.
    fn insert(&mut self, src: &mut String, new: &str)
        ensures
            ({
                let len = old(src)@.len();
                let start = spec_clamp_pos(old(self).selection.start, len);
                let end = spec_clamp_pos(old(self).selection.end, len);
                let mn = if start <= end {
                    start
                } else {
                    end
                };
                let mx = if start >= end {
                    start
                } else {
                    end
                };
                &&& final(src)@ == spec_replace(old(src)@, mn, mx, new@)
                &&& final(self).selection.start == mn + new@.len()
                &&& final(self).selection.end == mn + new@.len()
            }),
            final(self).width == old(self).width,
            final(self).hscroll_offset == old(self).hscroll_offset,
            final(self).cursor_timer == old(self).cursor_timer,
            final(self).cursor_on == old(self).cursor_on,
    {
        let len = char_count(src.as_str());
        let sel = self.selection.clamped(len);
        let mn = sel.min();
        let mx = sel.max();
        let r = replace_range_chars(src, mn, mx, new);
        let total = char_count(r.as_str());
        let keep_right = len - mx;
        let caret = total - keep_right;
        *src = r;
        self.selection = Selection { start: caret, end: caret };
    }

    /// Delete backwards: a selection deletes its region, a caret deletes
    /// back to the previous grapheme boundary.
    fn backspace(&mut self, src: &mut String)
        ensures
            ({
                let len = old(src)@.len();
                let start = spec_clamp_pos(old(self).selection.start, len);
                let end = spec_clamp_pos(old(self).selection.end, len);
                let mn = if start <= end {
                    start
                } else {
                    end
                };
                let mx = if start >= end {
                    start
                } else {
                    end
                };
                let r = spec_backspace_result(old(src)@, mn, mx);
                &&& final(src)@ == r.0
                &&& final(self).selection.start == r.1
                &&& final(self).selection.end == r.2
                &&& final(self).selection.start <= final(src)@.len()
                &&& final(self).selection.end <= final(src)@.len()
            }),
            final(self).width == old(self).width,
            final(self).hscroll_offset == old(self).hscroll_offset,
            final(self).cursor_timer == old(self).cursor_timer,
            final(self).cursor_on == old(self).cursor_on,
    {
        let len = char_count(src.as_str());
        let sel = self.selection.clamped(len);
        proof {
            reveal_strlit("");
            assert(""@ =~= Seq::<char>::empty());
        }
        if sel.is_caret() {
            let cursor = sel.end;
            let new_cursor = prev_grapheme(src.as_str(), cursor);
            let r = replace_range_chars(src, new_cursor, cursor, "");
            *src = r;
            self.cursor_to(new_cursor);
        } else {
            let mn = sel.min();
            let mx = sel.max();
            let r = replace_range_chars(src, mn, mx, "");
            *src = r;
            self.cursor_to(mn);
        }
    }

    /// Measure the width of a character range of the text, with a fixed
    /// advance per character.
    fn substring_measurement_hack(&self, text: &String, from: usize, to: usize, cw: i64) -> (w:
        i64)
        requires
            from <= to <= text@.len(),
            0 <= cw <= 10000,
        ensures
            w == spec_text_width(text@.subrange(from as int, to as int), cw as int),
            0 <= w <= MAX_DIM,
    {
        text_width(text.as_str().substring_char(from, to), cw)
    }

    /// Recompute the scroll offset so the caret stays visible.
    fn update_hscroll(&mut self, text: &String, cw: i64)
        requires
            0 <= cw <= 10000,
        ensures
            ({
                let len = text@.len();
                let cursor = spec_clamp_pos(old(self).selection.end, len);
                let cursor_x = spec_text_width(text@.subrange(0, cursor), cw as int);
                let total = spec_text_width(text@, cw as int);
                let off0 = crate::geom::spec_clamp(old(self).hscroll_offset as int, 0, MAX_DIM as int);
                let w = crate::geom::spec_clamp(old(self).width as int, 0, MAX_DIM as int);
                final(self).hscroll_offset == spec_hscroll(off0, w, cursor_x, total)
            }),
            0 <= final(self).hscroll_offset <= MAX_DIM + 2 * PADDING_LEFT,
            final(self).width == old(self).width,
            final(self).selection == old(self).selection,
            final(self).cursor_timer == old(self).cursor_timer,
            final(self).cursor_on == old(self).cursor_on,
    {
        let len = char_count(text.as_str());
        let cursor = if self.selection.end <= len {
            self.selection.end
        } else {
            len
        };
        let cursor_x = self.substring_measurement_hack(text, 0, cursor, cw);
        let overall_text_width = text_width(text.as_str(), cw);
        let off0 = crate::geom::clamp_dim(self.hscroll_offset, 0, MAX_DIM);
        let w = crate::geom::clamp_dim(self.width, 0, MAX_DIM);
        let padding = PADDING_LEFT * 2;
        if overall_text_width < w {
            // No offset when the text fits the box.
            self.hscroll_offset = 0;
        } else if cursor_x > w + off0 - padding {
            // The caret passed the right edge: push the offset after it.
            self.hscroll_offset = cursor_x - w + padding;
        } else if cursor_x < off0 {
            // The caret passed the left edge: align the offset with it.
            self.hscroll_offset = cursor_x;
        } else {
            self.hscroll_offset = off0;
        }
    }

    /// Restart the blink phase and the blink timer.
    fn reset_cursor_blink(&mut self, ctx: &mut EventCtx)
        requires
            old(ctx).next_timer_id >= 1,
        ensures
            final(self).cursor_on == true,
            final(self).cursor_timer.id as int == (if old(ctx).next_timer_id < u64::MAX {
                old(ctx).next_timer_id as int
            } else {
                0
            }),
            final(self).width == old(self).width,
            final(self).hscroll_offset == old(self).hscroll_offset,
            final(self).selection == old(self).selection,
            final(ctx).next_timer_id >= old(ctx).next_timer_id,
            final(ctx).next_timer_id >= 1,
            final(ctx).size == old(ctx).size,
            final(ctx).hot == old(ctx).hot,
            final(ctx).active == old(ctx).active,
            final(ctx).focused == old(ctx).focused,
            final(ctx).focus_requested == old(ctx).focus_requested,
            final(ctx).invalidated == old(ctx).invalidated,
            final(ctx).cursor == old(ctx).cursor,
            final(ctx).now_ms == old(ctx).now_ms,
            final(ctx).clipboard == old(ctx).clipboard,
            final(ctx).tooltip_request == old(ctx).tooltip_request,
            final(ctx).modal_dismissed == old(ctx).modal_dismissed,
            old(ctx).timer_requests@.is_prefix_of(final(ctx).timer_requests@),
            old(ctx).next_timer_id < u64::MAX ==> final(ctx).timer_requests@ == old(
                ctx,
            ).timer_requests@.push(
                (
                    old(ctx).next_timer_id,
                    crate::ctx::spec_deadline(old(ctx).now_ms, CURSOR_BLINK_MS) as u64,
                ),
            ),
    {
        self.cursor_on = true;
        let deadline = ctx.deadline_after(CURSOR_BLINK_MS);
        self.cursor_timer = ctx.try_request_timer(deadline);
    }
}

impl Widget<String> for TextBox {
    fn event(&mut self, ctx: &mut EventCtx, event: &Event, data: &mut String, env: &Env) -> (action:
        Option<Action>)
        ensures
            action is None,
            final(self).width == old(self).width,
            event matches Event::KeyDown(k) ==> ({
                let r = spec_key_result(old(data)@, old(self).selection, *k, old(ctx).clipboard@);
                &&& final(data)@ == r.0
                &&& final(self).selection.start == r.1
                &&& final(self).selection.end == r.2
                &&& final(self).selection.start <= final(data)@.len()
                &&& final(self).selection.end <= final(data)@.len()
                &&& final(ctx).clipboard@ == spec_key_clip(
                    old(data)@,
                    old(self).selection,
                    *k,
                    old(ctx).clipboard@,
                )
                &&& final(self).cursor_on == (if spec_key_resets_blink(*k) {
                    true
                } else {
                    old(self).cursor_on
                })
                &&& (spec_key_resets_blink(*k) ==> final(self).cursor_timer.id as int == (if old(
                    ctx,
                ).next_timer_id < u64::MAX {
                    old(ctx).next_timer_id as int
                } else {
                    0
                }))
                &&& (!spec_key_resets_blink(*k) ==> final(self).cursor_timer == old(
                    self,
                ).cursor_timer)
                &&& (spec_key_resets_blink(*k) && old(ctx).next_timer_id < u64::MAX
                    ==> final(ctx).timer_requests@ == old(ctx).timer_requests@.push(
                    (
                        old(ctx).next_timer_id,
                        crate::ctx::spec_deadline(old(ctx).now_ms, CURSOR_BLINK_MS) as u64,
                    ),
                ))
                &&& final(ctx).invalidated
            }),
            !(event matches Event::KeyDown(_)) ==> *final(data) == *old(data),
            event matches Event::MouseDown(_) ==> ({
                &&& final(ctx).focus_requested
                &&& final(ctx).invalidated
                &&& final(self).selection == (Selection {
                    start: old(self).selection.end,
                    end: old(self).selection.end,
                })
                &&& final(self).cursor_on == true
                &&& final(self).cursor_timer.id as int == (if old(ctx).next_timer_id < u64::MAX {
                    old(ctx).next_timer_id as int
                } else {
                    0
                })
                &&& (old(ctx).next_timer_id < u64::MAX
                    ==> final(ctx).timer_requests@ == old(ctx).timer_requests@.push(
                    (
                        old(ctx).next_timer_id,
                        crate::ctx::spec_deadline(old(ctx).now_ms, CURSOR_BLINK_MS) as u64,
                    ),
                ))
            }),
            event matches Event::MouseMove(_) ==> ({
                &&& *final(self) == *old(self)
                &&& *final(ctx) == (EventCtx { cursor: CursorStyle::IBeam, ..*old(ctx) })
            }),
            event matches Event::Timer(id) ==> (if id.id == old(self).cursor_timer.id {
                &&& final(self).cursor_on == !old(self).cursor_on
                &&& final(self).selection == old(self).selection
                &&& final(self).hscroll_offset == old(self).hscroll_offset
                &&& final(self).cursor_timer.id as int == (if old(ctx).next_timer_id < u64::MAX {
                    old(ctx).next_timer_id as int
                } else {
                    0
                })
                &&& final(ctx).invalidated
            } else {
                &&& *final(self) == *old(self)
                &&& *final(ctx) == *old(ctx)
            }),
            (event matches Event::MouseUp(_) || event matches Event::Wheel(_)
                || event matches Event::KeyUp(_) || event matches Event::HotChanged(_)
                || event matches Event::AnimFrame(_)) ==> ({
                &&& *final(self) == *old(self)
                &&& *final(ctx) == *old(ctx)
            }),
    {
        match event {
            Event::MouseDown(_) => {
                ctx.request_focus();
                let end = self.selection.end;
                self.cursor_to(end);
                ctx.invalidate();
                self.reset_cursor_blink(ctx);
                None
            },
            Event::MouseMove(_) => {
                ctx.set_cursor(CursorStyle::IBeam);
                None
            },
            Event::Timer(id) => {
                if id.id == self.cursor_timer.id {
                    self.cursor_on = !self.cursor_on;
                    ctx.invalidate();
                    let deadline = ctx.deadline_after(CURSOR_BLINK_MS);
                    self.cursor_timer = ctx.try_request_timer(deadline);
                }
                None
            },
            Event::KeyDown(k) => {
                // The stored selection is clamped to the text before any
                // arm runs, so it stays within bounds whatever it held.
                let len0 = char_count(data.as_str());
                let sel0 = self.selection.clamped(len0);
                self.selection = sel0;
                let cmd = k.mods.cmd;
                let shift = k.mods.shift;
                if cmd && !shift && k.code == KeyCode::KeyC {
                    // Copy: put the selected region on the clipboard.
                    let len = char_count(data.as_str());
                    let sel = self.selection.clamped(len);
                    let sub = data.as_str().substring_char(sel.min(), sel.max()).to_owned();
                    ctx.set_clipboard(sub);
                } else if cmd && !shift && k.code == KeyCode::KeyV {
                    // Paste the clipboard over the selection.
                    let clip = ctx.get_clipboard();
                    self.insert(data, clip.as_str());
                    self.reset_cursor_blink(ctx);
                } else if cmd && !shift && k.code == KeyCode::KeyA {
                    // Select all.
                    let len = char_count(data.as_str());
                    self.selection = Selection { start: 0, end: len };
                } else if cmd && !shift && k.code == KeyCode::ArrowLeft {
                    self.cursor_to(0);
                    self.reset_cursor_blink(ctx);
                } else if cmd && !shift && k.code == KeyCode::ArrowRight {
                    let len = char_count(data.as_str());
                    self.cursor_to(len);
                    self.reset_cursor_blink(ctx);
                } else if shift && !cmd && k.code == KeyCode::ArrowLeft {
                    // Grow the selection left by one grapheme.
                    let len = char_count(data.as_str());
                    let sel = self.selection.clamped(len);
                    let p = prev_grapheme(data.as_str(), sel.end);
                    self.selection = Selection { start: sel.start, end: p };
                } else if shift && !cmd && k.code == KeyCode::ArrowRight {
                    // Grow the selection right by one grapheme.
                    let len = char_count(data.as_str());
                    let sel = self.selection.clamped(len);
                    let p = next_grapheme(data.as_str(), sel.end);
                    self.selection = Selection { start: sel.start, end: p };
                } else if !cmd && !shift && k.code == KeyCode::ArrowLeft {
                    let len = char_count(data.as_str());
                    let sel = self.selection.clamped(len);
                    if sel.is_caret() {
                        let p = prev_grapheme(data.as_str(), sel.end);
                        self.cursor_to(p);
                    } else {
                        let mn = sel.min();
                        self.cursor_to(mn);
                    }
                    self.reset_cursor_blink(ctx);
                } else if !cmd && !shift && k.code == KeyCode::ArrowRight {
                    let len = char_count(data.as_str());
                    let sel = self.selection.clamped(len);
                    if sel.is_caret() {
                        let p = next_grapheme(data.as_str(), sel.end);
                        self.cursor_to(p);
                    } else {
                        let mx = sel.max();
                        self.cursor_to(mx);
                    }
                    self.reset_cursor_blink(ctx);
                } else if !cmd && !shift && k.code == KeyCode::Backspace {
                    self.backspace(data);
                    self.reset_cursor_blink(ctx);
                } else if k.is_printable() {
                    // Typed text replaces the selection.
                    self.insert(data, k.text.as_str());
                    self.reset_cursor_blink(ctx);
                }
                self.update_hscroll(data, env.get_len(Key::CharWidth));
                ctx.invalidate();
                None
            },
            _ => None,
        }
    }

    /// The chosen width is the available width, or a fixed default when
    /// the horizontal axis is unbounded; the height is the theme's tall
    /// widget height; the result is that size constrained.
    fn layout(&mut self, bc: &BoxConstraints, data: &String, env: &Env) -> (size: Size)
        ensures
            final(self).hscroll_offset == old(self).hscroll_offset,
            final(self).selection == old(self).selection,
            final(self).width == if bc.max.width == MAX_DIM {
                100
            } else {
                bc.max.width as int
            },
            size == bc.spec_constrain(
                Size {
                    width: (if bc.max.width == MAX_DIM {
                        100int
                    } else {
                        bc.max.width as int
                    }) as i64,
                    height: env.len_of(Key::TallerThings) as i64,
                },
            ),
    {
        let default_width: i64 = 100;
        let taller = env.get_len(Key::TallerThings);
        let w: i64 = if !bc.is_width_bounded() {
            default_width
        } else {
            bc.max().width
        };
        self.width = w;
        bc.constrain(Size { width: w, height: taller })
    }

    /// Paints the box background, then the selection, the edited text and
    /// the cursor inside a scrolled clip scope, and finally the border
    /// whose color shows the focus; the text run drawn inside the clip is
    /// exactly the edited text.
    fn paint(&mut self, ctx: &mut PaintCtx, base: &BaseState, data: &String, env: &Env)
        ensures
            final(ctx).cmds@.len() >= old(ctx).cmds@.len() + 2,
            final(ctx).cmds@[old(ctx).cmds@.len() as int] matches DrawCmd::FillRect {
                rect,
                radius,
                brush,
            } && radius == 2 && brush == Brush::Solid(env.color_of(Key::BackgroundLight)),
            final(ctx).cmds@.last() matches DrawCmd::StrokeRect { rect, radius, width, brush }
                && brush == Brush::Solid(
                if base.focus {
                    env.color_of(Key::PrimaryLight)
                } else {
                    env.color_of(Key::Border)
                },
            ),
            ({
                let len = data@.len();
                let s = spec_clamp_pos(old(self).selection.start, len);
                let e = spec_clamp_pos(old(self).selection.end, len);
                let idx = old(ctx).cmds@.len() as int + (if s == e {
                    4int
                } else {
                    5
                });
                final(ctx).cmds@[idx] matches DrawCmd::Text { text, pos, size, color } && text@
                    == data@ && size == env.len_of(Key::TextSizeNormal) as i64 && color
                    == env.color_of(Key::LabelColor)
            }),
    {
        let ghost c0 = ctx.cmds@;
        let has_focus = base.has_focus();
        let font_size = env.get_len(Key::TextSizeNormal);
        let cw = env.get_len(Key::CharWidth);
        let taller = env.get_len(Key::TallerThings);

        let border_color = if has_focus {
            env.get_color(Key::PrimaryLight)
        } else {
            env.get_color(Key::Border)
        };

        let w = crate::geom::clamp_dim(self.width, 0, MAX_DIM);
        let off = crate::geom::clamp_dim(self.hscroll_offset, 0, MAX_DIM);
        let inner_w = crate::geom::max_dim(w - BORDER_WIDTH, 0);
        let clip_rect = Rect {
            origin: Point { x: 0, y: 0 },
            size: Size { width: inner_w, height: taller },
        };

        // Paint the background.
        ctx.fill_rounded_rect(clip_rect, 2, Brush::Solid(env.get_color(Key::BackgroundLight)));

        // Render text, selection and cursor inside a clip, shifted left by
        // the scroll offset.
        ctx.save();
        ctx.clip(clip_rect, 2);
        ctx.transform(Vec2 { x: -off, y: 0 });

        let len = char_count(data.as_str());
        let sel = self.selection.clamped(len);

        if !sel.is_caret() {
            let left = sel.min();
            let right = sel.max();
            let selection_width = self.substring_measurement_hack(data, left, right, cw);
            let left_x = self.substring_measurement_hack(data, 0, left, cw);
            let selection_pos = Point { x: left_x + PADDING_LEFT - 1, y: PADDING_TOP - 2 };
            let selection_rect = Rect {
                origin: selection_pos,
                size: Size { width: selection_width + 2, height: font_size + 4 },
            };
            ctx.fill_rounded_rect(selection_rect, 1, Brush::Solid(env.get_color(Key::SelectionColor)));
        }

        // Draw the text itself.
        let text_height = font_size * 8 / 10;
        let text_pos = Point { x: PADDING_LEFT, y: text_height + PADDING_TOP };
        ctx.draw_text(data.clone(), text_pos, font_size, env.get_color(Key::LabelColor));

        // Paint the cursor when focused and not selecting.
        if has_focus && self.cursor_on && sel.is_caret() {
            let cursor_x = self.substring_measurement_hack(data, 0, sel.end, cw);
            let xy = Point { x: text_pos.x + cursor_x, y: text_pos.y + 2 - font_size };
            let x2y2 = Point { x: xy.x, y: xy.y + font_size + 2 };
            ctx.line(xy, x2y2, 1, Brush::Solid(env.get_color(Key::CursorColor)));
        }
        ctx.restore();

        // Paint the border.
        let ghost c2 = ctx.cmds@;
        ctx.stroke_rounded_rect(clip_rect, 2, BORDER_WIDTH, Brush::Solid(border_color));
        proof {
            assert(ctx.cmds@[c0.len() as int] == c2[c0.len() as int]);
        }
    }

    fn update(&mut self, ctx: &mut UpdateCtx, old_data: Option<&String>, data: &String, env: &Env) {
        ctx.invalidate();
    }
}

} // verus!
