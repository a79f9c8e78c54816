//! A textbox over a fixed-point number: displays the value with two
//! decimals, keeps the user's literal keystrokes in a cache while editing,
//! and writes the value back only when the edit logically changed the
//! text and the changed text parses.

use vstd::prelude::*;

use crate::constraints::BoxConstraints;
use crate::ctx::{BaseState, EventCtx, UpdateCtx};
use crate::env::Env;
use crate::event::{Action, Event};
use crate::geom::{clamp_dim, spec_clamp, Size};
use crate::data::Data;
use crate::numfmt::{format_centi, parse_centi, spec_format_centi, spec_parse_centi};
use crate::paint::{DrawCmd, PaintCtx};
use crate::widget::Widget;
use crate::widgets::textbox::{spec_clamp_pos, spec_key_result, TextBox};

verus! {

/// The largest magnitude (in hundredths) the box will display.
pub const CENTI_LIMIT: i64 = 100_000_000_000_000_000;

/// The text shown for a value: the value clamped into the displayable
/// range, formatted with two decimals.
pub open spec fn spec_shown_text(v: int) -> Seq<char> {
    spec_format_centi(spec_clamp(v, -CENTI_LIMIT as int, CENTI_LIMIT as int))
}

/// A single-line editor over a number of hundredths.
pub struct NumericTextBox {
    pub child: TextBox,
    /// The user's literal text while the box is focused.
    pub cache: String,
}

impl NumericTextBox {
    /// A fresh box: empty cache, and a child textbox with the caret at
    /// the start, no pending cursor timer, and the blink phase off.
    pub fn new() -> (n: NumericTextBox)
        ensures
            n.cache@.len() == 0,
            n.child.selection.start == 0,
            n.child.selection.end == 0,
            n.child.cursor_timer.id == 0,
            n.child.cursor_on == false,
            n.child.width == 0,
            n.child.hscroll_offset == 0,
    {
        NumericTextBox { child: TextBox::new(), cache: String::new() }
    }
}

impl Widget<i64> for NumericTextBox {
    /// The child edits the cache (when focused) or the formatted value.
    /// Afterwards the cache holds the edited text; the stored value is
    /// written back only when the edit logically changed the text — and
    /// then only when the changed text parses. A no-op edit, an event
    /// that edits nothing, or an unparsable edit all leave the value
    /// untouched bit for bit, while the cache keeps the keystrokes.
    fn event(&mut self, ctx: &mut EventCtx, event: &Event, data: &mut i64, env: &Env) -> (action:
        Option<Action>)
        ensures
            ({
                let start_text = if old(ctx).focused {
                    old(self).cache@
                } else {
                    spec_shown_text(*old(data) as int)
                };
                let after: Seq<char> = match *event {
                    Event::KeyDown(k) => spec_key_result(
                        start_text,
                        old(self).child.selection,
                        k,
                        old(ctx).clipboard@,
                    ).0,
                    _ => start_text,
                };
                &&& final(self).cache@ == after
                &&& if after == start_text {
                    *final(data) == *old(data)
                } else {
                    match spec_parse_centi(after) {
                        Some(v) => *final(data) == v,
                        None => *final(data) == *old(data),
                    }
                }
            }),
    {
        let mut child_text: String = if ctx.has_focus() {
            self.cache.clone()
        } else {
            let shown = clamp_dim(*data, -CENTI_LIMIT, CENTI_LIMIT);
            format_centi(shown)
        };
        let before_text = child_text.clone();

        let action = self.child.event(ctx, event, &mut child_text, env);

        self.cache = child_text.clone();

        // Write back only when the edit logically changed the text, per
        // the snapshot protocol; a no-op write-back never fires.
        if !child_text.same(&before_text) {
            match parse_centi(child_text.as_str()) {
                Some(v) => {
                    *data = v;
                },
                None => {},
            }
        }
        action
    }

    fn layout(&mut self, bc: &BoxConstraints, data: &i64, env: &Env) -> (size: Size) {
        let shown = clamp_dim(*data, -CENTI_LIMIT, CENTI_LIMIT);
        let text = format_centi(shown);
        self.child.layout(bc, &text, env)
    }

    /// While focused the cache (the user's literal text) is shown, else
    /// the formatted value; the text run drawn inside the clip is exactly
    /// that text.
    fn paint(&mut self, ctx: &mut PaintCtx, base: &BaseState, data: &i64, env: &Env)
        ensures
            ({
                let shown = if base.focus {
                    old(self).cache@
                } else {
                    spec_shown_text(*data as int)
                };
                let s = spec_clamp_pos(old(self).child.selection.start, shown.len());
                let e = spec_clamp_pos(old(self).child.selection.end, shown.len());
                let idx = old(ctx).cmds@.len() as int + (if s == e {
                    4int
                } else {
                    5
                });
                final(ctx).cmds@[idx] matches DrawCmd::Text { text, pos, size, color } && text@
                    == shown
            }),
    {
        if base.has_focus() {
            self.child.paint(ctx, base, &self.cache, env);
        } else {
            let shown = clamp_dim(*data, -CENTI_LIMIT, CENTI_LIMIT);
            let text = format_centi(shown);
            self.child.paint(ctx, base, &text, env);
        }
    }

    fn update(&mut self, ctx: &mut UpdateCtx, old_data: Option<&i64>, data: &i64, env: &Env) {
        let shown = clamp_dim(*data, -CENTI_LIMIT, CENTI_LIMIT);
        let text = format_centi(shown);
        match old_data {
            Some(old_v) => {
                let old_shown = clamp_dim(*old_v, -CENTI_LIMIT, CENTI_LIMIT);
                let old_text = format_centi(old_shown);
                self.child.update(ctx, Some(&old_text), &text, env);
            },
            None => {
                self.child.update(ctx, None, &text, env);
            },
        }
    }
}

} // verus!
