//! A button widget, and the label widgets it builds on.

use core::marker::PhantomData;

use vstd::prelude::*;

use crate::constraints::BoxConstraints;
use crate::ctx::{BaseState, EventCtx, UpdateCtx};
use crate::data::Data;
use crate::env::{Env, Key};
use crate::event::{Action, Event};
use crate::geom::{clamp_dim, Point, Rect, Size, MAX_DIM};
use crate::paint::{Brush, DrawCmd, PaintCtx};
use crate::text::{spec_text_width, text_width};
use crate::widget::Widget;
use crate::widgets::align::Align;
use crate::widgets::padding::Padding;

verus! {

/// A label with static text.
pub struct Label {
    pub text: String,
}

impl Label {
    pub fn new(text: &str) -> (l: Label)
        ensures
            l.text@ == text@,
    {
        Label { text: text.to_owned() }
    }

    /// The measured width of the label's text run.
    fn get_layout(&self, env: &Env) -> (w: i64)
        ensures
            w == spec_text_width(self.text@, env.len_of(Key::CharWidth)),
            0 <= w <= MAX_DIM,
    {
        text_width(self.text.as_str(), env.get_len(Key::CharWidth))
    }
}

impl<T: Data> Widget<T> for Label {
    fn event(&mut self, ctx: &mut EventCtx, event: &Event, data: &mut T, env: &Env) -> (action:
        Option<Action>)
        ensures
            action is None,
            *final(data) == *old(data),
            *final(ctx) == *old(ctx),
    {
        None
    }

    fn layout(&mut self, bc: &BoxConstraints, data: &T, env: &Env) -> (size: Size)
        ensures
            size == bc.spec_constrain(
                Size {
                    width: spec_text_width(old(self).text@, env.len_of(Key::CharWidth)) as i64,
                    height: (env.len_of(Key::TextSizeNormal) * 12 / 10) as i64,
                },
            ),
    {
        let font_size = env.get_len(Key::TextSizeNormal);
        let w = self.get_layout(env);
        // The extra fifth of the font size keeps the text centered in the
        // rectangle it is given.
        bc.constrain(Size { width: w, height: font_size * 12 / 10 })
    }

    /// Fills its rectangle with the selection color and draws the text;
    /// the drawn text is exactly the label's text.
    fn paint(&mut self, ctx: &mut PaintCtx, base: &BaseState, data: &T, env: &Env)
        ensures
            final(ctx).cmds@.len() == old(ctx).cmds@.len() + 2,
            final(ctx).cmds@[old(ctx).cmds@.len() as int] == (DrawCmd::FillRect {
                rect: Rect { origin: Point { x: 0, y: 0 }, size: base.size },
                radius: 0,
                brush: Brush::Solid(env.color_of(Key::SelectionColor)),
            }),
            final(ctx).cmds@.last() matches DrawCmd::Text { text, pos, size, color } && text@
                == old(self).text@ && pos == (Point {
                x: 0,
                y: env.len_of(Key::TextSizeNormal) as i64,
            }) && color == env.color_of(Key::LabelColor),
    {
        let dbg_rect = Rect { origin: Point { x: 0, y: 0 }, size: base.size() };
        ctx.fill_rect(dbg_rect, Brush::Solid(env.get_color(Key::SelectionColor)));
        let font_size = env.get_len(Key::TextSizeNormal);
        ctx.draw_text(
            self.text.clone(),
            Point { x: 0, y: font_size },
            font_size,
            env.get_color(Key::LabelColor),
        );
    }

    fn update(&mut self, ctx: &mut UpdateCtx, old_data: Option<&T>, data: &T, env: &Env) {
    }
}

/// A button with a static label: paints a rounded gradient plate behind
/// its label and bubbles a `"hit"` action on a completed click.
pub struct Button<T, W> {
    pub label: W,
    /// A fixed size, passed tightly to the label during layout.
    pub size: Option<Size>,
    /// Horizontal and vertical padding; when present, the label is given
    /// loose constraints and sizes itself.
    pub padding: Option<(i64, i64)>,
    pub phantom: PhantomData<T>,
}

impl<T: Data> Button<T, Label> {
    /// A button filling the space it is given.
    pub fn new(label: &str) -> (b: Button<T, Label>)
        ensures
            b.label.text@ == label@,
            b.size is None,
            b.padding is None,
    {
        Button { label: Label::new(label), size: None, padding: None, phantom: PhantomData }
    }

    /// A button exactly as large as its label.
    pub fn shrink_to_fit(label: &str) -> (b: Button<T, Label>)
        ensures
            b.label.text@ == label@,
            b.size is None,
            b.padding == Some((0int as i64, 0int as i64)),
    {
        Button {
            label: Label::new(label),
            size: None,
            padding: Some((0, 0)),
            phantom: PhantomData,
        }
    }
}

impl<T: Data> Button<T, Align<T, Label>> {
    /// A button with its label centered.
    pub fn centered(label: &str) -> (b: Button<T, Align<T, Label>>)
        ensures
            b.label.child.child.text@ == label@,
            b.size is None,
            b.padding is None,
    {
        Button {
            label: Align::centered(Label::new(label)),
            size: None,
            padding: None,
            phantom: PhantomData,
        }
    }

    /// A button of a fixed size with a centered label.
    pub fn sized(label: &str, width: i64, height: i64) -> (b: Button<T, Align<T, Label>>)
        ensures
            b.label.child.child.text@ == label@,
            b.size == Some(Size { width, height }),
            b.padding is None,
    {
        Button {
            label: Align::centered(Label::new(label)),
            size: Some(Size { width, height }),
            padding: None,
            phantom: PhantomData,
        }
    }
}

impl<T: Data> Button<T, Padding<T, Label>> {
    /// A button padding its label on each side.
    pub fn padded(label: &str, hpad: i64, vpad: i64) -> (b: Button<T, Padding<T, Label>>)
        ensures
            b.label.child.child.text@ == label@,
            b.size is None,
            b.padding == Some((hpad, vpad)),
    {
        Button {
            label: Padding::uniform(hpad, Label::new(label)),
            size: None,
            padding: Some((hpad, vpad)),
            phantom: PhantomData,
        }
    }
}

impl<T: Data, W: Widget<T>> Widget<T> for Button<T, W> {
    /// A pointer-down arms the button; a pointer-up over it while armed
    /// completes the click and bubbles the `"hit"` action — exactly then.
    /// The data is never touched.
    fn event(&mut self, ctx: &mut EventCtx, event: &Event, data: &mut T, env: &Env) -> (action:
        Option<Action>)
        ensures
            *final(data) == *old(data),
            (action is Some) <==> (event matches Event::MouseUp(_) && old(ctx).active && old(
                ctx,
            ).hot),
            action matches Some(a) ==> a.text@ == "hit"@,
            final(ctx).active == (match *event {
                Event::MouseDown(_) => true,
                Event::MouseUp(_) => false,
                _ => old(ctx).active,
            }),
            event matches Event::MouseDown(_) ==> final(ctx).invalidated,
            event matches Event::MouseUp(_) ==> (old(ctx).active ==> final(ctx).invalidated),
            event matches Event::HotChanged(_) ==> final(ctx).invalidated,
    {
        let mut result: Option<Action> = None;
        match event {
            Event::MouseDown(_) => {
                ctx.set_active(true);
                ctx.invalidate();
            },
            Event::MouseUp(_) => {
                if ctx.is_active() {
                    ctx.set_active(false);
                    ctx.invalidate();
                    if ctx.is_hot() {
                        result = Some(Action::from_str("hit"));
                    }
                } else {
                    ctx.set_active(false);
                }
            },
            Event::HotChanged(_) => {
                ctx.invalidate();
            },
            _ => {},
        }
        result
    }

    fn layout(&mut self, bc: &BoxConstraints, data: &T, env: &Env) -> (size: Size) {
        if let Some(button_size) = self.size {
            // Pass an exact size down to the label.
            let wanted = Size {
                width: clamp_dim(button_size.width, 0, MAX_DIM),
                height: clamp_dim(button_size.height, 0, MAX_DIM),
            };
            let tight_bc = BoxConstraints::tight(bc.constrain(wanted));
            let label_size = self.label.layout(&tight_bc, data, env);
            bc.constrain(label_size)
        } else if self.padding.is_some() {
            // Loosening the constraint lets the label pick its own size.
            let loose = bc.loosen();
            let label_size = self.label.layout(&loose, data, env);
            bc.constrain(label_size)
        } else {
            // Otherwise take up as much space as offered.
            let new_bc = if bc.is_width_bounded() {
                BoxConstraints { min: bc.max(), max: bc.max() }
            } else {
                BoxConstraints { min: bc.min(), max: bc.max() }
            };
            let label_size = self.label.layout(&new_bc, data, env);
            bc.constrain(label_size)
        }
    }

    /// Paints the plate (gradient flipped while armed, border lit while
    /// hot), then the label on top.
    fn paint(&mut self, ctx: &mut PaintCtx, base: &BaseState, data: &T, env: &Env)
        ensures
            final(ctx).cmds@.len() >= old(ctx).cmds@.len() + 2,
            final(ctx).cmds@[old(ctx).cmds@.len() as int] == (DrawCmd::StrokeRect {
                rect: Rect { origin: Point { x: 0, y: 0 }, size: base.size },
                radius: 4,
                width: 2,
                brush: Brush::Solid(
                    if base.hot {
                        env.color_of(Key::BorderLight)
                    } else {
                        env.color_of(Key::Border)
                    },
                ),
            }),
            final(ctx).cmds@[old(ctx).cmds@.len() as int + 1] == (DrawCmd::FillRect {
                rect: Rect { origin: Point { x: 0, y: 0 }, size: base.size },
                radius: 4,
                brush: if base.active {
                    Brush::Gradient {
                        top: env.color_of(Key::ButtonLight),
                        bottom: env.color_of(Key::ButtonDark),
                    }
                } else {
                    Brush::Gradient {
                        top: env.color_of(Key::ButtonDark),
                        bottom: env.color_of(Key::ButtonLight),
                    }
                },
            }),
    {
        let ghost c0 = ctx.cmds@;
        let is_active = base.is_active();
        let is_hot = base.is_hot();

        let rounded_rect = Rect { origin: Point { x: 0, y: 0 }, size: base.size() };
        let bg_gradient = if is_active {
            Brush::Gradient {
                top: env.get_color(Key::ButtonLight),
                bottom: env.get_color(Key::ButtonDark),
            }
        } else {
            Brush::Gradient {
                top: env.get_color(Key::ButtonDark),
                bottom: env.get_color(Key::ButtonLight),
            }
        };

        let border_color = if is_hot {
            env.get_color(Key::BorderLight)
        } else {
            env.get_color(Key::Border)
        };

        ctx.stroke_rounded_rect(rounded_rect, 4, 2, Brush::Solid(border_color));
        ctx.fill_rounded_rect(rounded_rect, 4, bg_gradient);

        let ghost c2 = ctx.cmds@;
        self.label.paint(ctx, base, data, env);
        proof {
            assert(c2 =~= ctx.cmds@.subrange(0, c2.len() as int));
            assert(ctx.cmds@[c0.len() as int] == c2[c0.len() as int]);
            assert(ctx.cmds@[c0.len() as int + 1] == c2[c0.len() as int + 1]);
        }
    }

    fn update(&mut self, ctx: &mut UpdateCtx, old_data: Option<&T>, data: &T, env: &Env) {
    }
}

/// A label with dynamic text: the stored closure is called with the data
/// and produces the text to display.
pub struct DynLabel<T, F: Fn(&T, &Env) -> String> {
    label_closure: F,
    phantom: PhantomData<T>,
}

impl<T, F: Fn(&T, &Env) -> String> DynLabel<T, F> {
    /// The closure must accept every data and environment value.
    #[verifier::type_invariant]
    spec fn wf(self) -> bool {
        forall|t: &T, e: &Env| call_requires(self.label_closure, (t, e))
    }

    /// The stored closure, for contracts that tie output to it.
    pub closed spec fn closure(self) -> F {
        self.label_closure
    }

    pub fn new(label_closure: F) -> (l: DynLabel<T, F>)
        requires
            forall|t: &T, e: &Env| call_requires(label_closure, (t, e)),
    {
        DynLabel { label_closure, phantom: PhantomData }
    }

    /// The text the closure produces and its measured width.
    fn get_layout(&self, data: &T, env: &Env) -> (r: (String, i64))
        ensures
            0 <= r.1 <= MAX_DIM,
            r.1 == spec_text_width(r.0@, env.len_of(Key::CharWidth)),
            call_ensures(self.closure(), (data, env), r.0),
    {
        proof {
            use_type_invariant(self);
        }
        let text = (self.label_closure)(data, env);
        let w = text_width(text.as_str(), env.get_len(Key::CharWidth));
        (text, w)
    }
}

impl<T: Data, F: Fn(&T, &Env) -> String> Widget<T> for DynLabel<T, F> {
    fn event(&mut self, ctx: &mut EventCtx, event: &Event, data: &mut T, env: &Env) -> (action:
        Option<Action>)
        ensures
            action is None,
            *final(data) == *old(data),
            *final(ctx) == *old(ctx),
    {
        None
    }

    fn layout(&mut self, bc: &BoxConstraints, data: &T, env: &Env) -> (size: Size) {
        let font_size = env.get_len(Key::TextSizeNormal);
        let r = self.get_layout(data, env);
        bc.constrain(Size { width: r.1, height: font_size * 12 / 10 })
    }

    /// Draws the closure's text: the drawn text is a value the stored
    /// closure can produce for this data and environment.
    fn paint(&mut self, ctx: &mut PaintCtx, base: &BaseState, data: &T, env: &Env)
        ensures
            final(ctx).cmds@.len() == old(ctx).cmds@.len() + 1,
            final(ctx).cmds@.last() matches DrawCmd::Text { text, pos, size, color }
                && call_ensures(old(self).closure(), (data, env), text) && pos == (Point {
                x: 0,
                y: env.len_of(Key::TextSizeNormal) as i64,
            }) && color == env.color_of(Key::LabelColor),
    {
        let font_size = env.get_len(Key::TextSizeNormal);
        let r = self.get_layout(data, env);
        ctx.draw_text(r.0, Point { x: 0, y: font_size }, font_size, env.get_color(Key::LabelColor));
    }

    fn update(&mut self, ctx: &mut UpdateCtx, old_data: Option<&T>, data: &T, env: &Env) {
        ctx.invalidate();
    }
}

} // verus!
