//! A checkbox widget: a togglable boolean.

use vstd::prelude::*;

use crate::constraints::BoxConstraints;
use crate::ctx::{BaseState, EventCtx, UpdateCtx};
use crate::env::{Env, Key};
use crate::event::{Action, Event};
use crate::geom::{Point, Rect, Size, UnitPoint};
use crate::paint::{Brush, DrawCmd, PaintCtx};
use crate::widget::Widget;
use crate::widgets::align::Align;

verus! {

/// The left-aligned checkbox, as applications use it.
#[derive(Clone, Copy, PartialEq, Eq, Structural, Debug)]
pub struct CheckBox;

impl CheckBox {
    /// A checkbox aligned to the left of the space it is given.
    pub fn new() -> (w: Align<bool, CheckBoxRaw>)
        ensures
            w.align.u == 0,
            w.align.v == 500,
    {
        Align::new(UnitPoint::left(), CheckBoxRaw)
    }
}

/// The bare checkbox: a square that toggles its boolean when clicked.
#[derive(Clone, Copy, PartialEq, Eq, Structural, Debug, Default)]
pub struct CheckBoxRaw;

impl Widget<bool> for CheckBoxRaw {
    /// A pointer-down arms the checkbox; a pointer-up over it while armed
    /// toggles the value. Everything else leaves the value alone.
    fn event(&mut self, ctx: &mut EventCtx, event: &Event, data: &mut bool, env: &Env) -> (action:
        Option<Action>)
        ensures
            *final(data) == (if event matches Event::MouseUp(_) && old(ctx).active && old(
                ctx,
            ).hot {
                !*old(data)
            } else {
                *old(data)
            }),
            final(ctx).active == (match *event {
                Event::MouseDown(_) => true,
                Event::MouseUp(_) => false,
                _ => old(ctx).active,
            }),
            action is None,
            event matches Event::MouseDown(_) ==> final(ctx).invalidated,
            event matches Event::MouseUp(_) ==> (old(ctx).active ==> final(ctx).invalidated),
            event matches Event::MouseMove(_) ==> final(ctx).invalidated,
    {
        match event {
            Event::MouseDown(_) => {
                ctx.set_active(true);
                ctx.invalidate();
            },
            Event::MouseUp(_) => {
                if ctx.is_active() {
                    ctx.set_active(false);
                    if ctx.is_hot() {
                        if *data {
                            *data = false;
                        } else {
                            *data = true;
                        }
                    }
                    ctx.invalidate();
                } else {
                    ctx.set_active(false);
                }
            },
            Event::MouseMove(_) => {
                ctx.invalidate();
            },
            _ => {},
        }
        None
    }

    fn layout(&mut self, bc: &BoxConstraints, data: &bool, env: &Env) -> (size: Size)
        ensures
            size == bc.spec_constrain(
                Size { width: env.len_of(Key::HowTallThingsAre) as i64, height: env.len_of(Key::HowTallThingsAre) as i64 },
            ),
    {
        let side = env.get_len(Key::HowTallThingsAre);
        bc.constrain(Size { width: side, height: side })
    }

    /// Paints the box (with a gradient background and a hot-dependent
    /// border) and, when the value is set, the check mark; the check mark
    /// is drawn if and only if the value is true.
    fn paint(&mut self, ctx: &mut PaintCtx, base: &BaseState, data: &bool, env: &Env)
        ensures
            final(ctx).cmds@.len() == old(ctx).cmds@.len() + (if *data {
                3
            } else {
                2int
            }),
            final(ctx).cmds@[old(ctx).cmds@.len() as int] == (DrawCmd::FillRect {
                rect: Rect {
                    origin: Point { x: 0, y: 0 },
                    size: Size {
                        width: env.len_of(Key::HowTallThingsAre) as i64,
                        height: env.len_of(Key::HowTallThingsAre) as i64,
                    },
                },
                radius: 2,
                brush: Brush::Gradient {
                    top: env.color_of(Key::BackgroundLight),
                    bottom: env.color_of(Key::BackgroundDark),
                },
            }),
            final(ctx).cmds@[old(ctx).cmds@.len() as int + 1] matches DrawCmd::StrokeRect {
                rect,
                radius,
                width,
                brush,
            } && brush == Brush::Solid(
                if base.hot {
                    env.color_of(Key::BorderLight)
                } else {
                    env.color_of(Key::Border)
                },
            ),
            *data ==> (final(ctx).cmds@.last() matches DrawCmd::Polyline { points, width, brush }
                && points@.len() == 3 && brush == Brush::Solid(env.color_of(Key::LabelColor))),
    {
        let side = env.get_len(Key::HowTallThingsAre);
        let rect = Rect {
            origin: Point { x: 0, y: 0 },
            size: Size { width: side, height: side },
        };

        // Paint the background.
        let background_gradient = Brush::Gradient {
            top: env.get_color(Key::BackgroundLight),
            bottom: env.get_color(Key::BackgroundDark),
        };
        ctx.fill_rounded_rect(rect, 2, background_gradient);

        let border_color = if base.is_hot() {
            env.get_color(Key::BorderLight)
        } else {
            env.get_color(Key::Border)
        };
        ctx.stroke_rounded_rect(rect, 2, 1, Brush::Solid(border_color));

        if *data {
            // The check mark: a three-point stroke.
            let mut path: Vec<Point> = Vec::new();
            path.push(Point { x: 4, y: 9 });
            path.push(Point { x: 8, y: 13 });
            path.push(Point { x: 14, y: 5 });
            ctx.polyline(path, 2, Brush::Solid(env.get_color(Key::LabelColor)));
        }
    }

    fn update(&mut self, ctx: &mut UpdateCtx, old_data: Option<&bool>, data: &bool, env: &Env) {
        ctx.invalidate();
    }
}

} // verus!
