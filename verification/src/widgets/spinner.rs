//! An animated spinner: twelve spokes fading around a circle.

use vstd::prelude::*;

use crate::constraints::BoxConstraints;
use crate::ctx::{BaseState, EventCtx, LifeCycleCtx, UpdateCtx};
use crate::data::Data;
use crate::env::{Env, Key};
use crate::event::{Action, Event, LifeCycle};
use crate::geom::{min_dim, Point, Size};
use crate::paint::{lemma_prefix_push, Brush, Color, PaintCtx};
use crate::widget::Widget;

verus! {

/// One animation period, in nanoseconds.
pub const SPIN_PERIOD_NS: u64 = 1_000_000_000;

/// The direction of spoke `step` (out of twelve), in per-mille of the
/// unit circle: the cosine and sine of minus one-twelfth turn per step.
pub fn spoke_dir(step: u64) -> (d: (i64, i64))
    ensures
        -1000 <= d.0 <= 1000,
        -1000 <= d.1 <= 1000,
{
    match step {
        1 => (866, -500),
        2 => (500, -866),
        3 => (0, -1000),
        4 => (-500, -866),
        5 => (-866, -500),
        6 => (-1000, 0),
        7 => (-866, 500),
        8 => (-500, 866),
        9 => (0, 1000),
        10 => (500, 866),
        11 => (866, 500),
        _ => (1000, 0),
    }
}

/// The twelve-spoke loading spinner.
pub struct Spinner {
    /// Position within the animation period, in nanoseconds.
    pub t: u64,
    /// An explicit spoke color; absent means the theme's label color.
    pub color: Option<Color>,
}

impl Spinner {
    pub fn new() -> (s: Spinner)
        ensures
            s.t == 0,
            s.color is None,
    {
        Spinner { t: 0, color: None }
    }

    /// The spinner with an explicit spoke color.
    pub fn with_color(self, color: Color) -> (s: Spinner)
        ensures
            s.t == self.t,
            s.color == Some(color),
    {
        Spinner { t: self.t, color: Some(color) }
    }

    /// Change the spoke color.
    pub fn set_color(&mut self, color: Color)
        ensures
            final(self).t == old(self).t,
            final(self).color == Some(color),
    {
        self.color = Some(color);
    }
}

impl<T: Data> Widget<T> for Spinner {
    fn event(&mut self, ctx: &mut EventCtx, event: &Event, data: &mut T, env: &Env) -> (action:
        Option<Action>)
        ensures
            action is None,
            *final(data) == *old(data),
            *final(ctx) == *old(ctx),
    {
        None
    }

    /// Being added starts the animation; each frame advances the phase by
    /// the elapsed time (saturating), wrapping to zero at the period, and
    /// asks for the next frame.
    fn lifecycle(&mut self, ctx: &mut LifeCycleCtx, event: &LifeCycle, data: &T, env: &Env)
        ensures
            final(self).color == old(self).color,
            event matches LifeCycle::WidgetAdded ==> (final(ctx).anim_requested && final(self).t
                == old(self).t),
            event matches LifeCycle::AnimFrame(iv) ==> ({
                let stepped = if old(self).t + *iv <= u64::MAX {
                    old(self).t + *iv
                } else {
                    u64::MAX as int
                };
                &&& final(ctx).anim_requested
                &&& final(self).t == (if stepped >= SPIN_PERIOD_NS {
                    0int
                } else {
                    stepped
                })
            }),
    {
        match event {
            LifeCycle::WidgetAdded => {
                ctx.request_anim_frame();
            },
            LifeCycle::AnimFrame(interval) => {
                let stepped: u64 = if self.t <= u64::MAX - *interval {
                    self.t + *interval
                } else {
                    u64::MAX
                };
                self.t = if stepped >= SPIN_PERIOD_NS {
                    0
                } else {
                    stepped
                };
                ctx.request_anim_frame();
            },
        }
    }

    fn layout(&mut self, bc: &BoxConstraints, data: &T, env: &Env) -> (size: Size)
        ensures
            size == bc.max,
    {
        bc.max()
    }

    /// Paints twelve spokes around the center, each faded by its distance
    /// from the animation phase.
    fn paint(&mut self, ctx: &mut PaintCtx, base: &BaseState, data: &T, env: &Env)
        ensures
            final(self).t == old(self).t,
            final(self).color == old(self).color,
    {
        let t = if self.t < SPIN_PERIOD_NS {
            self.t
        } else {
            0
        };
        let width = base.size().width;
        let height = base.size().height;
        let center = Point { x: width / 2, y: height / 2 };
        let base_color = match self.color {
            Some(c) => c,
            None => env.get_color(Key::LabelColor),
        };
        let scale_factor = min_dim(width, height) / 40;

        let fade_t = t * 12 / SPIN_PERIOD_NS + 1;
        let ghost c0 = ctx.cmds@;
        let mut step: u64 = 1;
        while step <= 12
            invariant
                ctx.saves@ == old(ctx).saves@,
                c0.is_prefix_of(ctx.cmds@),
                0 <= scale_factor <= 25_000_000,
                center.x == base.size.width as int / 2,
                center.y == base.size.height as int / 2,
                -500_000_000 <= center.x <= 500_000_000,
                -500_000_000 <= center.y <= 500_000_000,
                fade_t <= 13,
            decreases 13 - step,
        {
            let fade_milli: u64 = ((fade_t + step) % 12) * 1000 / 12 + 83;
            let dir = spoke_dir(step);
            proof {
                assert(-250_000_000_000 <= 10 * scale_factor * dir.0 <= 250_000_000_000)
                    by (nonlinear_arith)
                    requires
                        0 <= scale_factor <= 25_000_000,
                        -1000 <= dir.0 <= 1000,
                ;
                assert(-250_000_000_000 <= 10 * scale_factor * dir.1 <= 250_000_000_000)
                    by (nonlinear_arith)
                    requires
                        0 <= scale_factor <= 25_000_000,
                        -1000 <= dir.1 <= 1000,
                ;
                assert(-500_000_000_000 <= 20 * scale_factor * dir.0 <= 500_000_000_000)
                    by (nonlinear_arith)
                    requires
                        0 <= scale_factor <= 25_000_000,
                        -1000 <= dir.0 <= 1000,
                ;
                assert(-500_000_000_000 <= 20 * scale_factor * dir.1 <= 500_000_000_000)
                    by (nonlinear_arith)
                    requires
                        0 <= scale_factor <= 25_000_000,
                        -1000 <= dir.1 <= 1000,
                ;
            }
            let ambit_start = Point {
                x: center.x + 10 * scale_factor * dir.0 / 1000,
                y: center.y + 10 * scale_factor * dir.1 / 1000,
            };
            let ambit_end = Point {
                x: center.x + 20 * scale_factor * dir.0 / 1000,
                y: center.y + 20 * scale_factor * dir.1 / 1000,
            };
            let color = base_color.with_alpha_milli(fade_milli as u32);
            let ghost before = ctx.cmds@;
            ctx.line(ambit_start, ambit_end, 3 * scale_factor, Brush::Solid(color));
            proof {
                lemma_prefix_push(c0, before, ctx.cmds@.last());
            }
            step = step + 1;
        }
    }

    fn update(&mut self, ctx: &mut UpdateCtx, old_data: Option<&T>, data: &T, env: &Env) {
    }
}

} // verus!
