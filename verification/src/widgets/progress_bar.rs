//! A progress bar widget: a read-only display of a normalized value.

use vstd::prelude::*;

use crate::constraints::BoxConstraints;
use crate::ctx::{BaseState, EventCtx, UpdateCtx};
use crate::env::Env;
use crate::event::{Action, Event};
use crate::geom::{clamp_dim, spec_clamp, Point, Rect, Size, UNIT_MAX};
use crate::paint::{Brush, Color, DrawCmd, PaintCtx};
use crate::widget::Widget;

verus! {

pub const PRIMARY_LIGHT: u32 = 0x5c_c4_ff_ff;

pub const PRIMARY_DARK: u32 = 0x00_8d_dd_ff;

pub const BACKGROUND_GREY_LIGHT: u32 = 0x3a_3a_3a_ff;

pub const BACKGROUND_GREY_DARK: u32 = 0x31_31_31_ff;

/// The fixed height of the bar.
pub const HEIGHT: i64 = 18;

/// The width of the filled part of the bar: the value (clamped into the
/// unit range) as a fraction of the full width.
pub open spec fn spec_bar_width(value: int, width: int) -> int {
    spec_clamp(value, 0, UNIT_MAX as int) * width / (UNIT_MAX as int)
}

/// Displays a normalized value (0 to [`UNIT_MAX`]) as a filled fraction of
/// a horizontal bar.
#[derive(Clone, Copy, PartialEq, Eq, Structural, Debug, Default)]
pub struct ProgressBar;

impl Widget<i64> for ProgressBar {
    fn event(&mut self, ctx: &mut EventCtx, event: &Event, data: &mut i64, env: &Env) -> (action:
        Option<Action>)
        ensures
            *final(data) == *old(data),
            *final(ctx) == *old(ctx),
            action is None,
    {
        None
    }

    fn layout(&mut self, bc: &BoxConstraints, data: &i64, env: &Env) -> (size: Size)
        ensures
            size == bc.max,
    {
        bc.constrain(bc.max())
    }

    /// Paints the track outline, the track fill, and the filled fraction
    /// of the bar; the filled width is exactly the clamped value's share
    /// of the full width.
    fn paint(&mut self, ctx: &mut PaintCtx, base: &BaseState, data: &i64, env: &Env)
        ensures
            final(ctx).cmds@.len() == old(ctx).cmds@.len() + 3,
            old(ctx).cmds@.is_prefix_of(final(ctx).cmds@),
            final(ctx).saves == old(ctx).saves,
            final(ctx).cmds@.last() matches DrawCmd::FillRect { rect, radius, brush }
                && rect.size.width == spec_bar_width(*data as int, base.size.width as int)
                && rect.size.height == HEIGHT && radius == 4,
    {
        let clamped = clamp_dim(*data, 0, UNIT_MAX);
        let y = base.size().height / 2 - HEIGHT / 2;
        let track = Rect {
            origin: Point { x: 0, y },
            size: Size { width: base.size().width, height: HEIGHT },
        };

        // Paint the track.
        let track_gradient = Brush::Gradient {
            top: Color { rgba: BACKGROUND_GREY_LIGHT },
            bottom: Color { rgba: BACKGROUND_GREY_DARK },
        };
        ctx.stroke_rounded_rect(track, 4, 2, Brush::Solid(Color { rgba: BACKGROUND_GREY_LIGHT }));
        ctx.fill_rounded_rect(track, 4, track_gradient);

        // Paint the filled fraction.
        proof {
            assert(0 <= spec_clamp(*data as int, 0, UNIT_MAX as int) * (base.size.width as int) <= (
            UNIT_MAX as int) * (base.size.width as int)) by (nonlinear_arith)
                requires
                    0 <= spec_clamp(*data as int, 0, UNIT_MAX as int) <= UNIT_MAX as int,
                    base.size.width >= 0,
            ;
        }
        let bar_width = clamped * base.size().width / UNIT_MAX;
        let bar = Rect {
            origin: Point { x: 0, y },
            size: Size { width: bar_width, height: HEIGHT },
        };
        let bar_gradient = Brush::Gradient {
            top: Color { rgba: PRIMARY_LIGHT },
            bottom: Color { rgba: PRIMARY_DARK },
        };
        ctx.fill_rounded_rect(bar, 4, bar_gradient);
    }

    fn update(&mut self, ctx: &mut UpdateCtx, old_data: Option<&i64>, data: &i64, env: &Env) {
        ctx.invalidate();
    }
}

} // verus!
