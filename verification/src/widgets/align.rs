//! A widget that aligns its child inside the space it is given.

use vstd::prelude::*;

use crate::constraints::BoxConstraints;
use crate::ctx::{BaseState, EventCtx, LifeCycleCtx, UpdateCtx};
use crate::data::Data;
use crate::env::Env;
use crate::event::{Action, Event, LifeCycle};
use crate::geom::{clamp_dim, max_dim, Point, Rect, Size, UnitPoint};
use crate::paint::PaintCtx;
use crate::pod::WidgetPod;
use crate::widget::Widget;

verus! {

/// Positions its child inside the available space according to a relative
/// alignment point; fills the bounded axes of its constraints.
pub struct Align<T, W> {
    pub align: UnitPoint,
    pub child: WidgetPod<T, W>,
}

impl<T: Data, W: Widget<T>> Align<T, W> {
    pub fn new(align: UnitPoint, child: W) -> (a: Align<T, W>)
        ensures
            a.align == align,
            a.child.child == child,
    {
        Align { align, child: WidgetPod::new(child) }
    }

    /// A child centered on both axes.
    pub fn centered(child: W) -> (a: Align<T, W>)
        ensures
            a.align.u == 500,
            a.align.v == 500,
            a.child.child == child,
    {
        Align { align: UnitPoint::center(), child: WidgetPod::new(child) }
    }
}

impl<T: Data, W: Widget<T>> Widget<T> for Align<T, W> {
    fn event(&mut self, ctx: &mut EventCtx, event: &Event, data: &mut T, env: &Env) -> (action:
        Option<Action>) {
        self.child.event(ctx, event, data, env)
    }

    fn layout(&mut self, bc: &BoxConstraints, data: &T, env: &Env) -> (size: Size) {
        let loose = bc.loosen();
        let child_size = self.child.layout(&loose, data, env);
        let my = bc.constrain(
            Size {
                width: if bc.is_width_bounded() {
                    bc.max().width
                } else {
                    child_size.width
                },
                height: if bc.is_height_bounded() {
                    bc.max().height
                } else {
                    child_size.height
                },
            },
        );
        let extra_w = max_dim(my.width - child_size.width, 0);
        let extra_h = max_dim(my.height - child_size.height, 0);
        let u = clamp_dim(self.align.u, 0, 1000);
        let v = clamp_dim(self.align.v, 0, 1000);
        proof {
            assert(0 <= extra_w * u <= extra_w * 1000) by (nonlinear_arith)
                requires
                    0 <= u <= 1000,
                    0 <= extra_w,
            ;
            assert(0 <= extra_h * v <= extra_h * 1000) by (nonlinear_arith)
                requires
                    0 <= v <= 1000,
                    0 <= extra_h,
            ;
        }
        let ox = extra_w * u / 1000;
        let oy = extra_h * v / 1000;
        proof {
            assert(0 <= extra_w * u / 1000 <= extra_w) by (nonlinear_arith)
                requires
                    0 <= u <= 1000,
                    0 <= extra_w,
            ;
            assert(0 <= extra_h * v / 1000 <= extra_h) by (nonlinear_arith)
                requires
                    0 <= v <= 1000,
                    0 <= extra_h,
            ;
        }
        self.child.set_layout_rect(Rect { origin: Point { x: ox, y: oy }, size: child_size });
        my
    }

    fn paint(&mut self, ctx: &mut PaintCtx, base: &BaseState, data: &T, env: &Env) {
        self.child.paint_with_offset(ctx, data, env);
    }

    fn update(&mut self, ctx: &mut UpdateCtx, old_data: Option<&T>, data: &T, env: &Env) {
        self.child.update(ctx, old_data, data, env);
    }

    fn lifecycle(&mut self, ctx: &mut LifeCycleCtx, event: &LifeCycle, data: &T, env: &Env) {
        self.child.lifecycle(ctx, event, data, env);
    }
}

} // verus!
