//! A widget that surrounds its child with empty space.

use vstd::prelude::*;

use crate::constraints::BoxConstraints;
use crate::ctx::{BaseState, EventCtx, LifeCycleCtx, UpdateCtx};
use crate::data::Data;
use crate::env::Env;
use crate::event::{Action, Event, LifeCycle};
use crate::geom::{clamp_dim, max_dim, Point, Rect, Size, MAX_DIM};
use crate::paint::PaintCtx;
use crate::pod::WidgetPod;
use crate::widget::Widget;

verus! {

/// Insets a child by fixed amounts on each side.
pub struct Padding<T, W> {
    pub left: i64,
    pub right: i64,
    pub top: i64,
    pub bottom: i64,
    pub child: WidgetPod<T, W>,
}

impl<T: Data, W: Widget<T>> Padding<T, W> {
    pub fn new(left: i64, right: i64, top: i64, bottom: i64, child: W) -> (p: Padding<T, W>)
        ensures
            p.left == left,
            p.right == right,
            p.top == top,
            p.bottom == bottom,
            p.child.child == child,
    {
        Padding { left, right, top, bottom, child: WidgetPod::new(child) }
    }

    /// The same inset on every side.
    pub fn uniform(padding: i64, child: W) -> (p: Padding<T, W>)
        ensures
            p.left == padding,
            p.right == padding,
            p.top == padding,
            p.bottom == padding,
            p.child.child == child,
    {
        Padding { left: padding, right: padding, top: padding, bottom: padding, child: WidgetPod::new(child) }
    }
}

impl<T: Data, W: Widget<T>> Widget<T> for Padding<T, W> {
    fn event(&mut self, ctx: &mut EventCtx, event: &Event, data: &mut T, env: &Env) -> (action:
        Option<Action>) {
        self.child.event(ctx, event, data, env)
    }

    fn layout(&mut self, bc: &BoxConstraints, data: &T, env: &Env) -> (size: Size) {
        let l = clamp_dim(self.left, 0, 10000);
        let r = clamp_dim(self.right, 0, 10000);
        let t = clamp_dim(self.top, 0, 10000);
        let b = clamp_dim(self.bottom, 0, 10000);
        let hpad = l + r;
        let vpad = t + b;
        let child_bc = BoxConstraints {
            min: Size {
                width: max_dim(bc.min().width - hpad, 0),
                height: max_dim(bc.min().height - vpad, 0),
            },
            max: Size {
                width: if bc.is_width_bounded() {
                    max_dim(bc.max().width - hpad, 0)
                } else {
                    MAX_DIM
                },
                height: if bc.is_height_bounded() {
                    max_dim(bc.max().height - vpad, 0)
                } else {
                    MAX_DIM
                },
            },
        };
        let child_size = self.child.layout(&child_bc, data, env);
        self.child.set_layout_rect(
            Rect { origin: Point { x: l, y: t }, size: child_size },
        );
        bc.constrain(
            Size { width: child_size.width + hpad, height: child_size.height + vpad },
        )
    }

    fn paint(&mut self, ctx: &mut PaintCtx, base: &BaseState, data: &T, env: &Env) {
        self.child.paint_with_offset(ctx, data, env);
    }

    fn update(&mut self, ctx: &mut UpdateCtx, old_data: Option<&T>, data: &T, env: &Env) {
        self.child.update(ctx, old_data, data, env);
    }

    fn lifecycle(&mut self, ctx: &mut LifeCycleCtx, event: &LifeCycle, data: &T, env: &Env) {
        self.child.lifecycle(ctx, event, data, env);
    }
}

} // verus!
