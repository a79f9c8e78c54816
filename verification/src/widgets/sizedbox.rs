//! A box with a fixed size on one, both, or neither axis.

use vstd::prelude::*;

use crate::constraints::BoxConstraints;
use crate::ctx::{BaseState, EventCtx, LifeCycleCtx, UpdateCtx};
use crate::data::Data;
use crate::env::Env;
use crate::event::{Action, Event, LifeCycle};
use crate::geom::{clamp_dim, Point, Rect, Size, MAX_DIM};
use crate::paint::PaintCtx;
use crate::pod::WidgetPod;
use crate::widget::Widget;

verus! {

/// Forces its child to a given width and/or height; an absent dimension
/// leaves the child's constraint alone on that axis.
pub struct SizedBox<T, W> {
    pub width: Option<i64>,
    pub height: Option<i64>,
    pub child: WidgetPod<T, W>,
}

impl<T: Data, W: Widget<T>> SizedBox<T, W> {
    pub fn new(width: Option<i64>, height: Option<i64>, child: W) -> (s: SizedBox<T, W>)
        ensures
            s.width == width,
            s.height == height,
            s.child.child == child,
    {
        SizedBox { width, height, child: WidgetPod::new(child) }
    }
}

impl<T: Data, W: Widget<T>> Widget<T> for SizedBox<T, W> {
    fn event(&mut self, ctx: &mut EventCtx, event: &Event, data: &mut T, env: &Env) -> (action:
        Option<Action>) {
        self.child.event(ctx, event, data, env)
    }

    /// With both axes fixed, the child is forced to exactly the requested
    /// size (clamped into the constraints), and that is what the box
    /// reports.
    fn layout(&mut self, bc: &BoxConstraints, data: &T, env: &Env) -> (size: Size)
        ensures
            old(self).width matches Some(w) ==> (old(self).height matches Some(h) ==> size
                == bc.spec_constrain(
                (BoxConstraints {
                    min: Size { width: 0, height: 0 },
                    max: bc.max,
                }).spec_constrain(
                    Size {
                        width: crate::geom::spec_clamp(w as int, 0, MAX_DIM as int) as i64,
                        height: crate::geom::spec_clamp(h as int, 0, MAX_DIM as int) as i64,
                    },
                ),
            )),
    {
        let size: Size = match (self.width, self.height) {
            (None, None) => self.child.layout(bc, data, env),
            (Some(width), Some(height)) => {
                // A fully fixed box: hand the child a tight constraint.
                let wanted = Size {
                    width: clamp_dim(width, 0, MAX_DIM),
                    height: clamp_dim(height, 0, MAX_DIM),
                };
                let loose_bc = bc.loosen();
                let new_bc = BoxConstraints::tight(loose_bc.constrain(wanted));
                self.child.layout(&new_bc, data, env)
            },
            (None, Some(height)) => {
                let h = clamp_dim(height, 0, MAX_DIM);
                let new_bc = BoxConstraints {
                    min: bc.constrain(Size { width: bc.min().width, height: h }),
                    max: bc.constrain(Size { width: bc.max().width, height: h }),
                };
                self.child.layout(&new_bc, data, env)
            },
            (Some(width), None) => {
                let w = clamp_dim(width, 0, MAX_DIM);
                let new_bc = BoxConstraints {
                    min: bc.constrain(Size { width: w, height: bc.min().height }),
                    max: bc.constrain(Size { width: w, height: bc.max().height }),
                };
                self.child.layout(&new_bc, data, env)
            },
        };
        self.child.set_layout_rect(Rect { origin: Point { x: 0, y: 0 }, size });
        bc.constrain(size)
    }

    fn paint(&mut self, ctx: &mut PaintCtx, base: &BaseState, data: &T, env: &Env) {
        self.child.paint_with_offset(ctx, data, env);
    }

    fn update(&mut self, ctx: &mut UpdateCtx, old_data: Option<&T>, data: &T, env: &Env) {
        self.child.update(ctx, old_data, data, env);
    }

    fn lifecycle(&mut self, ctx: &mut LifeCycleCtx, event: &LifeCycle, data: &T, env: &Env) {
        self.child.lifecycle(ctx, event, data, env);
    }
}

} // verus!
