//! A scrollable column: stacks its children vertically and shifts them by
//! a wheel-controlled scroll offset.

use vstd::prelude::*;

use crate::constraints::BoxConstraints;
use crate::ctx::{BaseState, EventCtx, UpdateCtx};
use crate::data::Data;
use crate::env::Env;
use crate::event::{Action, Event};
use crate::geom::{clamp_dim, spec_clamp, Point, Rect, Size, MAX_DIM};
use crate::paint::{lemma_prefix_trans, PaintCtx};
use crate::pod::WidgetPod;
use crate::widget::Widget;

verus! {

/// The vertical step between the children's origins.
pub const ROW_STEP: i64 = 20;

/// The scroll offset after a wheel turn: moved by the wheel delta and
/// held at or above the top.
pub open spec fn spec_scrolled(scroll: int, dy: int) -> int {
    spec_clamp(
        spec_clamp(scroll, 0, MAX_DIM as int) + spec_clamp(dy, -MAX_DIM as int, MAX_DIM as int),
        0,
        MAX_DIM as int,
    )
}

/// A column of children, shifted by a scroll offset.
pub struct ScrollColumn<T, W> {
    pub children: Vec<WidgetPod<T, W>>,
    pub box_size: Size,
    pub scroll: i64,
}

impl<T: Data, W: Widget<T>> ScrollColumn<T, W> {
    pub fn new() -> (s: ScrollColumn<T, W>)
        ensures
            s.children@.len() == 0,
            s.box_size == (Size { width: 50, height: 50 }),
            s.scroll == 0,
    {
        ScrollColumn { children: Vec::new(), box_size: Size { width: 50, height: 50 }, scroll: 0 }
    }

    /// The column with one more child appended.
    pub fn with_child(self, child: W) -> (s: ScrollColumn<T, W>)
        ensures
            s.children@.len() == self.children@.len() + 1,
            s.box_size == self.box_size,
            s.scroll == self.scroll,
    {
        let mut s = self;
        s.children.push(WidgetPod::new(child));
        s
    }
}

impl<T: Data, W: Widget<T>> Widget<T> for ScrollColumn<T, W> {
    /// A wheel turn moves the scroll offset (never above the top);
    /// everything is then handed to the children through their pods.
    fn event(&mut self, ctx: &mut EventCtx, event: &Event, data: &mut T, env: &Env) -> (action:
        Option<Action>)
        ensures
            event matches Event::Wheel(w) ==> (if w.delta.y != 0 {
                final(self).scroll == spec_scrolled(old(self).scroll as int, w.delta.y as int)
            } else {
                final(self).scroll == old(self).scroll
            }),
            !(event matches Event::Wheel(_)) ==> final(self).scroll == old(self).scroll,
    {
        match event {
            Event::Wheel(w) => {
                if w.delta.y != 0 {
                    let base = clamp_dim(self.scroll, 0, MAX_DIM);
                    let dy = clamp_dim(w.delta.y, -MAX_DIM, MAX_DIM);
                    self.scroll = clamp_dim(base + dy, 0, MAX_DIM);
                    ctx.invalidate();
                }
            },
            _ => {},
        }
        let ghost scroll_set = self.scroll;
        let mut action: Option<Action> = None;
        let mut i: usize = 0;
        while i < self.children.len()
            invariant
                old(ctx).wf(),
                event.wf(),
                ctx.wf(),
                ctx.size == old(ctx).size,
                ctx.hot == old(ctx).hot,
                ctx.active == old(ctx).active,
                ctx.focused == old(ctx).focused,
                ctx.now_ms == old(ctx).now_ms,
                ctx.next_timer_id >= old(ctx).next_timer_id,
                old(ctx).invalidated ==> ctx.invalidated,
                old(ctx).focus_requested ==> ctx.focus_requested,
                old(ctx).tooltip_request is Some ==> ctx.tooltip_request == old(ctx).tooltip_request,
                old(ctx).modal_dismissed ==> ctx.modal_dismissed,
                old(ctx).timer_requests@.is_prefix_of(ctx.timer_requests@),
                self.scroll == scroll_set,
            decreases self.children.len() - i,
        {
            let mut pod = self.children.remove(i);
            let a = pod.event(ctx, event, data, env);
            self.children.insert(i, pod);
            if action.is_none() {
                action = a;
            }
            i = i + 1;
        }
        action
    }

    /// Stacks the children at fixed vertical steps, shifted up by the
    /// scroll offset, inside loose constraints; the column itself takes
    /// its configured box size clamped into the constraints.
    fn layout(&mut self, bc: &BoxConstraints, data: &T, env: &Env) -> (size: Size) {
        let loose = bc.loosen();
        let off = clamp_dim(self.scroll, 0, MAX_DIM);
        let mut y: i64 = 0;
        let mut i: usize = 0;
        while i < self.children.len()
            invariant
                bc.wf(),
                loose.wf(),
                0 <= y <= MAX_DIM,
                0 <= off <= MAX_DIM,
            decreases self.children.len() - i,
        {
            let mut pod = self.children.remove(i);
            let child_size = pod.layout(&loose, data, env);
            pod.set_layout_rect(
                Rect { origin: Point { x: 0, y: y - off }, size: child_size },
            );
            self.children.insert(i, pod);
            if y <= MAX_DIM - ROW_STEP {
                y = y + ROW_STEP;
            }
            i = i + 1;
        }
        let wanted = Size {
            width: clamp_dim(self.box_size.width, 0, MAX_DIM),
            height: clamp_dim(self.box_size.height, 0, MAX_DIM),
        };
        bc.constrain(wanted)
    }

    fn paint(&mut self, ctx: &mut PaintCtx, base: &BaseState, data: &T, env: &Env) {
        let ghost c0 = ctx.cmds@;
        let mut i: usize = 0;
        while i < self.children.len()
            invariant
                ctx.saves@ == old(ctx).saves@,
                ctx.saves@ >= 0,
                c0.is_prefix_of(ctx.cmds@),
            decreases self.children.len() - i,
        {
            let ghost mid = ctx.cmds@;
            let mut pod = self.children.remove(i);
            pod.paint_with_offset(ctx, data, env);
            self.children.insert(i, pod);
            proof {
                lemma_prefix_trans(c0, mid, ctx.cmds@);
            }
            i = i + 1;
        }
    }

    fn update(&mut self, ctx: &mut UpdateCtx, old_data: Option<&T>, data: &T, env: &Env) {
        let mut i: usize = 0;
        while i < self.children.len()
            invariant
                old(ctx).invalidated ==> ctx.invalidated,
            decreases self.children.len() - i,
        {
            let mut pod = self.children.remove(i);
            pod.update(ctx, old_data, data, env);
            self.children.insert(i, pod);
            i = i + 1;
        }
    }
}

} // verus!
