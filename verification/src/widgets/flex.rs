//! Flex containers: a row or column that gives every fixed child its
//! intrinsic size first, then shares the remaining main-axis space among
//! the flexible children in proportion to their flex weight, and stacks
//! the children consecutively. Children are positioned by the parent.

use vstd::prelude::*;

use crate::constraints::BoxConstraints;
use crate::ctx::{BaseState, EventCtx, UpdateCtx};
use crate::data::Data;
use crate::env::Env;
use crate::event::{Action, Event};
use crate::geom::{clamp_dim, max_dim, min_dim, Point, Rect, Size, MAX_DIM};
use crate::paint::{lemma_prefix_trans, PaintCtx};
use crate::pod::WidgetPod;
use crate::widget::Widget;

verus! {

/// The direction a flex container stacks its children in.
#[derive(Clone, Copy, PartialEq, Eq, Structural, Debug)]
pub enum Axis {
    Horizontal,
    Vertical,
}

/// The main-axis extent of a size.
pub open spec fn spec_main(axis: Axis, s: Size) -> int {
    match axis {
        Axis::Horizontal => s.width as int,
        Axis::Vertical => s.height as int,
    }
}

/// The position of child `i`: the saturating sum of the main-axis extents
/// of the children before it.
pub open spec fn stacked_pos<T, W>(
    axis: Axis,
    cs: Seq<(WidgetPod<T, W>, u64)>,
    i: int,
) -> int
    decreases i,
{
    if i <= 0 {
        0
    } else {
        let prev = stacked_pos(axis, cs, i - 1) + spec_main(
            axis,
            cs[i - 1].0.layout_rect.size,
        );
        if prev <= MAX_DIM as int {
            prev
        } else {
            MAX_DIM as int
        }
    }
}

/// The stacking position only depends on the children before `i`.
proof fn lemma_stacked_pos_prefix<T, W>(
    axis: Axis,
    cs1: Seq<(WidgetPod<T, W>, u64)>,
    cs2: Seq<(WidgetPod<T, W>, u64)>,
    i: int,
)
    requires
        0 <= i <= cs1.len(),
        i <= cs2.len(),
        forall|j: int| 0 <= j < i ==> cs1[j] == cs2[j],
    ensures
        stacked_pos(axis, cs1, i) == stacked_pos(axis, cs2, i),
    decreases i,
{
    if i > 0 {
        lemma_stacked_pos_prefix(axis, cs1, cs2, i - 1);
    }
}

/// A row or column of children with per-child flex weights; weight zero
/// means fixed (intrinsic) size.
pub struct Flex<T, W> {
    pub axis: Axis,
    pub children: Vec<(WidgetPod<T, W>, u64)>,
}

impl<T: Data, W: Widget<T>> Flex<T, W> {
    /// A horizontal container.
    pub fn row() -> (f: Flex<T, W>)
        ensures
            f.axis == Axis::Horizontal,
            f.children@.len() == 0,
    {
        Flex { axis: Axis::Horizontal, children: Vec::new() }
    }

    /// A vertical container.
    pub fn column() -> (f: Flex<T, W>)
        ensures
            f.axis == Axis::Vertical,
            f.children@.len() == 0,
    {
        Flex { axis: Axis::Vertical, children: Vec::new() }
    }

    /// Append a child with a flex weight; weight zero keeps it at its
    /// intrinsic size.
    pub fn add_child(&mut self, child: W, flex: u64)
        ensures
            final(self).children@.len() == old(self).children@.len() + 1,
            final(self).axis == old(self).axis,
    {
        self.children.push((WidgetPod::new(child), flex));
    }

    /// The main-axis extent of a size.
    fn main_of(&self, s: Size) -> (m: i64)
        ensures
            m == spec_main(self.axis, s),
    {
        match self.axis {
            Axis::Horizontal => s.width,
            Axis::Vertical => s.height,
        }
    }

    /// A size from main- and cross-axis extents.
    fn pack(&self, main: i64, cross: i64) -> (s: Size)
        ensures
            spec_main(self.axis, s) == main,
            self.axis == Axis::Horizontal ==> s == (Size { width: main, height: cross }),
            self.axis == Axis::Vertical ==> s == (Size { width: cross, height: main }),
    {
        match self.axis {
            Axis::Horizontal => Size { width: main, height: cross },
            Axis::Vertical => Size { width: cross, height: main },
        }
    }
}

impl<T: Data, W: Widget<T>> Widget<T> for Flex<T, W> {
    fn event(&mut self, ctx: &mut EventCtx, event: &Event, data: &mut T, env: &Env) -> (action:
        Option<Action>) {
        let mut action: Option<Action> = None;
        let mut i: usize = 0;
        while i < self.children.len()
            invariant
                old(ctx).wf(),
                event.wf(),
                ctx.wf(),
                ctx.size == old(ctx).size,
                ctx.hot == old(ctx).hot,
                ctx.active == old(ctx).active,
                ctx.focused == old(ctx).focused,
                ctx.now_ms == old(ctx).now_ms,
                ctx.next_timer_id >= old(ctx).next_timer_id,
                old(ctx).invalidated ==> ctx.invalidated,
                old(ctx).focus_requested ==> ctx.focus_requested,
                old(ctx).tooltip_request is Some ==> ctx.tooltip_request == old(ctx).tooltip_request,
                old(ctx).modal_dismissed ==> ctx.modal_dismissed,
                old(ctx).timer_requests@.is_prefix_of(ctx.timer_requests@),
            decreases self.children.len() - i,
        {
            let (mut pod, flex) = self.children.remove(i);
            let a = pod.event(ctx, event, data, env);
            self.children.insert(i, (pod, flex));
            if action.is_none() {
                action = a;
            }
            i = i + 1;
        }
        action
    }

    /// Two-phase layout: the fixed children first, under loose main-axis
    /// constraints; then the flexible children, each given its
    /// proportional share of what is left; finally every child is stacked
    /// consecutively along the main axis, each exactly after the one
    /// before it.
    fn layout(&mut self, bc: &BoxConstraints, data: &T, env: &Env) -> (size: Size)
        ensures
            final(self).axis == old(self).axis,
            final(self).children@.len() == old(self).children@.len(),
            forall|i: int|
                0 <= i < final(self).children@.len()
                    ==> #[trigger] spec_main(
                    final(self).axis,
                    Size {
                        width: final(self).children@[i].0.layout_rect.origin.x as i64,
                        height: final(self).children@[i].0.layout_rect.origin.y as i64,
                    },
                ) == stacked_pos(final(self).axis, final(self).children@, i),
    {
        let cross_max = match self.axis {
            Axis::Horizontal => bc.max().height,
            Axis::Vertical => bc.max().width,
        };
        let main_max = match self.axis {
            Axis::Horizontal => bc.max().width,
            Axis::Vertical => bc.max().height,
        };
        let main_bounded = main_max < MAX_DIM;
        let ghost axis0 = self.axis;
        let ghost n0 = self.children@.len();

        // Phase one: fixed children take their intrinsic size under loose
        // constraints; their main-axis total is reserved.
        let loose_min = Size { width: 0, height: 0 };
        let child_bc = BoxConstraints { min: loose_min, max: self.pack(MAX_DIM, cross_max) };
        let mut used: i64 = 0;
        let mut total_flex: u64 = 0;
        let mut i: usize = 0;
        while i < self.children.len()
            invariant
                bc.wf(),
                child_bc.wf(),
                0 <= used <= MAX_DIM,
                self.axis == axis0,
                self.children@.len() == n0,
            decreases self.children.len() - i,
        {
            let (mut pod, flex) = self.children.remove(i);
            if flex == 0 {
                let sz = pod.layout(&child_bc, data, env);
                pod.set_layout_rect(Rect { origin: Point { x: 0, y: 0 }, size: sz });
                let m = self.main_of(sz);
                used = min_dim(used + m, MAX_DIM);
            } else {
                let capped = if flex > 1000 {
                    1000u64
                } else {
                    flex
                };
                total_flex = if total_flex <= u64::MAX - capped {
                    total_flex + capped
                } else {
                    total_flex
                };
            }
            self.children.insert(i, (pod, flex));
            i = i + 1;
        }

        // Phase two: the flexible children share what remains of the main
        // axis, in proportion to their weights.
        let remaining: i64 = if main_bounded {
            max_dim(main_max - used, 0)
        } else {
            0
        };
        let mut i: usize = 0;
        while i < self.children.len()
            invariant
                bc.wf(),
                child_bc.wf(),
                0 <= remaining <= MAX_DIM,
                0 <= cross_max <= MAX_DIM,
                self.axis == axis0,
                self.children@.len() == n0,
            decreases self.children.len() - i,
        {
            let (mut pod, flex) = self.children.remove(i);
            if flex > 0 {
                let capped: i64 = if flex > 1000 {
                    1000
                } else {
                    flex as i64
                };
                let total: i64 = if total_flex > 1000000 {
                    1000000
                } else {
                    total_flex as i64
                };
                let share: i64 = if total > 0 {
                    proof {
                        assert(0 <= remaining * capped <= remaining * 1000) by (nonlinear_arith)
                            requires
                                0 <= remaining,
                                0 < capped <= 1000,
                        ;
                        assert(0 <= remaining as int * capped as int / (total as int)
                            <= remaining as int * 1000) by (nonlinear_arith)
                            requires
                                0 <= remaining as int * capped as int <= remaining as int * 1000,
                                total as int > 0,
                        ;
                    }
                    min_dim(remaining * capped / total, MAX_DIM)
                } else {
                    0
                };
                let flex_bc = BoxConstraints {
                    min: self.pack(share, 0),
                    max: self.pack(share, cross_max),
                };
                let sz = pod.layout(&flex_bc, data, env);
                pod.set_layout_rect(Rect { origin: Point { x: 0, y: 0 }, size: sz });
            }
            self.children.insert(i, (pod, flex));
            i = i + 1;
        }

        // Phase three: stack everyone consecutively along the main axis.
        let mut pos: i64 = 0;
        let mut cross_used: i64 = 0;
        let mut i: usize = 0;
        proof {
            assert(stacked_pos(self.axis, self.children@, 0) == 0);
        }
        while i < self.children.len()
            invariant
                bc.wf(),
                child_bc.wf(),
                0 <= pos <= MAX_DIM,
                0 <= cross_used <= MAX_DIM,
                i <= self.children@.len(),
                self.axis == axis0,
                self.children@.len() == n0,
                pos == stacked_pos(self.axis, self.children@, i as int),
                forall|j: int|
                    0 <= j < i ==> #[trigger] spec_main(
                        self.axis,
                        Size {
                            width: self.children@[j].0.layout_rect.origin.x as i64,
                            height: self.children@[j].0.layout_rect.origin.y as i64,
                        },
                    ) == stacked_pos(self.axis, self.children@, j),
            decreases self.children.len() - i,
        {
            let ghost before = self.children@;
            let (mut pod, flex) = self.children.remove(i);
            let sz = pod.layout_rect().size.clamped();
            let origin = match self.axis {
                Axis::Horizontal => Point { x: pos, y: 0 },
                Axis::Vertical => Point { x: 0, y: pos },
            };
            pod.set_layout_rect(Rect { origin, size: sz });
            self.children.insert(i, (pod, flex));
            proof {
                assert(forall|j: int| 0 <= j < i ==> before[j] == self.children@[j]);
                lemma_stacked_pos_prefix(self.axis, before, self.children@, i as int);
                assert forall|j: int| 0 <= j < i implies #[trigger] spec_main(
                    self.axis,
                    Size {
                        width: self.children@[j].0.layout_rect.origin.x as i64,
                        height: self.children@[j].0.layout_rect.origin.y as i64,
                    },
                ) == stacked_pos(self.axis, self.children@, j) by {
                    lemma_stacked_pos_prefix(self.axis, before, self.children@, j);
                }
                assert(stacked_pos(self.axis, self.children@, i as int + 1) == (if stacked_pos(
                    self.axis,
                    self.children@,
                    i as int,
                ) + spec_main(self.axis, sz) <= MAX_DIM as int {
                    stacked_pos(self.axis, self.children@, i as int) + spec_main(self.axis, sz)
                } else {
                    MAX_DIM as int
                }));
            }
            let m = self.main_of(sz);
            pos = min_dim(pos + m, MAX_DIM);
            let c = match self.axis {
                Axis::Horizontal => sz.height,
                Axis::Vertical => sz.width,
            };
            cross_used = max_dim(cross_used, c);
            i = i + 1;
        }
        proof {
            lemma_stacked_pos_prefix(
                self.axis,
                self.children@,
                final(self).children@,
                self.children@.len() as int,
            );
        }
        bc.constrain(self.pack(pos, cross_used))
    }

    fn paint(&mut self, ctx: &mut PaintCtx, base: &BaseState, data: &T, env: &Env) {
        let ghost c0 = ctx.cmds@;
        let mut i: usize = 0;
        while i < self.children.len()
            invariant
                ctx.saves@ == old(ctx).saves@,
                ctx.saves@ >= 0,
                c0.is_prefix_of(ctx.cmds@),
            decreases self.children.len() - i,
        {
            let ghost mid = ctx.cmds@;
            let (mut pod, flex) = self.children.remove(i);
            pod.paint_with_offset(ctx, data, env);
            self.children.insert(i, (pod, flex));
            proof {
                lemma_prefix_trans(c0, mid, ctx.cmds@);
            }
            i = i + 1;
        }
    }

    fn update(&mut self, ctx: &mut UpdateCtx, old_data: Option<&T>, data: &T, env: &Env) {
        let mut i: usize = 0;
        while i < self.children.len()
            invariant
                old(ctx).invalidated ==> ctx.invalidated,
            decreases self.children.len() - i,
        {
            let (mut pod, flex) = self.children.remove(i);
            pod.update(ctx, old_data, data, env);
            self.children.insert(i, (pod, flex));
            i = i + 1;
        }
    }
}

} // verus!
