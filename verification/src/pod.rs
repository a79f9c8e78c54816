//! The pod: one-to-one ownership of a child widget together with its
//! layout rectangle and interaction flags.
//!
//! Every call into the child goes through the pod, which translates
//! coordinates, keeps the hot / active / focus flags up to date before the
//! child sees the event, and restores the parts of the shared context that
//! belong to the ancestors.

use core::marker::PhantomData;

use vstd::prelude::*;

use crate::constraints::BoxConstraints;
use crate::ctx::{BaseState, EventCtx, LifeCycleCtx, UpdateCtx};
use crate::data::Data;
use crate::env::Env;
use crate::event::{Action, Event, LifeCycle, MouseEvent};
use crate::geom::{clamp_dim, spec_clamp, Point, Rect, Size, Vec2, MAX_DIM};
use crate::paint::{DrawCmd, PaintCtx};
use crate::widget::Widget;

verus! {

/// A mouse event moved into a child's coordinate space: the local position
/// is translated by the child's origin (and kept inside the coordinate
/// range), the window position stays.
pub open spec fn spec_translate_mouse(m: MouseEvent, origin: Point) -> MouseEvent {
    MouseEvent {
        pos: Point {
            x: spec_clamp(m.pos.x - origin.x, -MAX_DIM as int, MAX_DIM as int) as i64,
            y: spec_clamp(m.pos.y - origin.y, -MAX_DIM as int, MAX_DIM as int) as i64,
        },
        window_pos: m.window_pos,
    }
}

/// Translate a mouse event into a child's coordinate space.
pub fn translate_mouse(m: &MouseEvent, origin: Point) -> (r: MouseEvent)
    requires
        m.wf(),
        origin.wf(),
    ensures
        r == spec_translate_mouse(*m, origin),
        r.wf(),
{
    MouseEvent {
        pos: Point {
            x: clamp_dim(m.pos.x - origin.x, -MAX_DIM, MAX_DIM),
            y: clamp_dim(m.pos.y - origin.y, -MAX_DIM, MAX_DIM),
        },
        window_pos: m.window_pos,
    }
}

/// The wrapper that owns one child widget plus its derived bookkeeping.
pub struct WidgetPod<T, W> {
    pub child: W,
    /// The rectangle assigned by the parent in the last layout pass.
    pub layout_rect: Rect,
    /// Whether the pointer is over the child.
    pub hot: bool,
    /// Whether the child is engaged via pointer-down (capture).
    pub active: bool,
    /// Whether the child owns keyboard focus.
    pub focus: bool,
    pub phantom: PhantomData<T>,
}

impl<T: Data, W: Widget<T>> WidgetPod<T, W> {
    pub fn new(child: W) -> (pod: WidgetPod<T, W>)
        ensures
            pod.child == child,
            pod.layout_rect == (Rect {
                origin: Point { x: 0, y: 0 },
                size: Size { width: 0, height: 0 },
            }),
            pod.hot == false,
            pod.active == false,
            pod.focus == false,
    {
        WidgetPod {
            child,
            layout_rect: Rect {
                origin: Point { x: 0, y: 0 },
                size: Size { width: 0, height: 0 },
            },
            hot: false,
            active: false,
            focus: false,
            phantom: PhantomData,
        }
    }

    /// Parent-only: store the rectangle the child was assigned. Must be
    /// called once per layout pass before the pass paints or dispatches.
    pub fn set_layout_rect(&mut self, rect: Rect)
        requires
            rect.wf(),
        ensures
            final(self).layout_rect == rect,
            final(self).child == old(self).child,
            final(self).hot == old(self).hot,
            final(self).active == old(self).active,
            final(self).focus == old(self).focus,
    {
        self.layout_rect = rect;
    }

    pub fn layout_rect(&self) -> (r: Rect)
        ensures
            r == self.layout_rect,
    {
        self.layout_rect
    }

    /// Recurse into the child's layout; the child's chosen size satisfies
    /// the constraints. The pod's own bookkeeping is untouched.
    pub fn layout(&mut self, bc: &BoxConstraints, data: &T, env: &Env) -> (size: Size)
        requires
            bc.wf(),
        ensures
            bc.sat(size),
            size.wf(),
            final(self).layout_rect == old(self).layout_rect,
            final(self).hot == old(self).hot,
            final(self).active == old(self).active,
            final(self).focus == old(self).focus,
    {
        self.child.layout(bc, data, env)
    }

    /// Paint the child inside a scoped translation to its layout origin.
    /// The scope is provably closed again: the display list grows by a
    /// `Save`, the translation, the child's output, and a final `Restore`,
    /// and the count of open scopes is unchanged.
    pub fn paint_with_offset(&mut self, ctx: &mut PaintCtx, data: &T, env: &Env)
        requires
            old(ctx).saves@ >= 0,
        ensures
            old(ctx).cmds@.is_prefix_of(final(ctx).cmds@),
            final(ctx).saves@ == old(ctx).saves@,
            final(ctx).cmds@.len() >= old(ctx).cmds@.len() + 3,
            final(ctx).cmds@[old(ctx).cmds@.len() as int] == DrawCmd::Save,
            final(ctx).cmds@[old(ctx).cmds@.len() as int + 1] == (DrawCmd::Transform {
                offset: Vec2 {
                    x: old(self).layout_rect.spec_clamped().origin.x,
                    y: old(self).layout_rect.spec_clamped().origin.y,
                },
            }),
            final(ctx).cmds@.last() == DrawCmd::Restore,
            final(self).layout_rect == old(self).layout_rect,
            final(self).hot == old(self).hot,
            final(self).active == old(self).active,
            final(self).focus == old(self).focus,
    {
        let ghost a = ctx.cmds@;
        let rect = self.layout_rect.clamped();
        ctx.save();
        ctx.transform(Vec2 { x: rect.origin.x, y: rect.origin.y });
        let ghost c2 = ctx.cmds@;
        let base = BaseState { size: rect.size, hot: self.hot, active: self.active, focus: self.focus };
        self.child.paint(ctx, &base, data, env);
        let ghost c3 = ctx.cmds@;
        ctx.restore();
        proof {
            let fin = ctx.cmds@;
            assert(c2 =~= c3.subrange(0, c2.len() as int));
            assert forall|i: int| 0 <= i < a.len() implies fin[i] == a[i] by {
                assert(c3[i] == c2[i]);
            }
            assert(a =~= fin.subrange(0, a.len() as int));
            assert(fin[a.len() as int] == c3[a.len() as int]);
            assert(c3[a.len() as int] == c2[a.len() as int]);
            assert(fin[a.len() as int + 1] == c2[a.len() as int + 1]);
        }
    }

    /// The hot flag after an event: a pointer event re-runs the hit test
    /// against the cached rectangle, anything else leaves the flag alone.
    pub open spec fn spec_hot_after(self, ev: Event) -> bool {
        match ev {
            Event::MouseDown(m) => self.layout_rect.spec_clamped().spec_contains(m.pos),
            Event::MouseUp(m) => self.layout_rect.spec_clamped().spec_contains(m.pos),
            Event::MouseMove(m) => self.layout_rect.spec_clamped().spec_contains(m.pos),
            _ => self.hot,
        }
    }

    /// Whether the child sees the event at all: a pointer-down only when
    /// hit, pointer-up and move also while captured (`active`), a wheel
    /// only while hot, keyboard input only while focused, everything else
    /// always.
    pub open spec fn spec_recurses(self, ev: Event) -> bool {
        match ev {
            Event::MouseDown(m) => self.layout_rect.spec_clamped().spec_contains(m.pos),
            Event::MouseUp(m) => self.active || self.layout_rect.spec_clamped().spec_contains(
                m.pos,
            ),
            Event::MouseMove(m) => self.active || self.layout_rect.spec_clamped().spec_contains(
                m.pos,
            ),
            Event::Wheel(_) => self.hot,
            Event::KeyDown(_) => self.focus,
            Event::KeyUp(_) => self.focus,
            _ => true,
        }
    }

    /// Dispatch an event through the pod: update the hot flag (announcing
    /// a change to the child), translate pointer coordinates, expose the
    /// pod's flags in the context while the child runs, capture the
    /// child's active and focus requests, and restore the ancestors' view
    /// of the context afterwards.
    ///
    /// When neither the hit test nor capture lets the event through and
    /// the hot flag did not change, nothing happens at all: the data, the
    /// pod and the context keep their values.
    pub fn event(&mut self, ctx: &mut EventCtx, event: &Event, data: &mut T, env: &Env) -> (action:
        Option<Action>)
        requires
            old(ctx).wf(),
            event.wf(),
        ensures
            final(ctx).wf(),
            final(ctx).size == old(ctx).size,
            final(ctx).hot == old(ctx).hot,
            final(ctx).active == old(ctx).active,
            final(ctx).focused == old(ctx).focused,
            final(ctx).now_ms == old(ctx).now_ms,
            final(ctx).next_timer_id >= old(ctx).next_timer_id,
            old(ctx).invalidated ==> final(ctx).invalidated,
            old(ctx).focus_requested ==> final(ctx).focus_requested,
            old(ctx).tooltip_request is Some ==> final(ctx).tooltip_request == old(ctx).tooltip_request,
            old(ctx).modal_dismissed ==> final(ctx).modal_dismissed,
            old(ctx).timer_requests@.is_prefix_of(final(ctx).timer_requests@),
            final(self).layout_rect == old(self).layout_rect,
            final(self).hot == old(self).spec_hot_after(*event),
            !old(self).spec_recurses(*event) && old(self).spec_hot_after(*event) == old(
                self,
            ).hot ==> {
                &&& *final(data) == *old(data)
                &&& *final(self) == *old(self)
                &&& *final(ctx) == *old(ctx)
                &&& action is None
            },
    {
        let was_hot = self.hot;
        let rect = self.layout_rect.clamped();
        let now_hot = match event {
            Event::MouseDown(m) => rect.contains(m.pos),
            Event::MouseUp(m) => rect.contains(m.pos),
            Event::MouseMove(m) => rect.contains(m.pos),
            _ => self.hot,
        };
        let recurse = match event {
            Event::MouseDown(m) => now_hot,
            Event::MouseUp(m) => self.active || now_hot,
            Event::MouseMove(m) => self.active || now_hot,
            Event::Wheel(_) => self.hot,
            Event::KeyDown(_) => self.focus,
            Event::KeyUp(_) => self.focus,
            _ => true,
        };
        if !recurse && now_hot == was_hot {
            return None;
        }
        self.hot = now_hot;

        // Expose the pod's state while the child runs.
        let parent_size = ctx.size;
        let parent_hot = ctx.hot;
        let parent_active = ctx.active;
        let parent_focused = ctx.focused;
        let focus_already_requested = ctx.focus_requested;
        ctx.size = rect.size;
        ctx.hot = self.hot;
        ctx.active = self.active;
        ctx.focused = self.focus;

        // Announce a hot change before the event itself, so the child
        // observes up-to-date interaction state.
        if now_hot != was_hot {
            let hot_ev = Event::HotChanged(now_hot);
            let _ = self.child.event(ctx, &hot_ev, data, env);
        }

        let mut action: Option<Action> = None;
        if recurse {
            match event {
                Event::MouseDown(m) => {
                    let child_ev = Event::MouseDown(translate_mouse(m, rect.origin));
                    action = self.child.event(ctx, &child_ev, data, env);
                },
                Event::MouseUp(m) => {
                    let child_ev = Event::MouseUp(translate_mouse(m, rect.origin));
                    action = self.child.event(ctx, &child_ev, data, env);
                },
                Event::MouseMove(m) => {
                    let child_ev = Event::MouseMove(translate_mouse(m, rect.origin));
                    action = self.child.event(ctx, &child_ev, data, env);
                },
                _ => {
                    action = self.child.event(ctx, event, data, env);
                },
            }
        }

        // Capture what the child decided, then restore the ancestors' view.
        self.active = ctx.active;
        if ctx.focus_requested && !focus_already_requested {
            self.focus = true;
        }
        ctx.size = parent_size;
        ctx.hot = parent_hot;
        ctx.active = parent_active;
        ctx.focused = parent_focused;
        action
    }

    /// Recurse into the child's update.
    pub fn update(&mut self, ctx: &mut UpdateCtx, old_data: Option<&T>, data: &T, env: &Env)
        ensures
            old(ctx).invalidated ==> final(ctx).invalidated,
            final(self).layout_rect == old(self).layout_rect,
            final(self).hot == old(self).hot,
            final(self).active == old(self).active,
            final(self).focus == old(self).focus,
    {
        self.child.update(ctx, old_data, data, env);
    }

    /// Recurse into the child's lifecycle.
    pub fn lifecycle(&mut self, ctx: &mut LifeCycleCtx, event: &LifeCycle, data: &T, env: &Env)
        ensures
            final(self).layout_rect == old(self).layout_rect,
            final(self).hot == old(self).hot,
            final(self).active == old(self).active,
            final(self).focus == old(self).focus,
    {
        self.child.lifecycle(ctx, event, data, env);
    }
}

} // verus!
