//! A widget for free-form drawing: a closure produces the drawing
//! commands for the current data.

use core::marker::PhantomData;

use vstd::prelude::*;

use crate::constraints::BoxConstraints;
use crate::ctx::{BaseState, EventCtx, UpdateCtx};
use crate::data::Data;
use crate::env::Env;
use crate::event::{Action, Event};
use crate::geom::{Point, Rect, Size};
use crate::paint::{lemma_prefix_push, DrawCmd, PaintCtx};
use crate::pod::WidgetPod;
use crate::widget::Widget;

verus! {

/// Appends a closure's drawing commands inside one scope of its own. The
/// closure hands back plain drawing commands; scope commands (`Save`,
/// `Restore`) in its output are dropped, since the surrounding scope
/// already contains whatever transforms and clips it emits.
fn paint_closure_cmds(ctx: &mut PaintCtx, cmds: Vec<DrawCmd>)
    requires
        old(ctx).saves@ >= 0,
    ensures
        old(ctx).cmds@.is_prefix_of(final(ctx).cmds@),
        final(ctx).saves@ == old(ctx).saves@,
{
    let ghost s0 = ctx.saves@;
    let ghost c0 = ctx.cmds@;
    ctx.save();
    proof {
        assert(c0.is_prefix_of(ctx.cmds@));
    }
    let mut v = cmds;
    while v.len() > 0
        invariant
            ctx.saves@ == s0 + 1,
            c0.is_prefix_of(ctx.cmds@),
        decreases v.len(),
    {
        let c = v.remove(0);
        let ghost before = ctx.cmds@;
        match c {
            DrawCmd::Save => {},
            DrawCmd::Restore => {},
            other => {
                ctx.emit(other);
                proof {
                    lemma_prefix_push(c0, before, ctx.cmds@.last());
                }
            },
        }
    }
    ctx.restore();
    proof {
        assert(c0.is_prefix_of(ctx.cmds@)) by {
            assert(c0 =~= ctx.cmds@.subrange(0, c0.len() as int));
        }
    }
}

/// A widget whose whole appearance is a drawing closure.
pub struct Draw<T, F: Fn(&Env, &T) -> Vec<DrawCmd>> {
    f: F,
    phantom: PhantomData<T>,
}

impl<T, F: Fn(&Env, &T) -> Vec<DrawCmd>> Draw<T, F> {
    /// The closure must accept every environment and data value.
    #[verifier::type_invariant]
    spec fn wf(self) -> bool {
        forall|e: &Env, t: &T| call_requires(self.f, (e, t))
    }

    pub fn new(f: F) -> (d: Draw<T, F>)
        requires
            forall|e: &Env, t: &T| call_requires(f, (e, t)),
    {
        Draw { f, phantom: PhantomData }
    }

    /// A drawing closure painted behind a child widget.
    pub fn new_with_child<W>(child: W, f: F) -> (d: DrawWithChild<T, F, W>)
        where
            T: Data,
            W: Widget<T>,

        requires
            forall|e: &Env, t: &T| call_requires(f, (e, t)),
    {
        DrawWithChild { draw: Draw::new(f), child: WidgetPod::new(child) }
    }
}

impl<T: Data, F: Fn(&Env, &T) -> Vec<DrawCmd>> Widget<T> for Draw<T, F> {
    fn event(&mut self, ctx: &mut EventCtx, event: &Event, data: &mut T, env: &Env) -> (action:
        Option<Action>)
        ensures
            action is None,
            *final(data) == *old(data),
            *final(ctx) == *old(ctx),
    {
        None
    }

    fn layout(&mut self, bc: &BoxConstraints, data: &T, env: &Env) -> (size: Size)
        ensures
            size == bc.max,
    {
        bc.max()
    }

    fn paint(&mut self, ctx: &mut PaintCtx, base: &BaseState, data: &T, env: &Env) {
        proof {
            use_type_invariant(&*self);
        }
        let cmds = (self.f)(env, data);
        paint_closure_cmds(ctx, cmds);
    }

    fn update(&mut self, ctx: &mut UpdateCtx, old_data: Option<&T>, data: &T, env: &Env) {
    }
}

/// A drawing closure painted behind a child widget that handles the
/// events and the layout.
pub struct DrawWithChild<T, F: Fn(&Env, &T) -> Vec<DrawCmd>, W> {
    draw: Draw<T, F>,
    pub child: WidgetPod<T, W>,
}

impl<T: Data, F: Fn(&Env, &T) -> Vec<DrawCmd>, W: Widget<T>> Widget<T> for DrawWithChild<
    T,
    F,
    W,
> {
    fn event(&mut self, ctx: &mut EventCtx, event: &Event, data: &mut T, env: &Env) -> (action:
        Option<Action>) {
        self.child.event(ctx, event, data, env)
    }

    fn layout(&mut self, bc: &BoxConstraints, data: &T, env: &Env) -> (size: Size) {
        let size = self.child.layout(bc, data, env);
        self.child.set_layout_rect(Rect { origin: Point { x: 0, y: 0 }, size });
        size
    }

    fn paint(&mut self, ctx: &mut PaintCtx, base: &BaseState, data: &T, env: &Env) {
        proof {
            use_type_invariant(&self.draw);
        }
        let cmds = (self.draw.f)(env, data);
        paint_closure_cmds(ctx, cmds);
        self.child.paint_with_offset(ctx, data, env);
    }

    fn update(&mut self, ctx: &mut UpdateCtx, old_data: Option<&T>, data: &T, env: &Env) {
        self.child.update(ctx, old_data, data, env);
    }
}

} // verus!
