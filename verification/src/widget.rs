//! The widget contract: the uniform interface of every node in the UI
//! tree, generic over the state type it observes.

use vstd::prelude::*;

use crate::constraints::BoxConstraints;
use crate::ctx::{BaseState, EventCtx, LifeCycleCtx, UpdateCtx};
use crate::data::Data;
use crate::env::Env;
use crate::event::{Action, Event, LifeCycle};
use crate::geom::Size;
use crate::paint::PaintCtx;

verus! {

/// A node in the UI tree.
///
/// Every implementation promises, through the contracts below, the
/// obligations of the widget protocol: `layout` returns a size satisfying
/// the constraints it was given; `paint` only appends to the display list
/// and leaves every `save` scope it opens closed again; `event` restores
/// the interaction fields of the shared context that belong to its
/// ancestors and never clears an already-requested repaint.
pub trait Widget<T: Data> {
    /// Handle an input event; the sole mutation path for `data`. Returns
    /// an action to bubble up to the parent, if any.
    fn event(&mut self, ctx: &mut EventCtx, event: &Event, data: &mut T, env: &Env) -> (action:
        Option<Action>)
        requires
            old(ctx).wf(),
            event.wf(),
        ensures
            final(ctx).wf(),
            final(ctx).size == old(ctx).size,
            final(ctx).hot == old(ctx).hot,
            final(ctx).focused == old(ctx).focused,
            final(ctx).now_ms == old(ctx).now_ms,
            final(ctx).next_timer_id >= old(ctx).next_timer_id,
            old(ctx).invalidated ==> final(ctx).invalidated,
            old(ctx).focus_requested ==> final(ctx).focus_requested,
            old(ctx).tooltip_request is Some ==> final(ctx).tooltip_request == old(ctx).tooltip_request,
            old(ctx).modal_dismissed ==> final(ctx).modal_dismissed,
            old(ctx).timer_requests@.is_prefix_of(final(ctx).timer_requests@),
    ;

    /// Choose a size under the given constraints; reads `data` but may
    /// update internal caches. The returned size always satisfies the
    /// constraints.
    fn layout(&mut self, bc: &BoxConstraints, data: &T, env: &Env) -> (size: Size)
        requires
            bc.wf(),
        ensures
            bc.sat(size),
            size.wf(),
    ;

    /// Record this widget's visual output on the display list. Appends
    /// only, and restores every scope it opens.
    fn paint(&mut self, ctx: &mut PaintCtx, base: &BaseState, data: &T, env: &Env)
        requires
            base.size.wf(),
            old(ctx).saves@ >= 0,
        ensures
            old(ctx).cmds@.is_prefix_of(final(ctx).cmds@),
            final(ctx).saves@ == old(ctx).saves@,
    ;

    /// Resynchronize internal caches after `data` was mutated elsewhere
    /// in the tree. `old_data` is absent on the very first pass.
    fn update(&mut self, ctx: &mut UpdateCtx, old_data: Option<&T>, data: &T, env: &Env)
        ensures
            old(ctx).invalidated ==> final(ctx).invalidated,
    ;

    /// Receive a lifecycle notice; most widgets ignore them.
    fn lifecycle(&mut self, ctx: &mut LifeCycleCtx, event: &LifeCycle, data: &T, env: &Env) {
    }
}

/// A decoration that intercepts the events of a wrapped widget without
/// changing its painting or layout; the wrapped widget stays unmodified.
pub trait Controller<T: Data, W: Widget<T>> {
    /// Observe an event and decide what the child sees.
    fn event(&mut self, child: &mut W, ctx: &mut EventCtx, event: &Event, data: &mut T, env: &Env)
        -> (action: Option<Action>)
        requires
            old(ctx).wf(),
            event.wf(),
        ensures
            final(ctx).wf(),
            final(ctx).size == old(ctx).size,
            final(ctx).hot == old(ctx).hot,
            final(ctx).focused == old(ctx).focused,
            final(ctx).now_ms == old(ctx).now_ms,
            final(ctx).next_timer_id >= old(ctx).next_timer_id,
            old(ctx).invalidated ==> final(ctx).invalidated,
            old(ctx).focus_requested ==> final(ctx).focus_requested,
            old(ctx).tooltip_request is Some ==> final(ctx).tooltip_request == old(ctx).tooltip_request,
            old(ctx).modal_dismissed ==> final(ctx).modal_dismissed,
            old(ctx).timer_requests@.is_prefix_of(final(ctx).timer_requests@),
    ;
}

/// A widget that pairs a child with a [`Controller`] watching its events.
pub struct ControllerHost<W, C> {
    pub child: W,
    pub controller: C,
}

impl<W, C> ControllerHost<W, C> {
    pub fn new(child: W, controller: C) -> (host: ControllerHost<W, C>)
        ensures
            host == (ControllerHost { child, controller }),
    {
        ControllerHost { child, controller }
    }
}

impl<T: Data, W: Widget<T>, C: Controller<T, W>> Widget<T> for ControllerHost<W, C> {
    fn event(&mut self, ctx: &mut EventCtx, event: &Event, data: &mut T, env: &Env) -> (action:
        Option<Action>) {
        self.controller.event(&mut self.child, ctx, event, data, env)
    }

    fn layout(&mut self, bc: &BoxConstraints, data: &T, env: &Env) -> (size: Size) {
        self.child.layout(bc, data, env)
    }

    fn paint(&mut self, ctx: &mut PaintCtx, base: &BaseState, data: &T, env: &Env) {
        self.child.paint(ctx, base, data, env);
    }

    fn update(&mut self, ctx: &mut UpdateCtx, old_data: Option<&T>, data: &T, env: &Env) {
        self.child.update(ctx, old_data, data, env);
    }

    fn lifecycle(&mut self, ctx: &mut LifeCycleCtx, event: &LifeCycle, data: &T, env: &Env) {
        self.child.lifecycle(ctx, event, data, env);
    }
}

} // verus!
