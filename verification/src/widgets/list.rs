//! A dynamic list: one child widget per element of a `Vec`, stacked
//! vertically. Pods are created when the data grows and destroyed when it
//! shrinks, so the tree always mirrors the data one to one.

use core::marker::PhantomData;

use vstd::prelude::*;

use crate::constraints::BoxConstraints;
use crate::ctx::{BaseState, EventCtx, UpdateCtx};
use crate::data::Data;
use crate::env::Env;
use crate::event::{Action, Event};
use crate::geom::{min_dim, Point, Rect, Size, MAX_DIM};
use crate::paint::{lemma_prefix_trans, PaintCtx};
use crate::pod::WidgetPod;
use crate::widget::Widget;

verus! {

/// The stored generator for new children, kept callable by construction.
#[verifier::reject_recursive_types(W)]
pub struct WidgetGen<W, F: Fn() -> W> {
    f: F,
    phantom: PhantomData<W>,
}

impl<W, F: Fn() -> W> WidgetGen<W, F> {
    /// The generator must be callable whenever an element appears.
    #[verifier::type_invariant]
    spec fn wf(self) -> bool {
        call_requires(self.f, ())
    }
}

/// One child per data element; the stored closure builds the widget for a
/// newly inserted element.
#[verifier::reject_recursive_types(W)]
pub struct List<U, W, F: Fn() -> W> {
    pub children: Vec<WidgetPod<U, W>>,
    generator: WidgetGen<W, F>,
    phantom: PhantomData<U>,
}

impl<U, W, F: Fn() -> W> List<U, W, F> {
    pub fn new(closure: F) -> (l: List<U, W, F>)
        requires
            call_requires(closure, ()),
    {
        List {
            children: Vec::new(),
            generator: WidgetGen { f: closure, phantom: PhantomData },
            phantom: PhantomData,
        }
    }
}

impl<U: Data, W: Widget<U>, F: Fn() -> W> List<U, W, F> {
    /// Match the child pods to the data, one to one: grow with freshly
    /// generated widgets, shrink by dropping pods from the end.
    fn sync_children(&mut self, len: usize)
        ensures
            final(self).children@.len() == len,
    {
        proof {
            use_type_invariant(&self.generator);
        }
        while self.children.len() > len
            invariant
                call_requires(self.generator.f, ()),
            decreases self.children@.len(),
        {
            let _ = self.children.pop();
        }
        while self.children.len() < len
            invariant
                call_requires(self.generator.f, ()),
                self.children@.len() <= len,
            decreases len - self.children@.len(),
        {
            let w = (self.generator.f)();
            self.children.push(WidgetPod::new(w));
        }
    }
}

impl<U: Data, W: Widget<U>, F: Fn() -> W> Widget<Vec<U>> for List<U, W, F> {
    /// Each element's event goes to that element's own pod, with the
    /// element narrowed out of the list.
    fn event(&mut self, ctx: &mut EventCtx, event: &Event, data: &mut Vec<U>, env: &Env) -> (action:
        Option<Action>)
        ensures
            final(data)@.len() == old(data)@.len(),
    {
        let len = data.len();
        self.sync_children(len);
        let mut action: Option<Action> = None;
        let mut i: usize = 0;
        while i < self.children.len()
            invariant
                old(ctx).wf(),
                event.wf(),
                ctx.wf(),
                ctx.size == old(ctx).size,
                ctx.hot == old(ctx).hot,
                ctx.active == old(ctx).active,
                ctx.focused == old(ctx).focused,
                ctx.now_ms == old(ctx).now_ms,
                ctx.next_timer_id >= old(ctx).next_timer_id,
                old(ctx).invalidated ==> ctx.invalidated,
                old(ctx).focus_requested ==> ctx.focus_requested,
                old(ctx).tooltip_request is Some ==> ctx.tooltip_request == old(ctx).tooltip_request,
                old(ctx).modal_dismissed ==> ctx.modal_dismissed,
                old(ctx).timer_requests@.is_prefix_of(ctx.timer_requests@),
                self.children@.len() == len,
                data@.len() == len,
                i <= len,
            decreases self.children@.len() - i,
        {
            let mut elem = data.remove(i);
            let mut pod = self.children.remove(i);
            let a = pod.event(ctx, event, &mut elem, env);
            self.children.insert(i, pod);
            data.insert(i, elem);
            if action.is_none() {
                action = a;
            }
            i = i + 1;
        }
        action
    }

    /// Stack the children vertically, each sized under loose constraints.
    fn layout(&mut self, bc: &BoxConstraints, data: &Vec<U>, env: &Env) -> (size: Size) {
        let len = data.len();
        self.sync_children(len);
        let loose = bc.loosen();
        let mut y: i64 = 0;
        let mut width: i64 = 0;
        let mut i: usize = 0;
        while i < self.children.len()
            invariant
                bc.wf(),
                loose.wf(),
                0 <= y <= MAX_DIM,
                0 <= width <= MAX_DIM,
                self.children@.len() == len,
                data@.len() == len,
                i <= len,
            decreases self.children@.len() - i,
        {
            let mut pod = self.children.remove(i);
            let child_size = pod.layout(&loose, &data[i], env);
            pod.set_layout_rect(Rect { origin: Point { x: 0, y }, size: child_size });
            self.children.insert(i, pod);
            y = min_dim(y + child_size.height, MAX_DIM);
            width = if child_size.width > width {
                child_size.width
            } else {
                width
            };
            i = i + 1;
        }
        bc.constrain(Size { width, height: y })
    }

    fn paint(&mut self, ctx: &mut PaintCtx, base: &BaseState, data: &Vec<U>, env: &Env) {
        let ghost c0 = ctx.cmds@;
        let n = if self.children.len() <= data.len() {
            self.children.len()
        } else {
            data.len()
        };
        let mut i: usize = 0;
        while i < n
            invariant
                ctx.saves@ == old(ctx).saves@,
                ctx.saves@ >= 0,
                c0.is_prefix_of(ctx.cmds@),
                n <= self.children@.len(),
                n <= data@.len(),
            decreases n - i,
        {
            let ghost mid = ctx.cmds@;
            let mut pod = self.children.remove(i);
            pod.paint_with_offset(ctx, &data[i], env);
            self.children.insert(i, pod);
            proof {
                lemma_prefix_trans(c0, mid, ctx.cmds@);
            }
            i = i + 1;
        }
    }

    /// Resynchronize the pods to the new length, then update each child
    /// with its old element where one existed.
    fn update(&mut self, ctx: &mut UpdateCtx, old_data: Option<&Vec<U>>, data: &Vec<U>, env: &Env) {
        let len = data.len();
        self.sync_children(len);
        let mut i: usize = 0;
        while i < self.children.len()
            invariant
                old(ctx).invalidated ==> ctx.invalidated,
                self.children@.len() == len,
                data@.len() == len,
                i <= len,
            decreases self.children@.len() - i,
        {
            let mut pod = self.children.remove(i);
            match old_data {
                Some(od) => {
                    if i < od.len() {
                        pod.update(ctx, Some(&od[i]), &data[i], env);
                    } else {
                        pod.update(ctx, None, &data[i], env);
                    }
                },
                None => {
                    pod.update(ctx, None, &data[i], env);
                },
            }
            self.children.insert(i, pod);
            i = i + 1;
        }
    }
}

} // verus!
