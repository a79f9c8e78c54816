//! The root of an application: the single piece of state, the root pod,
//! and the diff-aware event/update cycle the host drives.
//!
//! One event is processed to completion: it is dispatched through the
//! root pod, and if — and only if — it logically changed the data, an
//! update pass follows, carrying the old and the new value. An event
//! whose net effect leaves the data logically unchanged triggers no
//! update at all.

use vstd::prelude::*;

use crate::constraints::BoxConstraints;
use crate::ctx::{EventCtx, UpdateCtx};
use crate::data::Data;
use crate::env::Env;
use crate::event::{Action, Event};
use crate::geom::{Point, Rect, Size};
use crate::paint::{DrawCmd, PaintCtx};
use crate::pod::WidgetPod;
use crate::widget::Widget;

verus! {

/// The host-side root: application data, the widget tree, and the
/// bookkeeping that carries requests from one pass to the next.
pub struct Root<T, W> {
    pub data: T,
    pub pod: WidgetPod<T, W>,
    pub env: Env,
    pub window_size: Size,
    /// The clipboard contents, as far as the toolkit has seen them.
    pub clipboard: String,
    pub next_timer_id: u64,
    /// Timer registrations not yet handed to the host.
    pub timer_requests: Vec<(u64, u64)>,
    /// Whether some widget asked for a repaint.
    pub needs_paint: bool,
    /// How many update passes have run.
    pub updates: u64,
    /// An outstanding tooltip overlay request.
    pub tooltip_request: Option<(String, Point)>,
}

impl<T: Data, W: Widget<T>> Root<T, W> {
    pub open spec fn wf(self) -> bool {
        &&& self.window_size.wf()
        &&& self.next_timer_id >= 1
    }

    pub fn new(data: T, child: W, window_size: Size) -> (r: Root<T, W>)
        requires
            window_size.wf(),
        ensures
            r.data == data,
            r.pod.child == child,
            r.window_size == window_size,
            r.updates == 0,
            r.wf(),
    {
        Root {
            data,
            pod: WidgetPod::new(child),
            env: Env::new(),
            window_size,
            clipboard: String::new(),
            next_timer_id: 1,
            timer_requests: Vec::new(),
            needs_paint: true,
            updates: 0,
            tooltip_request: None,
        }
    }

    /// Run a layout pass: the root receives a tight constraint of the
    /// window size, and its rectangle fills the window.
    pub fn layout_pass(&mut self)
        requires
            old(self).wf(),
        ensures
            final(self).wf(),
            final(self).pod.layout_rect == (Rect {
                origin: Point { x: 0, y: 0 },
                size: old(self).window_size,
            }),
            final(self).data == old(self).data,
            final(self).updates == old(self).updates,
    {
        let bc = BoxConstraints::tight(self.window_size);
        let size = self.pod.layout(&bc, &self.data, &self.env);
        self.pod.set_layout_rect(Rect { origin: Point { x: 0, y: 0 }, size });
    }

    /// Dispatch one event through the tree, then run the diff-aware
    /// update pass: the update runs exactly when the event logically
    /// changed the data, so a no-op write-back never invalidates
    /// anything downstream.
    pub fn event(&mut self, event: &Event, now_ms: u64) -> (action: Option<Action>)
        requires
            old(self).wf(),
            event.wf(),
        ensures
            final(self).wf(),
            final(self).window_size == old(self).window_size,
            old(self).data.eqv(&final(self).data) ==> final(self).updates == old(self).updates,
    {
        let mut ctx = EventCtx {
            size: self.window_size,
            hot: false,
            active: false,
            focused: false,
            focus_requested: false,
            invalidated: false,
            cursor: crate::ctx::CursorStyle::Arrow,
            now_ms,
            next_timer_id: self.next_timer_id,
            timer_requests: Vec::new(),
            clipboard: self.clipboard.clone(),
            tooltip_request: None,
            modal_dismissed: false,
        };
        let old_data = self.data.dup();
        let action = self.pod.event(&mut ctx, event, &mut self.data, &self.env);

        // Persist what the pass requested.
        self.next_timer_id = ctx.next_timer_id;
        let mut reqs = ctx.timer_requests;
        self.timer_requests.append(&mut reqs);
        self.clipboard = ctx.clipboard;
        if ctx.invalidated {
            self.needs_paint = true;
        }
        if ctx.tooltip_request.is_some() {
            self.tooltip_request = ctx.tooltip_request;
        }

        // The diff-aware update pass.
        proof {
            if old(self).data.eqv(&self.data) {
                old_data.eqv_transitive(&old(self).data, &self.data);
            }
        }
        if !old_data.same(&self.data) {
            let mut uctx = UpdateCtx::new();
            self.pod.update(&mut uctx, Some(&old_data), &self.data, &self.env);
            if uctx.invalidated {
                self.needs_paint = true;
            }
            if self.updates < u64::MAX {
                self.updates = self.updates + 1;
            }
        }
        action
    }

    /// Run a paint pass: the display list for the whole window, with all
    /// its scopes provably closed.
    pub fn paint(&mut self) -> (cmds: Vec<DrawCmd>)
        ensures
            final(self).data == old(self).data,
            final(self).updates == old(self).updates,
            final(self).needs_paint == false,
    {
        let mut ctx = PaintCtx::new();
        self.pod.paint_with_offset(&mut ctx, &self.data, &self.env);
        self.needs_paint = false;
        ctx.cmds
    }
}

} // verus!
