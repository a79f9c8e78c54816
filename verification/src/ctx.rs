//! The per-call contexts a widget receives: the read-only snapshot of its
//! pod state during paint, and the mutable request surfaces during event
//! and update passes.

use vstd::prelude::*;

use crate::event::TimerToken;
use crate::paint::{lemma_prefix_push, lemma_prefix_refl};
use crate::geom::{Point, Size};

verus! {

/// The pod-derived state a widget may read while painting: its layout size
/// and its interaction flags.
#[derive(Clone, Copy, PartialEq, Eq, Structural, Debug)]
pub struct BaseState {
    pub size: Size,
    pub hot: bool,
    pub active: bool,
    pub focus: bool,
}

impl BaseState {
    pub fn new(size: Size) -> (b: BaseState)
        ensures
            b == (BaseState { size, hot: false, active: false, focus: false }),
    {
        BaseState { size, hot: false, active: false, focus: false }
    }

    pub fn size(&self) -> (s: Size)
        ensures
            s == self.size,
    {
        self.size
    }

    pub fn is_hot(&self) -> (r: bool)
        ensures
            r == self.hot,
    {
        self.hot
    }

    pub fn is_active(&self) -> (r: bool)
        ensures
            r == self.active,
    {
        self.active
    }

    pub fn has_focus(&self) -> (r: bool)
        ensures
            r == self.focus,
    {
        self.focus
    }
}

/// The pointer shape a widget may request.
#[derive(Clone, Copy, PartialEq, Eq, Structural, Debug)]
pub enum CursorStyle {
    Arrow,
    IBeam,
}

/// The mutable context of one event dispatch: interaction flags the pod
/// keeps, and the requests a widget hands back to the host (repaint, focus,
/// timers, cursor shape, clipboard, tooltip overlay).
#[derive(Debug)]
pub struct EventCtx {
    /// The widget's last layout size, set by its pod before delegation.
    pub size: Size,
    pub hot: bool,
    pub active: bool,
    pub focused: bool,
    pub focus_requested: bool,
    pub invalidated: bool,
    pub cursor: CursorStyle,
    /// The host clock at dispatch, in milliseconds.
    pub now_ms: u64,
    pub next_timer_id: u64,
    /// Timer registrations: token id and deadline in milliseconds.
    pub timer_requests: Vec<(u64, u64)>,
    pub clipboard: String,
    /// A request to show a tooltip overlay: its text and window position.
    pub tooltip_request: Option<(String, Point)>,
    /// Whether a widget asked to dismiss the open overlay.
    pub modal_dismissed: bool,
}

impl EventCtx {
    pub open spec fn wf(self) -> bool {
        &&& self.size.wf()
        &&& self.next_timer_id >= 1
    }

    pub fn new(size: Size, now_ms: u64) -> (ctx: EventCtx)
        requires
            size.wf(),
        ensures
            ctx.size == size,
            ctx.now_ms == now_ms,
            ctx.hot == false,
            ctx.active == false,
            ctx.focused == false,
            ctx.focus_requested == false,
            ctx.invalidated == false,
            ctx.cursor == CursorStyle::Arrow,
            ctx.next_timer_id == 1,
            ctx.timer_requests@.len() == 0,
            ctx.clipboard@.len() == 0,
            ctx.tooltip_request is None,
            ctx.modal_dismissed == false,
            ctx.wf(),
    {
        EventCtx {
            size,
            hot: false,
            active: false,
            focused: false,
            focus_requested: false,
            invalidated: false,
            cursor: CursorStyle::Arrow,
            now_ms,
            next_timer_id: 1,
            timer_requests: Vec::new(),
            clipboard: String::new(),
            tooltip_request: None,
            modal_dismissed: false,
        }
    }

    pub fn is_hot(&self) -> (r: bool)
        ensures
            r == self.hot,
    {
        self.hot
    }

    pub fn is_active(&self) -> (r: bool)
        ensures
            r == self.active,
    {
        self.active
    }

    pub fn has_focus(&self) -> (r: bool)
        ensures
            r == self.focused,
    {
        self.focused
    }

    pub fn now(&self) -> (r: u64)
        ensures
            r == self.now_ms,
    {
        self.now_ms
    }

    pub fn widget_size(&self) -> (s: Size)
        ensures
            s == self.size,
    {
        self.size
    }

    /// Engage or release pointer capture for the receiving widget.
    pub fn set_active(&mut self, b: bool)
        ensures
            *final(self) == (EventCtx { active: b, ..*old(self) }),
    {
        self.active = b;
    }

    /// Ask the host for keyboard focus.
    pub fn request_focus(&mut self)
        ensures
            *final(self) == (EventCtx { focus_requested: true, ..*old(self) }),
    {
        self.focus_requested = true;
    }

    /// Mark the widget's region as needing a repaint.
    pub fn invalidate(&mut self)
        ensures
            *final(self) == (EventCtx { invalidated: true, ..*old(self) }),
    {
        self.invalidated = true;
    }

    /// Request a pointer shape while the pointer is over the widget.
    pub fn set_cursor(&mut self, c: CursorStyle)
        ensures
            *final(self) == (EventCtx { cursor: c, ..*old(self) }),
    {
        self.cursor = c;
    }

    /// Register a timer; the returned token is fresh, and the host will
    /// deliver a timer event carrying it once the deadline elapses.
    pub fn request_timer(&mut self, deadline_ms: u64) -> (tok: TimerToken)
        requires
            old(self).next_timer_id >= 1,
            old(self).next_timer_id < u64::MAX,
        ensures
            tok.id == old(self).next_timer_id,
            tok.id >= 1,
            final(self).next_timer_id == old(self).next_timer_id + 1,
            final(self).timer_requests@ == old(self).timer_requests@.push((tok.id, deadline_ms)),
            final(self).size == old(self).size,
            final(self).hot == old(self).hot,
            final(self).active == old(self).active,
            final(self).focused == old(self).focused,
            final(self).focus_requested == old(self).focus_requested,
            final(self).invalidated == old(self).invalidated,
            final(self).cursor == old(self).cursor,
            final(self).now_ms == old(self).now_ms,
            final(self).clipboard == old(self).clipboard,
            final(self).tooltip_request == old(self).tooltip_request,
            final(self).modal_dismissed == old(self).modal_dismissed,
            old(self).timer_requests@.is_prefix_of(final(self).timer_requests@),
    {
        let ghost r0 = self.timer_requests@;
        let id = self.next_timer_id;
        self.next_timer_id = self.next_timer_id + 1;
        self.timer_requests.push((id, deadline_ms));
        proof {
            lemma_prefix_refl(r0);
            lemma_prefix_push(r0, r0, (id, deadline_ms));
        }
        TimerToken { id }
    }

    /// Register a timer like [`request_timer`](Self::request_timer), but
    /// total: when the token space is exhausted no timer is registered and
    /// the invalid token comes back.
    pub fn try_request_timer(&mut self, deadline_ms: u64) -> (tok: TimerToken)
        requires
            old(self).next_timer_id >= 1,
        ensures
            final(self).next_timer_id >= 1,
            final(self).size == old(self).size,
            final(self).hot == old(self).hot,
            final(self).active == old(self).active,
            final(self).focused == old(self).focused,
            final(self).focus_requested == old(self).focus_requested,
            final(self).invalidated == old(self).invalidated,
            final(self).cursor == old(self).cursor,
            final(self).now_ms == old(self).now_ms,
            final(self).clipboard == old(self).clipboard,
            final(self).tooltip_request == old(self).tooltip_request,
            final(self).modal_dismissed == old(self).modal_dismissed,
            final(self).next_timer_id >= old(self).next_timer_id,
            old(self).next_timer_id < u64::MAX ==> {
                &&& tok.id == old(self).next_timer_id
                &&& final(self).next_timer_id == old(self).next_timer_id + 1
                &&& final(self).timer_requests@ == old(self).timer_requests@.push(
                    (tok.id, deadline_ms),
                )
            },
            old(self).next_timer_id == u64::MAX ==> {
                &&& tok.id == 0
                &&& final(self).timer_requests == old(self).timer_requests
                &&& final(self).next_timer_id == old(self).next_timer_id
            },
            old(self).timer_requests@.is_prefix_of(final(self).timer_requests@),
    {
        if self.next_timer_id < u64::MAX {
            self.request_timer(deadline_ms)
        } else {
            proof {
                lemma_prefix_refl(self.timer_requests@);
            }
            TimerToken { id: 0 }
        }
    }

    /// The host clock `ms` milliseconds from now, saturating at the end of
    /// the clock's range.
    pub fn deadline_after(&self, ms: u64) -> (r: u64)
        ensures
            r == spec_deadline(self.now_ms, ms),
    {
        if self.now_ms <= u64::MAX - ms {
            self.now_ms + ms
        } else {
            u64::MAX
        }
    }

    /// Put text on the clipboard.
    pub fn set_clipboard(&mut self, s: String)
        ensures
            *final(self) == (EventCtx { clipboard: s, ..*old(self) }),
    {
        self.clipboard = s;
    }

    /// Read the clipboard; an absent clipboard reads as the empty string.
    pub fn get_clipboard(&self) -> (r: String)
        ensures
            r@ == self.clipboard@,
    {
        self.clipboard.clone()
    }

    /// Ask the host to show a tooltip overlay.
    pub fn show_tooltip(&mut self, text: String, pos: Point)
        ensures
            *final(self) == (EventCtx { tooltip_request: Some((text, pos)), ..*old(self) }),
    {
        self.tooltip_request = Some((text, pos));
    }

    /// Ask the host to dismiss the open overlay.
    pub fn dismiss_modal(&mut self)
        ensures
            *final(self) == (EventCtx { modal_dismissed: true, ..*old(self) }),
    {
        self.modal_dismissed = true;
    }
}

/// The host clock `ms` milliseconds after `now`, saturating at the end of
/// the clock's range.
pub open spec fn spec_deadline(now: u64, ms: u64) -> int {
    if now + ms <= u64::MAX {
        now + ms
    } else {
        u64::MAX as int
    }
}

/// The mutable context of an update pass.
#[derive(Clone, Copy, PartialEq, Eq, Structural, Debug)]
pub struct UpdateCtx {
    pub invalidated: bool,
}

impl UpdateCtx {
    pub fn new() -> (ctx: UpdateCtx)
        ensures
            ctx.invalidated == false,
    {
        UpdateCtx { invalidated: false }
    }

    /// Mark the widget's region as needing a repaint.
    pub fn invalidate(&mut self)
        ensures
            *final(self) == (UpdateCtx { invalidated: true }),
    {
        self.invalidated = true;
    }
}

/// The mutable context of a lifecycle pass.
#[derive(Clone, Copy, PartialEq, Eq, Structural, Debug)]
pub struct LifeCycleCtx {
    pub anim_requested: bool,
}

impl LifeCycleCtx {
    pub fn new() -> (ctx: LifeCycleCtx)
        ensures
            ctx.anim_requested == false,
    {
        LifeCycleCtx { anim_requested: false }
    }

    /// Ask the host for an animation frame.
    pub fn request_anim_frame(&mut self)
        ensures
            *final(self) == (LifeCycleCtx { anim_requested: true }),
    {
        self.anim_requested = true;
    }
}

} // verus!
