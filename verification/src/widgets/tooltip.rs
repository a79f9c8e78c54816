//! A tooltip controller: watches a widget's events for a qualifying
//! hover, arms a timer, and asks the host for a transient overlay once
//! the timer fires uncancelled. Any press cancels the pending tooltip;
//! widgets compare timer tokens and ignore stale firings.

use core::marker::PhantomData;

use vstd::prelude::*;

use crate::constraints::BoxConstraints;
use crate::ctx::{BaseState, EventCtx, LifeCycleCtx, UpdateCtx};
use crate::data::Data;
use crate::env::Env;
use crate::event::{Action, Event, LifeCycle, TimerToken};
use crate::geom::{clamp_dim, max_dim, min_dim, spec_clamp, Point, Rect, Size, MAX_DIM};
use crate::paint::PaintCtx;
use crate::pod::WidgetPod;
use crate::widget::{Controller, Widget};
use crate::widgets::button::Label;
use crate::widgets::padding::Padding;

verus! {

/// How long a hover must last before the tooltip shows, in milliseconds.
pub const TOOLTIP_DELAY_MS: u64 = 500;

/// Clock slack allowed when re-checking the hover duration.
pub const TOOLTIP_SLACK_MS: u64 = 20;

pub const TOOLTIP_TEXT_PADDING: i64 = 3;

/// The tooltip is offset from the pointer so it does not sit in the way.
pub const TOOLTIP_OFFSET_X: i64 = 10;

pub const TOOLTIP_OFFSET_Y: i64 = 10;

/// A request to show a widget as a transient overlay.
pub struct ModalDesc<W> {
    pub widget: W,
    pub position: Point,
    /// Whether events still reach the tree below the overlay.
    pub pass_through: bool,
}

impl<W> ModalDesc<W> {
    pub fn new(widget: W) -> (d: ModalDesc<W>)
        ensures
            d.widget == widget,
            d.position == (Point { x: 0, y: 0 }),
            d.pass_through == false,
    {
        ModalDesc { widget, position: Point { x: 0, y: 0 }, pass_through: false }
    }

    pub fn pass_through_events(self, pass_through: bool) -> (d: ModalDesc<W>)
        ensures
            d.widget == self.widget,
            d.position == self.position,
            d.pass_through == pass_through,
    {
        ModalDesc { widget: self.widget, position: self.position, pass_through }
    }

    pub fn position(self, position: Point) -> (d: ModalDesc<W>)
        ensures
            d.widget == self.widget,
            d.position == position,
            d.pass_through == self.pass_through,
    {
        ModalDesc { widget: self.widget, position, pass_through: self.pass_through }
    }
}

/// The overlay wrapper around the tooltip widget: it fills its parent so
/// no input is missed, and dismisses the overlay on any user input.
pub struct TooltipOverlay<W> {
    pub tooltip_origin: Point,
    pub tooltip: WidgetPod<(), W>,
}

impl<W: Widget<()>> Widget<()> for TooltipOverlay<W> {
    /// Any pointer, wheel or key input dismisses the overlay.
    fn event(&mut self, ctx: &mut EventCtx, event: &Event, data: &mut (), env: &Env) -> (action:
        Option<Action>)
        ensures
            (event matches Event::MouseDown(_) || event matches Event::MouseUp(_)
                || event matches Event::MouseMove(_) || event matches Event::Wheel(_)
                || event matches Event::KeyDown(_) || event matches Event::KeyUp(_))
                ==> final(ctx).modal_dismissed,
    {
        match event {
            Event::MouseDown(_) | Event::MouseUp(_) | Event::MouseMove(_) | Event::Wheel(_)
                | Event::KeyDown(_) | Event::KeyUp(_) => {
                ctx.dismiss_modal();
            },
            _ => {},
        }
        self.tooltip.event(ctx, event, data, env)
    }

    /// Fills the whole parent; the tooltip itself is placed at its
    /// requested origin, pulled back inside the bounds when it would
    /// stick out.
    fn layout(&mut self, bc: &BoxConstraints, data: &(), env: &Env) -> (size: Size)
        ensures
            size == bc.max,
            final(self).tooltip.layout_rect.origin.x == max_spec(
                min_spec(
                    final(self).tooltip_origin.x as int,
                    bc.max.width - final(self).tooltip.layout_rect.size.width,
                ),
                0,
            ),
            final(self).tooltip.layout_rect.origin.y == max_spec(
                min_spec(
                    final(self).tooltip_origin.y as int,
                    bc.max.height - final(self).tooltip.layout_rect.size.height,
                ),
                0,
            ),
            final(self).tooltip_origin == old(self).tooltip_origin,
    {
        let tooltip_size = self.tooltip.layout(bc, data, env);
        let size = bc.max();

        // If the tooltip would extend outside the bounds, make it fit.
        let ox = clamp_dim(self.tooltip_origin.x, -MAX_DIM, MAX_DIM);
        let oy = clamp_dim(self.tooltip_origin.y, -MAX_DIM, MAX_DIM);
        let tooltip_x = max_dim(min_dim(ox, size.width - tooltip_size.width), 0);
        let tooltip_y = max_dim(min_dim(oy, size.height - tooltip_size.height), 0);
        let tooltip_origin = Point { x: tooltip_x, y: tooltip_y };
        self.tooltip.set_layout_rect(Rect { origin: tooltip_origin, size: tooltip_size });
        size
    }

    fn paint(&mut self, ctx: &mut PaintCtx, base: &BaseState, data: &(), env: &Env) {
        self.tooltip.paint_with_offset(ctx, data, env);
    }

    fn update(&mut self, ctx: &mut UpdateCtx, old_data: Option<&()>, data: &(), env: &Env) {
        self.tooltip.update(ctx, old_data, data, env);
    }

    fn lifecycle(&mut self, ctx: &mut LifeCycleCtx, event: &LifeCycle, data: &(), env: &Env) {
        self.tooltip.lifecycle(ctx, event, data, env);
    }
}

/// The smaller of two spec values.
pub open spec fn min_spec(a: int, b: int) -> int {
    if a <= b {
        a
    } else {
        b
    }
}

/// The larger of two spec values.
pub open spec fn max_spec(a: int, b: int) -> int {
    if a >= b {
        a
    } else {
        b
    }
}

/// The overlay description for a tooltip: a padded label wrapped in the
/// dismissing overlay, positioned near the pointer, letting events pass.
pub fn tooltip_desc(text: &str, position: Point) -> (d: ModalDesc<
    TooltipOverlay<Padding<(), Label>>,
>)
    ensures
        d.pass_through == true,
        d.position == (Point { x: 0, y: 0 }),
        d.widget.tooltip_origin == position,
        d.widget.tooltip.child.child.child.text@ == text@,
{
    let tooltip = Padding::uniform(TOOLTIP_TEXT_PADDING, Label::new(text));
    ModalDesc::new(
        TooltipOverlay { tooltip: WidgetPod::new(tooltip), tooltip_origin: position },
    ).pass_through_events(true).position(Point { x: 0, y: 0 })
}

/// A controller that listens for pointer hovers on the wrapped widget and
/// asks the host for a tooltip overlay in response.
pub struct TooltipWrap<T> {
    /// The tooltip text.
    pub text: String,
    /// The outstanding hover timer; the invalid token when none.
    pub timer: TimerToken,
    /// When the pointer last moved over the widget, while a tooltip is
    /// being considered.
    pub last_mouse_move: Option<u64>,
    /// The last pointer position in window coordinates.
    pub mouse_pos: Point,
    pub phantom: PhantomData<T>,
}

impl<T> TooltipWrap<T> {
    pub fn new(text: &str) -> (w: TooltipWrap<T>)
        ensures
            w.text@ == text@,
            w.timer.id == 0,
            w.last_mouse_move is None,
            w.mouse_pos == (Point { x: 0, y: 0 }),
    {
        TooltipWrap {
            text: text.to_owned(),
            timer: TimerToken { id: 0 },
            last_mouse_move: None,
            mouse_pos: Point { x: 0, y: 0 },
            phantom: PhantomData,
        }
    }
}

impl<T: Data, W: Widget<T>> Controller<T, W> for TooltipWrap<T> {
    /// A press cancels any pending tooltip; a hover move (while hot) arms
    /// the delay timer (when none is pending) and records position and
    /// time; the matching timer firing shows the tooltip if the hover
    /// lasted the full delay — the first overlay request wins — and
    /// re-arms the timer for the remainder otherwise. A stale or foreign
    /// timer token is compared and ignored: the controller's state is
    /// untouched. The wrapped widget sees every event unchanged.
    fn event(&mut self, child: &mut W, ctx: &mut EventCtx, event: &Event, data: &mut T, env: &Env)
        -> (action: Option<Action>)
        ensures
            final(self).text == old(self).text,
            (event matches Event::MouseDown(_) || event matches Event::MouseUp(_)) ==> {
                &&& final(self).timer.id == 0
                &&& final(self).last_mouse_move is None
            },
            event matches Event::MouseMove(m) ==> (if old(ctx).hot {
                &&& final(self).last_mouse_move == Some(old(ctx).now_ms)
                &&& final(self).mouse_pos == m.window_pos
                &&& final(self).timer.id as int == (if old(self).timer.id != 0 {
                    old(self).timer.id as int
                } else if old(ctx).next_timer_id < u64::MAX {
                    old(ctx).next_timer_id as int
                } else {
                    0
                })
                &&& (old(self).timer.id == 0 && old(ctx).next_timer_id < u64::MAX ==> {
                    &&& final(ctx).next_timer_id > old(ctx).next_timer_id
                    &&& final(ctx).timer_requests@.len() > old(ctx).timer_requests@.len()
                    &&& final(ctx).timer_requests@[old(ctx).timer_requests@.len() as int] == (
                    old(ctx).next_timer_id,
                    crate::ctx::spec_deadline(old(ctx).now_ms, TOOLTIP_DELAY_MS) as u64,
                    )
                })
            } else {
                final(self).last_mouse_move is None
            }),
            event matches Event::Timer(tok) ==> (if !(tok.id == old(self).timer.id && tok.id
                != 0) {
                *final(self) == *old(self)
            } else {
                match old(self).last_mouse_move {
                    None => *final(self) == (TooltipWrap {
                        timer: TimerToken { id: 0 },
                        ..*old(self)
                    }),
                    Some(move_time) => {
                        let elapsed = if old(ctx).now_ms >= move_time {
                            old(ctx).now_ms - move_time
                        } else {
                            0
                        };
                        if elapsed > TOOLTIP_DELAY_MS - TOOLTIP_SLACK_MS {
                            &&& final(self).timer.id == 0
                            &&& final(self).last_mouse_move is None
                            &&& final(self).mouse_pos == old(self).mouse_pos
                            &&& (old(ctx).tooltip_request is None
                                ==> (final(ctx).tooltip_request matches Some(r)
                                && r.0@ == old(self).text@ && r.1 == (Point {
                                x: (spec_clamp(
                                    old(self).mouse_pos.x as int,
                                    -MAX_DIM as int,
                                    MAX_DIM as int - 10,
                                ) + TOOLTIP_OFFSET_X) as i64,
                                y: (spec_clamp(
                                    old(self).mouse_pos.y as int,
                                    -MAX_DIM as int,
                                    MAX_DIM as int - 10,
                                ) + TOOLTIP_OFFSET_Y) as i64,
                            })))
                        } else {
                            &&& final(self).last_mouse_move == old(self).last_mouse_move
                            &&& final(self).mouse_pos == old(self).mouse_pos
                            &&& final(self).timer.id as int == (if old(ctx).next_timer_id
                                < u64::MAX {
                                old(ctx).next_timer_id as int
                            } else {
                                0
                            })
                            &&& (old(ctx).next_timer_id < u64::MAX ==> {
                                &&& final(ctx).next_timer_id > old(ctx).next_timer_id
                                &&& final(ctx).timer_requests@.len() > old(
                                    ctx,
                                ).timer_requests@.len()
                                &&& final(ctx).timer_requests@[old(
                                    ctx,
                                ).timer_requests@.len() as int] == (
                                old(ctx).next_timer_id,
                                crate::ctx::spec_deadline(
                                    old(ctx).now_ms,
                                    (TOOLTIP_DELAY_MS - elapsed) as u64,
                                ) as u64,
                                )
                            })
                        }
                    },
                }
            }),
    {
        match event {
            Event::MouseDown(_) | Event::MouseUp(_) => {
                self.timer = TimerToken { id: 0 };
                self.last_mouse_move = None;
            },
            Event::MouseMove(ev) => {
                if ctx.is_hot() {
                    if self.timer.id == 0 {
                        let deadline = ctx.deadline_after(TOOLTIP_DELAY_MS);
                        self.timer = ctx.try_request_timer(deadline);
                    }
                    self.mouse_pos = ev.window_pos;
                    self.last_mouse_move = Some(ctx.now());
                } else {
                    self.last_mouse_move = None;
                }
            },
            Event::Timer(tok) => {
                if tok.id == self.timer.id && tok.id != 0 {
                    self.timer = TimerToken { id: 0 };
                    match self.last_mouse_move {
                        Some(move_time) => {
                            let now = ctx.now();
                            let elapsed: u64 = if now >= move_time {
                                now - move_time
                            } else {
                                0
                            };
                            // Allow a little slack for inaccurate clocks.
                            let check_delay = TOOLTIP_DELAY_MS - TOOLTIP_SLACK_MS;
                            if elapsed > check_delay {
                                let pos = Point {
                                    x: clamp_dim(self.mouse_pos.x, -MAX_DIM, MAX_DIM - 10)
                                        + TOOLTIP_OFFSET_X,
                                    y: clamp_dim(self.mouse_pos.y, -MAX_DIM, MAX_DIM - 10)
                                        + TOOLTIP_OFFSET_Y,
                                };
                                // The first overlay request wins; a pending
                                // one is never overwritten.
                                if ctx.tooltip_request.is_none() {
                                    ctx.show_tooltip(self.text.clone(), pos);
                                }
                                self.timer = TimerToken { id: 0 };
                                self.last_mouse_move = None;
                            } else {
                                let remaining = TOOLTIP_DELAY_MS - elapsed;
                                let deadline = ctx.deadline_after(remaining);
                                self.timer = ctx.try_request_timer(deadline);
                            }
                        },
                        None => {},
                    }
                }
            },
            _ => {},
        }
        let ghost reqs_mid = ctx.timer_requests@;
        let action = child.event(ctx, event, data, env);
        proof {
            // The child only appends timer requests, so whatever this
            // controller pushed keeps its place.
            let fin = ctx.timer_requests@;
            assert forall|i: int| 0 <= i < reqs_mid.len() implies fin[i] == reqs_mid[i] by {
                assert(reqs_mid =~= fin.subrange(0, reqs_mid.len() as int));
            }
        }
        action
    }
}

} // verus!
