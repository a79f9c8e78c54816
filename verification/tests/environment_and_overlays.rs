//! The environment's override semantics, the tooltip controller's timer
//! protocol, the overlay's clamping layout, and the scroll column.

use druid_core::ctx::EventCtx;
use druid_core::env::{Key, Val};
use druid_core::event::{Event, MouseEvent, TimerToken, WheelEvent};
use druid_core::geom::{Point, Size, Vec2};
use druid_core::pod::WidgetPod;
use druid_core::widgets::button::Label;
use druid_core::widgets::scroll_column::ScrollColumn;
use druid_core::widgets::tooltip::{tooltip_desc, TooltipOverlay, TooltipWrap};
use druid_core::{BoxConstraints, Controller, Env, Widget};

fn mouse_at(x: i64, y: i64) -> MouseEvent {
    MouseEvent { pos: Point { x, y }, window_pos: Point { x, y } }
}

#[test]
fn env_defaults_and_overrides() {
    let env = Env::new();
    assert_eq!(env.get_num(Key::TextSizeNormal), 15);
    assert_eq!(env.get_num(Key::HowTallThingsAre), 18);

    let bigger = env.with_added(Key::TextSizeNormal, Val::Num(20));
    assert_eq!(bigger.get_num(Key::TextSizeNormal), 20);
    // Other keys resolve as before.
    assert_eq!(bigger.get_num(Key::HowTallThingsAre), 18);

    // Equal keys: the last binding wins.
    let again = bigger.with_added(Key::TextSizeNormal, Val::Num(25));
    assert_eq!(again.get_num(Key::TextSizeNormal), 25);
}

#[test]
fn tooltip_shows_after_uncancelled_timer() {
    let mut wrap: TooltipWrap<i64> = TooltipWrap::new("tip");
    let mut child = Label::new("target");
    let mut data = 0i64;
    let env = Env::new();

    let mut ctx = EventCtx::new(Size { width: 100, height: 100 }, 0);
    ctx.hot = true;
    wrap.event(&mut child, &mut ctx, &Event::MouseMove(mouse_at(40, 40)), &mut data, &env);
    assert_eq!(ctx.timer_requests.len(), 1);
    let (tok_id, deadline) = ctx.timer_requests[0];
    assert_eq!(deadline, 500);

    // The timer fires after the full delay: the tooltip is requested.
    ctx.now_ms = 600;
    wrap.event(
        &mut child,
        &mut ctx,
        &Event::Timer(TimerToken { id: tok_id }),
        &mut data,
        &env,
    );
    let (text, pos) = ctx.tooltip_request.clone().expect("tooltip requested");
    assert_eq!(text, "tip");
    assert_eq!(pos, Point { x: 50, y: 50 });
}

#[test]
fn early_timer_rearms_for_the_remainder() {
    let mut wrap: TooltipWrap<i64> = TooltipWrap::new("tip");
    let mut child = Label::new("target");
    let mut data = 0i64;
    let env = Env::new();

    let mut ctx = EventCtx::new(Size { width: 100, height: 100 }, 0);
    ctx.hot = true;
    wrap.event(&mut child, &mut ctx, &Event::MouseMove(mouse_at(40, 40)), &mut data, &env);
    let (tok_id, _) = ctx.timer_requests[0];

    // The timer fires early (clock slack): no tooltip yet, but a fresh
    // timer for the remaining time is armed and its token stored.
    ctx.now_ms = 300;
    wrap.event(
        &mut child,
        &mut ctx,
        &Event::Timer(TimerToken { id: tok_id }),
        &mut data,
        &env,
    );
    assert!(ctx.tooltip_request.is_none());
    assert_eq!(ctx.timer_requests.len(), 2);
    let (tok2, deadline2) = ctx.timer_requests[1];
    assert_eq!(wrap.timer.id, tok2);
    assert_ne!(tok2, tok_id);
    // Re-armed at 300 for the 200 milliseconds still owed.
    assert_eq!(deadline2, 500);
}

#[test]
fn press_cancels_pending_tooltip() {
    let mut wrap: TooltipWrap<i64> = TooltipWrap::new("tip");
    let mut child = Label::new("target");
    let mut data = 0i64;
    let env = Env::new();

    let mut ctx = EventCtx::new(Size { width: 100, height: 100 }, 0);
    ctx.hot = true;
    wrap.event(&mut child, &mut ctx, &Event::MouseMove(mouse_at(40, 40)), &mut data, &env);
    let (tok_id, _) = ctx.timer_requests[0];

    // A press cancels; the stale timer firing is then ignored.
    wrap.event(&mut child, &mut ctx, &Event::MouseDown(mouse_at(40, 40)), &mut data, &env);
    ctx.now_ms = 600;
    wrap.event(
        &mut child,
        &mut ctx,
        &Event::Timer(TimerToken { id: tok_id }),
        &mut data,
        &env,
    );
    assert!(ctx.tooltip_request.is_none());
}

#[test]
fn overlay_layout_pulls_tooltip_inside_bounds() {
    let desc = tooltip_desc("hover help", Point { x: 95, y: -5 });
    assert!(desc.pass_through);
    let mut overlay = desc.widget;
    let env = Env::new();
    let bc = BoxConstraints {
        min: Size { width: 100, height: 100 },
        max: Size { width: 100, height: 100 },
    };
    let size = overlay.layout(&bc, &(), &env);
    assert_eq!(size, Size { width: 100, height: 100 });

    let rect = overlay.tooltip.layout_rect;
    // Pulled left so it fits, and down to the top edge.
    assert!(rect.origin.x + rect.size.width <= 100);
    assert_eq!(rect.origin.y, 0);
}

#[test]
fn overlay_dismisses_on_input() {
    let desc = tooltip_desc("hover help", Point { x: 10, y: 10 });
    let mut overlay = desc.widget;
    let env = Env::new();
    let mut ctx = EventCtx::new(Size { width: 100, height: 100 }, 0);
    let mut unit = ();
    overlay.event(&mut ctx, &Event::MouseDown(mouse_at(1, 1)), &mut unit, &env);
    assert!(ctx.modal_dismissed);
}

#[test]
fn scroll_column_scrolls_and_stops_at_top() {
    let mut col: ScrollColumn<i64, Label> =
        ScrollColumn::new().with_child(Label::new("a")).with_child(Label::new("b"));
    let env = Env::new();
    let mut ctx = EventCtx::new(Size { width: 100, height: 100 }, 0);
    let mut data = 0i64;

    let wheel = Event::Wheel(WheelEvent { delta: Vec2 { x: 0, y: 30 } });
    col.event(&mut ctx, &wheel, &mut data, &env);
    assert_eq!(col.scroll, 30);

    let back = Event::Wheel(WheelEvent { delta: Vec2 { x: 0, y: -100 } });
    col.event(&mut ctx, &back, &mut data, &env);
    assert_eq!(col.scroll, 0);
}

#[test]
fn scroll_column_stacks_children_with_offset() {
    let mut col: ScrollColumn<i64, Label> =
        ScrollColumn::new().with_child(Label::new("a")).with_child(Label::new("b"));
    col.scroll = 5;
    let env = Env::new();
    let bc = BoxConstraints {
        min: Size { width: 0, height: 0 },
        max: Size { width: 100, height: 100 },
    };
    col.layout(&bc, &0i64, &env);
    assert_eq!(col.children[0].layout_rect.origin, Point { x: 0, y: -5 });
    assert_eq!(col.children[1].layout_rect.origin, Point { x: 0, y: 15 });
}

#[test]
fn pod_capture_keeps_delivering_outside_moves() {
    // A pod delivers moves outside its bounds only while captured.
    let mut pod: WidgetPod<i64, Label> = WidgetPod::new(Label::new("x"));
    pod.set_layout_rect(druid_core::geom::Rect {
        origin: Point { x: 0, y: 0 },
        size: Size { width: 10, height: 10 },
    });
    let env = Env::new();
    let mut ctx = EventCtx::new(Size { width: 100, height: 100 }, 0);
    let mut data = 0i64;

    // A move inside makes it hot; one outside clears it again.
    pod.event(&mut ctx, &Event::MouseMove(mouse_at(5, 5)), &mut data, &env);
    assert!(pod.hot);
    pod.event(&mut ctx, &Event::MouseMove(mouse_at(50, 50)), &mut data, &env);
    assert!(!pod.hot);
}
