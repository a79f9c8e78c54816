//! Display-list painting: exact command output of the simple widgets and
//! the pod's scoped offset.

use druid_core::ctx::BaseState;
use druid_core::geom::{Point, Size, UNIT_MAX};
use druid_core::paint::DrawCmd;
use druid_core::pod::WidgetPod;
use druid_core::widgets::button::Label;
use druid_core::widgets::checkbox::CheckBoxRaw;
use druid_core::widgets::progress_bar::ProgressBar;
use druid_core::widgets::spinner::Spinner;
use druid_core::{Env, PaintCtx, Widget};

fn base(width: i64, height: i64) -> BaseState {
    BaseState::new(Size { width, height })
}

#[test]
fn label_paints_background_then_text() {
    let mut label = Label::new("hi");
    let env = Env::new();
    let mut ctx = PaintCtx::new();
    Widget::<i64>::paint(&mut label, &mut ctx, &base(40, 20), &0i64, &env);

    assert_eq!(ctx.cmds.len(), 2);
    assert!(matches!(ctx.cmds[0], DrawCmd::FillRect { .. }));
    match &ctx.cmds[1] {
        DrawCmd::Text { text, .. } => assert_eq!(text, "hi"),
        other => panic!("expected text, got {:?}", other),
    }
}

#[test]
fn checkbox_paints_mark_only_when_set() {
    let env = Env::new();

    let mut ctx = PaintCtx::new();
    CheckBoxRaw.paint(&mut ctx, &base(18, 18), &false, &env);
    assert_eq!(ctx.cmds.len(), 2);

    let mut ctx = PaintCtx::new();
    CheckBoxRaw.paint(&mut ctx, &base(18, 18), &true, &env);
    assert_eq!(ctx.cmds.len(), 3);
    match &ctx.cmds[2] {
        DrawCmd::Polyline { points, .. } => assert_eq!(points.len(), 3),
        other => panic!("expected the check mark, got {:?}", other),
    }
}

#[test]
fn progress_bar_fills_the_exact_fraction() {
    let env = Env::new();
    let mut ctx = PaintCtx::new();
    ProgressBar.paint(&mut ctx, &base(100, 30), &(UNIT_MAX / 2), &env);

    assert_eq!(ctx.cmds.len(), 3);
    match &ctx.cmds[2] {
        DrawCmd::FillRect { rect, .. } => {
            assert_eq!(rect.size.width, 50);
            assert_eq!(rect.size.height, 18);
        },
        other => panic!("expected the bar fill, got {:?}", other),
    }

    // Out-of-range values clamp: an overfull value fills the whole bar.
    let mut ctx = PaintCtx::new();
    ProgressBar.paint(&mut ctx, &base(100, 30), &(UNIT_MAX * 5), &env);
    match &ctx.cmds[2] {
        DrawCmd::FillRect { rect, .. } => assert_eq!(rect.size.width, 100),
        other => panic!("expected the bar fill, got {:?}", other),
    }
}

#[test]
fn spinner_paints_twelve_spokes() {
    let env = Env::new();
    let mut ctx = PaintCtx::new();
    let mut spinner = Spinner::new();
    Widget::<i64>::paint(&mut spinner, &mut ctx, &base(40, 40), &0i64, &env);
    assert_eq!(ctx.cmds.len(), 12);
    for c in &ctx.cmds {
        assert!(matches!(c, DrawCmd::Line { .. }));
    }
}

#[test]
fn pod_wraps_child_painting_in_a_scoped_offset() {
    let env = Env::new();
    let mut pod: WidgetPod<i64, Label> = WidgetPod::new(Label::new("x"));
    pod.set_layout_rect(druid_core::geom::Rect {
        origin: Point { x: 5, y: 7 },
        size: Size { width: 30, height: 10 },
    });

    let mut ctx = PaintCtx::new();
    pod.paint_with_offset(&mut ctx, &0i64, &env);

    assert!(matches!(ctx.cmds[0], DrawCmd::Save));
    match &ctx.cmds[1] {
        DrawCmd::Transform { offset } => {
            assert_eq!(offset.x, 5);
            assert_eq!(offset.y, 7);
        },
        other => panic!("expected the offset transform, got {:?}", other),
    }
    assert!(matches!(ctx.cmds.last().unwrap(), DrawCmd::Restore));

    // Every opened scope is closed again.
    let saves = ctx.cmds.iter().filter(|c| matches!(c, DrawCmd::Save)).count();
    let restores = ctx.cmds.iter().filter(|c| matches!(c, DrawCmd::Restore)).count();
    assert_eq!(saves, restores);
}
