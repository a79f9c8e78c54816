//! The counter scenario: three clicks on a button yield a count of three,
//! and the dynamic label renders it as "3".

use druid_core::ctx::BaseState;
use druid_core::event::{Event, MouseEvent};
use druid_core::geom::{Point, Size};
use druid_core::paint::DrawCmd;
use druid_core::root::Root;
use druid_core::widgets::button::{Button, DynLabel, Label};
use druid_core::{Env, PaintCtx, Widget};

fn mouse_at(x: i64, y: i64) -> MouseEvent {
    MouseEvent { pos: Point { x, y }, window_pos: Point { x, y } }
}

#[test]
fn three_clicks_count_to_three() {
    let button = Button::<i64, Label>::new("Count");
    let mut root = Root::new(0i64, button, Size { width: 200, height: 50 });
    root.layout_pass();

    for i in 0..3u64 {
        let down = root.event(&Event::MouseDown(mouse_at(20, 20)), i * 10);
        assert!(down.is_none());
        let up = root.event(&Event::MouseUp(mouse_at(20, 20)), i * 10 + 5);
        let action = up.expect("a completed click bubbles an action");
        assert!(action.is("hit"));
        root.data += 1;
    }

    assert_eq!(root.data, 3);
}

#[test]
fn release_outside_button_does_not_fire() {
    let button = Button::<i64, Label>::new("Count");
    let mut root = Root::new(0i64, button, Size { width: 200, height: 50 });
    root.layout_pass();

    root.event(&Event::MouseDown(mouse_at(20, 20)), 0);
    // Drag off the button before releasing: captured, but not hot.
    root.event(&Event::MouseMove(mouse_at(500, 500)), 1);
    let up = root.event(&Event::MouseUp(mouse_at(500, 500)), 2);
    assert!(up.is_none());
}

#[test]
fn dynamic_label_renders_the_count() {
    let mut label = DynLabel::new(|d: &i64, _env: &Env| format!("{}", d));
    let env = Env::new();
    let mut ctx = PaintCtx::new();
    let base = BaseState::new(Size { width: 100, height: 20 });

    Widget::<i64>::paint(&mut label, &mut ctx, &base, &3i64, &env);

    assert_eq!(ctx.cmds.len(), 1);
    match &ctx.cmds[0] {
        DrawCmd::Text { text, .. } => assert_eq!(text, "3"),
        other => panic!("expected a text command, got {:?}", other),
    }
}
