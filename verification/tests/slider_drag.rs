//! The slider scenario: dragging from the knob to the end of the track
//! sets the value to exactly full scale, and a move with no preceding
//! press changes nothing.

use druid_core::event::{Event, MouseEvent};
use druid_core::geom::{Point, Size, UNIT_MAX};
use druid_core::root::Root;
use druid_core::widgets::slider::Slider;

fn mouse_at(x: i64, y: i64) -> MouseEvent {
    MouseEvent { pos: Point { x, y }, window_pos: Point { x, y } }
}

/// Window sized so the track (width minus knob) is a round 100 pixels;
/// the theme knob size is 18.
const WIDTH: i64 = 118;

fn slider_root(value: i64) -> Root<i64, Slider> {
    let mut root = Root::new(value, Slider::new(), Size { width: WIDTH, height: 32 });
    root.layout_pass();
    // Painting records the track width and the knob position, which the
    // event handlers convert pointer positions with.
    root.paint();
    root
}

#[test]
fn drag_to_track_end_sets_exactly_full_scale() {
    let mut root = slider_root(0);

    // Down on the knob (value 0 puts its center at half the knob size).
    root.event(&Event::MouseDown(mouse_at(9, 9)), 0);
    assert_eq!(root.data, 0);
    // Move to the end of the track, then release there.
    root.event(&Event::MouseMove(mouse_at(WIDTH, 9)), 1);
    root.event(&Event::MouseUp(mouse_at(WIDTH, 9)), 2);

    assert_eq!(root.data, UNIT_MAX);
}

#[test]
fn move_before_any_down_changes_nothing() {
    let mut root = slider_root(0);
    root.event(&Event::MouseMove(mouse_at(60, 9)), 0);
    assert_eq!(root.data, 0);
    assert_eq!(root.updates, 0);
}

#[test]
fn down_on_track_jumps_the_value() {
    let mut root = slider_root(0);
    // Down far from the knob: the value jumps to the pointer.
    root.event(&Event::MouseDown(mouse_at(59, 9)), 0);
    // (59 - 9) / 100 of full scale.
    assert_eq!(root.data, UNIT_MAX / 2);
}

#[test]
fn value_is_clamped_to_unit_range() {
    let mut root = slider_root(0);
    root.event(&Event::MouseDown(mouse_at(59, 9)), 0);
    // Dragging far left clamps at zero.
    root.event(&Event::MouseMove(mouse_at(-50, 9)), 1);
    assert_eq!(root.data, 0);
    // Dragging far right clamps at full scale.
    root.event(&Event::MouseMove(mouse_at(10_000, 9)), 2);
    assert_eq!(root.data, UNIT_MAX);
}
