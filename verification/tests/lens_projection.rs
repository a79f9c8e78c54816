//! Lens behavior: the stored-field round trip, write-back suppression,
//! and pair independence.

use druid_core::event::{Event, MouseEvent};
use druid_core::geom::{Point, Size};
use druid_core::lens::{First, LensWrap, PairWrap, Second};
use druid_core::root::Root;
use druid_core::widgets::button::Label;
use druid_core::widgets::checkbox::CheckBoxRaw;
use druid_core::Lens;

fn mouse_at(x: i64, y: i64) -> MouseEvent {
    MouseEvent { pos: Point { x, y }, window_pos: Point { x, y } }
}

#[test]
fn lens_round_trip_on_stored_field() {
    let first = First;
    let mut state: (i64, i64) = (1, 99);

    // Project, replace the projected value, write back.
    let seen: i64 = first.get(&state);
    assert_eq!(seen, 1);
    first.put(&mut state, 42);

    // The projected field took the written value; the sibling is intact.
    assert_eq!(state, (42, 99));
    let back: i64 = first.get(&state);
    assert_eq!(back, 42);
}

#[test]
fn second_lens_leaves_first_untouched() {
    let second = Second;
    let mut state: (i64, i64) = (7, 8);
    second.put(&mut state, -3);
    assert_eq!(state, (7, -3));
}

#[test]
fn write_back_suppression_no_update_on_noop() {
    // A label never mutates its data, so wrapping it in a lens must not
    // mark the ancestor as changed: no update pass runs.
    let widget: LensWrap<i64, First, Label> = LensWrap::new(Label::new("inert"), First);
    let mut root = Root::new((5i64, 6i64), widget, Size { width: 100, height: 40 });
    root.layout_pass();

    root.event(&Event::MouseDown(mouse_at(10, 10)), 0);
    root.event(&Event::MouseUp(mouse_at(10, 10)), 1);

    assert_eq!(root.data, (5, 6));
    assert_eq!(root.updates, 0);
}

#[test]
fn real_change_triggers_exactly_one_update() {
    // A checkbox through a lens onto the first component: a full click
    // toggles it, and the diff-aware pass runs once per actual change.
    let widget: LensWrap<bool, First, CheckBoxRaw> = LensWrap::new(CheckBoxRaw, First);
    let mut root = Root::new((false, true), widget, Size { width: 100, height: 40 });
    root.layout_pass();

    root.event(&Event::MouseDown(mouse_at(5, 5)), 0);
    assert_eq!(root.updates, 0);
    root.event(&Event::MouseUp(mouse_at(5, 5)), 1);

    assert_eq!(root.data, (true, true));
    assert_eq!(root.updates, 1);
}

#[test]
fn pair_independence_only_touched_component_written() {
    // Project (bool, bool) through two independent lenses; the child
    // mutates only the first component, so the second keeps its value
    // and only the first write-back fires.
    let child: LensWrap<bool, First, CheckBoxRaw> = LensWrap::new(CheckBoxRaw, First);
    let widget: PairWrap<bool, bool, First, Second, _> = PairWrap::new(child, First, Second);
    let mut root = Root::new((false, false), widget, Size { width: 100, height: 40 });
    root.layout_pass();

    root.event(&Event::MouseDown(mouse_at(5, 5)), 0);
    root.event(&Event::MouseUp(mouse_at(5, 5)), 1);

    assert_eq!(root.data, (true, false));
}
