//! The dynamic list: pods appear and disappear with the data, each
//! element's widget edits exactly its own element.

use druid_core::event::{Event, MouseEvent};
use druid_core::geom::{Point, Size};
use druid_core::root::Root;
use druid_core::widgets::checkbox::CheckBoxRaw;
use druid_core::widgets::list::List;

fn mouse_at(x: i64, y: i64) -> MouseEvent {
    MouseEvent { pos: Point { x, y }, window_pos: Point { x, y } }
}

#[test]
fn clicking_one_row_toggles_only_that_element() {
    let list = List::new(|| CheckBoxRaw);
    let data: Vec<bool> = vec![false, false, false];
    let mut root = Root::new(data, list, Size { width: 100, height: 100 });
    root.layout_pass();

    // The checkboxes are 18 tall and stacked: row one starts at 18.
    root.event(&Event::MouseDown(mouse_at(5, 22)), 0);
    root.event(&Event::MouseUp(mouse_at(5, 22)), 1);

    assert_eq!(root.data, vec![false, true, false]);
    assert_eq!(root.updates, 1);
}

#[test]
fn pods_follow_the_data_length() {
    let list = List::new(|| CheckBoxRaw);
    let data: Vec<bool> = vec![false];
    let mut root = Root::new(data, list, Size { width: 100, height: 100 });
    root.layout_pass();
    assert_eq!(root.pod.child.children.len(), 1);

    // Growing the data grows the tree on the next layout pass.
    root.data.push(true);
    root.layout_pass();
    assert_eq!(root.pod.child.children.len(), 2);

    // Shrinking the data drops the extra pods again.
    root.data.clear();
    root.layout_pass();
    assert_eq!(root.pod.child.children.len(), 0);
}
