//! Flex distribution: fixed children get their intrinsic size first, the
//! rest of the main axis is shared in proportion to the flex weights, and
//! children are stacked consecutively.

use druid_core::constraints::BoxConstraints;
use druid_core::geom::Size;
use druid_core::widgets::button::Label;
use druid_core::widgets::flex::{Axis, Flex};
use druid_core::{Env, Widget};

#[test]
fn row_shares_remaining_space_by_weight() {
    let env = Env::new();
    let mut row: Flex<i64, Label> = Flex::row();
    // A fixed label: three characters at the default advance of 8 = 24.
    row.add_child(Label::new("abc"), 0);
    row.add_child(Label::new("x"), 1);
    row.add_child(Label::new("y"), 3);

    let bc = BoxConstraints {
        min: Size { width: 0, height: 0 },
        max: Size { width: 124, height: 40 },
    };
    let size = row.layout(&bc, &0i64, &env);

    // The fixed child keeps its intrinsic width; the two flexible ones
    // split the remaining 100 in the ratio one to three.
    assert_eq!(row.children[0].0.layout_rect.size.width, 24);
    assert_eq!(row.children[1].0.layout_rect.size.width, 25);
    assert_eq!(row.children[2].0.layout_rect.size.width, 75);

    // Consecutive stacking: each child starts where the previous ended.
    assert_eq!(row.children[0].0.layout_rect.origin.x, 0);
    assert_eq!(row.children[1].0.layout_rect.origin.x, 24);
    assert_eq!(row.children[2].0.layout_rect.origin.x, 49);

    assert_eq!(size.width, 124);
}

#[test]
fn column_stacks_vertically() {
    let env = Env::new();
    let mut col: Flex<i64, Label> = Flex::column();
    col.add_child(Label::new("a"), 0);
    col.add_child(Label::new("b"), 0);
    assert_eq!(col.axis, Axis::Vertical);

    let bc = BoxConstraints {
        min: Size { width: 0, height: 0 },
        max: Size { width: 100, height: 100 },
    };
    col.layout(&bc, &0i64, &env);

    let h0 = col.children[0].0.layout_rect.size.height;
    assert_eq!(col.children[0].0.layout_rect.origin.y, 0);
    assert_eq!(col.children[1].0.layout_rect.origin.y, h0);
    assert_eq!(col.children[1].0.layout_rect.origin.x, 0);
}

#[test]
fn flex_in_unbounded_space_gives_flexible_children_nothing_extra() {
    let env = Env::new();
    let mut row: Flex<i64, Label> = Flex::row();
    row.add_child(Label::new("ab"), 1);
    let bc = BoxConstraints {
        min: Size { width: 0, height: 0 },
        max: Size { width: druid_core::geom::MAX_DIM, height: 40 },
    };
    let size = row.layout(&bc, &0i64, &env);
    // No bounded space to distribute: the flexible child collapses to
    // its minimum rather than an infinite width being propagated.
    assert_eq!(row.children[0].0.layout_rect.size.width, 0);
    assert!(size.width < druid_core::geom::MAX_DIM);
}
