//! Container behavior: alignment offsets, padding insets, the sized box,
//! and the button construction variants.

use druid_core::constraints::BoxConstraints;
use druid_core::geom::{Point, Size, UnitPoint};
use druid_core::widgets::align::Align;
use druid_core::widgets::button::{Button, Label};
use druid_core::widgets::padding::Padding;
use druid_core::widgets::sizedbox::SizedBox;
use druid_core::{Env, Widget};

fn bounded(w: i64, h: i64) -> BoxConstraints {
    BoxConstraints { min: Size { width: 0, height: 0 }, max: Size { width: w, height: h } }
}

#[test]
fn align_centers_its_child() {
    let env = Env::new();
    // A label of text width 2 * 8 = 16 and height 18 centered in 100 x 50.
    let mut align: Align<i64, Label> = Align::centered(Label::new("ab"));
    let size = align.layout(&bounded(100, 50), &0i64, &env);
    assert_eq!(size, Size { width: 100, height: 50 });

    let rect = align.child.layout_rect;
    assert_eq!(rect.size, Size { width: 16, height: 18 });
    assert_eq!(rect.origin, Point { x: (100 - 16) / 2, y: (50 - 18) / 2 });
}

#[test]
fn align_left_keeps_child_at_left_edge() {
    let env = Env::new();
    let mut align: Align<i64, Label> = Align::new(UnitPoint::left(), Label::new("ab"));
    align.layout(&bounded(100, 50), &0i64, &env);
    assert_eq!(align.child.layout_rect.origin.x, 0);
}

#[test]
fn padding_insets_the_child() {
    let env = Env::new();
    let mut pad: Padding<i64, Label> = Padding::uniform(5, Label::new("ab"));
    let size = Widget::<i64>::layout(&mut pad, &bounded(100, 50), &0i64, &env);

    // The child sits at the inset origin; the box grows by the insets.
    assert_eq!(pad.child.layout_rect.origin, Point { x: 5, y: 5 });
    assert_eq!(size, Size { width: 16 + 10, height: 18 + 10 });
}

#[test]
fn sizedbox_fixes_the_chosen_axes() {
    let env = Env::new();

    let mut both = SizedBox::new(Some(40), Some(30), Label::new("ab"));
    let size = Widget::<i64>::layout(&mut both, &bounded(100, 100), &0i64, &env);
    assert_eq!(size, Size { width: 40, height: 30 });

    let mut width_only = SizedBox::new(Some(40), None, Label::new("ab"));
    let size = Widget::<i64>::layout(&mut width_only, &bounded(100, 100), &0i64, &env);
    assert_eq!(size.width, 40);
    assert_eq!(size.height, 18);

    let mut neither = SizedBox::new(None, None, Label::new("ab"));
    let size = Widget::<i64>::layout(&mut neither, &bounded(100, 100), &0i64, &env);
    assert_eq!(size, Size { width: 16, height: 18 });
}

#[test]
fn button_variants_lay_out() {
    let env = Env::new();

    // The plain button fills bounded space.
    let mut plain = Button::<i64, Label>::new("go");
    let size = plain.layout(&bounded(80, 40), &0i64, &env);
    assert_eq!(size, Size { width: 80, height: 40 });

    // The shrink-to-fit button takes the label's size.
    let mut shrink = Button::<i64, Label>::shrink_to_fit("go");
    let size = shrink.layout(&bounded(80, 40), &0i64, &env);
    assert_eq!(size, Size { width: 16, height: 18 });

    // The sized button takes its requested size.
    let mut sized = Button::<i64, _>::sized("go", 60, 22);
    let size = sized.layout(&bounded(80, 40), &0i64, &env);
    assert_eq!(size, Size { width: 60, height: 22 });

    // The padded button grows around its label.
    let mut padded = Button::<i64, _>::padded("go", 4, 4);
    let size = padded.layout(&bounded(80, 40), &0i64, &env);
    assert_eq!(size, Size { width: 16 + 8, height: 18 + 8 });
}
