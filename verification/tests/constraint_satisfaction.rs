//! Constraint satisfaction: every widget's layout returns a size inside
//! the constraints it was given, for a spread of constraint pairs.

use druid_core::constraints::BoxConstraints;
use druid_core::geom::{Size, MAX_DIM};
use druid_core::widgets::button::{Button, Label};
use druid_core::widgets::checkbox::CheckBoxRaw;
use druid_core::widgets::progress_bar::ProgressBar;
use druid_core::widgets::sizedbox::SizedBox;
use druid_core::widgets::slider::Slider;
use druid_core::widgets::textbox::TextBox;
use druid_core::{Env, Widget};

fn sample_constraints() -> Vec<BoxConstraints> {
    let pairs: Vec<((i64, i64), (i64, i64))> = vec![
        ((0, 0), (0, 0)),
        ((0, 0), (100, 50)),
        ((10, 10), (10, 10)),
        ((5, 8), (300, 200)),
        ((0, 0), (MAX_DIM, MAX_DIM)),
        ((50, 40), (MAX_DIM, MAX_DIM)),
        ((1, 1), (2, 2)),
    ];
    pairs
        .into_iter()
        .map(|((minw, minh), (maxw, maxh))| BoxConstraints {
            min: Size { width: minw, height: minh },
            max: Size { width: maxw, height: maxh },
        })
        .collect()
}

fn assert_sat(bc: &BoxConstraints, size: Size) {
    assert!(bc.min.width <= size.width && size.width <= bc.max.width);
    assert!(bc.min.height <= size.height && size.height <= bc.max.height);
}

#[test]
fn checkbox_layout_satisfies_constraints() {
    let env = Env::new();
    for bc in sample_constraints() {
        let mut w = CheckBoxRaw;
        let size = w.layout(&bc, &true, &env);
        assert_sat(&bc, size);
    }
}

#[test]
fn slider_layout_satisfies_constraints() {
    let env = Env::new();
    for bc in sample_constraints() {
        let mut w = Slider::new();
        let size = w.layout(&bc, &0i64, &env);
        assert_sat(&bc, size);
    }
}

#[test]
fn progress_bar_layout_satisfies_constraints() {
    let env = Env::new();
    for bc in sample_constraints() {
        let mut w = ProgressBar;
        let size = w.layout(&bc, &0i64, &env);
        assert_sat(&bc, size);
    }
}

#[test]
fn label_layout_satisfies_constraints() {
    let env = Env::new();
    for bc in sample_constraints() {
        let mut w = Label::new("hello");
        let size = Widget::<i64>::layout(&mut w, &bc, &0i64, &env);
        assert_sat(&bc, size);
    }
}

#[test]
fn textbox_layout_satisfies_constraints() {
    let env = Env::new();
    for bc in sample_constraints() {
        let mut w = TextBox::new();
        let size = w.layout(&bc, &String::from("some text"), &env);
        assert_sat(&bc, size);
    }
}

#[test]
fn button_layout_satisfies_constraints() {
    let env = Env::new();
    for bc in sample_constraints() {
        let mut w = Button::<i64, Label>::new("press");
        let size = w.layout(&bc, &0i64, &env);
        assert_sat(&bc, size);
    }
}

#[test]
fn sizedbox_layout_satisfies_constraints() {
    let env = Env::new();
    for bc in sample_constraints() {
        let mut w = SizedBox::new(Some(500), None, Label::new("x"));
        let size = Widget::<i64>::layout(&mut w, &bc, &0i64, &env);
        assert_sat(&bc, size);
    }
}

#[test]
fn slider_falls_back_to_default_width_when_unbounded() {
    let env = Env::new();
    let bc = BoxConstraints {
        min: Size { width: 0, height: 0 },
        max: Size { width: MAX_DIM, height: MAX_DIM },
    };
    let mut w = Slider::new();
    let size = w.layout(&bc, &0i64, &env);
    assert_eq!(size.width, 100);
}

#[test]
fn constrain_clamps_out_of_range_sizes() {
    let bc = BoxConstraints {
        min: Size { width: 10, height: 20 },
        max: Size { width: 100, height: 200 },
    };
    assert_eq!(
        bc.constrain(Size { width: 5, height: 300 }),
        Size { width: 10, height: 200 }
    );
    assert_eq!(
        bc.constrain(Size { width: 50, height: 50 }),
        Size { width: 50, height: 50 }
    );
}
