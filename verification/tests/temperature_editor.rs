//! The Celsius/Fahrenheit two-way editor: prism discard-on-invalid, and
//! the conversion scenario.

use druid_core::ctx::{EventCtx, UpdateCtx};
use druid_core::event::{Event, KeyCode, KeyEvent, Mods};
use druid_core::geom::Size;
use druid_core::numfmt::{format_centi, parse_centi};
use druid_core::temperature::{c_to_f, f_to_c, TempCelsiusPrism, TempFahrenheitPrism};
use druid_core::widgets::adapt::{Adapt, Prism};
use druid_core::widgets::textbox::TextBox;
use druid_core::{Env, Widget};

fn key(code: KeyCode, cmd: bool, text: &str) -> Event {
    Event::KeyDown(KeyEvent {
        code,
        mods: Mods { cmd, shift: false },
        text: String::from(text),
    })
}

fn fresh_ctx() -> EventCtx {
    EventCtx::new(Size { width: 100, height: 32 }, 0)
}

#[test]
fn prism_down_rejects_non_numeric_text() {
    let prism = TempFahrenheitPrism;
    assert_eq!(prism.down(String::from("abc")), None);
    assert_eq!(prism.down(String::from("")), None);
    assert_eq!(prism.down(String::from("12..3")), None);
    assert_eq!(prism.down(String::from("1e5")), None);
}

#[test]
fn invalid_edit_is_discarded_and_celsius_unchanged() {
    let mut editor = Adapt::new(TextBox::new(), TempFahrenheitPrism);
    let mut celsius: i64 = 1234;
    let env = Env::new();
    let mut ctx = fresh_ctx();

    // Select everything, then type something non-numeric.
    editor.event(&mut ctx, &key(KeyCode::KeyA, true, ""), &mut celsius, &env);
    editor.event(&mut ctx, &key(KeyCode::Other, false, "abc"), &mut celsius, &env);

    assert_eq!(celsius, 1234);
}

#[test]
fn typing_fahrenheit_updates_celsius() {
    // Starting at 0.00 degrees Celsius, typing "100" into the Fahrenheit
    // field yields 37.78 degrees Celsius.
    let mut editor = Adapt::new(TextBox::new(), TempFahrenheitPrism);
    let mut celsius: i64 = 0;
    let env = Env::new();
    let mut ctx = fresh_ctx();

    editor.event(&mut ctx, &key(KeyCode::KeyA, true, ""), &mut celsius, &env);
    editor.event(&mut ctx, &key(KeyCode::Other, false, "100"), &mut celsius, &env);

    assert_eq!(celsius, 3778);
}

#[test]
fn typing_celsius_zero_shows_fahrenheit_32() {
    let mut editor = Adapt::new(TextBox::new(), TempCelsiusPrism);
    let mut celsius: i64 = 555;
    let env = Env::new();
    let mut ctx = fresh_ctx();

    editor.event(&mut ctx, &key(KeyCode::KeyA, true, ""), &mut celsius, &env);
    editor.event(&mut ctx, &key(KeyCode::Other, false, "0"), &mut celsius, &env);
    assert_eq!(celsius, 0);

    let fahrenheit_text = TempFahrenheitPrism.up(&celsius);
    assert_eq!(fahrenheit_text, String::from("32.00"));
}

#[test]
fn unchanged_projection_skips_the_child_update() {
    let mut editor = Adapt::new(TextBox::new(), TempFahrenheitPrism);
    let env = Env::new();

    // The projected text is the same for equal values: the child update
    // is skipped and nothing is invalidated.
    let mut uctx = UpdateCtx::new();
    editor.update(&mut uctx, Some(&500i64), &500i64, &env);
    assert!(!uctx.invalidated);

    // A real change reaches the child, which asks for a repaint.
    let mut uctx = UpdateCtx::new();
    editor.update(&mut uctx, Some(&500i64), &600i64, &env);
    assert!(uctx.invalidated);
}

#[test]
fn conversion_formulas_round_half_away() {
    assert_eq!(c_to_f(0), 3200);
    assert_eq!(f_to_c(10000), 3778);
    assert_eq!(f_to_c(3200), 0);
    assert_eq!(c_to_f(10000), 21200);
    assert_eq!(c_to_f(-4000), -4000);
    assert_eq!(f_to_c(-4000), -4000);
}

#[test]
fn format_centi_has_two_decimals() {
    assert_eq!(format_centi(3778), String::from("37.78"));
    assert_eq!(format_centi(0), String::from("0.00"));
    assert_eq!(format_centi(-225), String::from("-2.25"));
    assert_eq!(format_centi(100), String::from("1.00"));
    assert_eq!(format_centi(5), String::from("0.05"));
}

#[test]
fn parse_centi_accepts_plain_and_decimal() {
    assert_eq!(parse_centi("100"), Some(10000));
    assert_eq!(parse_centi("1.5"), Some(150));
    assert_eq!(parse_centi("-2.25"), Some(-225));
    assert_eq!(parse_centi("0"), Some(0));
    assert_eq!(parse_centi("37.78"), Some(3778));
}

#[test]
fn parse_centi_rejects_malformed_text() {
    assert_eq!(parse_centi(""), None);
    assert_eq!(parse_centi("abc"), None);
    assert_eq!(parse_centi("12.345"), None);
    assert_eq!(parse_centi("1.2.3"), None);
    assert_eq!(parse_centi("-"), None);
    assert_eq!(parse_centi("."), None);
    assert_eq!(parse_centi("12."), None);
    assert_eq!(parse_centi("1234567890123456"), None);
}
