//! The numeric textbox: formatted display, parsed write-back, and the
//! keystroke cache surviving invalid edits.

use druid_core::ctx::{BaseState, EventCtx};
use druid_core::event::{Event, KeyCode, KeyEvent, Mods, TimerToken};
use druid_core::geom::Size;
use druid_core::paint::DrawCmd;
use druid_core::widgets::numeric_textbox::NumericTextBox;
use druid_core::{Env, PaintCtx, Widget};

fn key(code: KeyCode, cmd: bool, text: &str) -> Event {
    Event::KeyDown(KeyEvent {
        code,
        mods: Mods { cmd, shift: false },
        text: String::from(text),
    })
}

fn fresh_ctx() -> EventCtx {
    EventCtx::new(Size { width: 100, height: 32 }, 0)
}

fn painted_text(ntb: &mut NumericTextBox, data: i64, focused: bool) -> String {
    let env = Env::new();
    let mut ctx = PaintCtx::new();
    let mut base = BaseState::new(Size { width: 100, height: 32 });
    base.focus = focused;
    ntb.paint(&mut ctx, &base, &data, &env);
    for c in &ctx.cmds {
        if let DrawCmd::Text { text, .. } = c {
            return text.clone();
        }
    }
    panic!("no text was painted");
}

#[test]
fn displays_the_value_with_two_decimals() {
    let mut ntb = NumericTextBox::new();
    assert_eq!(painted_text(&mut ntb, 150, false), "1.50");
    assert_eq!(painted_text(&mut ntb, 0, false), "0.00");
    assert_eq!(painted_text(&mut ntb, -325, false), "-3.25");
}

#[test]
fn valid_edit_writes_the_value_back() {
    let mut ntb = NumericTextBox::new();
    let mut value: i64 = 0;
    let env = Env::new();
    let mut ctx = fresh_ctx();

    ntb.event(&mut ctx, &key(KeyCode::KeyA, true, ""), &mut value, &env);
    ntb.event(&mut ctx, &key(KeyCode::Other, false, "2.5"), &mut value, &env);

    assert_eq!(value, 250);
    assert_eq!(ntb.cache, "2.5");
}

#[test]
fn event_that_edits_nothing_never_writes_back() {
    // A focused box whose cache diverges from the stored value: an event
    // that does not change the text must not quantize the value.
    let mut ntb = NumericTextBox::new();
    let mut value: i64 = 12345;
    let env = Env::new();
    let mut ctx = fresh_ctx();
    ctx.focused = true;
    ntb.cache = String::from("9");

    ntb.event(&mut ctx, &Event::HotChanged(true), &mut value, &env);
    assert_eq!(value, 12345);

    ntb.event(&mut ctx, &Event::Timer(TimerToken { id: 7 }), &mut value, &env);
    assert_eq!(value, 12345);

    // A no-op key (an unmatched shortcut) also leaves the value alone.
    ntb.event(&mut ctx, &key(KeyCode::Other, true, ""), &mut value, &env);
    assert_eq!(value, 12345);
}

#[test]
fn invalid_edit_keeps_value_and_caches_keystrokes() {
    let mut ntb = NumericTextBox::new();
    let mut value: i64 = 4200;
    let env = Env::new();
    let mut ctx = fresh_ctx();

    ntb.event(&mut ctx, &key(KeyCode::KeyA, true, ""), &mut value, &env);
    ntb.event(&mut ctx, &key(KeyCode::Other, false, "not a number"), &mut value, &env);

    // The value is untouched, but the user's literal text is kept, so
    // keystrokes are not lost while the box shows it.
    assert_eq!(value, 4200);
    assert_eq!(ntb.cache, "not a number");

    // While focused, the cache is what gets painted.
    assert_eq!(painted_text(&mut ntb, value, true), "not a number");
}
