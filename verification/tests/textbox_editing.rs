//! Textbox editing: selections, grapheme-aware cursor movement, typing,
//! backspace, clipboard shortcuts, and the scroll offset.

use druid_core::ctx::EventCtx;
use druid_core::event::{Event, KeyCode, KeyEvent, Mods, MouseEvent, TimerToken};
use druid_core::geom::{Point, Size};
use druid_core::root::Root;
use druid_core::widgets::textbox::{next_grapheme, prev_grapheme, Selection, TextBox};
use druid_core::{Env, Widget};

fn key(code: KeyCode, cmd: bool, shift: bool, text: &str) -> Event {
    Event::KeyDown(KeyEvent { code, mods: Mods { cmd, shift }, text: String::from(text) })
}

fn typed(text: &str) -> Event {
    key(KeyCode::Other, false, false, text)
}

fn fresh_ctx() -> EventCtx {
    EventCtx::new(Size { width: 50, height: 32 }, 0)
}

#[test]
fn selection_accessors() {
    let sel = Selection::new(7, 2);
    assert!(!sel.is_caret());
    assert_eq!(sel.min(), 2);
    assert_eq!(sel.max(), 7);
    assert_eq!(sel.range(), (2, 7));

    let caret = Selection::caret(4);
    assert!(caret.is_caret());
    assert_eq!(caret.min(), 4);
    assert_eq!(caret.max(), 4);
}

#[test]
fn grapheme_boundaries_on_ascii() {
    let s = "abc";
    assert_eq!(next_grapheme(s, 0), 1);
    assert_eq!(next_grapheme(s, 2), 3);
    assert_eq!(next_grapheme(s, 3), 3);
    assert_eq!(prev_grapheme(s, 3), 2);
    assert_eq!(prev_grapheme(s, 1), 0);
    assert_eq!(prev_grapheme(s, 0), 0);
}

#[test]
fn grapheme_boundaries_respect_combining_marks() {
    // 'a' plus a combining mark forms one two-character cluster.
    let s = "a\u{310}e";
    assert_eq!(next_grapheme(s, 0), 2);
    assert_eq!(next_grapheme(s, 2), 3);
    assert_eq!(prev_grapheme(s, 2), 0);
    assert_eq!(prev_grapheme(s, 3), 2);
}

#[test]
fn empty_string_has_no_boundaries() {
    assert_eq!(next_grapheme("", 0), 0);
    assert_eq!(prev_grapheme("", 0), 0);
}

#[test]
fn typing_appends_and_backspace_deletes() {
    let mut tb = TextBox::new();
    let mut data = String::new();
    let env = Env::new();
    let mut ctx = fresh_ctx();

    tb.event(&mut ctx, &typed("a"), &mut data, &env);
    tb.event(&mut ctx, &typed("b"), &mut data, &env);
    assert_eq!(data, "ab");

    tb.event(&mut ctx, &key(KeyCode::Backspace, false, false, ""), &mut data, &env);
    assert_eq!(data, "a");
}

#[test]
fn backspace_removes_a_whole_grapheme() {
    let mut tb = TextBox::new();
    let mut data = String::new();
    let env = Env::new();
    let mut ctx = fresh_ctx();

    tb.event(&mut ctx, &typed("x"), &mut data, &env);
    tb.event(&mut ctx, &typed("a\u{310}"), &mut data, &env);
    assert_eq!(data, "xa\u{310}");

    tb.event(&mut ctx, &key(KeyCode::Backspace, false, false, ""), &mut data, &env);
    assert_eq!(data, "x");
}

#[test]
fn arrows_move_the_caret() {
    let mut tb = TextBox::new();
    let mut data = String::new();
    let env = Env::new();
    let mut ctx = fresh_ctx();

    tb.event(&mut ctx, &typed("abc"), &mut data, &env);
    tb.event(&mut ctx, &key(KeyCode::ArrowLeft, false, false, ""), &mut data, &env);
    tb.event(&mut ctx, &typed("X"), &mut data, &env);
    assert_eq!(data, "abXc");

    // Jump to the start, then type.
    tb.event(&mut ctx, &key(KeyCode::ArrowLeft, true, false, ""), &mut data, &env);
    tb.event(&mut ctx, &typed("Y"), &mut data, &env);
    assert_eq!(data, "YabXc");

    // Jump to the end, then type.
    tb.event(&mut ctx, &key(KeyCode::ArrowRight, true, false, ""), &mut data, &env);
    tb.event(&mut ctx, &typed("Z"), &mut data, &env);
    assert_eq!(data, "YabXcZ");
}

#[test]
fn select_all_and_replace() {
    let mut tb = TextBox::new();
    let mut data = String::from("old text");
    let env = Env::new();
    let mut ctx = fresh_ctx();

    tb.event(&mut ctx, &key(KeyCode::KeyA, true, false, ""), &mut data, &env);
    tb.event(&mut ctx, &typed("new"), &mut data, &env);
    assert_eq!(data, "new");
}

#[test]
fn copy_and_paste_through_the_clipboard() {
    let mut tb = TextBox::new();
    let mut data = String::from("hello");
    let env = Env::new();
    let mut ctx = fresh_ctx();

    // Select all, copy, jump to the end, paste.
    tb.event(&mut ctx, &key(KeyCode::KeyA, true, false, ""), &mut data, &env);
    tb.event(&mut ctx, &key(KeyCode::KeyC, true, false, ""), &mut data, &env);
    assert_eq!(ctx.clipboard, "hello");

    tb.event(&mut ctx, &key(KeyCode::ArrowRight, true, false, ""), &mut data, &env);
    tb.event(&mut ctx, &key(KeyCode::KeyV, true, false, ""), &mut data, &env);
    assert_eq!(data, "hellohello");
}

#[test]
fn shift_arrows_grow_the_selection() {
    let mut tb = TextBox::new();
    let mut data = String::from("abcd");
    let env = Env::new();
    let mut ctx = fresh_ctx();

    // Jump to the end, select two characters leftwards, delete them.
    tb.event(&mut ctx, &key(KeyCode::ArrowRight, true, false, ""), &mut data, &env);
    tb.event(&mut ctx, &key(KeyCode::ArrowLeft, false, true, ""), &mut data, &env);
    tb.event(&mut ctx, &key(KeyCode::ArrowLeft, false, true, ""), &mut data, &env);
    tb.event(&mut ctx, &key(KeyCode::Backspace, false, false, ""), &mut data, &env);
    assert_eq!(data, "ab");
}

#[test]
fn keyboard_input_reaches_only_the_focused_pod() {
    let mut root = Root::new(String::new(), TextBox::new(), Size { width: 100, height: 32 });
    root.layout_pass();

    // Without focus, typing reaches no widget.
    root.event(&typed("a"), 0);
    assert_eq!(root.data, "");

    // A click grants the textbox focus; typing now edits it.
    let click = Event::MouseDown(MouseEvent {
        pos: Point { x: 5, y: 5 },
        window_pos: Point { x: 5, y: 5 },
    });
    root.event(&click, 1);
    root.event(&typed("a"), 2);
    assert_eq!(root.data, "a");
}

#[test]
fn mouse_down_requests_focus() {
    let mut tb = TextBox::new();
    let mut data = String::new();
    let env = Env::new();
    let mut ctx = fresh_ctx();

    let ev = Event::MouseDown(MouseEvent {
        pos: Point { x: 5, y: 5 },
        window_pos: Point { x: 5, y: 5 },
    });
    tb.event(&mut ctx, &ev, &mut data, &env);
    assert!(ctx.focus_requested);
    assert!(tb.cursor_on);
}

#[test]
fn stale_blink_timer_is_ignored() {
    let mut tb = TextBox::new();
    let mut data = String::from("abc");
    let env = Env::new();
    let mut ctx = fresh_ctx();

    // Typing arms the blink timer with the host clock plus the half
    // period.
    tb.event(&mut ctx, &typed("x"), &mut data, &env);
    assert!(tb.cursor_on);
    let live = tb.cursor_timer;
    assert_eq!(*ctx.timer_requests.last().unwrap(), (live.id, 500));

    // A stale token is compared and ignored: nothing changes at all.
    let requests_before = ctx.timer_requests.len();
    tb.event(&mut ctx, &Event::Timer(TimerToken { id: live.id + 7 }), &mut data, &env);
    assert!(tb.cursor_on);
    assert_eq!(tb.cursor_timer, live);
    assert_eq!(ctx.timer_requests.len(), requests_before);

    // The live token toggles the phase and re-arms.
    tb.event(&mut ctx, &Event::Timer(live), &mut data, &env);
    assert!(!tb.cursor_on);
    assert_ne!(tb.cursor_timer, live);
}

#[test]
fn long_text_scrolls_to_keep_the_caret_visible() {
    let mut tb = TextBox::new();
    let mut data = String::new();
    let env = Env::new();
    let mut ctx = fresh_ctx();

    // Lay out in a narrow box so the text overflows it.
    let bc = druid_core::BoxConstraints {
        min: Size { width: 0, height: 0 },
        max: Size { width: 50, height: 32 },
    };
    tb.layout(&bc, &data, &env);

    tb.event(&mut ctx, &typed("0123456789"), &mut data, &env);
    // Ten characters at the default advance of 8: the caret sits at 80,
    // past the 50-wide box, so the offset moves to 80 - 50 + 8.
    assert_eq!(tb.hscroll_offset, 38);
}
