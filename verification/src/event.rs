//! Input events delivered into the tree, timer tokens, and the action
//! values a widget can bubble up to its ancestors.

use vstd::prelude::*;

use crate::geom::{Point, Vec2};

verus! {

/// An opaque handle for a requested timer. Widgets compare tokens and
/// ignore stale firings; there is no cancellation primitive.
#[derive(Clone, Copy, PartialEq, Eq, Structural, Debug)]
pub struct TimerToken {
    pub id: u64,
}

impl TimerToken {
    /// The token no live timer ever carries.
    pub fn invalid() -> (t: TimerToken)
        ensures
            t.id == 0,
    {
        TimerToken { id: 0 }
    }
}

/// A pointer event, with the position in the receiving widget's own
/// coordinates and in window coordinates.
#[derive(Clone, Copy, PartialEq, Eq, Structural, Debug)]
pub struct MouseEvent {
    pub pos: Point,
    pub window_pos: Point,
}

impl MouseEvent {
    pub open spec fn wf(self) -> bool {
        &&& self.pos.wf()
        &&& self.window_pos.wf()
    }
}

/// A scroll-wheel event.
#[derive(Clone, Copy, PartialEq, Eq, Structural, Debug)]
pub struct WheelEvent {
    pub delta: Vec2,
}

impl WheelEvent {
    pub open spec fn wf(self) -> bool {
        self.delta.wf()
    }
}

/// The non-printable keys the toolkit reacts to.
#[derive(Clone, Copy, PartialEq, Eq, Structural, Debug)]
pub enum KeyCode {
    ArrowLeft,
    ArrowRight,
    Backspace,
    KeyA,
    KeyC,
    KeyV,
    Other,
}

/// Modifier keys held during a key event; `cmd` stands for the platform's
/// primary shortcut modifier.
#[derive(Clone, Copy, PartialEq, Eq, Structural, Debug)]
pub struct Mods {
    pub cmd: bool,
    pub shift: bool,
}

/// A keyboard event; `text` holds the characters the key produces, empty
/// for non-printing keys.
#[derive(Clone, PartialEq, Debug)]
pub struct KeyEvent {
    pub code: KeyCode,
    pub mods: Mods,
    pub text: String,
}

impl KeyEvent {
    /// Whether the event types text.
    pub open spec fn spec_is_printable(&self) -> bool {
        !self.mods.cmd && self.text@.len() > 0
    }

    pub fn is_printable(&self) -> (r: bool)
        ensures
            r == self.spec_is_printable(),
    {
        !self.mods.cmd && self.text.as_str().unicode_len() > 0
    }
}

/// An input event dispatched down the widget tree.
#[derive(Clone, PartialEq, Debug)]
pub enum Event {
    MouseDown(MouseEvent),
    MouseUp(MouseEvent),
    MouseMove(MouseEvent),
    Wheel(WheelEvent),
    KeyDown(KeyEvent),
    KeyUp(KeyEvent),
    /// A requested timer elapsed; carries the token of the request.
    Timer(TimerToken),
    /// The pointer entered or left the widget's bounds.
    HotChanged(bool),
    /// An animation frame arrived; carries the nanoseconds since the last.
    AnimFrame(u64),
}

impl Event {
    pub open spec fn wf(self) -> bool {
        match self {
            Event::MouseDown(m) => m.wf(),
            Event::MouseUp(m) => m.wf(),
            Event::MouseMove(m) => m.wf(),
            Event::Wheel(w) => w.wf(),
            _ => true,
        }
    }
}

/// A lifecycle notice, delivered outside the input event stream.
#[derive(Clone, Copy, PartialEq, Eq, Structural, Debug)]
pub enum LifeCycle {
    /// The widget was added to a tree.
    WidgetAdded,
    /// An animation frame arrived; carries the nanoseconds since the last.
    AnimFrame(u64),
}

/// A value a widget's event handler bubbles up to its ancestors.
#[derive(Clone, PartialEq, Debug)]
pub struct Action {
    pub text: String,
}

impl Action {
    pub fn from_str(s: &str) -> (a: Action)
        ensures
            a.text@ == s@,
    {
        Action { text: s.to_owned() }
    }

    /// Whether the action carries the given tag.
    pub fn is(&self, s: &str) -> (r: bool)
        ensures
            r == (self.text@ == s@),
    {
        let other = s.to_owned();
        self.text.eq(&other)
    }
}

} // verus!
