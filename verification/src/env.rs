//! The environment: a read-only, hierarchically resolved key-to-value store
//! for theme constants, passed through every paint, layout and event call.
//!
//! Later entries override earlier ones, so a subtree wrapper extends the
//! store by appending; a key that no entry binds resolves to the built-in
//! theme default.

use vstd::prelude::*;

use crate::paint::Color;

verus! {

/// A theme key.
#[derive(Clone, Copy, PartialEq, Eq, Structural, Debug)]
pub enum Key {
    TextSizeNormal,
    LabelColor,
    SelectionColor,
    CursorColor,
    ButtonLight,
    ButtonDark,
    Border,
    BorderLight,
    BackgroundLight,
    BackgroundDark,
    ForegroundLight,
    ForegroundDark,
    PrimaryLight,
    HowTallThingsAre,
    TallerThings,
    CharWidth,
}

/// A theme value: a length or a color.
#[derive(Clone, Copy, PartialEq, Eq, Structural, Debug)]
pub enum Val {
    Num(i64),
    Color(Color),
}

/// The built-in default for a numeric key.
pub open spec fn spec_default_num(k: Key) -> i64 {
    match k {
        Key::TextSizeNormal => 15,
        Key::HowTallThingsAre => 18,
        Key::TallerThings => 32,
        Key::CharWidth => 8,
        _ => 0,
    }
}

/// The built-in default for a color key.
pub open spec fn spec_default_color(k: Key) -> Color {
    match k {
        Key::LabelColor => Color { rgba: 0xf0f0eaff },
        Key::SelectionColor => Color { rgba: 0xf3_00_21_ff },
        Key::CursorColor => Color { rgba: 0xffffffff },
        Key::ButtonLight => Color { rgba: 0x4c4c4cff },
        Key::ButtonDark => Color { rgba: 0x282828ff },
        Key::Border => Color { rgba: 0x3a3a3aff },
        Key::BorderLight => Color { rgba: 0xa1a1a1ff },
        Key::BackgroundLight => Color { rgba: 0x3a3a3aff },
        Key::BackgroundDark => Color { rgba: 0x313131ff },
        Key::ForegroundLight => Color { rgba: 0xf9f9f9ff },
        Key::ForegroundDark => Color { rgba: 0xbfbfbfff },
        Key::PrimaryLight => Color { rgba: 0x5cc4ffff },
        _ => Color { rgba: 0 },
    }
}

/// The last binding of `k` in `s`, if any.
pub open spec fn spec_lookup(s: Seq<(Key, Val)>, k: Key) -> Option<Val>
    decreases s.len(),
{
    if s.len() == 0 {
        None
    } else if s.last().0 == k {
        Some(s.last().1)
    } else {
        spec_lookup(s.drop_last(), k)
    }
}

/// The hierarchically resolved theme store.
#[derive(Debug)]
pub struct Env {
    pub entries: Vec<(Key, Val)>,
}

impl Env {
    /// What a numeric key resolves to.
    pub open spec fn num_of(self, k: Key) -> i64 {
        match spec_lookup(self.entries@, k) {
            Some(Val::Num(n)) => n,
            _ => spec_default_num(k),
        }
    }

    /// What a color key resolves to.
    pub open spec fn color_of(self, k: Key) -> Color {
        match spec_lookup(self.entries@, k) {
            Some(Val::Color(c)) => c,
            _ => spec_default_color(k),
        }
    }

    /// An environment with only the built-in defaults.
    pub fn new() -> (e: Env)
        ensures
            e.entries@.len() == 0,
            forall|k: Key| e.num_of(k) == spec_default_num(k),
            forall|k: Key| e.color_of(k) == spec_default_color(k),
    {
        Env { entries: Vec::new() }
    }

    /// The last binding of `k`, if any.
    fn lookup(&self, k: Key) -> (r: Option<&Val>)
        ensures
            match r {
                Some(v) => spec_lookup(self.entries@, k) == Some(*v),
                None => spec_lookup(self.entries@, k) is None,
            },
    {
        let mut i: usize = self.entries.len();
        proof {
            assert(self.entries@.take(i as int) =~= self.entries@);
        }
        while i > 0
            invariant
                i <= self.entries@.len(),
                spec_lookup(self.entries@.take(i as int), k) == spec_lookup(self.entries@, k),
            decreases i,
        {
            i = i - 1;
            proof {
                assert(self.entries@.take(i + 1).drop_last() =~= self.entries@.take(i as int));
                assert(self.entries@.take(i + 1).last() == self.entries@[i as int]);
            }
            if self.entries[i].0 == k {
                return Some(&self.entries[i].1);
            }
        }
        proof {
            assert(self.entries@.take(0) =~= Seq::<(Key, Val)>::empty());
        }
        None
    }

    /// Resolve a numeric key, falling back to the theme default.
    pub fn get_num(&self, k: Key) -> (r: i64)
        ensures
            r == self.num_of(k),
    {
        match self.lookup(k) {
            Some(Val::Num(n)) => *n,
            _ => default_num(k),
        }
    }

    /// What [`get_len`](Self::get_len) returns: the numeric value clamped
    /// into a sane range for a theme length.
    pub open spec fn len_of(self, k: Key) -> int {
        crate::geom::spec_clamp(self.num_of(k) as int, 0, 10000)
    }

    /// Resolve a numeric key as a length: clamped into `[0, 10000]` so
    /// layout arithmetic stays in range whatever the theme holds.
    pub fn get_len(&self, k: Key) -> (r: i64)
        ensures
            r == self.len_of(k),
            0 <= r <= 10000,
    {
        crate::geom::clamp_dim(self.get_num(k), 0, 10000)
    }

    /// Resolve a color key, falling back to the theme default.
    pub fn get_color(&self, k: Key) -> (r: Color)
        ensures
            r == self.color_of(k),
    {
        match self.lookup(k) {
            Some(Val::Color(c)) => *c,
            _ => default_color(k),
        }
    }

    /// A copy of this environment with one binding added; the new binding
    /// overrides any earlier one for the same key, and every other key
    /// resolves as before.
    pub fn with_added(&self, k: Key, v: Val) -> (e: Env)
        ensures
            e.entries@ == self.entries@.push((k, v)),
            e.num_of(k) == if v is Num {
                v->Num_0
            } else {
                spec_default_num(k)
            },
            forall|k2: Key| k2 != k ==> e.num_of(k2) == self.num_of(k2),
            forall|k2: Key| k2 != k ==> e.color_of(k2) == self.color_of(k2),
    {
        let mut entries: Vec<(Key, Val)> = Vec::new();
        let mut i: usize = 0;
        while i < self.entries.len()
            invariant
                i <= self.entries@.len(),
                entries@ =~= self.entries@.take(i as int),
            decreases self.entries@.len() - i,
        {
            entries.push((self.entries[i].0, self.entries[i].1));
            i = i + 1;
        }
        proof {
            assert(entries@ =~= self.entries@);
        }
        entries.push((k, v));
        let e = Env { entries };
        proof {
            assert(e.entries@.drop_last() =~= self.entries@);
            assert(forall|k2: Key|
                k2 != k ==> spec_lookup(e.entries@, k2) == spec_lookup(self.entries@, k2));
        }
        e
    }
}

/// The built-in default for a numeric key.
pub fn default_num(k: Key) -> (r: i64)
    ensures
        r == spec_default_num(k),
{
    match k {
        Key::TextSizeNormal => 15,
        Key::HowTallThingsAre => 18,
        Key::TallerThings => 32,
        Key::CharWidth => 8,
        _ => 0,
    }
}

/// The built-in default for a color key.
pub fn default_color(k: Key) -> (r: Color)
    ensures
        r == spec_default_color(k),
{
    match k {
        Key::LabelColor => Color { rgba: 0xf0f0eaff },
        Key::SelectionColor => Color { rgba: 0xf3_00_21_ff },
        Key::CursorColor => Color { rgba: 0xffffffff },
        Key::ButtonLight => Color { rgba: 0x4c4c4cff },
        Key::ButtonDark => Color { rgba: 0x282828ff },
        Key::Border => Color { rgba: 0x3a3a3aff },
        Key::BorderLight => Color { rgba: 0xa1a1a1ff },
        Key::BackgroundLight => Color { rgba: 0x3a3a3aff },
        Key::BackgroundDark => Color { rgba: 0x313131ff },
        Key::ForegroundLight => Color { rgba: 0xf9f9f9ff },
        Key::ForegroundDark => Color { rgba: 0xbfbfbfff },
        Key::PrimaryLight => Color { rgba: 0x5cc4ffff },
        _ => Color { rgba: 0 },
    }
}

} // verus!
