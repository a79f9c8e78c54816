//! Painting as a verified display list.
//!
//! Widgets do not talk to a rendering backend; they append drawing commands
//! to a [`PaintCtx`]. The host replays the list through a real 2D renderer.
//! Coordinate-state nesting (`save` / `restore`) is tracked so a scoped
//! transform is provably restored.

use vstd::prelude::*;

use crate::geom::{Point, Rect, Vec2};

verus! {

/// A color as packed RGBA, eight bits each.
#[derive(Clone, Copy, PartialEq, Eq, Structural, Debug)]
pub struct Color {
    pub rgba: u32,
}

impl Color {
    pub fn rgba32(rgba: u32) -> (c: Color)
        ensures
            c.rgba == rgba,
    {
        Color { rgba }
    }

    pub fn white() -> (c: Color)
        ensures
            c.rgba == 0xffffffff,
    {
        Color { rgba: 0xffffffff }
    }

    pub fn black() -> (c: Color)
        ensures
            c.rgba == 0x000000ff,
    {
        Color { rgba: 0x000000ff }
    }

    /// The alpha byte replaced by `m` per-mille of full opacity.
    pub fn with_alpha_milli(self, m: u32) -> (c: Color)
        requires
            m <= 1000,
        ensures
            c.rgba == (self.rgba & 0xffffff00u32) | ((m * 255 / 1000) as u32),
    {
        let alpha: u32 = m * 255 / 1000;
        Color { rgba: (self.rgba & 0xffffff00u32) | alpha }
    }
}

/// How a shape is filled or stroked.
#[derive(Clone, Copy, PartialEq, Eq, Structural, Debug)]
pub enum Brush {
    Solid(Color),
    /// A vertical linear gradient, top color to bottom color.
    Gradient { top: Color, bottom: Color },
}

/// One drawing command of the display list.
#[derive(Clone, PartialEq, Debug)]
pub enum DrawCmd {
    /// Fill a (possibly rounded) rectangle.
    FillRect { rect: Rect, radius: i64, brush: Brush },
    /// Stroke the outline of a (possibly rounded) rectangle.
    StrokeRect { rect: Rect, radius: i64, width: i64, brush: Brush },
    FillCircle { center: Point, radius: i64, brush: Brush },
    StrokeCircle { center: Point, radius: i64, width: i64, brush: Brush },
    Line { from: Point, to: Point, width: i64, brush: Brush },
    /// An open polygonal path, stroked with round caps and joins.
    Polyline { points: Vec<Point>, width: i64, brush: Brush },
    /// Draw a text run whose baseline origin is `pos`.
    Text { text: String, pos: Point, size: i64, color: Color },
    /// Push the current transform and clip onto the state stack.
    Save,
    /// Pop the state stack.
    Restore,
    /// Translate the coordinate origin.
    Transform { offset: Vec2 },
    /// Intersect the clip region with a rounded rectangle.
    Clip { rect: Rect, radius: i64 },
}

/// Every sequence is a prefix of itself.
pub proof fn lemma_prefix_refl<A>(s: Seq<A>)
    ensures
        s.is_prefix_of(s),
{
    assert(s =~= s.subrange(0, s.len() as int));
}

/// Prefixes chain: a prefix of a prefix is a prefix.
pub proof fn lemma_prefix_trans<A>(a: Seq<A>, b: Seq<A>, c: Seq<A>)
    requires
        a.is_prefix_of(b),
        b.is_prefix_of(c),
    ensures
        a.is_prefix_of(c),
{
    assert(a =~= c.subrange(0, a.len() as int));
}

/// A prefix stays a prefix when the longer sequence grows.
pub proof fn lemma_prefix_push<A>(a: Seq<A>, b: Seq<A>, x: A)
    requires
        a.is_prefix_of(b),
    ensures
        a.is_prefix_of(b.push(x)),
{
    assert(a =~= b.push(x).subrange(0, a.len() as int));
}

/// The render context handed to `paint`: records commands, and counts the
/// open `save` scopes so restoration can be demanded in contracts.
pub struct PaintCtx {
    pub cmds: Vec<DrawCmd>,
    /// The number of currently open `save` scopes (specification only).
    pub saves: Ghost<int>,
}

impl PaintCtx {
    pub fn new() -> (ctx: PaintCtx)
        ensures
            ctx.cmds@.len() == 0,
            ctx.saves@ == 0,
    {
        PaintCtx { cmds: Vec::new(), saves: Ghost(0) }
    }

    pub fn fill_rect(&mut self, rect: Rect, brush: Brush)
        ensures
            final(self).cmds@ == old(self).cmds@.push(DrawCmd::FillRect { rect, radius: 0, brush }),
            final(self).saves@ == old(self).saves@,
    {
        self.cmds.push(DrawCmd::FillRect { rect, radius: 0, brush });
    }

    pub fn fill_rounded_rect(&mut self, rect: Rect, radius: i64, brush: Brush)
        ensures
            final(self).cmds@ == old(self).cmds@.push(DrawCmd::FillRect { rect, radius, brush }),
            final(self).saves@ == old(self).saves@,
    {
        self.cmds.push(DrawCmd::FillRect { rect, radius, brush });
    }

    pub fn stroke_rect(&mut self, rect: Rect, width: i64, brush: Brush)
        ensures
            final(self).cmds@ == old(self).cmds@.push(
                DrawCmd::StrokeRect { rect, radius: 0, width, brush },
            ),
            final(self).saves@ == old(self).saves@,
    {
        self.cmds.push(DrawCmd::StrokeRect { rect, radius: 0, width, brush });
    }

    pub fn stroke_rounded_rect(&mut self, rect: Rect, radius: i64, width: i64, brush: Brush)
        ensures
            final(self).cmds@ == old(self).cmds@.push(DrawCmd::StrokeRect { rect, radius, width, brush }),
            final(self).saves@ == old(self).saves@,
    {
        self.cmds.push(DrawCmd::StrokeRect { rect, radius, width, brush });
    }

    pub fn fill_circle(&mut self, center: Point, radius: i64, brush: Brush)
        ensures
            final(self).cmds@ == old(self).cmds@.push(DrawCmd::FillCircle { center, radius, brush }),
            final(self).saves@ == old(self).saves@,
    {
        self.cmds.push(DrawCmd::FillCircle { center, radius, brush });
    }

    pub fn stroke_circle(&mut self, center: Point, radius: i64, width: i64, brush: Brush)
        ensures
            final(self).cmds@ == old(self).cmds@.push(
                DrawCmd::StrokeCircle { center, radius, width, brush },
            ),
            final(self).saves@ == old(self).saves@,
    {
        self.cmds.push(DrawCmd::StrokeCircle { center, radius, width, brush });
    }

    pub fn line(&mut self, from: Point, to: Point, width: i64, brush: Brush)
        ensures
            final(self).cmds@ == old(self).cmds@.push(DrawCmd::Line { from, to, width, brush }),
            final(self).saves@ == old(self).saves@,
    {
        self.cmds.push(DrawCmd::Line { from, to, width, brush });
    }

    pub fn polyline(&mut self, points: Vec<Point>, width: i64, brush: Brush)
        ensures
            final(self).cmds@ == old(self).cmds@.push(DrawCmd::Polyline { points, width, brush }),
            final(self).saves@ == old(self).saves@,
    {
        self.cmds.push(DrawCmd::Polyline { points, width, brush });
    }

    pub fn draw_text(&mut self, text: String, pos: Point, size: i64, color: Color)
        ensures
            final(self).cmds@ == old(self).cmds@.push(DrawCmd::Text { text, pos, size, color }),
            final(self).saves@ == old(self).saves@,
    {
        self.cmds.push(DrawCmd::Text { text, pos, size, color });
    }

    /// Append one ready-made drawing command; the scope commands stay
    /// under the context's own control.
    pub fn emit(&mut self, c: DrawCmd)
        requires
            !(c is Save),
            !(c is Restore),
        ensures
            final(self).cmds@ == old(self).cmds@.push(c),
            final(self).saves@ == old(self).saves@,
    {
        self.cmds.push(c);
    }

    /// Open a scope: the transform and clip in force will be restored by the
    /// matching [`restore`](Self::restore).
    pub fn save(&mut self)
        ensures
            final(self).cmds@ == old(self).cmds@.push(DrawCmd::Save),
            final(self).saves@ == old(self).saves@ + 1,
    {
        self.cmds.push(DrawCmd::Save);
        self.saves = Ghost(self.saves@ + 1);
    }

    /// Close the innermost open scope.
    pub fn restore(&mut self)
        requires
            old(self).saves@ > 0,
        ensures
            final(self).cmds@ == old(self).cmds@.push(DrawCmd::Restore),
            final(self).saves@ == old(self).saves@ - 1,
    {
        self.cmds.push(DrawCmd::Restore);
        self.saves = Ghost(self.saves@ - 1);
    }

    /// Translate the coordinate origin for subsequent commands.
    pub fn transform(&mut self, offset: Vec2)
        ensures
            final(self).cmds@ == old(self).cmds@.push(DrawCmd::Transform { offset }),
            final(self).saves@ == old(self).saves@,
    {
        self.cmds.push(DrawCmd::Transform { offset });
    }

    /// Intersect the clip region with a rounded rectangle.
    pub fn clip(&mut self, rect: Rect, radius: i64)
        ensures
            final(self).cmds@ == old(self).cmds@.push(DrawCmd::Clip { rect, radius }),
            final(self).saves@ == old(self).saves@,
    {
        self.cmds.push(DrawCmd::Clip { rect, radius });
    }
}

} // verus!
