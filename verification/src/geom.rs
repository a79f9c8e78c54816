//! Axis-aligned geometry on integer coordinates.
//!
//! All lengths and positions are integer device pixels. A maximum extent
//! equal to [`MAX_DIM`] plays the role of an unbounded ("infinite")
//! dimension during layout.

use vstd::prelude::*;

verus! {

/// Largest magnitude any coordinate may take. A constraint whose maximum
/// extent equals `MAX_DIM` is treated as unbounded on that axis.
pub const MAX_DIM: i64 = 1_000_000_000;

/// The fixed-point scale for normalized values: a slider or progress value
/// of `UNIT_MAX` stands for 1.0, and 0 for 0.0.
pub const UNIT_MAX: i64 = 1_000_000;

/// A 2D displacement.
#[derive(Clone, Copy, PartialEq, Eq, Structural, Debug)]
pub struct Vec2 {
    pub x: i64,
    pub y: i64,
}

/// A 2D position.
#[derive(Clone, Copy, PartialEq, Eq, Structural, Debug)]
pub struct Point {
    pub x: i64,
    pub y: i64,
}

/// A 2D extent.
#[derive(Clone, Copy, PartialEq, Eq, Structural, Debug)]
pub struct Size {
    pub width: i64,
    pub height: i64,
}

/// An axis-aligned rectangle, stored as origin and extent.
#[derive(Clone, Copy, PartialEq, Eq, Structural, Debug)]
pub struct Rect {
    pub origin: Point,
    pub size: Size,
}

impl Vec2 {
    pub open spec fn wf(self) -> bool {
        &&& -MAX_DIM <= self.x <= MAX_DIM
        &&& -MAX_DIM <= self.y <= MAX_DIM
    }

    pub fn new(x: i64, y: i64) -> (v: Vec2)
        ensures
            v.x == x,
            v.y == y,
    {
        Vec2 { x, y }
    }
}

impl Point {
    pub open spec fn wf(self) -> bool {
        &&& -MAX_DIM <= self.x <= MAX_DIM
        &&& -MAX_DIM <= self.y <= MAX_DIM
    }

    pub fn new(x: i64, y: i64) -> (p: Point)
        ensures
            p.x == x,
            p.y == y,
    {
        Point { x, y }
    }

    /// The point at coordinate zero.
    pub fn origin() -> (p: Point)
        ensures
            p.x == 0,
            p.y == 0,
    {
        Point { x: 0, y: 0 }
    }

    /// Translate by a displacement.
    pub fn offset(self, v: Vec2) -> (p: Point)
        requires
            self.wf(),
            v.wf(),
        ensures
            p.x == self.x + v.x,
            p.y == self.y + v.y,
    {
        Point { x: self.x + v.x, y: self.y + v.y }
    }

    /// The point with both coordinates forced into the coordinate range.
    pub open spec fn spec_clamped(self) -> Point {
        Point {
            x: spec_clamp(self.x as int, -MAX_DIM as int, MAX_DIM as int) as i64,
            y: spec_clamp(self.y as int, -MAX_DIM as int, MAX_DIM as int) as i64,
        }
    }

    /// Force the point into the coordinate range.
    pub fn clamped(self) -> (p: Point)
        ensures
            p == self.spec_clamped(),
            p.wf(),
            self.wf() ==> p == self,
    {
        Point {
            x: clamp_dim(self.x, -MAX_DIM, MAX_DIM),
            y: clamp_dim(self.y, -MAX_DIM, MAX_DIM),
        }
    }

    /// Squared Euclidean distance to another point; exact, so circle hit
    /// tests need no square root.
    pub fn dist_squared(self, other: Point) -> (d: i64)
        requires
            self.wf(),
            other.wf(),
        ensures
            d == (self.x - other.x) * (self.x - other.x) + (self.y - other.y) * (self.y
                - other.y),
            d >= 0,
    {
        let dx: i64 = self.x - other.x;
        let dy: i64 = self.y - other.y;
        proof {
            assert(0 <= dx * dx <= 4_000_000_000_000_000_000) by (nonlinear_arith)
                requires
                    -2 * MAX_DIM <= dx <= 2 * MAX_DIM,
            ;
            assert(0 <= dy * dy <= 4_000_000_000_000_000_000) by (nonlinear_arith)
                requires
                    -2 * MAX_DIM <= dy <= 2 * MAX_DIM,
            ;
        }
        dx * dx + dy * dy
    }
}

impl Size {
    pub open spec fn wf(self) -> bool {
        &&& 0 <= self.width <= MAX_DIM
        &&& 0 <= self.height <= MAX_DIM
    }

    pub fn new(width: i64, height: i64) -> (s: Size)
        ensures
            s.width == width,
            s.height == height,
    {
        Size { width, height }
    }

    pub fn zero() -> (s: Size)
        ensures
            s.width == 0,
            s.height == 0,
    {
        Size { width: 0, height: 0 }
    }

    pub fn to_vec2(self) -> (v: Vec2)
        ensures
            v.x == self.width,
            v.y == self.height,
    {
        Vec2 { x: self.width, y: self.height }
    }

    /// The size with both extents forced into the coordinate range.
    pub open spec fn spec_clamped(self) -> Size {
        Size {
            width: spec_clamp(self.width as int, 0, MAX_DIM as int) as i64,
            height: spec_clamp(self.height as int, 0, MAX_DIM as int) as i64,
        }
    }

    /// Force the size into the coordinate range.
    pub fn clamped(self) -> (s: Size)
        ensures
            s == self.spec_clamped(),
            s.wf(),
            self.wf() ==> s == self,
    {
        Size {
            width: clamp_dim(self.width, 0, MAX_DIM),
            height: clamp_dim(self.height, 0, MAX_DIM),
        }
    }
}

/// Clamp `v` into `[lo, hi]`.
pub open spec fn spec_clamp(v: int, lo: int, hi: int) -> int {
    if v < lo {
        lo
    } else if v > hi {
        hi
    } else {
        v
    }
}

/// Clamp a coordinate into `[lo, hi]`.
pub fn clamp_dim(v: i64, lo: i64, hi: i64) -> (r: i64)
    requires
        lo <= hi,
    ensures
        r == spec_clamp(v as int, lo as int, hi as int),
        lo <= r <= hi,
{
    if v < lo {
        lo
    } else if v > hi {
        hi
    } else {
        v
    }
}

/// The larger of two coordinates.
pub fn max_dim(a: i64, b: i64) -> (r: i64)
    ensures
        r == if a >= b { a } else { b },
{
    if a >= b {
        a
    } else {
        b
    }
}

/// The smaller of two coordinates.
pub fn min_dim(a: i64, b: i64) -> (r: i64)
    ensures
        r == if a <= b { a } else { b },
{
    if a <= b {
        a
    } else {
        b
    }
}

impl Rect {
    pub open spec fn wf(self) -> bool {
        &&& self.origin.wf()
        &&& self.size.wf()
    }

    pub fn from_origin_size(origin: Point, size: Size) -> (r: Rect)
        ensures
            r.origin == origin,
            r.size == size,
    {
        Rect { origin, size }
    }

    pub fn zero() -> (r: Rect)
        ensures
            r.origin.x == 0,
            r.origin.y == 0,
            r.size.width == 0,
            r.size.height == 0,
    {
        Rect { origin: Point { x: 0, y: 0 }, size: Size { width: 0, height: 0 } }
    }

    pub fn width(&self) -> (w: i64)
        ensures
            w == self.size.width,
    {
        self.size.width
    }

    pub fn height(&self) -> (h: i64)
        ensures
            h == self.size.height,
    {
        self.size.height
    }

    /// The rectangle with origin and extent forced into the coordinate
    /// range; a well-formed rectangle is unchanged.
    pub open spec fn spec_clamped(self) -> Rect {
        Rect {
            origin: Point {
                x: spec_clamp(self.origin.x as int, -MAX_DIM as int, MAX_DIM as int) as i64,
                y: spec_clamp(self.origin.y as int, -MAX_DIM as int, MAX_DIM as int) as i64,
            },
            size: Size {
                width: spec_clamp(self.size.width as int, 0, MAX_DIM as int) as i64,
                height: spec_clamp(self.size.height as int, 0, MAX_DIM as int) as i64,
            },
        }
    }

    /// Force the rectangle into the coordinate range.
    pub fn clamped(self) -> (r: Rect)
        ensures
            r == self.spec_clamped(),
            r.wf(),
            self.wf() ==> r == self,
    {
        Rect {
            origin: Point {
                x: clamp_dim(self.origin.x, -MAX_DIM, MAX_DIM),
                y: clamp_dim(self.origin.y, -MAX_DIM, MAX_DIM),
            },
            size: Size {
                width: clamp_dim(self.size.width, 0, MAX_DIM),
                height: clamp_dim(self.size.height, 0, MAX_DIM),
            },
        }
    }

    /// Whether a point lies inside the rectangle (edges at the origin side
    /// included, far side excluded).
    pub open spec fn spec_contains(self, p: Point) -> bool {
        &&& self.origin.x <= p.x < self.origin.x + self.size.width
        &&& self.origin.y <= p.y < self.origin.y + self.size.height
    }

    pub fn contains(&self, p: Point) -> (b: bool)
        requires
            self.wf(),
            p.wf(),
        ensures
            b == self.spec_contains(p),
    {
        self.origin.x <= p.x && p.x < self.origin.x + self.size.width && self.origin.y <= p.y
            && p.y < self.origin.y + self.size.height
    }
}

/// A relative position inside a box, in per-mille of each axis: `(0, 0)` is
/// the top-left corner, `(1000, 1000)` the bottom-right, `(500, 500)` the
/// center.
#[derive(Clone, Copy, PartialEq, Eq, Structural, Debug)]
pub struct UnitPoint {
    pub u: i64,
    pub v: i64,
}

impl UnitPoint {
    pub open spec fn wf(self) -> bool {
        &&& 0 <= self.u <= 1000
        &&& 0 <= self.v <= 1000
    }

    pub fn new(u: i64, v: i64) -> (p: UnitPoint)
        requires
            0 <= u <= 1000,
            0 <= v <= 1000,
        ensures
            p.u == u,
            p.v == v,
    {
        UnitPoint { u, v }
    }

    pub fn center() -> (p: UnitPoint)
        ensures
            p.u == 500,
            p.v == 500,
            p.wf(),
    {
        UnitPoint { u: 500, v: 500 }
    }

    pub fn left() -> (p: UnitPoint)
        ensures
            p.u == 0,
            p.v == 500,
            p.wf(),
    {
        UnitPoint { u: 0, v: 500 }
    }

    pub fn top() -> (p: UnitPoint)
        ensures
            p.u == 500,
            p.v == 0,
            p.wf(),
    {
        UnitPoint { u: 500, v: 0 }
    }

    pub fn bottom() -> (p: UnitPoint)
        ensures
            p.u == 500,
            p.v == 1000,
            p.wf(),
    {
        UnitPoint { u: 500, v: 1000 }
    }
}

} // verus!
