//! The box-constraint layout protocol: a minimum and maximum extent passed
//! top-down, which every widget's chosen size must satisfy.

use vstd::prelude::*;

use crate::geom::{clamp_dim, spec_clamp, Size, MAX_DIM};

verus! {

/// Minimum and maximum extents handed to a widget during layout. A maximum
/// extent equal to [`MAX_DIM`] means the axis is unbounded.
#[derive(Clone, Copy, PartialEq, Eq, Structural, Debug)]
pub struct BoxConstraints {
    pub min: Size,
    pub max: Size,
}

impl BoxConstraints {
    /// The invariant every constraint must satisfy: extents are
    /// non-negative, bounded by [`MAX_DIM`], and the minimum does not exceed
    /// the maximum on either axis.
    pub open spec fn wf(self) -> bool {
        &&& self.min.wf()
        &&& self.max.wf()
        &&& self.min.width <= self.max.width
        &&& self.min.height <= self.max.height
    }

    /// Whether a size satisfies the constraint component-wise.
    pub open spec fn sat(self, s: Size) -> bool {
        &&& self.min.width <= s.width <= self.max.width
        &&& self.min.height <= s.height <= self.max.height
    }

    pub fn new(min: Size, max: Size) -> (bc: BoxConstraints)
        requires
            min.wf(),
            max.wf(),
            min.width <= max.width,
            min.height <= max.height,
        ensures
            bc.min == min,
            bc.max == max,
            bc.wf(),
    {
        BoxConstraints { min, max }
    }

    /// An exact constraint: only `size` itself satisfies it.
    pub fn tight(size: Size) -> (bc: BoxConstraints)
        requires
            size.wf(),
        ensures
            bc.min == size,
            bc.max == size,
            bc.wf(),
            forall|s: Size| bc.sat(s) <==> s == size,
    {
        BoxConstraints { min: size, max: size }
    }

    /// Drop the minimum, keeping the maximum.
    pub fn loosen(&self) -> (bc: BoxConstraints)
        requires
            self.wf(),
        ensures
            bc.min.width == 0,
            bc.min.height == 0,
            bc.max == self.max,
            bc.wf(),
    {
        BoxConstraints { min: Size { width: 0, height: 0 }, max: self.max }
    }

    pub fn min(&self) -> (s: Size)
        ensures
            s == self.min,
    {
        self.min
    }

    pub fn max(&self) -> (s: Size)
        ensures
            s == self.max,
    {
        self.max
    }

    /// What [`constrain`](Self::constrain) returns: each component clamped
    /// into the allowed range.
    pub open spec fn spec_constrain(self, s: Size) -> Size {
        Size {
            width: spec_clamp(s.width as int, self.min.width as int, self.max.width as int) as i64,
            height: spec_clamp(
                s.height as int,
                self.min.height as int,
                self.max.height as int,
            ) as i64,
        }
    }

    /// Clamp a size into the constraint, component-wise. A size already
    /// satisfying the constraint is returned unchanged.
    pub fn constrain(&self, s: Size) -> (r: Size)
        requires
            self.wf(),
        ensures
            r == self.spec_constrain(s),
            self.sat(r),
            r.wf(),
            self.sat(s) ==> r == s,
    {
        Size {
            width: clamp_dim(s.width, self.min.width, self.max.width),
            height: clamp_dim(s.height, self.min.height, self.max.height),
        }
    }

    /// Whether the horizontal axis has a finite maximum.
    pub fn is_width_bounded(&self) -> (b: bool)
        ensures
            b == (self.max.width < MAX_DIM),
    {
        self.max.width < MAX_DIM
    }

    /// Whether the vertical axis has a finite maximum.
    pub fn is_height_bounded(&self) -> (b: bool)
        ensures
            b == (self.max.height < MAX_DIM),
    {
        self.max.height < MAX_DIM
    }
}

} // verus!
