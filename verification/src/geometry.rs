//! Geometry value types: `Size`, `Limits` and relative `XY` offsets, together
//! with the constraint arithmetic of the layout negotiation.

use vstd::prelude::*;

verus! {

/// A closed range of acceptable widths and heights that a layout result must
/// satisfy. Callers are expected to construct limits with `min <= max` on each
/// axis (see [`Limits::wf`]); degenerate limits with `min == max` pin an exact
/// size.
#[derive(Clone, Copy, Debug, PartialEq, Eq, Structural)]
pub struct Limits {
    pub min_width: u16,
    pub max_width: u16,
    pub min_height: u16,
    pub max_height: u16,
}

/// A concrete width/height result of layout, in character cells.
#[derive(Clone, Copy, Debug, PartialEq, Eq, Structural)]
pub struct Size {
    pub width: u16,
    pub height: u16,
}

/// A position offset relative to the current drawing region, never absolute.
#[derive(Clone, Copy, Debug, PartialEq, Eq, Structural)]
pub struct XY {
    pub x: u16,
    pub y: u16,
}

impl Limits {
    /// The caller invariant on limits: `min <= max` on each axis.
    pub open spec fn wf(self) -> bool {
        self.min_width <= self.max_width && self.min_height <= self.max_height
    }

    pub open spec fn spec_max_size(self) -> Size {
        Size { width: self.max_width, height: self.max_height }
    }

    pub open spec fn spec_min_size(self) -> Size {
        Size { width: self.min_width, height: self.min_height }
    }

    /// True iff `size` is componentwise at most the maximum size and
    /// componentwise at least the minimum size. This is a conjunction of two
    /// independent axis checks; it is deliberately not the area ordering that
    /// [`Size`] exposes through `PartialOrd`.
    pub open spec fn spec_is_size_within_limits(self, size: Size) -> bool {
        &&& size.width <= self.max_width
        &&& size.height <= self.max_height
        &&& self.min_width <= size.width
        &&& self.min_height <= size.height
    }

    /// Projects the upper bounds of both axes into a size.
    #[verifier::when_used_as_spec(spec_max_size)]
    pub fn max_size(self) -> (r: Size)
        ensures
            r == self.spec_max_size(),
    {
        Size { width: self.max_width, height: self.max_height }
    }

    /// Projects the lower bounds of both axes into a size.
    #[verifier::when_used_as_spec(spec_min_size)]
    pub fn min_size(self) -> (r: Size)
        ensures
            r == self.spec_min_size(),
    {
        Size { width: self.min_width, height: self.min_height }
    }

    /// Decides whether `size` satisfies these limits, axis by axis.
    #[verifier::when_used_as_spec(spec_is_size_within_limits)]
    pub fn is_size_within_limits(self, size: Size) -> (r: bool)
        ensures
            r == self.spec_is_size_within_limits(size),
    {
        size.width <= self.max_width && size.height <= self.max_height
            && self.min_width <= size.width && self.min_height <= size.height
    }

    /// Constructs limits that pin an exact size (`min == max` on both axes);
    /// used when a region offers no flexibility.
    pub fn strict(width: u16, height: u16) -> (r: Limits)
        ensures
            r == (Limits {
                min_width: width,
                max_width: width,
                min_height: height,
                max_height: height,
            }),
            r.wf(),
            r.spec_is_size_within_limits(Size { width, height }),
    {
        Limits { min_width: width, max_width: width, min_height: height, max_height: height }
    }
}

impl Default for Limits {
    fn default() -> (r: Limits)
        ensures
            r == (Limits { min_width: 0u16, max_width: 0u16, min_height: 0u16, max_height: 0u16 }),
    {
        Limits { min_width: 0, max_width: 0, min_height: 0, max_height: 0 }
    }
}

impl Size {
    /// The area of this size in cells: `width * height`.
    pub open spec fn spec_linear_length(self) -> int {
        self.width * self.height
    }

    /// Gets the area of this size. Two sizes with equal area but different
    /// aspect ratios compare equal under the derived ordering; callers must
    /// not use it as a geometric fit check.
    pub fn linear_length(self) -> (r: usize)
        ensures
            r == self.spec_linear_length(),
    {
        proof {
            assert(self.width as int * self.height as int <= 65535int * 65535int)
                by (nonlinear_arith)
                requires
                    self.width <= 65535,
                    self.height <= 65535,
            ;
        }
        self.width as usize * self.height as usize
    }

    pub open spec fn spec_into_strict_limits(self) -> Limits {
        Limits {
            min_width: self.width,
            max_width: self.width,
            min_height: self.height,
            max_height: self.height,
        }
    }

    /// Turns this size into limits that pin it exactly.
    #[verifier::when_used_as_spec(spec_into_strict_limits)]
    pub fn into_strict_limits(self) -> (r: Limits)
        ensures
            r == self.spec_into_strict_limits(),
    {
        Limits::strict(self.width, self.height)
    }
}

impl Default for Size {
    fn default() -> (r: Size)
        ensures
            r == (Size { width: 0u16, height: 0u16 }),
    {
        Size { width: 0, height: 0 }
    }
}

impl Default for XY {
    fn default() -> (r: XY)
        ensures
            r == (XY { x: 0u16, y: 0u16 }),
    {
        XY { x: 0, y: 0 }
    }
}

/// `Size` is ordered by area for coarse comparisons; this is a convenience,
/// not a geometric partial order.
impl PartialOrd for Size {
    fn partial_cmp(&self, other: &Size) -> (r: Option<core::cmp::Ordering>) {
        let a = self.linear_length();
        let b = other.linear_length();
        if a < b {
            Some(core::cmp::Ordering::Less)
        } else if a == b {
            Some(core::cmp::Ordering::Equal)
        } else {
            Some(core::cmp::Ordering::Greater)
        }
    }
}

impl vstd::std_specs::cmp::PartialOrdSpecImpl for Size {
    open spec fn obeys_partial_cmp_spec() -> bool {
        true
    }

    open spec fn partial_cmp_spec(&self, other: &Size) -> Option<core::cmp::Ordering> {
        if self.spec_linear_length() < other.spec_linear_length() {
            Some(core::cmp::Ordering::Less)
        } else if self.spec_linear_length() == other.spec_linear_length() {
            Some(core::cmp::Ordering::Equal)
        } else {
            Some(core::cmp::Ordering::Greater)
        }
    }
}

/// Converts the tuple into strict limits of `(width, height)`.
impl From<(u16, u16)> for Limits {
    fn from(pair: (u16, u16)) -> (r: Limits)
        ensures
            r == (Limits {
                min_width: pair.0,
                max_width: pair.0,
                min_height: pair.1,
                max_height: pair.1,
            }),
    {
        Limits::strict(pair.0, pair.1)
    }
}

impl vstd::std_specs::convert::FromSpecImpl<(u16, u16)> for Limits {
    open spec fn obeys_from_spec() -> bool {
        true
    }

    open spec fn from_spec(pair: (u16, u16)) -> Limits {
        Limits { min_width: pair.0, max_width: pair.0, min_height: pair.1, max_height: pair.1 }
    }
}

/// Converts the tuple using `(max_width, min_width, max_height, min_height)`.
impl From<(u16, u16, u16, u16)> for Limits {
    fn from(quad: (u16, u16, u16, u16)) -> (r: Limits)
        ensures
            r == (Limits {
                min_width: quad.1,
                max_width: quad.0,
                min_height: quad.3,
                max_height: quad.2,
            }),
    {
        Limits { min_width: quad.1, max_width: quad.0, min_height: quad.3, max_height: quad.2 }
    }
}

impl vstd::std_specs::convert::FromSpecImpl<(u16, u16, u16, u16)> for Limits {
    open spec fn obeys_from_spec() -> bool {
        true
    }

    open spec fn from_spec(quad: (u16, u16, u16, u16)) -> Limits {
        Limits { min_width: quad.1, max_width: quad.0, min_height: quad.3, max_height: quad.2 }
    }
}

/// Converts the pair of sizes using `(max_size, min_size)`.
impl From<(Size, Size)> for Limits {
    fn from(pair: (Size, Size)) -> (r: Limits)
        ensures
            r == (Limits {
                min_width: pair.1.width,
                max_width: pair.0.width,
                min_height: pair.1.height,
                max_height: pair.0.height,
            }),
    {
        Limits {
            min_width: pair.1.width,
            max_width: pair.0.width,
            min_height: pair.1.height,
            max_height: pair.0.height,
        }
    }
}

impl vstd::std_specs::convert::FromSpecImpl<(Size, Size)> for Limits {
    open spec fn obeys_from_spec() -> bool {
        true
    }

    open spec fn from_spec(pair: (Size, Size)) -> Limits {
        Limits {
            min_width: pair.1.width,
            max_width: pair.0.width,
            min_height: pair.1.height,
            max_height: pair.0.height,
        }
    }
}

impl From<(u16, u16)> for Size {
    fn from(pair: (u16, u16)) -> (r: Size)
        ensures
            r == (Size { width: pair.0, height: pair.1 }),
    {
        Size { width: pair.0, height: pair.1 }
    }
}

impl vstd::std_specs::convert::FromSpecImpl<(u16, u16)> for Size {
    open spec fn obeys_from_spec() -> bool {
        true
    }

    open spec fn from_spec(pair: (u16, u16)) -> Size {
        Size { width: pair.0, height: pair.1 }
    }
}

impl From<(u16, u16)> for XY {
    fn from(pair: (u16, u16)) -> (r: XY)
        ensures
            r == (XY { x: pair.0, y: pair.1 }),
    {
        XY { x: pair.0, y: pair.1 }
    }
}

impl vstd::std_specs::convert::FromSpecImpl<(u16, u16)> for XY {
    open spec fn obeys_from_spec() -> bool {
        true
    }

    open spec fn from_spec(pair: (u16, u16)) -> XY {
        XY { x: pair.0, y: pair.1 }
    }
}

/// Round trip: turning a size into strict limits and projecting either the
/// maximum or the minimum size back out returns the original size.
pub proof fn lemma_strict_limits_round_trip(size: Size)
    ensures
        size.spec_into_strict_limits().spec_max_size() == size,
        size.spec_into_strict_limits().spec_min_size() == size,
{
}

} // verus!
