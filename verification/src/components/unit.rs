//! The empty node: the default and fallback view for absent content.

use vstd::prelude::*;

use crate::geometry::Limits;
use crate::geometry::Size;
use crate::surface::BufDrawSurface;

verus! {

/// The empty node. Its layout takes the least space the limits allow and its
/// draw paints nothing.
#[derive(Clone, Copy, Debug, PartialEq, Eq, Structural)]
pub struct Unit;

impl Unit {
    pub open spec fn spec_name(self) -> Seq<char> {
        "Unit"@
    }

    pub fn name(&self) -> (r: &'static str)
        ensures
            r@ == self.spec_name(),
    {
        "Unit"
    }

    /// Reports the limits' minimum size unconditionally.
    pub fn layout(&mut self, limits: Limits) -> (size: Size)
        ensures
            size == limits.spec_min_size(),
            limits.wf() ==> limits.spec_is_size_within_limits(size),
    {
        limits.min_size()
    }

    /// Paints nothing.
    pub fn draw(&self, surface: &mut BufDrawSurface)
        ensures
            *final(surface) == *old(surface),
    {
    }
}

impl crate::components::IntoView for Unit {
    open spec fn is_view_of(self, r: crate::components::ViewNode) -> bool {
        r == crate::components::ViewNode::CoreComponent(
            crate::components::CoreComponent::Unit(self),
        )
    }

    fn into_view(self) -> (r: crate::components::ViewNode) {
        crate::components::ViewNode::CoreComponent(crate::components::CoreComponent::Unit(self))
    }
}

} // verus!
