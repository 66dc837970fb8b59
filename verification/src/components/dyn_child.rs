//! The reactive-rebinding node: a view kind whose current child can be
//! swapped in place by an external effect, without touching the rest of the
//! tree.
//!
//! The node itself only owns the current child and forwards layout and draw
//! to it; the runtime integration re-derives a child whenever a reactive
//! dependency changes and hands it to [`DynChild::set_child`].

use vstd::prelude::*;

use crate::components::ViewNode;
use crate::geometry::Limits;
use crate::geometry::Size;
use crate::geometry::XY;
use crate::surface::BufDrawSurface;

verus! {

/// A reactive-rebinding node holding its current child.
#[derive(Debug)]
pub struct DynChild {
    pub child: Box<ViewNode>,
}

impl DynChild {
    pub open spec fn wf(self) -> bool
        decreases self,
    {
        self.child.wf()
    }

    pub open spec fn spec_name(self) -> Seq<char> {
        "DynChild"@
    }

    pub open spec fn layout_size(self, limits: Limits) -> Size
        decreases self,
    {
        self.child.layout_size(limits)
    }

    pub open spec fn post_layout(self, post: DynChild, limits: Limits) -> bool
        decreases self,
    {
        self.child.post_layout(*post.child, limits)
    }

    pub open spec fn conforming(self, limits: Limits) -> bool
        decreases self,
    {
        self.child.conforming(limits)
    }

    pub open spec fn draw_pre(self, region: Size) -> bool
        decreases self,
    {
        self.child.draw_pre(region)
    }

    pub open spec fn draw_emits(self, top_left: XY, region: Size, delta: Seq<char>) -> bool
        decreases self,
    {
        self.child.draw_emits(top_left, region, delta)
    }

    /// Creates a rebinding node with its initial child, typically the first
    /// derivation's output.
    pub fn new(child: ViewNode) -> (r: DynChild)
        ensures
            *r.child == child,
    {
        DynChild { child: Box::new(child) }
    }

    /// Replaces the current child: the single exclusive replace an external
    /// effect performs when a reactive dependency changed. Nothing but the
    /// child slot is touched, so the rest of the tree keeps its structure,
    /// and the next layout and draw pass sees exactly the new child.
    pub fn set_child(&mut self, new_child: ViewNode)
        ensures
            *final(self).child == new_child,
    {
        self.child = Box::new(new_child);
    }

    pub fn name(&self) -> (r: &'static str)
        ensures
            r@ == self.spec_name(),
    {
        "DynChild"
    }

    /// Forwards layout to the current child.
    pub fn layout(&mut self, limits: Limits) -> (size: Size)
        requires
            old(self).wf(),
        ensures
            size == old(self).layout_size(limits),
            old(self).post_layout(*final(self), limits),
            final(self).wf(),
            old(self).conforming(limits) ==> limits.spec_is_size_within_limits(size),
        decreases *old(self),
    {
        (&mut *self.child).layout(limits)
    }

    /// Forwards draw to the current child.
    pub fn draw(&self, surface: &mut BufDrawSurface)
        requires
            old(surface).wf(),
            self.draw_pre(old(surface).size),
        ensures
            final(surface).top_left == old(surface).top_left,
            final(surface).size == old(surface).size,
            final(surface).wf(),
            final(surface).buf@.len() >= old(surface).buf@.len(),
            final(surface).buf@.take(old(surface).buf@.len() as int) == old(surface).buf@,
            self.draw_emits(
                old(surface).top_left,
                old(surface).size,
                final(surface).buf@.skip(old(surface).buf@.len() as int),
            ),
        decreases *self,
    {
        (&*self.child).draw(surface)
    }

    pub fn draw_ready(&self, region: Size) -> (r: bool)
        ensures
            r == self.draw_pre(region),
        decreases *self,
    {
        (&*self.child).draw_ready(region)
    }
}

impl crate::components::IntoView for DynChild {
    open spec fn is_view_of(self, r: ViewNode) -> bool {
        r == ViewNode::CoreComponent(crate::components::CoreComponent::DynChild(self))
    }

    fn into_view(self) -> (r: ViewNode) {
        ViewNode::CoreComponent(crate::components::CoreComponent::DynChild(self))
    }
}

} // verus!
