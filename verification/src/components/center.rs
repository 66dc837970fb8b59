//! The centering container: a node that consumes all available space and
//! draws its single child centered inside it.

use core::marker::PhantomData;

use vstd::prelude::*;

use crate::components::IntoView;
use crate::components::ViewNode;
use crate::geometry::Limits;
use crate::geometry::Size;
use crate::geometry::XY;
use crate::surface::BufDrawSurface;

verus! {

/// Builder state of a [`Center`] that still lacks its child.
#[derive(Clone, Copy, Debug, PartialEq, Eq, Structural)]
pub struct MissingChild;

/// Builder state of a [`Center`] whose child is set.
#[derive(Clone, Copy, Debug, PartialEq, Eq, Structural)]
pub struct WithChild;

/// The limits a centering container hands its child: free to choose any size
/// up to the parent's maximum on both axes.
pub open spec fn child_limits(limits: Limits) -> Limits {
    Limits { min_width: 0, max_width: limits.max_width, min_height: 0, max_height: limits.max_height }
}

/// A centering container. Its child is set once at construction time through
/// the builder; layout records the child's chosen size and reports the full
/// maximum size; draw narrows the surface to the recorded child size,
/// centered, and delegates.
#[derive(Debug)]
pub struct Center<State> {
    pub state: PhantomData<State>,
    pub child: Option<Box<ViewNode>>,
    pub child_size: Size,
}

impl Center<MissingChild> {
    /// Starts building a centering container.
    pub fn new() -> (r: Center<MissingChild>)
        ensures
            r.child is None,
            r.child_size == (Size { width: 0u16, height: 0u16 }),
    {
        Center { state: PhantomData, child: None, child_size: Size { width: 0, height: 0 } }
    }

    /// Sets the single child, finishing the builder.
    pub fn child<T: IntoView>(self, child: T) -> (r: Center<WithChild>)
        ensures
            r.child matches Some(b) && child.is_view_of(*b),
            r.child_size == (Size { width: 0u16, height: 0u16 }),
    {
        let v = child.into_view();
        Center {
            state: PhantomData,
            child: Some(Box::new(v)),
            child_size: Size { width: 0, height: 0 },
        }
    }
}

impl Default for Center<MissingChild> {
    fn default() -> (r: Center<MissingChild>)
        ensures
            r.child is None,
            r.child_size == (Size { width: 0u16, height: 0u16 }),
    {
        Center { state: PhantomData, child: None, child_size: Size { width: 0, height: 0 } }
    }
}

impl Center<WithChild> {
    /// A finished centering container holds its child, and the child's tree
    /// is well-formed.
    pub open spec fn wf(self) -> bool
        decreases self,
    {
        self.child matches Some(c) && c.wf()
    }

    pub open spec fn spec_name(self) -> Seq<char> {
        "Center"@
    }

    /// The container itself satisfies any well-formed limits; the tree under
    /// it conforms when the child satisfies the narrowed child limits.
    pub open spec fn conforming(self, limits: Limits) -> bool
        decreases self,
    {
        limits.wf() && (self.child matches Some(c) && c.conforming(child_limits(limits)))
    }

    /// How layout rewrites the container: the child is laid out under the
    /// narrowed child limits `{min = 0, max = parent max}` and its reported
    /// size is recorded.
    pub open spec fn post_layout(self, post: Center<WithChild>, limits: Limits) -> bool
        decreases self,
    {
        self.child matches Some(c1) && post.child matches Some(c2) && c1.post_layout(
            *c2,
            child_limits(limits),
        ) && post.child_size == c1.layout_size(child_limits(limits))
    }

    /// Draw needs the recorded child size to fit the region it was handed,
    /// and the child to be ready for the carved-out region.
    pub open spec fn draw_pre(self, region: Size) -> bool
        decreases self,
    {
        self.child matches Some(c) && self.child_size.width <= region.width
            && self.child_size.height <= region.height && c.draw_pre(self.child_size)
    }

    /// What drawing the container emits: exactly what its child emits into
    /// the centered sub-region of the recorded size.
    pub open spec fn draw_emits(self, top_left: XY, region: Size, delta: Seq<char>) -> bool
        decreases self,
    {
        self.child matches Some(c) && c.draw_emits(
            XY {
                x: (top_left.x + (region.width - self.child_size.width) / 2) as u16,
                y: (top_left.y + (region.height - self.child_size.height) / 2) as u16,
            },
            self.child_size,
            delta,
        )
    }

    pub fn name(&self) -> (r: &'static str)
        ensures
            r@ == self.spec_name(),
    {
        "Center"
    }

    /// Lays the child out under `{min = 0, max = parent max}`, records the
    /// child's reported size, and reports the parent's maximum size: the
    /// container always consumes all available space.
    pub fn layout(&mut self, limits: Limits) -> (size: Size)
        requires
            old(self).wf(),
        ensures
            size == limits.spec_max_size(),
            old(self).post_layout(*final(self), limits),
            final(self).wf(),
            limits.wf() ==> limits.spec_is_size_within_limits(size),
        decreases *old(self),
    {
        let narrowed = Limits {
            min_width: 0,
            max_width: limits.max_width,
            min_height: 0,
            max_height: limits.max_height,
        };
        let mut boxed_child = self.child.take().unwrap();
        let child_size = (&mut *boxed_child).layout(narrowed);
        self.child = Some(boxed_child);
        self.child_size = child_size;
        limits.max_size()
    }

    /// Narrows the surface to the recorded child size, centered, draws the
    /// child there, and restores the region.
    pub fn draw(&self, surface: &mut BufDrawSurface)
        requires
            old(surface).wf(),
            self.draw_pre(old(surface).size),
        ensures
            final(surface).top_left == old(surface).top_left,
            final(surface).size == old(surface).size,
            final(surface).wf(),
            final(surface).buf@.len() >= old(surface).buf@.len(),
            final(surface).buf@.take(old(surface).buf@.len() as int) == old(surface).buf@,
            self.draw_emits(
                old(surface).top_left,
                old(surface).size,
                final(surface).buf@.skip(old(surface).buf@.len() as int),
            ),
        decreases *self,
    {
        let ghost pre = surface.buf@;
        let saved = surface.shrink_centered(self.child_size);
        match &self.child {
            Some(c) => {
                (&**c).draw(surface);
            },
            None => {
                proof {
                    assert(false);
                }
            },
        }
        surface.restore(saved);
        proof {
            assert(surface.buf@.take(pre.len() as int) =~= pre);
        }
    }

    pub fn draw_ready(&self, region: Size) -> (r: bool)
        ensures
            r == self.draw_pre(region),
        decreases *self,
    {
        match &self.child {
            Some(c) => self.child_size.width <= region.width && self.child_size.height
                <= region.height && (&**c).draw_ready(self.child_size),
            None => false,
        }
    }
}

impl IntoView for Center<WithChild> {
    open spec fn is_view_of(self, r: ViewNode) -> bool {
        r == ViewNode::Widget(crate::components::WidgetNode::Center(self))
    }

    fn into_view(self) -> (r: ViewNode) {
        ViewNode::Widget(crate::components::WidgetNode::Center(self))
    }
}

} // verus!
