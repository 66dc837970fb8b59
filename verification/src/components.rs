//! The view-node tree: the closed set of built-in node kinds, the widget
//! variants, and the uniform dispatch of `name`, `layout` and `draw` over
//! them.
//!
//! A `ViewNode` either owns a core component by value (the common path, no
//! indirection) or holds a widget node. Layout asks a node for its size under
//! [`Limits`]; draw paints the node into a [`BufDrawSurface`] region.

mod button;
mod center;
mod dyn_child;
mod text;
mod unit;

use vstd::prelude::*;

use crate::geometry::Limits;
use crate::geometry::Size;
use crate::geometry::XY;
use crate::surface::BufDrawSurface;

pub use button::Button;
pub use center::Center;
pub use center::MissingChild;
pub use center::WithChild;
pub use dyn_child::DynChild;
pub use text::Alignment;
pub use text::Text;
pub use text::get_text_size;
pub use unit::Unit;

verus! {

/// The uniform handle over any node kind, used by composite nodes to hold
/// children.
#[derive(Debug)]
pub enum ViewNode {
    /// A built-in node kind, owned by value and cheaply matched.
    CoreComponent(CoreComponent),
    /// A widget node kind, dispatched through the widget variants.
    Widget(WidgetNode),
}

/// The built-in, value-owned node kinds.
#[derive(Debug)]
pub enum CoreComponent {
    Unit(Unit),
    DynChild(DynChild),
    Text(Text),
}

/// The widget node kinds: nodes that in a reactive runtime are shared with
/// effects and therefore live behind a lock there; the lock is the runtime
/// integration's business, the nodes' logic lives here.
#[derive(Debug)]
pub enum WidgetNode {
    Button(Button),
    Center(Center<WithChild>),
}

impl ViewNode {
    /// Structural well-formedness of the whole tree: every text-bearing node
    /// holds fewer characters than the cell grid can address, and every
    /// centering container has its child.
    pub open spec fn wf(self) -> bool
        decreases self,
    {
        match self {
            ViewNode::CoreComponent(c) => c.wf(),
            ViewNode::Widget(w) => w.wf(),
        }
    }

    /// The size this node reports under `limits`.
    pub open spec fn layout_size(self, limits: Limits) -> Size
        decreases self,
    {
        match self {
            ViewNode::CoreComponent(c) => c.layout_size(limits),
            ViewNode::Widget(w) => w.layout_size(limits),
        }
    }

    /// How layout rewrites the node: `post` is the node after `layout(limits)`
    /// ran on `self`.
    pub open spec fn post_layout(self, post: ViewNode, limits: Limits) -> bool
        decreases self,
    {
        match (self, post) {
            (ViewNode::CoreComponent(a), ViewNode::CoreComponent(b)) => a.post_layout(b, limits),
            (ViewNode::Widget(a), ViewNode::Widget(b)) => a.post_layout(b, limits),
            _ => false,
        }
    }

    /// The conditions under which this node's reported size satisfies the
    /// limits it was given. Every node kind conforms for well-formed limits,
    /// except that a text node's width follows its longest wrapped line
    /// wherever that line violates the limits.
    pub open spec fn conforming(self, limits: Limits) -> bool
        decreases self,
    {
        match self {
            ViewNode::CoreComponent(c) => c.conforming(limits),
            ViewNode::Widget(w) => w.conforming(limits),
        }
    }

    /// What draw needs of the region it is given: every centering container's
    /// recorded child size fits the region it will carve out. Established by
    /// a layout pass whose nodes conform (the engine's structural invariant).
    pub open spec fn draw_pre(self, region: Size) -> bool
        decreases self,
    {
        match self {
            ViewNode::CoreComponent(c) => c.draw_pre(region),
            ViewNode::Widget(w) => w.draw_pre(region),
        }
    }

    /// Exactly what drawing this node appends to the sink of a surface whose
    /// current region is `region` at absolute offset `top_left`.
    pub open spec fn draw_emits(self, top_left: XY, region: Size, delta: Seq<char>) -> bool
        decreases self,
    {
        match self {
            ViewNode::CoreComponent(c) => c.draw_emits(top_left, region, delta),
            ViewNode::Widget(w) => w.draw_emits(top_left, region, delta),
        }
    }

    pub open spec fn spec_name(self) -> Seq<char>
        decreases self,
    {
        match self {
            ViewNode::CoreComponent(c) => c.spec_name(),
            ViewNode::Widget(w) => w.spec_name(),
        }
    }

    /// The name of the node kind this view holds.
    pub fn name(&self) -> (r: &'static str)
        ensures
            r@ == self.spec_name(),
    {
        match self {
            ViewNode::CoreComponent(c) => c.name(),
            ViewNode::Widget(w) => w.name(),
        }
    }

    /// Computes this node's size under `limits`, caching whatever the node
    /// needs for the following draw pass. A conforming node's result
    /// satisfies `limits` (the layout invariant).
    pub fn layout(&mut self, limits: Limits) -> (size: Size)
        requires
            old(self).wf(),
        ensures
            size == old(self).layout_size(limits),
            old(self).post_layout(*final(self), limits),
            final(self).wf(),
            old(self).conforming(limits) ==> limits.spec_is_size_within_limits(size),
        decreases *old(self),
    {
        match self {
            ViewNode::CoreComponent(c) => c.layout(limits),
            ViewNode::Widget(w) => w.layout(limits),
        }
    }

    /// Paints this node into the surface's current region. The surface's
    /// region is restored on return; the sink only ever grows, by exactly
    /// what `draw_emits` describes.
    pub fn draw(&self, surface: &mut BufDrawSurface)
        requires
            old(surface).wf(),
            self.draw_pre(old(surface).size),
        ensures
            final(surface).top_left == old(surface).top_left,
            final(surface).size == old(surface).size,
            final(surface).wf(),
            final(surface).buf@.len() >= old(surface).buf@.len(),
            final(surface).buf@.take(old(surface).buf@.len() as int) == old(surface).buf@,
            self.draw_emits(
                old(surface).top_left,
                old(surface).size,
                final(surface).buf@.skip(old(surface).buf@.len() as int),
            ),
        decreases *self,
    {
        match self {
            ViewNode::CoreComponent(c) => c.draw(surface),
            ViewNode::Widget(w) => w.draw(surface),
        }
    }

    /// Decides at run time whether `draw` may be called for a region of the
    /// given size; the render driver checks this instead of trusting its own
    /// constraint bookkeeping.
    pub fn draw_ready(&self, region: Size) -> (r: bool)
        ensures
            r == self.draw_pre(region),
        decreases *self,
    {
        match self {
            ViewNode::CoreComponent(c) => c.draw_ready(region),
            ViewNode::Widget(w) => w.draw_ready(region),
        }
    }
}

impl Default for ViewNode {
    fn default() -> (r: ViewNode)
        ensures
            r == ViewNode::CoreComponent(CoreComponent::Unit(Unit)),
    {
        ViewNode::CoreComponent(CoreComponent::Unit(Unit))
    }
}

impl CoreComponent {
    pub open spec fn wf(self) -> bool
        decreases self,
    {
        match self {
            CoreComponent::Unit(_) => true,
            CoreComponent::DynChild(d) => d.wf(),
            CoreComponent::Text(t) => t.wf(),
        }
    }

    pub open spec fn layout_size(self, limits: Limits) -> Size
        decreases self,
    {
        match self {
            CoreComponent::Unit(_) => limits.spec_min_size(),
            CoreComponent::DynChild(d) => d.layout_size(limits),
            CoreComponent::Text(t) => t.layout_size(limits),
        }
    }

    pub open spec fn post_layout(self, post: CoreComponent, limits: Limits) -> bool
        decreases self,
    {
        match (self, post) {
            (CoreComponent::Unit(_), CoreComponent::Unit(_)) => true,
            (CoreComponent::DynChild(a), CoreComponent::DynChild(b)) => a.post_layout(b, limits),
            (CoreComponent::Text(a), CoreComponent::Text(b)) => a.post_layout(b, limits),
            _ => false,
        }
    }

    pub open spec fn conforming(self, limits: Limits) -> bool
        decreases self,
    {
        match self {
            CoreComponent::Unit(_) => limits.wf(),
            CoreComponent::DynChild(d) => d.conforming(limits),
            CoreComponent::Text(t) => t.conforming(limits),
        }
    }

    pub open spec fn draw_pre(self, region: Size) -> bool
        decreases self,
    {
        match self {
            CoreComponent::Unit(_) => true,
            CoreComponent::DynChild(d) => d.draw_pre(region),
            CoreComponent::Text(_) => true,
        }
    }

    pub open spec fn draw_emits(self, top_left: XY, region: Size, delta: Seq<char>) -> bool
        decreases self,
    {
        match self {
            CoreComponent::Unit(_) => delta == Seq::<char>::empty(),
            CoreComponent::DynChild(d) => d.draw_emits(top_left, region, delta),
            CoreComponent::Text(t) => t.draw_emits(top_left, region, delta),
        }
    }

    pub open spec fn spec_name(self) -> Seq<char>
        decreases self,
    {
        match self {
            CoreComponent::Unit(u) => u.spec_name(),
            CoreComponent::DynChild(d) => d.spec_name(),
            CoreComponent::Text(t) => t.spec_name(),
        }
    }

    pub fn name(&self) -> (r: &'static str)
        ensures
            r@ == self.spec_name(),
    {
        match self {
            CoreComponent::Unit(u) => u.name(),
            CoreComponent::DynChild(d) => d.name(),
            CoreComponent::Text(t) => t.name(),
        }
    }

    pub fn layout(&mut self, limits: Limits) -> (size: Size)
        requires
            old(self).wf(),
        ensures
            size == old(self).layout_size(limits),
            old(self).post_layout(*final(self), limits),
            final(self).wf(),
            old(self).conforming(limits) ==> limits.spec_is_size_within_limits(size),
        decreases *old(self),
    {
        match self {
            CoreComponent::Unit(u) => u.layout(limits),
            CoreComponent::DynChild(d) => d.layout(limits),
            CoreComponent::Text(t) => t.layout(limits),
        }
    }

    pub fn draw(&self, surface: &mut BufDrawSurface)
        requires
            old(surface).wf(),
            self.draw_pre(old(surface).size),
        ensures
            final(surface).top_left == old(surface).top_left,
            final(surface).size == old(surface).size,
            final(surface).wf(),
            final(surface).buf@.len() >= old(surface).buf@.len(),
            final(surface).buf@.take(old(surface).buf@.len() as int) == old(surface).buf@,
            self.draw_emits(
                old(surface).top_left,
                old(surface).size,
                final(surface).buf@.skip(old(surface).buf@.len() as int),
            ),
        decreases *self,
    {
        match self {
            CoreComponent::Unit(u) => {
                u.draw(surface);
                proof {
                    assert(surface.buf@.take(old(surface).buf@.len() as int) =~= old(
                        surface,
                    ).buf@);
                    assert(surface.buf@.skip(old(surface).buf@.len() as int) =~= Seq::<
                        char,
                    >::empty());
                }
            },
            CoreComponent::DynChild(d) => d.draw(surface),
            CoreComponent::Text(t) => t.draw(surface),
        }
    }

    pub fn draw_ready(&self, region: Size) -> (r: bool)
        ensures
            r == self.draw_pre(region),
        decreases *self,
    {
        match self {
            CoreComponent::Unit(_) => true,
            CoreComponent::DynChild(d) => d.draw_ready(region),
            CoreComponent::Text(_) => true,
        }
    }
}

impl Default for CoreComponent {
    fn default() -> (r: CoreComponent)
        ensures
            r == CoreComponent::Unit(Unit),
    {
        CoreComponent::Unit(Unit)
    }
}

impl WidgetNode {
    pub open spec fn wf(self) -> bool
        decreases self,
    {
        match self {
            WidgetNode::Button(b) => b.wf(),
            WidgetNode::Center(c) => c.wf(),
        }
    }

    pub open spec fn layout_size(self, limits: Limits) -> Size
        decreases self,
    {
        match self {
            WidgetNode::Button(b) => b.layout_size(limits),
            WidgetNode::Center(_) => limits.spec_max_size(),
        }
    }

    pub open spec fn post_layout(self, post: WidgetNode, limits: Limits) -> bool
        decreases self,
    {
        match (self, post) {
            (WidgetNode::Button(a), WidgetNode::Button(b)) => a.post_layout(b, limits),
            (WidgetNode::Center(a), WidgetNode::Center(b)) => a.post_layout(b, limits),
            _ => false,
        }
    }

    pub open spec fn conforming(self, limits: Limits) -> bool
        decreases self,
    {
        match self {
            WidgetNode::Button(_) => limits.wf(),
            WidgetNode::Center(c) => c.conforming(limits),
        }
    }

    pub open spec fn draw_pre(self, region: Size) -> bool
        decreases self,
    {
        match self {
            WidgetNode::Button(_) => true,
            WidgetNode::Center(c) => c.draw_pre(region),
        }
    }

    pub open spec fn draw_emits(self, top_left: XY, region: Size, delta: Seq<char>) -> bool
        decreases self,
    {
        match self {
            WidgetNode::Button(b) => b.draw_emits(top_left, region, delta),
            WidgetNode::Center(c) => c.draw_emits(top_left, region, delta),
        }
    }

    pub open spec fn spec_name(self) -> Seq<char>
        decreases self,
    {
        match self {
            WidgetNode::Button(b) => b.spec_name(),
            WidgetNode::Center(c) => c.spec_name(),
        }
    }

    pub fn name(&self) -> (r: &'static str)
        ensures
            r@ == self.spec_name(),
    {
        match self {
            WidgetNode::Button(b) => b.name(),
            WidgetNode::Center(c) => c.name(),
        }
    }

    pub fn layout(&mut self, limits: Limits) -> (size: Size)
        requires
            old(self).wf(),
        ensures
            size == old(self).layout_size(limits),
            old(self).post_layout(*final(self), limits),
            final(self).wf(),
            old(self).conforming(limits) ==> limits.spec_is_size_within_limits(size),
        decreases *old(self),
    {
        match self {
            WidgetNode::Button(b) => b.layout(limits),
            WidgetNode::Center(c) => c.layout(limits),
        }
    }

    pub fn draw(&self, surface: &mut BufDrawSurface)
        requires
            old(surface).wf(),
            self.draw_pre(old(surface).size),
        ensures
            final(surface).top_left == old(surface).top_left,
            final(surface).size == old(surface).size,
            final(surface).wf(),
            final(surface).buf@.len() >= old(surface).buf@.len(),
            final(surface).buf@.take(old(surface).buf@.len() as int) == old(surface).buf@,
            self.draw_emits(
                old(surface).top_left,
                old(surface).size,
                final(surface).buf@.skip(old(surface).buf@.len() as int),
            ),
        decreases *self,
    {
        match self {
            WidgetNode::Button(b) => b.draw(surface),
            WidgetNode::Center(c) => c.draw(surface),
        }
    }

    pub fn draw_ready(&self, region: Size) -> (r: bool)
        ensures
            r == self.draw_pre(region),
        decreases *self,
    {
        match self {
            WidgetNode::Button(_) => true,
            WidgetNode::Center(c) => c.draw_ready(region),
        }
    }
}

/// Normalization of a value into a view node. The reactive runtime's scope
/// plays no role in the data itself, so normalization is scope-free here; the
/// runtime integration registers its effects around the produced tree.
pub trait IntoView: Sized {
    /// Which view nodes this value may normalize into.
    spec fn is_view_of(self, r: ViewNode) -> bool;

    /// Normalizes this value into a view node.
    fn into_view(self) -> (r: ViewNode)
        ensures
            self.is_view_of(r),
    ;
}

impl IntoView for ViewNode {
    open spec fn is_view_of(self, r: ViewNode) -> bool {
        r == self
    }

    fn into_view(self) -> (r: ViewNode) {
        self
    }
}

impl IntoView for CoreComponent {
    open spec fn is_view_of(self, r: ViewNode) -> bool {
        r == ViewNode::CoreComponent(self)
    }

    fn into_view(self) -> (r: ViewNode) {
        ViewNode::CoreComponent(self)
    }
}

impl IntoView for () {
    open spec fn is_view_of(self, r: ViewNode) -> bool {
        r == ViewNode::CoreComponent(CoreComponent::Unit(Unit))
    }

    fn into_view(self) -> (r: ViewNode) {
        ViewNode::CoreComponent(CoreComponent::Unit(Unit))
    }
}

impl<T: IntoView> IntoView for Option<T> {
    open spec fn is_view_of(self, r: ViewNode) -> bool {
        match self {
            Option::Some(v) => v.is_view_of(r),
            Option::None => r == ViewNode::CoreComponent(CoreComponent::Unit(Unit)),
        }
    }

    fn into_view(self) -> (r: ViewNode) {
        match self {
            Option::Some(v) => v.into_view(),
            Option::None => ViewNode::CoreComponent(CoreComponent::Unit(Unit)),
        }
    }
}

impl IntoView for String {
    open spec fn is_view_of(self, r: ViewNode) -> bool {
        r matches ViewNode::CoreComponent(CoreComponent::Text(t)) && t.text@ == self@
            && t.wrapped_text@.len() == 0 && t.size == (Size { width: 0u16, height: 0u16 })
    }

    fn into_view(self) -> (r: ViewNode) {
        let text = Text::from_string(self);
        ViewNode::CoreComponent(CoreComponent::Text(text))
    }
}

impl IntoView for &'static str {
    open spec fn is_view_of(self, r: ViewNode) -> bool {
        r matches ViewNode::CoreComponent(CoreComponent::Text(t)) && t.text@ == self@
            && t.wrapped_text@.len() == 0 && t.size == (Size { width: 0u16, height: 0u16 })
    }

    fn into_view(self) -> (r: ViewNode) {
        let text = Text::new(self);
        ViewNode::CoreComponent(CoreComponent::Text(text))
    }
}

/// The layout invariant at the specification level: a node that conforms to
/// well-formed limits reports a size that satisfies them — no child ever
/// escapes the limits it was given.
pub proof fn lemma_conforming_size_within(node: ViewNode, limits: Limits)
    requires
        node.conforming(limits),
    ensures
        limits.spec_is_size_within_limits(node.layout_size(limits)),
    decreases node,
{
    match node {
        ViewNode::CoreComponent(c) => match c {
            CoreComponent::Unit(_) => {},
            CoreComponent::DynChild(d) => {
                lemma_conforming_size_within(*d.child, limits);
            },
            CoreComponent::Text(t) => {
                text::lemma_text_conforming_within(t.text@, limits);
            },
        },
        ViewNode::Widget(w) => match w {
            WidgetNode::Button(_) => {},
            WidgetNode::Center(_) => {},
        },
    }
}

/// A layout pass over a conforming tree leaves it ready to draw: every
/// centering container's recorded child size fits the region the draw pass
/// will hand it, down the whole tree, for any region at least as large as
/// the size the pass reported.
pub proof fn lemma_layout_enables_draw(pre: ViewNode, post: ViewNode, limits: Limits, region: Size)
    requires
        pre.post_layout(post, limits),
        pre.conforming(limits),
        pre.layout_size(limits).width <= region.width,
        pre.layout_size(limits).height <= region.height,
    ensures
        post.draw_pre(region),
    decreases pre,
{
    match (pre, post) {
        (
            ViewNode::CoreComponent(CoreComponent::DynChild(a)),
            ViewNode::CoreComponent(CoreComponent::DynChild(b)),
        ) => {
            lemma_layout_enables_draw(*a.child, *b.child, limits, region);
        },
        (ViewNode::Widget(WidgetNode::Center(a)), ViewNode::Widget(WidgetNode::Center(b))) => {
            let c1 = a.child.unwrap();
            let c2 = b.child.unwrap();
            lemma_conforming_size_within(*c1, center::child_limits(limits));
            lemma_layout_enables_draw(*c1, *c2, center::child_limits(limits), b.child_size);
        },
        _ => {},
    }
}

/// The constraint-violation check of the render driver: a node's reported
/// size must satisfy the limits it was given. In the verified engine the
/// check is discharged statically — the precondition is exactly what the
/// conforming layout contracts establish — so the body has nothing left to
/// test at run time.
pub fn debug_assert_size_within_limits(limits: Limits, size: Size)
    requires
        limits.spec_is_size_within_limits(size),
{
}

} // verus!
