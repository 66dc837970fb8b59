//! The text node: wraps its text to the maximum width during layout and
//! draws each kept line at increasing row offsets.

use vstd::prelude::*;
use vstd::string::StrSliceExecFns;

use crate::geometry::Limits;
use crate::geometry::Size;
use crate::geometry::XY;
use crate::surface::BufDrawSurface;
use crate::surface::plain_write_delta;
use crate::wrapping::wrap_lines;
use crate::wrapping::wrap_text;

verus! {

/// A text node. Layout wraps the text to the limits' maximum width and
/// caches the wrapped lines and the computed size for the following draw.
#[derive(Debug)]
pub struct Text {
    pub text: String,
    pub wrapped_text: Vec<String>,
    pub size: Size,
}

/// Horizontal alignment of text inside its node.
#[derive(Clone, Copy, Debug, PartialEq, Eq, Structural)]
pub enum Alignment {
    Start,
    Center,
    End,
}

impl Default for Alignment {
    fn default() -> (r: Alignment)
        ensures
            r == Alignment::Start,
    {
        Alignment::Start
    }
}

/// The number of characters in the longest of `lines`.
pub open spec fn max_line_width(lines: Seq<Seq<char>>) -> int
    decreases lines.len(),
{
    if lines.len() == 0 {
        0
    } else {
        let rest = max_line_width(lines.drop_last());
        if lines.last().len() > rest {
            lines.last().len() as int
        } else {
            rest
        }
    }
}

/// The height a text node reports for `line_count` wrapped lines: the line
/// count clamped to the maximum height, then raised to the minimum height if
/// needed.
pub open spec fn text_layout_height(line_count: int, limits: Limits) -> int {
    if line_count <= limits.max_height {
        if line_count >= limits.min_height {
            line_count
        } else {
            limits.min_height as int
        }
    } else {
        limits.max_height as int
    }
}

/// The size a text node reports: the longest wrapped line by the clamped
/// line count.
pub open spec fn text_layout_size(text: Seq<char>, limits: Limits) -> Size {
    let lines = wrap_lines(text, limits.max_width as int);
    Size {
        width: max_line_width(lines) as u16,
        height: text_layout_height(lines.len() as int, limits) as u16,
    }
}

/// The conditions under which a text node's reported size satisfies the
/// limits: its longest wrapped line must lie between the minimum and the
/// maximum width (the node never widens short text to the minimum width, and
/// a line that cannot be broken may overshoot the maximum).
pub open spec fn text_conforming(text: Seq<char>, limits: Limits) -> bool {
    let w = max_line_width(wrap_lines(text, limits.max_width as int));
    limits.wf() && limits.min_width <= w <= limits.max_width
}

impl Text {
    /// Texts must stay below the addressable number of cells so that line
    /// counts and widths fit the cell coordinate type.
    pub open spec fn wf(self) -> bool {
        self.text@.len() < 0xffff
    }

    pub open spec fn spec_name(self) -> Seq<char> {
        "Text"@
    }

    pub open spec fn layout_size(self, limits: Limits) -> Size {
        text_layout_size(self.text@, limits)
    }

    pub open spec fn post_layout(self, post: Text, limits: Limits) -> bool {
        &&& post.text == self.text
        &&& post.wrapped_text.deep_view() == wrap_lines(self.text@, limits.max_width as int)
        &&& post.size == text_layout_size(self.text@, limits)
    }

    pub open spec fn conforming(self, limits: Limits) -> bool {
        text_conforming(self.text@, limits)
    }

    /// What drawing this node emits: each wrapped line up to the cached
    /// height, written at increasing row offsets from the region's origin.
    pub open spec fn draw_emits(self, top_left: XY, region: Size, delta: Seq<char>) -> bool {
        delta == text_draw_delta(
            self.wrapped_text.deep_view(),
            kept_line_count(self.wrapped_text.deep_view(), self.size),
            top_left,
            region,
        )
    }

    /// Creates a text node; nothing is wrapped until the first layout.
    pub fn new(text: &str) -> (r: Text)
        ensures
            r.text@ == text@,
            r.wrapped_text@.len() == 0,
            r.size == (Size { width: 0u16, height: 0u16 }),
    {
        Text { text: text.to_owned(), wrapped_text: Vec::new(), size: Size { width: 0, height: 0 } }
    }

    /// Creates a text node from an owned string.
    pub fn from_string(text: String) -> (r: Text)
        ensures
            r.text@ == text@,
            r.wrapped_text@.len() == 0,
            r.size == (Size { width: 0u16, height: 0u16 }),
    {
        Text { text, wrapped_text: Vec::new(), size: Size { width: 0, height: 0 } }
    }

    pub fn name(&self) -> (r: &'static str)
        ensures
            r@ == self.spec_name(),
    {
        "Text"
    }

    /// Wraps the text to the maximum width, caches the wrapped lines, and
    /// reports the longest line by the clamped line count.
    pub fn layout(&mut self, limits: Limits) -> (size: Size)
        requires
            old(self).wf(),
        ensures
            size == old(self).layout_size(limits),
            old(self).post_layout(*final(self), limits),
            final(self).wf(),
            old(self).conforming(limits) ==> limits.spec_is_size_within_limits(size),
    {
        let ghost tlen = self.text@.len();
        let wrapped = wrap_text(self.text.as_str(), limits.max_width as usize);
        let ghost lines = wrapped.deep_view();
        let mut width: u16 = 0;
        let mut i: usize = 0;
        while i < wrapped.len()
            invariant
                0 <= i <= wrapped@.len(),
                lines == wrapped.deep_view(),
                lines.len() == wrapped@.len(),
                forall|j: int| 0 <= j < wrapped@.len() ==> (#[trigger] wrapped@[j])@.len() <= tlen,
                forall|j: int| 0 <= j < wrapped@.len() ==> lines[j] == wrapped@[j]@,
                tlen < 0xffff,
                width as int == max_line_width(lines.take(i as int)),
                width as int <= tlen,
            decreases wrapped@.len() - i,
        {
            let line_len = wrapped[i].as_str().unicode_len();
            if line_len > width as usize {
                width = line_len as u16;
            }
            proof {
                assert(lines.take(i + 1).drop_last() =~= lines.take(i as int));
                assert(lines.take(i + 1).last() == lines[i as int]);
            }
            i += 1;
        }
        proof {
            assert(lines.take(lines.len() as int) =~= lines);
        }
        let line_count = wrapped.len();
        self.wrapped_text = wrapped;
        proof {
            assert(line_count <= tlen + 1);
        }
        let line_count16 = line_count as u16;
        let height: u16 = if line_count16 <= limits.max_height {
            if line_count16 >= limits.min_height {
                line_count16
            } else {
                limits.min_height
            }
        } else {
            limits.max_height
        };
        let size = Size { width, height };
        self.size = size;
        size
    }

    /// Draws each kept wrapped line at increasing row offsets, silently
    /// dropping lines beyond the cached height.
    pub fn draw(&self, surface: &mut BufDrawSurface)
        requires
            old(surface).wf(),
        ensures
            final(surface).top_left == old(surface).top_left,
            final(surface).size == old(surface).size,
            final(surface).wf(),
            final(surface).buf@.len() >= old(surface).buf@.len(),
            final(surface).buf@.take(old(surface).buf@.len() as int) == old(surface).buf@,
            self.draw_emits(
                old(surface).top_left,
                old(surface).size,
                final(surface).buf@.skip(old(surface).buf@.len() as int),
            ),
    {
        let ghost pre = surface.buf@;
        let ghost lines = self.wrapped_text.deep_view();
        let ghost tl = surface.top_left;
        let ghost region = surface.size;
        let count = if (self.size.height as usize) < self.wrapped_text.len() {
            self.size.height as usize
        } else {
            self.wrapped_text.len()
        };
        proof {
            assert(count as int == kept_line_count(lines, self.size));
        }
        let mut i: usize = 0;
        while i < count
            invariant
                0 <= i <= count,
                count <= self.wrapped_text@.len(),
                count <= 0xffff,
                lines == self.wrapped_text.deep_view(),
                lines.len() == self.wrapped_text@.len(),
                forall|j: int| 0 <= j < lines.len() ==> lines[j] == (#[trigger] self.wrapped_text@[j])@,
                surface.top_left == tl,
                surface.size == region,
                surface.wf(),
                surface.buf@ == pre + text_draw_delta(lines, i as int, tl, region),
            decreases count - i,
        {
            let line = &self.wrapped_text[i];
            let ghost before = surface.buf@;
            surface.write(XY { x: 0, y: i as u16 }, line.as_str());
            proof {
                assert(surface.buf@ =~= pre + text_draw_delta(lines, i + 1, tl, region));
            }
            i += 1;
        }
        proof {
            assert(surface.buf@.take(pre.len() as int) =~= pre);
            assert(surface.buf@.skip(pre.len() as int) =~= text_draw_delta(
                lines,
                count as int,
                tl,
                region,
            ));
        }
    }
}

/// The longest-line width is never negative.
pub proof fn lemma_max_line_width_nonneg(lines: Seq<Seq<char>>)
    ensures
        max_line_width(lines) >= 0,
    decreases lines.len(),
{
    if lines.len() > 0 {
        lemma_max_line_width_nonneg(lines.drop_last());
    }
}

/// A text node whose longest wrapped line lies between the width bounds of
/// well-formed limits reports a size within those limits.
pub proof fn lemma_text_conforming_within(text: Seq<char>, limits: Limits)
    requires
        text_conforming(text, limits),
    ensures
        limits.spec_is_size_within_limits(text_layout_size(text, limits)),
{
    lemma_max_line_width_nonneg(wrap_lines(text, limits.max_width as int));
}

impl crate::components::IntoView for Text {
    open spec fn is_view_of(self, r: crate::components::ViewNode) -> bool {
        r == crate::components::ViewNode::CoreComponent(
            crate::components::CoreComponent::Text(self),
        )
    }

    fn into_view(self) -> (r: crate::components::ViewNode) {
        crate::components::ViewNode::CoreComponent(crate::components::CoreComponent::Text(self))
    }
}

/// How many wrapped lines the draw pass keeps: the cached height caps the
/// line count.
pub open spec fn kept_line_count(lines: Seq<Seq<char>>, size: Size) -> int {
    if size.height <= lines.len() {
        size.height as int
    } else {
        lines.len() as int
    }
}

/// What drawing the first `count` of `lines` appends to the sink: one
/// clipped, positioned write per line, row by row.
pub open spec fn text_draw_delta(lines: Seq<Seq<char>>, count: int, top_left: XY, region: Size) -> Seq<char>
    decreases count,
{
    if count <= 0 {
        Seq::<char>::empty()
    } else {
        text_draw_delta(lines, count - 1, top_left, region) + plain_write_delta(
            top_left,
            region,
            XY { x: 0u16, y: (count - 1) as u16 },
            lines[count - 1],
        )
    }
}

/// The size the pure wrapping helper reports for `text` under `limits`: the
/// maximum width by the wrapped line count, or the full maximum size when
/// the text overflows the maximum height.
pub open spec fn spec_get_text_size(text: Seq<char>, limits: Limits) -> Size {
    let lines = wrap_lines(text, limits.max_width as int);
    if lines.len() <= limits.max_height {
        Size { width: limits.max_width, height: lines.len() as u16 }
    } else {
        limits.spec_max_size()
    }
}

/// Computes the size that wrapping `text` to the limits' maximum width
/// takes, pinning the width to the maximum: the wrapped line count when it
/// fits the maximum height, the maximum size otherwise.
pub fn get_text_size(limits: Limits, text: &str) -> (size: Size)
    requires
        text@.len() < 0xffff,
    ensures
        size == spec_get_text_size(text@, limits),
{
    let wrapped = wrap_text(text, limits.max_width as usize);
    let line_count = wrapped.len();
    let line_count16 = line_count as u16;
    if line_count16 <= limits.max_height {
        Size { width: limits.max_width, height: line_count16 }
    } else {
        limits.max_size()
    }
}

} // verus!
