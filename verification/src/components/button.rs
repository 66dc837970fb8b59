//! The button node: a one-line label in angle brackets, highlighted while
//! focused.

use vstd::prelude::*;
use vstd::string::StrSliceExecFns;
use vstd::string::StringExecFns;

use crate::geometry::Limits;
use crate::geometry::Size;
use crate::geometry::XY;
use crate::style::Attribute;
use crate::style::Color;
use crate::surface::BufDrawSurface;
use crate::surface::write_emitted;
use crate::wrapping::wrap_lines;
use crate::wrapping::wrap_text;

verus! {

/// A button node. Layout formats the label `<text>` clipped to the maximum
/// width and caches it; draw writes the cached label, with a red background
/// and bold attribute while the button is focused.
#[derive(Debug)]
pub struct Button {
    pub text: String,
    pub formatted_text: String,
    pub focused: bool,
}

/// The label a button formats for its text under `max_width` columns:
/// nothing at width zero, a lone opening bracket at one, the empty brackets
/// at two, and otherwise the first wrapped line clipped to the space between
/// the brackets.
pub open spec fn button_label(text: Seq<char>, max_width: int) -> Seq<char> {
    if max_width == 0 {
        Seq::<char>::empty()
    } else if max_width == 1 {
        seq!['<']
    } else if max_width == 2 {
        seq!['<', '>']
    } else {
        let first = wrap_lines(text, max_width)[0];
        let avail = max_width - 2;
        let kept = if first.len() <= avail {
            first
        } else {
            first.take(avail)
        };
        seq!['<'] + kept + seq!['>']
    }
}

/// The size a button reports: its label length raised to the minimum width,
/// by one row (raised to the minimum height, dropped to zero when no row is
/// available).
pub open spec fn button_layout_size(text: Seq<char>, limits: Limits) -> Size {
    let label_len = button_label(text, limits.max_width as int).len();
    let width: int = if limits.min_width > label_len {
        limits.min_width as int
    } else {
        label_len as int
    };
    let height: int = if limits.max_height == 0 {
        0
    } else if limits.min_height > 1 {
        limits.min_height as int
    } else {
        1
    };
    Size { width: width as u16, height: height as u16 }
}

impl Button {
    /// Labels must stay below the addressable number of cells.
    pub open spec fn wf(self) -> bool {
        self.text@.len() < 0xffff
    }

    pub open spec fn spec_name(self) -> Seq<char> {
        "Button"@
    }

    pub open spec fn layout_size(self, limits: Limits) -> Size {
        button_layout_size(self.text@, limits)
    }

    pub open spec fn post_layout(self, post: Button, limits: Limits) -> bool {
        &&& post.text == self.text
        &&& post.focused == self.focused
        &&& post.formatted_text@ == button_label(self.text@, limits.max_width as int)
    }

    /// What drawing this node emits: one styled write of the cached label at
    /// the region's origin — plain while blurred, red background and bold
    /// while focused.
    pub open spec fn draw_emits(self, top_left: XY, region: Size, delta: Seq<char>) -> bool {
        write_emitted(
            top_left,
            region,
            XY { x: 0u16, y: 0u16 },
            self.formatted_text@,
            None,
            if self.focused {
                Some(Color::Red)
            } else {
                None
            },
            if self.focused {
                Some(Attribute::Bold)
            } else {
                None
            },
            delta,
        )
    }

    /// Creates a blurred button with the given label text.
    pub fn new(text: &str) -> (r: Button)
        ensures
            r.text@ == text@,
            r.formatted_text@ == Seq::<char>::empty(),
            r.focused == false,
    {
        Button { text: text.to_owned(), formatted_text: String::new(), focused: false }
    }

    pub fn name(&self) -> (r: &'static str)
        ensures
            r@ == self.spec_name(),
    {
        "Button"
    }

    /// Formats the label for the available width and reports the resulting
    /// size. A button always satisfies well-formed limits.
    pub fn layout(&mut self, limits: Limits) -> (size: Size)
        requires
            old(self).wf(),
        ensures
            size == old(self).layout_size(limits),
            old(self).post_layout(*final(self), limits),
            final(self).wf(),
            limits.wf() ==> limits.spec_is_size_within_limits(size),
    {
        let ghost tlen = self.text@.len();
        let wrapped = wrap_text(self.text.as_str(), limits.max_width as usize);
        let height: u16 = if limits.max_height == 0 {
            0
        } else if limits.min_height > 1 {
            limits.min_height
        } else {
            1
        };
        if limits.max_width == 0 {
            self.formatted_text = String::new();
        } else if limits.max_width == 1 {
            let s = "<".to_owned();
            proof {
                reveal_strlit("<");
                assert(s@ =~= seq!['<']);
            }
            self.formatted_text = s;
        } else if limits.max_width == 2 {
            let s = "<>".to_owned();
            proof {
                reveal_strlit("<>");
                assert(s@ =~= seq!['<', '>']);
            }
            self.formatted_text = s;
        } else {
            let first = &wrapped[0];
            let avail = (limits.max_width - 2) as usize;
            let first_len = first.as_str().unicode_len();
            let k = if first_len <= avail {
                first_len
            } else {
                avail
            };
            let kept = first.as_str().substring_char(0, k);
            let mut s = "<".to_owned();
            s.append(kept);
            s.append(">");
            proof {
                reveal_strlit("<");
                reveal_strlit(">");
                assert(wrapped.deep_view()[0] == wrapped@[0]@);
                let firstv = wrap_lines(self.text@, limits.max_width as int)[0];
                let availv = limits.max_width - 2;
                let keptv = if firstv.len() <= availv {
                    firstv
                } else {
                    firstv.take(availv)
                };
                assert(kept@ =~= keptv);
                assert(s@ =~= seq!['<'] + keptv + seq!['>']);
            }
            self.formatted_text = s;
        }
        let label_len = self.formatted_text.as_str().unicode_len();
        let label_len16 = label_len as u16;
        let width: u16 = if limits.min_width > label_len16 {
            limits.min_width
        } else {
            label_len16
        };
        Size { width, height }
    }

    /// Writes the cached label at the region's origin; a focused button gets
    /// a red background and the bold attribute.
    pub fn draw(&self, surface: &mut BufDrawSurface)
        requires
            old(surface).wf(),
        ensures
            final(surface).top_left == old(surface).top_left,
            final(surface).size == old(surface).size,
            final(surface).wf(),
            final(surface).buf@.len() >= old(surface).buf@.len(),
            final(surface).buf@.take(old(surface).buf@.len() as int) == old(surface).buf@,
            self.draw_emits(
                old(surface).top_left,
                old(surface).size,
                final(surface).buf@.skip(old(surface).buf@.len() as int),
            ),
    {
        let focused = self.focused;
        surface.write_styled(
            XY { x: 0, y: 0 },
            self.formatted_text.as_str(),
            None,
            if focused {
                Some(Color::Red)
            } else {
                None
            },
            if focused {
                Some(Attribute::Bold)
            } else {
                None
            },
        );
    }
}

impl crate::components::IntoView for Button {
    open spec fn is_view_of(self, r: crate::components::ViewNode) -> bool {
        r == crate::components::ViewNode::Widget(crate::components::WidgetNode::Button(self))
    }

    fn into_view(self) -> (r: crate::components::ViewNode) {
        crate::components::ViewNode::Widget(crate::components::WidgetNode::Button(self))
    }
}

} // verus!
