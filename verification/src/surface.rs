//! The drawing surface: a bounded, offsettable sink for positioned text
//! writes. Writes are clipped to the current region — characters beyond the
//! right edge are dropped, writes whose row lies outside the region are
//! dropped entirely, and at most the first line of the data is written.
//! A parent can temporarily narrow the region for a child with
//! [`BufDrawSurface::shrink`] and restore it with [`BufDrawSurface::restore`].

use vstd::prelude::*;
use vstd::string::StrSliceExecFns;
use vstd::string::StringExecFns;

use crate::geometry::Size;
use crate::geometry::XY;
use crate::style::Attribute;
use crate::style::Color;
use crate::style::attr_escape;
use crate::style::bg_escape;
use crate::style::fg_escape;
use crate::style::move_to_ansi;
use crate::style::move_to_command;
use crate::style::no_color_escape;
use crate::style::reset_color_command;
use crate::style::reset_color_escape;
use crate::style::set_attribute_command;
use crate::style::set_background_command;
use crate::style::set_foreground_command;

verus! {

/// The index of the first line feed in `data`, or `data.len()` if there is
/// none.
pub open spec fn line_break_index(data: Seq<char>) -> int
    decreases data.len(),
{
    if data.len() == 0 {
        0
    } else if data[0] == '\n' {
        0
    } else {
        1 + line_break_index(data.skip(1))
    }
}

/// The first line of `data`: everything before the first line feed, with one
/// trailing carriage return stripped, as `str::lines` yields it.
pub open spec fn first_line(data: Seq<char>) -> Seq<char> {
    let e = line_break_index(data);
    if e > 0 && data[e - 1] == '\r' {
        data.take(e - 1)
    } else {
        data.take(e)
    }
}

/// The first line of `data` clipped to at most `avail` characters.
pub open spec fn clipped_text(data: Seq<char>, avail: int) -> Seq<char> {
    let line = first_line(data);
    if line.len() <= avail {
        line
    } else {
        line.take(avail)
    }
}

/// What a foreground directive may contribute to the sink: nothing when
/// absent; the color's escape, or the disabled-colors escape, when present.
pub open spec fn fg_chunk_ok(fg: Option<Color>, chunk: Seq<char>) -> bool {
    match fg {
        Option::None => chunk == Seq::<char>::empty(),
        Option::Some(c) => chunk == fg_escape(c) || chunk == no_color_escape(),
    }
}

/// What a background directive may contribute to the sink.
pub open spec fn bg_chunk_ok(bg: Option<Color>, chunk: Seq<char>) -> bool {
    match bg {
        Option::None => chunk == Seq::<char>::empty(),
        Option::Some(c) => chunk == bg_escape(c) || chunk == no_color_escape(),
    }
}

/// The attribute escape emitted before the text, if any.
pub open spec fn attr_open_chunk(attr: Option<Attribute>) -> Seq<char> {
    match attr {
        Option::None => Seq::<char>::empty(),
        Option::Some(a) => attr_escape(a),
    }
}

/// The attribute reset emitted after the text, if an attribute was set.
pub open spec fn attr_close_chunk(attr: Option<Attribute>) -> Seq<char> {
    match attr {
        Option::None => Seq::<char>::empty(),
        Option::Some(_) => attr_escape(Attribute::Reset),
    }
}

/// The color reset emitted after the text, if either color was set.
pub open spec fn color_reset_chunk(fg: Option<Color>, bg: Option<Color>) -> Seq<char> {
    if fg is Some || bg is Some {
        reset_color_escape()
    } else {
        Seq::<char>::empty()
    }
}

/// Exactly what a styled write appends to the sink: nothing when the data is
/// empty or the position lies outside the region; otherwise a cursor move to
/// the absolute cell, the style directives, the clipped first line of the
/// data, and the closing resets. The color chunks are existential because the
/// process-wide disabled-colors switch may replace them.
pub open spec fn write_emitted(
    top_left: XY,
    size: Size,
    at: XY,
    data: Seq<char>,
    fg: Option<Color>,
    bg: Option<Color>,
    attr: Option<Attribute>,
    delta: Seq<char>,
) -> bool {
    if data.len() == 0 || at.y >= size.height || at.x >= size.width {
        delta == Seq::<char>::empty()
    } else {
        exists|fgc: Seq<char>, bgc: Seq<char>|
            {
                &&& #[trigger] fg_chunk_ok(fg, fgc)
                &&& #[trigger] bg_chunk_ok(bg, bgc)
                &&& delta == move_to_ansi(
                    top_left.x + at.x,
                    top_left.y + at.y,
                ) + attr_open_chunk(attr) + bgc + fgc + clipped_text(
                    data,
                    size.width - at.x,
                ) + attr_close_chunk(attr) + color_reset_chunk(fg, bg)
            }
    }
}

/// Exactly what an unstyled write appends to the sink; with no style
/// directives the output is a function of the region and the data.
pub open spec fn plain_write_delta(top_left: XY, size: Size, at: XY, data: Seq<char>) -> Seq<
    char,
> {
    if data.len() == 0 || at.y >= size.height || at.x >= size.width {
        Seq::<char>::empty()
    } else {
        move_to_ansi(top_left.x + at.x, top_left.y + at.y) + clipped_text(
            data,
            size.width - at.x,
        )
    }
}

/// A saved drawing region, handed out by [`BufDrawSurface::shrink`] and taken
/// back by [`BufDrawSurface::restore`].
#[derive(Clone, Copy, Debug, PartialEq, Eq, Structural)]
pub struct Region {
    pub top_left: XY,
    pub size: Size,
}

/// A drawing surface that accumulates cursor-positioned, clipped text writes
/// in an in-memory character buffer. The render driver decides what to do
/// with the buffer (typically flush it to a terminal).
#[derive(Debug)]
pub struct BufDrawSurface {
    /// The accumulated sink contents.
    pub buf: String,
    /// The absolute offset of the current region, adjusted by `shrink`.
    pub top_left: XY,
    /// The extent of the current region.
    pub size: Size,
}

impl BufDrawSurface {
    /// The region must stay inside the addressable cell grid: crossterm's
    /// cursor commands increment each coordinate before formatting it.
    pub open spec fn wf(self) -> bool {
        &&& self.top_left.x + self.size.width <= 0xffff
        &&& self.top_left.y + self.size.height <= 0xffff
    }

    /// Creates an empty surface covering `size` cells.
    pub fn new(size: Size) -> (r: BufDrawSurface)
        ensures
            r.buf@ == Seq::<char>::empty(),
            r.top_left == (XY { x: 0u16, y: 0u16 }),
            r.size == size,
            r.wf(),
    {
        BufDrawSurface { buf: String::new(), top_left: XY { x: 0, y: 0 }, size }
    }

    /// The extent of the current region.
    pub fn size(&self) -> (r: Size)
        ensures
            r == self.size,
    {
        self.size
    }

    /// Replaces the surface extent, e.g. after the underlying sink reports a
    /// new size.
    pub fn resize(&mut self, new_size: Size)
        requires
            old(self).top_left.x + new_size.width <= 0xffff,
            old(self).top_left.y + new_size.height <= 0xffff,
        ensures
            final(self).size == new_size,
            final(self).top_left == old(self).top_left,
            final(self).buf@ == old(self).buf@,
            final(self).wf(),
    {
        self.size = new_size;
    }

    /// Hands the accumulated sink contents out and leaves the buffer empty,
    /// keeping the region as it is.
    pub fn take_buffer(&mut self) -> (r: String)
        ensures
            r@ == old(self).buf@,
            final(self).buf@ == Seq::<char>::empty(),
            final(self).top_left == old(self).top_left,
            final(self).size == old(self).size,
    {
        let mut out = String::new();
        core::mem::swap(&mut out, &mut self.buf);
        out
    }

    /// Writes the given data starting at the given coordinates, unstyled.
    /// The coordinates are relative to the current region, not absolute.
    pub fn write(&mut self, at: XY, data: &str)
        requires
            old(self).wf(),
        ensures
            final(self).top_left == old(self).top_left,
            final(self).size == old(self).size,
            final(self).wf(),
            final(self).buf@ == old(self).buf@ + plain_write_delta(
                old(self).top_left,
                old(self).size,
                at,
                data@,
            ),
    {
        let ghost pre = self.buf@;
        self.write_styled(at, data, None, None, None);
        proof {
            let delta = self.buf@.skip(pre.len() as int);
            assert(self.buf@ =~= pre + delta);
            if !(data@.len() == 0 || at.y >= self.size.height || at.x >= self.size.width) {
                let (fgc, bgc) = choose|fgc: Seq<char>, bgc: Seq<char>|
                    fg_chunk_ok(None::<Color>, fgc) && bg_chunk_ok(None::<Color>, bgc) && delta
                        == move_to_ansi(self.top_left.x + at.x, self.top_left.y + at.y)
                        + attr_open_chunk(None) + bgc + fgc + clipped_text(
                        data@,
                        self.size.width - at.x,
                    ) + attr_close_chunk(None) + color_reset_chunk(None, None);
                assert(delta =~= plain_write_delta(self.top_left, self.size, at, data@));
            }
            assert(self.buf@ =~= pre + plain_write_delta(self.top_left, self.size, at, data@));
        }
    }

    /// Writes at most one line of `data` at `at`, clipped to the current
    /// region, preceded by the requested style directives and followed by the
    /// matching resets. Writers must split multi-line input themselves; a
    /// clipped write is expected and never an error.
    #[verifier::rlimit(50)]
    pub fn write_styled(
        &mut self,
        at: XY,
        data: &str,
        foreground_color: Option<Color>,
        background_color: Option<Color>,
        attribute: Option<Attribute>,
    )
        requires
            old(self).wf(),
        ensures
            final(self).top_left == old(self).top_left,
            final(self).size == old(self).size,
            final(self).wf(),
            final(self).buf@.len() >= old(self).buf@.len(),
            final(self).buf@.take(old(self).buf@.len() as int) == old(self).buf@,
            write_emitted(
                old(self).top_left,
                old(self).size,
                at,
                data@,
                foreground_color,
                background_color,
                attribute,
                final(self).buf@.skip(old(self).buf@.len() as int),
            ),
    {
        let ghost pre = self.buf@;
        if data.is_empty() {
            assert(self.buf@.take(pre.len() as int) =~= pre);
            assert(self.buf@.skip(pre.len() as int) =~= Seq::<char>::empty());
            return ;
        }
        if at.y >= self.size.height {
            assert(self.buf@.take(pre.len() as int) =~= pre);
            assert(self.buf@.skip(pre.len() as int) =~= Seq::<char>::empty());
            return ;
        }
        if at.x >= self.size.width {
            assert(self.buf@.take(pre.len() as int) =~= pre);
            assert(self.buf@.skip(pre.len() as int) =~= Seq::<char>::empty());
            return ;
        }
        let mut out = move_to_command(self.top_left.x + at.x, self.top_left.y + at.y);
        let ghost m = out@;
        let ghost mut acc = m;
        if let Some(a) = attribute {
            let cmd = set_attribute_command(a);
            out.append(cmd.as_str());
        }
        proof {
            acc = acc + attr_open_chunk(attribute);
            if attribute is None {
                assert(out@ =~= acc);
            }
        }
        let ghost mut bgc: Seq<char> = Seq::<char>::empty();
        if let Some(c) = background_color {
            let cmd = set_background_command(c);
            proof {
                bgc = cmd@;
            }
            out.append(cmd.as_str());
        }
        proof {
            acc = acc + bgc;
            if background_color is None {
                assert(out@ =~= acc);
            }
        }
        let ghost mut fgc: Seq<char> = Seq::<char>::empty();
        if let Some(c) = foreground_color {
            let cmd = set_foreground_command(c);
            proof {
                fgc = cmd@;
            }
            out.append(cmd.as_str());
        }
        proof {
            acc = acc + fgc;
            if foreground_color is None {
                assert(out@ =~= acc);
            }
        }
        let end = first_line_end(data);
        let avail = (self.size.width - at.x) as usize;
        let k = if avail < end {
            avail
        } else {
            end
        };
        let clipped = data.substring_char(0, k);
        let ghost clip = clipped_text(data@, old(self).size.width - at.x);
        proof {
            assert(clipped@ =~= clip);
        }
        out.append(clipped);
        proof {
            acc = acc + clip;
        }
        if attribute.is_some() {
            let cmd = set_attribute_command(Attribute::Reset);
            out.append(cmd.as_str());
        }
        proof {
            acc = acc + attr_close_chunk(attribute);
            if attribute is None {
                assert(out@ =~= acc);
            }
        }
        if foreground_color.is_some() || background_color.is_some() {
            let cmd = reset_color_command();
            out.append(cmd.as_str());
        }
        proof {
            acc = acc + color_reset_chunk(foreground_color, background_color);
            if foreground_color is None && background_color is None {
                assert(out@ =~= acc);
            }
        }
        self.buf.append(out.as_str());
        proof {
            assert(self.buf@.take(pre.len() as int) =~= pre);
            assert(self.buf@.skip(pre.len() as int) =~= acc);
            assert(fg_chunk_ok(foreground_color, fgc));
            assert(bg_chunk_ok(background_color, bgc));
        }
    }

    /// Temporarily narrows the surface to the sub-rectangle described by
    /// `top_left` and `size`, both relative to the current region, which must
    /// fit inside it. The returned saved region must be handed back to
    /// [`BufDrawSurface::restore`] once the child is done drawing.
    pub fn shrink(&mut self, top_left: XY, size: Size) -> (saved: Region)
        requires
            old(self).wf(),
            top_left.x + size.width <= old(self).size.width,
            top_left.y + size.height <= old(self).size.height,
        ensures
            final(self).buf@ == old(self).buf@,
            final(self).top_left.x == old(self).top_left.x + top_left.x,
            final(self).top_left.y == old(self).top_left.y + top_left.y,
            final(self).size == size,
            final(self).wf(),
            saved == (Region { top_left: old(self).top_left, size: old(self).size }),
    {
        let saved = Region { top_left: self.top_left, size: self.size };
        self.top_left = XY { x: self.top_left.x + top_left.x, y: self.top_left.y + top_left.y };
        self.size = size;
        saved
    }

    /// Restores a region saved by [`BufDrawSurface::shrink`].
    pub fn restore(&mut self, saved: Region)
        ensures
            final(self).buf@ == old(self).buf@,
            final(self).top_left == saved.top_left,
            final(self).size == saved.size,
    {
        self.top_left = saved.top_left;
        self.size = saved.size;
    }

    /// Narrows the surface to a centered sub-rectangle of the given size,
    /// which must fit inside the current region on both axes. The computed
    /// offset is `((W - w) / 2, (H - h) / 2)` with floor division.
    pub fn shrink_centered(&mut self, size: Size) -> (saved: Region)
        requires
            old(self).wf(),
            size.width <= old(self).size.width,
            size.height <= old(self).size.height,
        ensures
            final(self).buf@ == old(self).buf@,
            final(self).top_left.x == old(self).top_left.x + (old(self).size.width - size.width)
                / 2,
            final(self).top_left.y == old(self).top_left.y + (old(self).size.height - size.height)
                / 2,
            final(self).size == size,
            final(self).wf(),
            saved == (Region { top_left: old(self).top_left, size: old(self).size }),
    {
        let x_offset = (self.size.width - size.width) / 2;
        let y_offset = (self.size.height - size.height) / 2;
        self.shrink(XY { x: x_offset, y: y_offset }, size)
    }
}

/// The least index of a line feed is what `line_break_index` computes.
proof fn lemma_line_break_index_is(data: Seq<char>, i: int)
    requires
        0 <= i <= data.len(),
        forall|j: int| 0 <= j < i ==> data[j] != '\n',
        i < data.len() ==> data[i] == '\n',
    ensures
        line_break_index(data) == i,
    decreases i,
{
    if i == 0 {
    } else {
        assert(data[0] != '\n');
        lemma_line_break_index_is(data.skip(1), i - 1);
    }
}

/// Finds the end of the first line of `data`: the index of the first line
/// feed (or the end of the data), minus one directly preceding carriage
/// return.
fn first_line_end(data: &str) -> (end: usize)
    ensures
        end <= data@.len(),
        first_line(data@) == data@.subrange(0, end as int),
{
    let n = data.unicode_len();
    let mut i: usize = 0;
    let mut stop = false;
    while !stop && i < n
        invariant
            0 <= i <= n,
            n == data@.len(),
            forall|j: int| 0 <= j < i ==> data@[j] != '\n',
            stop ==> i < n && data@[i as int] == '\n',
        decreases 2 * (n - i) + (if stop {
            0int
        } else {
            1int
        }),
    {
        if data.get_char(i) == '\n' {
            stop = true;
        } else {
            i += 1;
        }
    }
    proof {
        lemma_line_break_index_is(data@, i as int);
    }
    if i > 0 && data.get_char(i - 1) == '\r' {
        proof {
            assert(first_line(data@) =~= data@.subrange(0, i - 1));
        }
        i - 1
    } else {
        proof {
            assert(first_line(data@) =~= data@.subrange(0, i as int));
        }
        i
    }
}

} // verus!
