//! Word wrapping of node text, delegated to the textwrap crate through one
//! trusted wrapper.

use vstd::prelude::*;

verus! {

/// What `textwrap::wrap` returns for this text and width: the wrapped lines,
/// as sequences of characters. The result depends on the text and the width
/// alone; its exact contents are textwrap's business.
pub uninterp spec fn wrap_lines(text: Seq<char>, width: int) -> Seq<Seq<char>>;

/// Relies on `textwrap::wrap`: it wraps each newline-separated line of `text`
/// to `width` columns and never fails. Every input yields at least one output
/// line; each output line is a contiguous piece of the input with trailing
/// spaces removed, so it has at most as many characters as the input; and
/// every output line beyond the first consumes at least one input character,
/// so there are at most `text.len() + 1` lines.
#[verifier::external_body]
pub(crate) fn wrap_text(text: &str, width: usize) -> (r: Vec<String>)
    ensures
        r.deep_view() == wrap_lines(text@, width as int),
        r@.len() >= 1,
        r@.len() <= text@.len() + 1,
        forall|i: int| 0 <= i < r@.len() ==> (#[trigger] r@[i])@.len() <= text@.len(),
{
    textwrap::wrap(text, width).into_iter().map(|line| line.into_owned()).collect()
}

} // verus!
