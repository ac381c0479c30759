//! Word wrapping, which the `textwrap` crate does.

use vstd::prelude::*;

verus! {

/// What `textwrap::fill` makes of `text` at `width` columns with the options
/// that `textwrap::Options::new` sets: the text broken into lines that are
/// joined by `'\n'`.
pub uninterp spec fn filled(text: Seq<char>, width: usize) -> Seq<char>;

/// Wraps `text` at `width` columns by a call of `textwrap::fill` with
/// `textwrap::Options::new(width)`.
///
/// Nothing is proved of the wrapping itself. The contract only gives the
/// result its name, [`filled`]: the call computes from its two arguments
/// alone, so equal arguments give equal results.
#[verifier::external_body]
pub(crate) fn fill(text: &str, width: usize) -> (wrapped: String)
    ensures
        wrapped@ == filled(text@, width),
{
    textwrap::fill(text, textwrap::Options::new(width))
}

} // verus!
