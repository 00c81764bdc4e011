//! Wide-string conversion for names and tooltip text handed to the native
//! layer. The encoding itself is a collaborator; the library names its result
//! and builds on that name.

use vstd::prelude::*;

verus! {

/// The UTF-16 encoding of a string's characters, as the standard encoder
/// produces it.
pub uninterp spec fn wide_of(s: Seq<char>) -> Seq<u16>;

/// Relies on str::encode_utf16: the encoding depends on the characters alone,
/// and each character encodes to one or two code units.
#[verifier::external_body]
pub(crate) fn to_wide(s: &str) -> (r: Vec<u16>)
    ensures
        r@ == wide_of(s@),
        s@.len() <= r@.len() <= 2 * s@.len(),
{
    s.encode_utf16().collect()
}

/// The UTF-16 encoding of a string with a terminating zero unit appended.
pub(crate) fn to_wide_null(s: &str) -> (r: Vec<u16>)
    ensures
        r@ == wide_of(s@).push(0),
        r@.len() >= 1,
{
    let mut v = to_wide(s);
    v.push(0);
    v
}

} // verus!
