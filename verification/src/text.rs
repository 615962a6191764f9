//! Views of text values shared by the other modules.

use vstd::prelude::*;

verus! {

/// The character sequences of a list of strings.
pub open spec fn words(list: Seq<String>) -> Seq<Seq<char>> {
    Seq::new(list.len(), |i: int| list[i]@)
}

/// Builds a `String` from its characters with `String::from_iter`, which
/// appends them one by one in order: the result reads as the vector does.
#[verifier::external_body]
pub(crate) fn string_from_chars(chars: &Vec<char>) -> (s: String)
    ensures
        s@ == chars@,
{
    String::from_iter(chars.iter())
}

} // verus!
