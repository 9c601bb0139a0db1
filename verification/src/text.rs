//! Conversions between character vectors and strings.

use vstd::prelude::*;

verus! {

/// Collects characters into a `String` through `String::from_iter`: the
/// string holds exactly the characters of `chars`, in their order. Trusted,
/// as the standard library's collection into a string is not specified.
#[verifier::external_body]
pub(crate) fn string_from_chars(chars: &Vec<char>) -> (s: String)
    ensures
        s@ == chars@,
{
    String::from_iter(chars.iter())
}

} // verus!
