//! Conversions between `String` and its character sequence.
//!
//! The codec works on character vectors; these are the only places where the
//! crate crosses between `String` and `Vec<char>`, and the one place where
//! raw bytes are decoded into text.

use vstd::prelude::*;

verus! {

/// Relies on `str::chars` (the characters of the string, in order) collected
/// with `Vec`'s `FromIterator<char>`.
#[verifier::external_body]
pub(crate) fn chars_of(s: &str) -> (r: Vec<char>)
    ensures
        r@ == s@,
{
    s.chars().collect()
}

/// Relies on `String`'s `FromIterator<char>`: collecting characters yields
/// the string of exactly those characters, in order.
#[verifier::external_body]
pub(crate) fn string_of(cs: &Vec<char>) -> (r: String)
    ensures
        r@ == cs@,
{
    cs.iter().copied().collect()
}

/// Relies on `String::from_utf8`, which succeeds exactly on valid UTF-8 and
/// then returns the decoded characters; stated over vstd's UTF-8 model.
#[verifier::external_body]
pub(crate) fn utf8_string(bytes: &[u8]) -> (r: Option<String>)
    ensures
        r is Some <==> vstd::utf8::valid_utf8(bytes@),
        r matches Some(s) ==> s@ == vstd::utf8::decode_utf8(bytes@),
{
    match String::from_utf8(bytes.to_vec()) {
        Ok(s) => Some(s),
        Err(_) => None,
    }
}

} // verus!
