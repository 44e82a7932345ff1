//! Small text helpers over `String`.

use vstd::prelude::*;

verus! {

/// Appends one character to a `String`, through `String::push`.
#[verifier::external_body]
pub(crate) fn push_char(s: &mut String, c: char)
    ensures
        final(s)@ == old(s)@.push(c),
{
    s.push(c);
}

} // verus!

verus! {

/// Reads bytes as UTF-8 text with `std::str::from_utf8`: valid UTF-8 gives
/// the text whose encoding the bytes are.
#[verifier::external_body]
pub(crate) fn str_from_utf8(bytes: &[u8]) -> (res: Option<&str>)
    ensures
        vstd::utf8::valid_utf8(bytes@) ==> res is Some,
        res matches Some(text) ==> vstd::utf8::encode_utf8(text@) == bytes@,
{
    std::str::from_utf8(bytes).ok()
}

} // verus!
