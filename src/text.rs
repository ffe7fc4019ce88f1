//! String building from raw bytes.
use vstd::prelude::*;

verus! {

/// The characters that lossy UTF-8 decoding gives for a byte string.
pub uninterp spec fn utf8_lossy(b: Seq<u8>) -> Seq<char>;

/// Relies on `String::from_utf8_lossy`: the characters depend on the bytes
/// alone, and no bytes give no characters.
#[verifier::external_body]
pub(crate) fn decode_lossy(b: &[u8]) -> (r: String)
    ensures
        r@ == utf8_lossy(b@),
        b@.len() == 0 ==> r@.len() == 0,
{
    String::from_utf8_lossy(b).into_owned()
}

/// Relies on `String::push`: the character is appended at the end.
#[verifier::external_body]
pub(crate) fn push_char(s: &mut String, c: char)
    ensures
        final(s)@ == old(s)@.push(c),
{
    s.push(c)
}

/// The character whose code point is the byte's value.
pub open spec fn latin1(b: u8) -> char {
    b as char
}

/// Each byte taken as the character of the same code point.
pub open spec fn latin1_seq(b: Seq<u8>) -> Seq<char> {
    b.map_values(|x: u8| latin1(x))
}

} // verus!
