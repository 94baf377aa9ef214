use vstd::prelude::*;

verus! {

/// `b` if it is an ASCII byte, else `?`.
pub open spec fn printable_ascii_byte(b: u8) -> u8 {
    if b < 128 {
        b
    } else {
        0x3Fu8
    }
}

/// The characters of `s`, each non-ASCII byte read as `?`.
pub open spec fn printable_ascii(s: Seq<u8>) -> Seq<char> {
    s.map_values(|b: u8| printable_ascii_byte(b) as char)
}

/// Relies on `String::from_utf8`: ASCII bytes are valid UTF-8, and each
/// decodes to the character with the same value.
#[verifier::external_body]
pub(crate) fn ascii_string(bytes: Vec<u8>) -> (r: String)
    requires
        forall|i: int| 0 <= i < bytes@.len() ==> bytes@[i] < 128,
    ensures
        r@ == bytes@.map_values(|b: u8| b as char),
{
    String::from_utf8(bytes).unwrap_or_default()
}

} // verus!
