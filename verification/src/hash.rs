//! Hash rendering: a fixed-length digest becomes lowercase hexadecimal,
//! two characters per byte, most significant byte first, no separators.
//! The digest length is a property of the signature format in use — the
//! caller supplies a buffer of that length; nothing here hardcodes one.

use vstd::prelude::*;

verus! {

/// The sixteen lowercase hexadecimal digit characters, in value order.
pub open spec fn spec_hex_digits() -> Seq<char> {
    seq!['0', '1', '2', '3', '4', '5', '6', '7', '8', '9', 'a', 'b', 'c', 'd', 'e', 'f']
}

/// The two lowercase hexadecimal characters of one byte, high nibble first.
pub open spec fn spec_hex_byte(b: u8) -> Seq<char> {
    seq![spec_hex_digits()[b as int / 16], spec_hex_digits()[b as int % 16]]
}

/// The lowercase hexadecimal rendering of a byte sequence, in byte order.
pub open spec fn spec_hex(s: Seq<u8>) -> Seq<char>
    decreases s.len(),
{
    if s.len() == 0 {
        Seq::empty()
    } else {
        spec_hex(s.drop_last()) + spec_hex_byte(s.last())
    }
}

/// The rendering is two characters per byte.
pub proof fn lemma_hex_len(s: Seq<u8>)
    ensures
        spec_hex(s).len() == 2 * s.len(),
    decreases s.len(),
{
    if s.len() > 0 {
        lemma_hex_len(s.drop_last());
    }
}

/// Relies on `hex::encode`: each byte becomes two lowercase hexadecimal
/// digits taken from its high and low nibble, in byte order.
#[verifier::external_body]
fn hex_encode(bytes: &[u8]) -> (r: String)
    ensures
        r@ == spec_hex(bytes@),
{
    hex::encode(bytes)
}

/// Render a digest buffer as a lowercase hexadecimal string.
pub fn decode_hash(buf: &[u8]) -> (r: String)
    ensures
        r@ == spec_hex(buf@),
{
    hex_encode(buf)
}

} // verus!
