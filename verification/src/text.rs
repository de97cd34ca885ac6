//! Text decoding. Kernel convention for text fields: the meaningful bytes
//! end at the first zero byte, and the rest of the fixed buffer is
//! unspecified padding. Only the prefix before the first zero byte is
//! decoded; decoding the whole buffer would drag padding into the value.

use vstd::prelude::*;

use vstd::utf8::decode_utf8;
use vstd::utf8::valid_utf8;

use crate::errors::CsError;

verus! {

/// Index of the first zero byte of `s`, or `s.len()` when there is none.
pub open spec fn spec_text_end(s: Seq<u8>) -> int
    decreases s.len(),
{
    if s.len() == 0 {
        0
    } else if s[0] == 0 {
        0
    } else {
        1 + spec_text_end(s.drop_first())
    }
}

/// `spec_text_end` marks the first zero byte: everything before it is
/// non-zero, and it points at a zero byte unless none exists.
pub proof fn lemma_text_end(s: Seq<u8>)
    ensures
        0 <= spec_text_end(s) <= s.len(),
        forall|j: int| 0 <= j < spec_text_end(s) ==> s[j] != 0,
        spec_text_end(s) < s.len() ==> s[spec_text_end(s)] == 0,
    decreases s.len(),
{
    if s.len() == 0 {
    } else if s[0] == 0 {
    } else {
        lemma_text_end(s.drop_first());
        let te = spec_text_end(s);
        assert forall|j: int| 0 <= j < te implies s[j] != 0 by {
            if j > 0 {
                assert(s.drop_first()[j - 1] == s[j]);
            }
        }
        if te < s.len() {
            assert(s.drop_first()[te - 1] == s[te]);
        }
    }
}

/// The meaningful bytes of a text response: the prefix before the first
/// zero byte.
pub open spec fn spec_text_prefix(s: Seq<u8>) -> Seq<u8> {
    s.subrange(0, spec_text_end(s))
}

/// A text response decodes successfully iff its prefix is valid UTF-8.
pub open spec fn spec_text_ok(s: Seq<u8>) -> bool {
    valid_utf8(spec_text_prefix(s))
}

/// The decoded value of a text response.
pub open spec fn spec_decoded_text(s: Seq<u8>) -> Seq<char> {
    decode_utf8(spec_text_prefix(s))
}

/// A decoded text field. `possibly_truncated` is the advisory truncation
/// signal: no zero byte was found, so the text filled the entire buffer
/// and an exact fit cannot be told apart from a truncated response.
#[derive(Debug, Clone, PartialEq, Eq)]
pub struct DecodedText {
    pub value: String,
    pub possibly_truncated: bool,
}

/// Relies on `std::str::from_utf8`: it succeeds exactly on valid UTF-8
/// input, and the characters of the resulting string are the UTF-8
/// decoding of the input bytes.
#[verifier::external_body]
fn utf8_to_string(bytes: &[u8]) -> (r: Option<String>)
    ensures
        r is Some <==> valid_utf8(bytes@),
        r matches Some(s) ==> s@ == decode_utf8(bytes@),
{
    match core::str::from_utf8(bytes) {
        Ok(s) => Some(s.to_owned()),
        Err(_) => None,
    }
}

/// `t` is a faithful decode of the buffer `s`: its value is the UTF-8
/// decoding of the prefix before the first zero byte, and the truncation
/// advisory is set exactly when no zero byte was found.
pub open spec fn spec_text_result_ok(s: Seq<u8>, t: DecodedText) -> bool {
    &&& t.value@ == spec_decoded_text(s)
    &&& t.possibly_truncated == (spec_text_end(s) == s.len())
}

/// Decode a text response: truncate at the first zero byte, then decode
/// the prefix as UTF-8. Fails with `InvalidText` — and only with it —
/// exactly when that prefix is not valid UTF-8. No zero byte in the
/// decoded value survives, whatever the backing buffer held.
pub fn decode_text(buf: &[u8]) -> (r: Result<DecodedText, CsError>)
    ensures
        r is Ok <==> spec_text_ok(buf@),
        r matches Ok(t) ==> spec_text_result_ok(buf@, t),
        r is Err ==> r matches Err(CsError::InvalidText),
{
    let n = buf.len();
    let mut i: usize = 0;
    while i < n && *vstd::slice::slice_index_get(buf, i) != 0
        invariant
            0 <= i <= n,
            n == buf@.len(),
            forall|j: int| 0 <= j < i ==> buf@[j] != 0,
        decreases n - i,
    {
        i = i + 1;
    }
    proof {
        lemma_text_end(buf@);
        let te = spec_text_end(buf@);
        if te < i {
            assert(buf@[te] == 0);
        }
        if i < te {
            assert(buf@[i as int] != 0);
        }
        assert(i == te);
    }
    let prefix = vstd::slice::slice_subrange(buf, 0, i);
    match utf8_to_string(prefix) {
        Some(value) => Ok(DecodedText { value, possibly_truncated: i == n }),
        None => Err(CsError::InvalidText),
    }
}

} // verus!
