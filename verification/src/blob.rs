//! Blob header parsing. A blob response begins with an 8-byte header: a
//! big-endian 32-bit type tag and a big-endian 32-bit declared length
//! covering header and payload. The payload is bounded by the declared
//! length, defensively clamped to the buffer the caller actually owns.
//! The same layout recurs for nested sub-blobs, so the parser works on
//! any byte slice.

use vstd::prelude::*;

use crate::errors::CsError;

verus! {

/// The 32-bit value encoded big-endian by the four bytes `b0..b3`.
pub open spec fn spec_be32_bytes(b0: u8, b1: u8, b2: u8, b3: u8) -> u32 {
    (b0 as u32 * 0x1000000 + b1 as u32 * 0x10000 + b2 as u32 * 0x100 + b3 as u32) as u32
}

/// The big-endian 32-bit value of the four bytes of `s` starting at `off`.
pub open spec fn spec_be32(s: Seq<u8>, off: int) -> u32
    recommends
        0 <= off,
        off + 4 <= s.len(),
{
    spec_be32_bytes(s[off], s[off + 1], s[off + 2], s[off + 3])
}

/// The four big-endian bytes of `x`, most significant first.
pub open spec fn spec_be_bytes(x: u32) -> Seq<u8> {
    seq![
        (x / 0x1000000) as u8,
        ((x / 0x10000) % 0x100) as u8,
        ((x / 0x100) % 0x100) as u8,
        (x % 0x100) as u8,
    ]
}

/// Reading back the four big-endian bytes of `x` yields `x`.
pub proof fn lemma_be_round_trip(x: u32)
    ensures
        spec_be_bytes(x).len() == 4,
        spec_be32(spec_be_bytes(x), 0) == x,
{
    assert(((x / 0x1000000) as u8) as u32 * 0x1000000 + (((x / 0x10000) % 0x100) as u8) as u32
        * 0x10000 + (((x / 0x100) % 0x100) as u8) as u32 * 0x100 + ((x % 0x100) as u8) as u32
        == x) by (bit_vector);
}

/// Read the four bytes of `buf` at `off` as a big-endian 32-bit integer.
pub fn read_be32(buf: &[u8], off: usize) -> (r: u32)
    requires
        off + 4 <= buf@.len(),
    ensures
        r == spec_be32(buf@, off as int),
{
    let b0 = buf[off];
    let b1 = buf[off + 1];
    let b2 = buf[off + 2];
    let b3 = buf[off + 3];
    (b0 as u32) * 0x1000000 + (b1 as u32) * 0x10000 + (b2 as u32) * 0x100 + (b3 as u32)
}

/// Append the four big-endian bytes of `x` to `out`.
fn push_be32(out: &mut Vec<u8>, x: u32)
    ensures
        final(out)@ == old(out)@ + spec_be_bytes(x),
{
    out.push((x / 0x1000000) as u8);
    out.push(((x / 0x10000) % 0x100) as u8);
    out.push(((x / 0x100) % 0x100) as u8);
    out.push((x % 0x100) as u8);
    proof {
        assert(out@ =~= old(out)@ + spec_be_bytes(x));
    }
}

/// A parsed blob header: the type tag, the length the header itself
/// declares, and the payload — the bytes after the header, bounded by the
/// declared length and clamped to the buffer. `truncated` is the advisory
/// truncation signal: the declared length reached past the buffer, so the
/// payload may be incomplete. The gateway gives no signal of its own for
/// this, which is why it is surfaced here rather than silently dropped.
#[derive(Debug, Clone, PartialEq, Eq)]
pub struct BlobHeader {
    pub tag: u32,
    pub declared_length: u32,
    pub payload: Vec<u8>,
    pub truncated: bool,
}

/// A buffer parses successfully iff it holds a full 8-byte header whose
/// declared length covers at least the header itself.
pub open spec fn spec_parse_ok(s: Seq<u8>) -> bool {
    s.len() >= 8 && spec_be32(s, 4) >= 8
}

/// Where the payload ends: the declared length, clamped to the buffer.
pub open spec fn spec_payload_end(s: Seq<u8>) -> int {
    if spec_be32(s, 4) <= s.len() {
        spec_be32(s, 4) as int
    } else {
        s.len() as int
    }
}

/// The payload a successful parse yields.
pub open spec fn spec_payload(s: Seq<u8>) -> Seq<u8> {
    s.subrange(8, spec_payload_end(s))
}

/// `h` is a faithful parse of the buffer `s`: the header fields read
/// big-endian from the first 8 bytes, the payload bounded by the declared
/// length and clamped to the buffer, and the truncation advisory set
/// exactly when the declared length reached past the buffer.
pub open spec fn spec_blob_result_ok(s: Seq<u8>, h: BlobHeader) -> bool {
    &&& h.tag == spec_be32(s, 0)
    &&& h.declared_length == spec_be32(s, 4)
    &&& h.payload@ == spec_payload(s)
    &&& h.truncated == (spec_be32(s, 4) > s.len())
}

/// Parse the 8-byte blob header at the start of `buf` and bound its
/// payload. Fails with `BlobTooShort` — and only with it — exactly when
/// the buffer has no room for a header or the declared length is below 8.
/// The declared length originates from the response buffer itself and is
/// never trusted past the buffer's real extent.
pub fn parse_blob(buf: &[u8]) -> (r: Result<BlobHeader, CsError>)
    ensures
        r is Ok <==> spec_parse_ok(buf@),
        r matches Ok(h) ==> spec_blob_result_ok(buf@, h),
        r is Err ==> r matches Err(CsError::BlobTooShort),
{
    let n = buf.len();
    if n < 8 {
        return Err(CsError::BlobTooShort);
    }
    let tag = read_be32(buf, 0);
    let declared_length = read_be32(buf, 4);
    if declared_length < 8 {
        return Err(CsError::BlobTooShort);
    }
    let truncated = !(declared_length as usize <= n);
    let end = if declared_length as usize <= n {
        declared_length as usize
    } else {
        n
    };
    let payload = vstd::slice::slice_to_vec(vstd::slice::slice_subrange(buf, 8, end));
    Ok(BlobHeader { tag, declared_length, payload, truncated })
}

/// Encode a header and payload into one buffer: big-endian tag, big-endian
/// declared length equal to header plus payload, then the payload.
pub open spec fn spec_encode_blob(tag: u32, payload: Seq<u8>) -> Seq<u8>
    recommends
        payload.len() + 8 <= u32::MAX,
{
    spec_be_bytes(tag) + spec_be_bytes((payload.len() + 8) as u32) + payload
}

/// Build the encoded form of a blob with the given tag and payload. The
/// declared length is exactly the header plus the payload.
pub fn encode_blob(tag: u32, payload: &[u8]) -> (r: Vec<u8>)
    requires
        payload@.len() + 8 <= u32::MAX,
    ensures
        r@ == spec_encode_blob(tag, payload@),
{
    let mut out: Vec<u8> = Vec::new();
    push_be32(&mut out, tag);
    let declared_length = (payload.len() + 8) as u32;
    push_be32(&mut out, declared_length);
    out.extend_from_slice(payload);
    proof {
        assert(out@ =~= spec_encode_blob(tag, payload@));
    }
    out
}

/// Law: encoding round-trips. For any tag and any payload that fits a
/// 32-bit declared length, parsing the encoded buffer succeeds and yields
/// the tag, the declared length `payload.len() + 8`, the payload unchanged,
/// and no truncation.
pub proof fn lemma_blob_round_trip(tag: u32, payload: Seq<u8>)
    requires
        payload.len() + 8 <= u32::MAX,
    ensures
        ({
            let enc = spec_encode_blob(tag, payload);
            &&& spec_parse_ok(enc)
            &&& spec_be32(enc, 0) == tag
            &&& spec_be32(enc, 4) == payload.len() + 8
            &&& spec_payload(enc) == payload
        }),
{
    let enc = spec_encode_blob(tag, payload);
    let dl = (payload.len() + 8) as u32;
    lemma_be_round_trip(tag);
    lemma_be_round_trip(dl);
    assert(enc.len() == 8 + payload.len());
    assert(enc.subrange(0, 4) =~= spec_be_bytes(tag));
    assert(enc.subrange(4, 8) =~= spec_be_bytes(dl));
    assert(spec_be32(enc, 0) == spec_be32(spec_be_bytes(tag), 0));
    assert(spec_be32(enc, 4) == spec_be32(spec_be_bytes(dl), 0));
    assert(spec_payload_end(enc) == enc.len());
    assert(spec_payload(enc) =~= payload);
}

/// Law: under-length buffers are rejected. Any buffer shorter than a full
/// header, and any buffer whose declared length field is below 8, fails to
/// parse — and `parse_blob` then reports `BlobTooShort`.
pub proof fn lemma_blob_under_length(s: Seq<u8>)
    ensures
        s.len() < 8 ==> !spec_parse_ok(s),
        s.len() >= 8 && spec_be32(s, 4) < 8 ==> !spec_parse_ok(s),
{
}

} // verus!
