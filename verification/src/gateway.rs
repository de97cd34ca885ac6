//! The gateway boundary and the dispatch engine. The kernel control call
//! itself is an external collaborator reached through the `Gateway`
//! trait; nothing is assumed of what it writes. Everything downstream of
//! the call — buffer sizing, decoder routing, error mapping — is decided
//! here, and `decode_response` states exactly what each decoder yields
//! for every buffer the gateway could have produced.

use vstd::prelude::*;

use crate::blob::parse_blob;
use crate::blob::spec_blob_result_ok;
use crate::blob::spec_parse_ok;
use crate::blob::BlobHeader;
use crate::errors::map_failure;
use crate::errors::CsError;
use crate::flags::decode_flags;
use crate::flags::spec_flagset_ok;
use crate::flags::FlagSet;
use crate::hash::decode_hash;
use crate::hash::spec_hex;
use crate::registry::capacity_of;
use crate::registry::resolve;
use crate::registry::spec_resolve;
use crate::registry::ResultKind;
use crate::registry::WORD_CAPACITY;
use crate::text::decode_text;
use crate::text::spec_text_ok;
use crate::text::spec_text_result_ok;
use crate::text::DecodedText;

verus! {

/// The syscall gateway: one primitive, a raw control call for a process
/// and an opcode, writing into a caller-owned buffer. The return value is
/// the call's status — negative means failure — paired with the
/// platform's last-error code, retrieved out-of-band by the
/// implementation. Nothing is promised of what the call writes; every
/// decoder downstream is verified for every possible buffer content.
pub trait Gateway {
    fn raw_control(&mut self, pid: i32, opcode: u32, buffer: &mut Vec<u8>) -> (i32, i32);
}

/// The byte of `s` at `i`, or zero past the end — the kernel zero-fills
/// bytes it does not write.
pub open spec fn spec_byte_or_zero(s: Seq<u8>, i: int) -> u8 {
    if 0 <= i < s.len() {
        s[i]
    } else {
        0
    }
}

/// The 32-bit word held by the first four bytes of `s` in the native
/// little-endian order the kernel writes word results in.
pub open spec fn spec_word_le(s: Seq<u8>) -> u32 {
    (spec_byte_or_zero(s, 0) as u32 + spec_byte_or_zero(s, 1) as u32 * 0x100 + spec_byte_or_zero(
        s,
        2,
    ) as u32 * 0x10000 + spec_byte_or_zero(s, 3) as u32 * 0x1000000) as u32
}

/// Read a word result from a response buffer by explicit, bounds-checked
/// deserialization — the word is never aliased to the buffer's memory.
pub fn decode_word(buf: &[u8]) -> (r: u32)
    ensures
        r == spec_word_le(buf@),
{
    let n = buf.len();
    let b0 = if n > 0 { buf[0] } else { 0 };
    let b1 = if n > 1 { buf[1] } else { 0 };
    let b2 = if n > 2 { buf[2] } else { 0 };
    let b3 = if n > 3 { buf[3] } else { 0 };
    (b0 as u32) + (b1 as u32) * 0x100 + (b2 as u32) * 0x10000 + (b3 as u32) * 0x1000000
}

/// A decoded response, one variant per result kind.
#[derive(Debug, Clone, PartialEq, Eq)]
pub enum DecodedValue {
    Flags(FlagSet),
    Integer(u32),
    RawBytes(Vec<u8>),
    Text(DecodedText),
    Hash(String),
    Blob(BlobHeader),
}

/// Whether a buffer with contents `s` decodes successfully under `kind`.
/// Only text and blob decoding can reject a buffer.
pub open spec fn spec_decode_ok(kind: ResultKind, s: Seq<u8>) -> bool {
    match kind {
        ResultKind::Text(_) => spec_text_ok(s),
        ResultKind::Blob(_) => spec_parse_ok(s),
        _ => true,
    }
}

/// `v` is the faithful decode of a buffer with contents `s` under `kind`.
pub open spec fn spec_decode_matches(kind: ResultKind, s: Seq<u8>, v: DecodedValue) -> bool {
    match kind {
        ResultKind::Flags => v matches DecodedValue::Flags(f) && f.value == spec_word_le(s)
            && spec_flagset_ok(f),
        ResultKind::Integer => v matches DecodedValue::Integer(w) && w == spec_word_le(s),
        ResultKind::RawBytes(_) => v matches DecodedValue::RawBytes(b) && b@ == s,
        ResultKind::Text(_) => v matches DecodedValue::Text(t) && spec_text_ok(s)
            && spec_text_result_ok(s, t),
        ResultKind::Hash(_) => v matches DecodedValue::Hash(h) && h@ == spec_hex(s),
        ResultKind::Blob(_) => v matches DecodedValue::Blob(h) && spec_parse_ok(s)
            && spec_blob_result_ok(s, h),
    }
}

/// Route a raw response buffer to the decoder `kind` selects. Succeeds
/// exactly when that decoder accepts the buffer; a failure is
/// `InvalidText` for a text field and `BlobTooShort` for a blob, and
/// nothing else can fail.
pub fn decode_response(kind: ResultKind, buf: &[u8]) -> (r: Result<DecodedValue, CsError>)
    ensures
        r is Ok <==> spec_decode_ok(kind, buf@),
        r matches Ok(v) ==> spec_decode_matches(kind, buf@, v),
        r matches Err(e) ==> (e is InvalidText && kind is Text) || (e is BlobTooShort
            && kind is Blob),
{
    match kind {
        ResultKind::Flags => Ok(DecodedValue::Flags(decode_flags(decode_word(buf)))),
        ResultKind::Integer => Ok(DecodedValue::Integer(decode_word(buf))),
        ResultKind::RawBytes(_) => Ok(DecodedValue::RawBytes(vstd::slice::slice_to_vec(buf))),
        ResultKind::Text(_) => match decode_text(buf) {
            Ok(t) => Ok(DecodedValue::Text(t)),
            Err(e) => Err(e),
        },
        ResultKind::Hash(_) => Ok(DecodedValue::Hash(decode_hash(buf))),
        ResultKind::Blob(_) => match parse_blob(buf) {
            Ok(h) => Ok(DecodedValue::Blob(h)),
            Err(e) => Err(e),
        },
    }
}

/// A zero-filled buffer of the requested capacity, as handed to the
/// gateway: the kernel's convention is that unwritten trailing bytes stay
/// zero.
fn zero_buffer(capacity: usize) -> (r: Vec<u8>)
    ensures
        r@.len() == capacity,
        forall|i: int| 0 <= i < capacity ==> r@[i] == 0,
{
    let mut v: Vec<u8> = Vec::new();
    while v.len() < capacity
        invariant
            v@.len() <= capacity,
            forall|i: int| 0 <= i < v@.len() ==> v@[i] == 0,
        decreases capacity - v@.len(),
    {
        v.push(0);
    }
    v
}

/// One full invocation: resolve the operation, allocate its
/// capacity-appropriate buffer, invoke the gateway once, then route the
/// response — a negative status through the error mapper, anything else
/// through the decoder the registry selected. The gateway is never
/// invoked for an unregistered name, and whatever bytes it produced, an
/// `Ok` result is the faithful decode of some such buffer.
pub fn run_operation<G: Gateway>(gw: &mut G, name: &str, pid: i32) -> (r: Result<
    DecodedValue,
    CsError,
>)
    ensures
        r matches Err(CsError::UnknownOperation) <==> spec_resolve(name@) is None,
        spec_resolve(name@) matches Some(entry) ==> {
            &&& r matches Ok(v) ==> exists|s: Seq<u8>| spec_decode_matches(entry.2, s, v)
            &&& r matches Err(CsError::SyscallFailure(f)) ==> f.raw_code < 0
            &&& r matches Err(e) ==> (e is SyscallFailure) || (e is InvalidText
                && entry.2 is Text) || (e is BlobTooShort && entry.2 is Blob)
        },
{
    let op = match resolve(name) {
        Ok(op) => op,
        Err(e) => {
            return Err(e);
        },
    };
    let capacity = capacity_of(op.result_kind);
    let mut buffer = zero_buffer(capacity);
    let (status, code) = gw.raw_control(pid, op.opcode, &mut buffer);
    if status < 0 {
        return Err(CsError::SyscallFailure(map_failure(status, code)));
    }
    let r = decode_response(op.result_kind, buffer.as_slice());
    proof {
        if r is Ok {
            assert(spec_decode_matches(op.result_kind, buffer@, r->Ok_0));
        }
    }
    r
}

/// The convenience word-sized call shape: a 4-byte buffer, one gateway
/// call, and the word read back by explicit deserialization — the word is
/// never aliased to the buffer's memory. Returns (status, word, error
/// code); the word is meaningful only when the status is non-negative.
pub fn raw_control_word<G: Gateway>(gw: &mut G, pid: i32, opcode: u32) -> (r: (i32, u32, i32))
    ensures
        exists|s: Seq<u8>| s.len() == WORD_CAPACITY && r.1 == spec_word_le(s),
{
    let mut buffer = zero_buffer(WORD_CAPACITY);
    let (status, code) = gw.raw_control(pid, opcode, &mut buffer);
    let word = decode_word(buffer.as_slice());
    proof {
        let s = buffer@;
        let t = if s.len() >= WORD_CAPACITY {
            s.subrange(0, WORD_CAPACITY as int)
        } else {
            s + Seq::new((WORD_CAPACITY - s.len()) as nat, |i: int| 0u8)
        };
        assert(t.len() == WORD_CAPACITY);
        assert(spec_word_le(t) == spec_word_le(s));
    }
    (status, word, code)
}

} // verus!
