//! The operation registry: the single source of truth mapping a logical
//! operation name to its opcode, its result-buffer capacity and the
//! decoder its response is routed to. No call site decides a capacity or
//! a decoder ad hoc.

use vstd::prelude::*;

use crate::errors::CsError;

verus! {

/// Kernel opcodes for the code-signing control call.
pub const CS_OPS_STATUS: u32 = 0;

pub const CS_OPS_MARKINVALID: u32 = 1;

pub const CS_OPS_MARKHARD: u32 = 2;

pub const CS_OPS_MARKKILL: u32 = 3;

pub const CS_OPS_PIDPATH: u32 = 4;

pub const CS_OPS_CDHASH: u32 = 5;

pub const CS_OPS_PIDOFFSET: u32 = 6;

pub const CS_OPS_ENTITLEMENTS_BLOB: u32 = 7;

pub const CS_OPS_BLOB: u32 = 10;

pub const CS_OPS_IDENTITY: u32 = 11;

pub const CS_OPS_CLEARINSTALLER: u32 = 12;

pub const CS_OPS_CLEARPLATFORM: u32 = 13;

pub const CS_OPS_TEAMID: u32 = 14;

pub const CS_OPS_CLEAR_LV: u32 = 15;

pub const CS_OPS_DER_ENTITLEMENTS_BLOB: u32 = 16;

pub const CS_OPS_VALIDATION_CATEGORY: u32 = 17;

/// One 32-bit word.
pub const WORD_CAPACITY: usize = 4;

/// Room for an executable path.
pub const PATH_CAPACITY: usize = 1024;

/// Digest length of the legacy signature format; newer formats use longer
/// digests, which is why the registry carries the length as data.
pub const SHA1_DIGEST_LENGTH: usize = 20;

/// Large fixed capacity for variable-length fields (entitlements, blobs,
/// identities). Fixed, not growable: a larger true response is silently
/// truncated by the gateway, which is why decoders carry advisory
/// truncation signals.
pub const MAX_BUFFER_CAPACITY: usize = 0x100000;

/// Longest team identifier, excluding its NUL terminator.
pub const TEAMID_CAPACITY: usize = 63;

/// How an operation's raw response is decoded. Variants that need a
/// buffer size other than one word carry it.
#[derive(Debug, Clone, Copy, PartialEq, Eq, Structural)]
pub enum ResultKind {
    /// A 32-bit status word rendered through the flag table.
    Flags,
    /// A bare 32-bit word.
    Integer,
    /// Raw bytes handed back undecoded.
    RawBytes(usize),
    /// NUL-truncated UTF-8 text.
    Text(usize),
    /// A digest of the given length, rendered as lowercase hex.
    Hash(usize),
    /// A tag/length-prefixed blob.
    Blob(usize),
}

/// The result-buffer capacity each kind calls for.
pub open spec fn spec_capacity(kind: ResultKind) -> usize {
    match kind {
        ResultKind::Flags => WORD_CAPACITY,
        ResultKind::Integer => WORD_CAPACITY,
        ResultKind::RawBytes(c) => c,
        ResultKind::Text(c) => c,
        ResultKind::Hash(l) => l,
        ResultKind::Blob(c) => c,
    }
}

/// The result-buffer capacity the registry assigns to `kind`.
pub fn capacity_of(kind: ResultKind) -> (r: usize)
    ensures
        r == spec_capacity(kind),
{
    match kind {
        ResultKind::Flags => WORD_CAPACITY,
        ResultKind::Integer => WORD_CAPACITY,
        ResultKind::RawBytes(c) => c,
        ResultKind::Text(c) => c,
        ResultKind::Hash(l) => l,
        ResultKind::Blob(c) => c,
    }
}

/// A registered operation: its name, its opcode, and how its response is
/// decoded. Immutable once the registry is built; names are unique.
#[derive(Debug, Clone, PartialEq, Eq)]
pub struct OperationSpec {
    pub name: String,
    pub opcode: u32,
    pub result_kind: ResultKind,
}

/// The registry contents: one entry per supported operation, as
/// (name, opcode, result kind), in the fixed published order.
pub open spec fn spec_registry() -> Seq<(Seq<char>, u32, ResultKind)> {
    seq![
        ("status"@, CS_OPS_STATUS, ResultKind::Flags),
        ("mark_invalid"@, CS_OPS_MARKINVALID, ResultKind::Integer),
        ("mark_hard"@, CS_OPS_MARKHARD, ResultKind::Integer),
        ("mark_kill"@, CS_OPS_MARKKILL, ResultKind::Integer),
        ("executable_path"@, CS_OPS_PIDPATH, ResultKind::Text(PATH_CAPACITY)),
        ("cdhash"@, CS_OPS_CDHASH, ResultKind::Hash(SHA1_DIGEST_LENGTH)),
        ("entitlements"@, CS_OPS_ENTITLEMENTS_BLOB, ResultKind::Text(MAX_BUFFER_CAPACITY)),
        (
            "der_entitlements"@,
            CS_OPS_DER_ENTITLEMENTS_BLOB,
            ResultKind::Text(MAX_BUFFER_CAPACITY),
        ),
        ("clear_platform"@, CS_OPS_CLEARPLATFORM, ResultKind::Integer),
        ("clear_installer"@, CS_OPS_CLEARINSTALLER, ResultKind::Integer),
        ("clear_lv"@, CS_OPS_CLEAR_LV, ResultKind::Integer),
        ("signing_id"@, CS_OPS_IDENTITY, ResultKind::Text(MAX_BUFFER_CAPACITY)),
        ("team_id"@, CS_OPS_TEAMID, ResultKind::Text(TEAMID_CAPACITY)),
        ("blob"@, CS_OPS_BLOB, ResultKind::Blob(MAX_BUFFER_CAPACITY)),
        ("validation_category"@, CS_OPS_VALIDATION_CATEGORY, ResultKind::Integer),
        ("macho_offset"@, CS_OPS_PIDOFFSET, ResultKind::Integer),
    ]
}

/// The first registry entry from index `i` on whose name is `name`.
pub open spec fn spec_resolve_from(name: Seq<char>, i: int) -> Option<(Seq<char>, u32, ResultKind)>
    decreases spec_registry().len() - i,
{
    if i < 0 || i >= spec_registry().len() {
        None
    } else if spec_registry()[i].0 == name {
        Some(spec_registry()[i])
    } else {
        spec_resolve_from(name, i + 1)
    }
}

/// The registry entry for `name`, if any. Names are unique, so this is
/// the entry for `name`.
pub open spec fn spec_resolve(name: Seq<char>) -> Option<(Seq<char>, u32, ResultKind)> {
    spec_resolve_from(name, 0)
}

proof fn lemma_resolve_skip(name: Seq<char>, i: int)
    requires
        0 <= i <= spec_registry().len(),
        forall|j: int| 0 <= j < i ==> (#[trigger] spec_registry()[j]).0 != name,
    ensures
        spec_resolve(name) == spec_resolve_from(name, i),
    decreases i,
{
    if i > 0 {
        lemma_resolve_skip(name, i - 1);
    }
}

/// Build the registry table. Its entries are exactly `spec_registry`.
pub fn registry() -> (r: Vec<OperationSpec>)
    ensures
        r@.map_values(|o: OperationSpec| (o.name@, o.opcode, o.result_kind)) == spec_registry(),
{
    let mut t: Vec<OperationSpec> = Vec::new();
    t.push(OperationSpec { name: "status".to_owned(), opcode: CS_OPS_STATUS, result_kind: ResultKind::Flags });
    t.push(OperationSpec { name: "mark_invalid".to_owned(), opcode: CS_OPS_MARKINVALID, result_kind: ResultKind::Integer });
    t.push(OperationSpec { name: "mark_hard".to_owned(), opcode: CS_OPS_MARKHARD, result_kind: ResultKind::Integer });
    t.push(OperationSpec { name: "mark_kill".to_owned(), opcode: CS_OPS_MARKKILL, result_kind: ResultKind::Integer });
    t.push(OperationSpec { name: "executable_path".to_owned(), opcode: CS_OPS_PIDPATH, result_kind: ResultKind::Text(PATH_CAPACITY) });
    t.push(OperationSpec { name: "cdhash".to_owned(), opcode: CS_OPS_CDHASH, result_kind: ResultKind::Hash(SHA1_DIGEST_LENGTH) });
    t.push(OperationSpec { name: "entitlements".to_owned(), opcode: CS_OPS_ENTITLEMENTS_BLOB, result_kind: ResultKind::Text(MAX_BUFFER_CAPACITY) });
    t.push(OperationSpec { name: "der_entitlements".to_owned(), opcode: CS_OPS_DER_ENTITLEMENTS_BLOB, result_kind: ResultKind::Text(MAX_BUFFER_CAPACITY) });
    t.push(OperationSpec { name: "clear_platform".to_owned(), opcode: CS_OPS_CLEARPLATFORM, result_kind: ResultKind::Integer });
    t.push(OperationSpec { name: "clear_installer".to_owned(), opcode: CS_OPS_CLEARINSTALLER, result_kind: ResultKind::Integer });
    t.push(OperationSpec { name: "clear_lv".to_owned(), opcode: CS_OPS_CLEAR_LV, result_kind: ResultKind::Integer });
    t.push(OperationSpec { name: "signing_id".to_owned(), opcode: CS_OPS_IDENTITY, result_kind: ResultKind::Text(MAX_BUFFER_CAPACITY) });
    t.push(OperationSpec { name: "team_id".to_owned(), opcode: CS_OPS_TEAMID, result_kind: ResultKind::Text(TEAMID_CAPACITY) });
    t.push(OperationSpec { name: "blob".to_owned(), opcode: CS_OPS_BLOB, result_kind: ResultKind::Blob(MAX_BUFFER_CAPACITY) });
    t.push(OperationSpec { name: "validation_category".to_owned(), opcode: CS_OPS_VALIDATION_CATEGORY, result_kind: ResultKind::Integer });
    t.push(OperationSpec { name: "macho_offset".to_owned(), opcode: CS_OPS_PIDOFFSET, result_kind: ResultKind::Integer });
    proof {
        assert(t@.map_values(|o: OperationSpec| (o.name@, o.opcode, o.result_kind))
            =~= spec_registry());
    }
    t
}

/// Look an operation name up in the registry. Succeeds exactly when the
/// name is registered, yielding that entry; otherwise — and the gateway is
/// never invoked on this path — fails with `UnknownOperation`.
pub fn resolve(name: &str) -> (r: Result<OperationSpec, CsError>)
    ensures
        r is Ok <==> spec_resolve(name@) is Some,
        spec_resolve(name@) matches Some(entry) ==> r matches Ok(op) && {
            &&& op.name@ == entry.0
            &&& op.opcode == entry.1
            &&& op.result_kind == entry.2
        },
        r is Err ==> r matches Err(CsError::UnknownOperation),
{
    let owned: String = name.to_owned();
    let mut table = registry();
    let n = table.len();
    let mut i: usize = 0;
    while i < n
        invariant
            0 <= i <= n,
            n == table@.len(),
            table@.map_values(|o: OperationSpec| (o.name@, o.opcode, o.result_kind))
                == spec_registry(),
            owned@ == name@,
            forall|j: int| 0 <= j < i ==> (#[trigger] spec_registry()[j]).0 != name@,
        decreases n - i,
    {
        proof {
            assert((table@.map_values(|o: OperationSpec| (o.name@, o.opcode, o.result_kind)))[
                i as int
            ] == spec_registry()[i as int]);
        }
        if owned == table[i].name {
            let found = table.remove(i);
            proof {
                lemma_resolve_skip(name@, i as int);
            }
            return Ok(found);
        }
        i = i + 1;
    }
    proof {
        lemma_resolve_skip(name@, n as int);
    }
    Err(CsError::UnknownOperation)
}

} // verus!
