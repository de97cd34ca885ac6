//! The flag decode table: an ordered, immutable list of (bitmask, label)
//! pairs, and the matcher that renders a raw 32-bit status word as the
//! labels of the flags it carries, in table order.

use vstd::prelude::*;

verus! {

/// Code-signing status flags, as exposed by the kernel's status word.
pub const CS_VALID: u32 = 0x00000001;

pub const CS_ADHOC: u32 = 0x00000002;

pub const CS_GET_TASK_ALLOW: u32 = 0x00000004;

pub const CS_INSTALLER: u32 = 0x00000008;

pub const CS_FORCED_LV: u32 = 0x00000010;

pub const CS_INVALID_ALLOWED: u32 = 0x00000020;

pub const CS_HARD: u32 = 0x00000100;

pub const CS_KILL: u32 = 0x00000200;

pub const CS_CHECK_EXPIRATION: u32 = 0x00000400;

pub const CS_RESTRICT: u32 = 0x00000800;

pub const CS_ENFORCEMENT: u32 = 0x00001000;

pub const CS_REQUIRE_LV: u32 = 0x00002000;

pub const CS_ENTITLEMENTS_VALIDATED: u32 = 0x00004000;

pub const CS_NVRAM_UNRESTRICTED: u32 = 0x00008000;

pub const CS_RUNTIME: u32 = 0x00010000;

pub const CS_LINKER_SIGNED: u32 = 0x00020000;

pub const CS_EXEC_SET_HARD: u32 = 0x00100000;

pub const CS_EXEC_SET_KILL: u32 = 0x00200000;

pub const CS_EXEC_SET_ENFORCEMENT: u32 = 0x00400000;

pub const CS_EXEC_INHERIT_SIP: u32 = 0x00800000;

pub const CS_KILLED: u32 = 0x01000000;

pub const CS_NO_UNTRUSTED_HELPERS: u32 = 0x02000000;

pub const CS_PLATFORM_BINARY: u32 = 0x04000000;

pub const CS_PLATFORM_PATH: u32 = 0x08000000;

pub const CS_DEBUGGED: u32 = 0x10000000;

pub const CS_SIGNED: u32 = 0x20000000;

pub const CS_DEV_CODE: u32 = 0x40000000;

pub const CS_DATAVAULT_CONTROLLER: u32 = 0x80000000;

/// True exactly when every bit of `flag` is set in `flags`. Multi-bit
/// masks therefore match only when all of their bits are present, not
/// when the two words merely overlap.
pub fn flag_set(flags: u32, flag: u32) -> (r: bool)
    ensures
        r == spec_flag_set(flags, flag),
{
    flags & flag == flag
}

/// A flag is present in a status word exactly when all of its mask's bits are.
pub open spec fn spec_flag_set(flags: u32, flag: u32) -> bool {
    flags & flag == flag
}

/// The decode table: one (mask, label) pair per known flag, in the fixed
/// order in which labels are reported. The order is part of the public
/// contract of `decode_flags`.
pub open spec fn spec_flag_table() -> Seq<(u32, Seq<char>)> {
    seq![
        (CS_VALID, "CS_VALID"@),
        (CS_ADHOC, "CS_ADHOC"@),
        (CS_GET_TASK_ALLOW, "CS_GET_TASK_ALLOW"@),
        (CS_INSTALLER, "CS_INSTALLER"@),
        (CS_FORCED_LV, "CS_FORCED_LV"@),
        (CS_INVALID_ALLOWED, "CS_INVALID_ALLOWED"@),
        (CS_HARD, "CS_HARD"@),
        (CS_KILL, "CS_KILL"@),
        (CS_CHECK_EXPIRATION, "CS_CHECK_EXPIRATION"@),
        (CS_RESTRICT, "CS_RESTRICT"@),
        (CS_ENFORCEMENT, "CS_ENFORCEMENT"@),
        (CS_REQUIRE_LV, "CS_REQUIRE_LV"@),
        (CS_ENTITLEMENTS_VALIDATED, "CS_ENTITLEMENTS_VALIDATED"@),
        (CS_NVRAM_UNRESTRICTED, "CS_NVRAM_UNRESTRICTED"@),
        (CS_RUNTIME, "CS_RUNTIME"@),
        (CS_LINKER_SIGNED, "CS_LINKER_SIGNED"@),
        (CS_EXEC_SET_HARD, "CS_EXEC_SET_HARD"@),
        (CS_EXEC_SET_KILL, "CS_EXEC_SET_KILL"@),
        (CS_EXEC_SET_ENFORCEMENT, "CS_EXEC_SET_ENFORCEMENT"@),
        (CS_EXEC_INHERIT_SIP, "CS_EXEC_INHERIT_SIP"@),
        (CS_KILLED, "CS_KILLED"@),
        (CS_NO_UNTRUSTED_HELPERS, "CS_NO_UNTRUSTED_HELPERS"@),
        (CS_PLATFORM_BINARY, "CS_PLATFORM_BINARY"@),
        (CS_PLATFORM_PATH, "CS_PLATFORM_PATH"@),
        (CS_DEBUGGED, "CS_DEBUGGED"@),
        (CS_SIGNED, "CS_SIGNED"@),
        (CS_DEV_CODE, "CS_DEV_CODE"@),
        (CS_DATAVAULT_CONTROLLER, "CS_DATAVAULT_CONTROLLER"@),
    ]
}

/// The entries of `table` whose mask is fully contained in `value`, in the
/// order `table` gives them.
pub open spec fn spec_matched_of(value: u32, table: Seq<(u32, Seq<char>)>) -> Seq<(u32, Seq<char>)>
    decreases table.len(),
{
    if table.len() == 0 {
        Seq::empty()
    } else {
        let rest = spec_matched_of(value, table.drop_last());
        if spec_flag_set(value, table.last().0) {
            rest.push(table.last())
        } else {
            rest
        }
    }
}

/// The table entries whose mask is fully contained in `value`, in table order.
pub open spec fn spec_matched(value: u32) -> Seq<(u32, Seq<char>)> {
    spec_matched_of(value, spec_flag_table())
}

/// The decoded form of a raw status word: the word itself together with
/// the labels of the flags it carries, in table order.
#[derive(Debug, Clone, PartialEq, Eq)]
pub struct FlagSet {
    pub value: u32,
    pub labels: Vec<String>,
}

/// The exec decode table; its view is exactly `spec_flag_table`.
fn flag_table() -> (r: Vec<(u32, &'static str)>)
    ensures
        r@.map_values(|p: (u32, &'static str)| (p.0, p.1@)) == spec_flag_table(),
{
    let mut t: Vec<(u32, &'static str)> = Vec::new();
    t.push((CS_VALID, "CS_VALID"));
    t.push((CS_ADHOC, "CS_ADHOC"));
    t.push((CS_GET_TASK_ALLOW, "CS_GET_TASK_ALLOW"));
    t.push((CS_INSTALLER, "CS_INSTALLER"));
    t.push((CS_FORCED_LV, "CS_FORCED_LV"));
    t.push((CS_INVALID_ALLOWED, "CS_INVALID_ALLOWED"));
    t.push((CS_HARD, "CS_HARD"));
    t.push((CS_KILL, "CS_KILL"));
    t.push((CS_CHECK_EXPIRATION, "CS_CHECK_EXPIRATION"));
    t.push((CS_RESTRICT, "CS_RESTRICT"));
    t.push((CS_ENFORCEMENT, "CS_ENFORCEMENT"));
    t.push((CS_REQUIRE_LV, "CS_REQUIRE_LV"));
    t.push((CS_ENTITLEMENTS_VALIDATED, "CS_ENTITLEMENTS_VALIDATED"));
    t.push((CS_NVRAM_UNRESTRICTED, "CS_NVRAM_UNRESTRICTED"));
    t.push((CS_RUNTIME, "CS_RUNTIME"));
    t.push((CS_LINKER_SIGNED, "CS_LINKER_SIGNED"));
    t.push((CS_EXEC_SET_HARD, "CS_EXEC_SET_HARD"));
    t.push((CS_EXEC_SET_KILL, "CS_EXEC_SET_KILL"));
    t.push((CS_EXEC_SET_ENFORCEMENT, "CS_EXEC_SET_ENFORCEMENT"));
    t.push((CS_EXEC_INHERIT_SIP, "CS_EXEC_INHERIT_SIP"));
    t.push((CS_KILLED, "CS_KILLED"));
    t.push((CS_NO_UNTRUSTED_HELPERS, "CS_NO_UNTRUSTED_HELPERS"));
    t.push((CS_PLATFORM_BINARY, "CS_PLATFORM_BINARY"));
    t.push((CS_PLATFORM_PATH, "CS_PLATFORM_PATH"));
    t.push((CS_DEBUGGED, "CS_DEBUGGED"));
    t.push((CS_SIGNED, "CS_SIGNED"));
    t.push((CS_DEV_CODE, "CS_DEV_CODE"));
    t.push((CS_DATAVAULT_CONTROLLER, "CS_DATAVAULT_CONTROLLER"));
    proof {
        assert(t@.map_values(|p: (u32, &'static str)| (p.0, p.1@)) =~= spec_flag_table());
    }
    t
}

/// The OR of all masks in `entries`.
pub open spec fn spec_or_all(entries: Seq<(u32, Seq<char>)>) -> u32
    decreases entries.len(),
{
    if entries.len() == 0 {
        0
    } else {
        spec_or_all(entries.drop_last()) | entries.last().0
    }
}

proof fn lemma_matched_of_sound(value: u32, table: Seq<(u32, Seq<char>)>)
    ensures
        forall|i: int|
            0 <= i < spec_matched_of(value, table).len() ==> spec_flag_set(
                value,
                (#[trigger] spec_matched_of(value, table)[i]).0,
            ),
        value & spec_or_all(spec_matched_of(value, table)) == spec_or_all(
            spec_matched_of(value, table),
        ),
    decreases table.len(),
{
    if table.len() == 0 {
        assert(value & 0 == 0) by (bit_vector);
    } else {
        lemma_matched_of_sound(value, table.drop_last());
        let rest = spec_matched_of(value, table.drop_last());
        let m = spec_matched_of(value, table);
        if spec_flag_set(value, table.last().0) {
            let a = spec_or_all(rest);
            let b = table.last().0;
            assert(m.drop_last() =~= rest);
            assert(spec_or_all(m) == (a | b));
            assert((value & a == a && value & b == b) ==> value & (a | b) == (a | b))
                by (bit_vector);
        }
    }
}

/// Law: flag decoding never reports a false positive. Every entry that
/// `spec_matched` selects for `value` — and `decode_flags` reports exactly
/// those entries' labels, in table order — has its mask fully contained in
/// `value`, and OR-ing all selected masks back together yields a subset of
/// `value`.
pub proof fn lemma_decode_flags_sound(value: u32)
    ensures
        forall|i: int|
            0 <= i < spec_matched(value).len() ==> spec_flag_set(
                value,
                (#[trigger] spec_matched(value)[i]).0,
            ),
        value & spec_or_all(spec_matched(value)) == spec_or_all(spec_matched(value)),
{
    lemma_matched_of_sound(value, spec_flag_table());
}

/// `f` is a faithful decode of its own raw word: its labels are exactly
/// the labels of `spec_matched(f.value)`, in table order.
pub open spec fn spec_flagset_ok(f: FlagSet) -> bool {
    &&& f.labels@.len() == spec_matched(f.value).len()
    &&& forall|j: int|
        0 <= j < f.labels@.len() ==> (#[trigger] f.labels@[j])@ == spec_matched(f.value)[j].1
}

/// Decode a raw status word against the flag table. The result carries the
/// word itself and, in table order, the label of every flag whose mask is
/// fully contained in the word.
pub fn decode_flags(value: u32) -> (r: FlagSet)
    ensures
        r.value == value,
        spec_flagset_ok(r),
{
    let table = flag_table();
    let ghost st = spec_flag_table();
    let mut labels: Vec<String> = Vec::new();
    proof {
        assert(st.subrange(0, 0) =~= Seq::<(u32, Seq<char>)>::empty());
    }
    let n = table.len();
    let mut i: usize = 0;
    while i < n
        invariant
            n == table@.len() == st.len(),
            0 <= i <= n,
            table@.map_values(|p: (u32, &'static str)| (p.0, p.1@)) == st,
            labels@.len() == spec_matched_of(value, st.subrange(0, i as int)).len(),
            forall|j: int|
                0 <= j < labels@.len() ==> (#[trigger] labels@[j])@ == spec_matched_of(
                    value,
                    st.subrange(0, i as int),
                )[j].1,
        decreases n - i,
    {
        let (mask, label) = table[i];
        let ghost prefix = st.subrange(0, i as int);
        let ghost entry = st[i as int];
        proof {
            assert(entry == (table@.map_values(|p: (u32, &'static str)| (p.0, p.1@)))[i as int]);
            assert(entry.0 == mask && entry.1 == label@);
            assert(st.subrange(0, i + 1).drop_last() =~= prefix);
            assert(st.subrange(0, i + 1).last() == entry);
        }
        if flag_set(value, mask) {
            let owned = label.to_owned();
            labels.push(owned);
            proof {
                assert(spec_matched_of(value, st.subrange(0, i + 1)) == spec_matched_of(
                    value,
                    prefix,
                ).push(entry));
            }
        } else {
            proof {
                assert(spec_matched_of(value, st.subrange(0, i + 1)) == spec_matched_of(
                    value,
                    prefix,
                ));
            }
        }
        i = i + 1;
    }
    proof {
        assert(st.subrange(0, n as int) =~= st);
    }
    FlagSet { value, labels }
}

} // verus!
