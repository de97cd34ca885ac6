//! Decoder behaviour on concrete buffers: flag matching, blob headers,
//! text truncation and hash rendering.

use csops::blob::encode_blob;
use csops::blob::parse_blob;
use csops::blob::read_be32;
use csops::errors::CsError;
use csops::flags::decode_flags;
use csops::flags::flag_set;
use csops::flags::CS_ADHOC;
use csops::flags::CS_DATAVAULT_CONTROLLER;
use csops::flags::CS_HARD;
use csops::flags::CS_KILL;
use csops::flags::CS_VALID;
use csops::gateway::decode_word;
use csops::hash::decode_hash;
use csops::text::decode_text;

#[test]
fn flag_set_requires_all_bits() {
    assert!(flag_set(0x3, CS_VALID));
    assert!(flag_set(0x3, CS_ADHOC));
    // Partial overlap is not a match: every bit of the mask must be set.
    assert!(!flag_set(CS_ADHOC, CS_VALID | CS_ADHOC));
    assert!(flag_set(CS_VALID | CS_ADHOC, CS_VALID | CS_ADHOC));
}

#[test]
fn flags_match_in_table_order() {
    let f = decode_flags(CS_VALID | CS_DATAVAULT_CONTROLLER);
    assert_eq!(f.value, CS_VALID | CS_DATAVAULT_CONTROLLER);
    // CS_DATAVAULT_CONTROLLER has the numerically largest mask but the
    // output order is the table's, so CS_VALID still comes first.
    assert_eq!(f.labels, vec!["CS_VALID", "CS_DATAVAULT_CONTROLLER"]);
}

#[test]
fn flags_of_zero_are_empty() {
    let f = decode_flags(0);
    assert_eq!(f.value, 0);
    assert!(f.labels.is_empty());
}

#[test]
fn flags_mark_bits() {
    let f = decode_flags(CS_HARD | CS_KILL);
    assert_eq!(f.labels, vec!["CS_HARD", "CS_KILL"]);
}

#[test]
fn blob_round_trip() {
    let payload = b"hello blob";
    let enc = encode_blob(0xfade0cc0, payload);
    assert_eq!(enc.len(), 8 + payload.len());
    let h = parse_blob(&enc).unwrap();
    assert_eq!(h.tag, 0xfade0cc0);
    assert_eq!(h.declared_length, 8 + payload.len() as u32);
    assert_eq!(h.payload, payload);
    assert!(!h.truncated);
}

#[test]
fn blob_empty_payload_round_trip() {
    let enc = encode_blob(7, b"");
    assert_eq!(enc.len(), 8);
    let h = parse_blob(&enc).unwrap();
    assert_eq!(h.tag, 7);
    assert_eq!(h.declared_length, 8);
    assert!(h.payload.is_empty());
    assert!(!h.truncated);
}

#[test]
fn nested_blob_parses_from_payload() {
    // The header layout recurs for nested sub-blobs: re-invoking the
    // parser on a parsed payload parses the embedded blob.
    let inner = encode_blob(2, b"inner");
    let outer = encode_blob(1, &inner);
    let h = parse_blob(&outer).unwrap();
    let hi = parse_blob(&h.payload).unwrap();
    assert_eq!(hi.tag, 2);
    assert_eq!(hi.payload, b"inner");
    assert!(!hi.truncated);
}

#[test]
fn flags_of_all_ones_list_the_whole_table_in_order() {
    let f = decode_flags(u32::MAX);
    assert_eq!(
        f.labels,
        vec![
            "CS_VALID",
            "CS_ADHOC",
            "CS_GET_TASK_ALLOW",
            "CS_INSTALLER",
            "CS_FORCED_LV",
            "CS_INVALID_ALLOWED",
            "CS_HARD",
            "CS_KILL",
            "CS_CHECK_EXPIRATION",
            "CS_RESTRICT",
            "CS_ENFORCEMENT",
            "CS_REQUIRE_LV",
            "CS_ENTITLEMENTS_VALIDATED",
            "CS_NVRAM_UNRESTRICTED",
            "CS_RUNTIME",
            "CS_LINKER_SIGNED",
            "CS_EXEC_SET_HARD",
            "CS_EXEC_SET_KILL",
            "CS_EXEC_SET_ENFORCEMENT",
            "CS_EXEC_INHERIT_SIP",
            "CS_KILLED",
            "CS_NO_UNTRUSTED_HELPERS",
            "CS_PLATFORM_BINARY",
            "CS_PLATFORM_PATH",
            "CS_DEBUGGED",
            "CS_SIGNED",
            "CS_DEV_CODE",
            "CS_DATAVAULT_CONTROLLER",
        ]
    );
}

#[test]
fn blob_four_byte_buffer_is_too_short() {
    assert_eq!(parse_blob(&[0, 0, 0, 0]), Err(CsError::BlobTooShort));
}

#[test]
fn blob_declared_length_below_header_is_too_short() {
    // 12-byte buffer whose declared length field reads 7 (< 8).
    let buf = [0xfa, 0xde, 0x0c, 0xc0, 0, 0, 0, 7, 1, 2, 3, 4];
    assert_eq!(parse_blob(&buf), Err(CsError::BlobTooShort));
}

#[test]
fn blob_declared_length_is_clamped_to_buffer() {
    // Header declares 100 bytes but the buffer holds only 12: the payload
    // is clamped and the truncation advisory is raised.
    let buf = [0, 0, 0, 1, 0, 0, 0, 100, 9, 8, 7, 6];
    let h = parse_blob(&buf).unwrap();
    assert_eq!(h.declared_length, 100);
    assert_eq!(h.payload, vec![9, 8, 7, 6]);
    assert!(h.truncated);
}

#[test]
fn blob_declared_length_shorter_than_buffer() {
    // Header declares 10 bytes; the buffer holds 12. Only two payload
    // bytes are meaningful.
    let buf = [0, 0, 0, 2, 0, 0, 0, 10, 1, 2, 3, 4];
    let h = parse_blob(&buf).unwrap();
    assert_eq!(h.payload, vec![1, 2]);
    assert!(!h.truncated);
}

#[test]
fn read_be32_is_big_endian() {
    assert_eq!(read_be32(&[0x12, 0x34, 0x56, 0x78], 0), 0x12345678);
    assert_eq!(read_be32(&[0, 0x12, 0x34, 0x56, 0x78], 1), 0x12345678);
}

#[test]
fn text_truncates_at_first_zero_byte() {
    let t = decode_text(b"abc\0garbage").unwrap();
    assert_eq!(t.value, "abc");
    assert!(!t.possibly_truncated);
}

#[test]
fn text_without_zero_byte_may_be_truncated() {
    let t = decode_text(b"abc").unwrap();
    assert_eq!(t.value, "abc");
    assert!(t.possibly_truncated);
}

#[test]
fn text_empty_buffer() {
    let t = decode_text(b"").unwrap();
    assert_eq!(t.value, "");
    assert!(t.possibly_truncated);
}

#[test]
fn text_invalid_utf8_is_rejected() {
    assert_eq!(decode_text(&[0xff, 0xfe, 0x41]), Err(CsError::InvalidText));
}

#[test]
fn text_invalid_bytes_after_zero_are_ignored() {
    let t = decode_text(&[0x41, 0x42, 0, 0xff, 0xfe]).unwrap();
    assert_eq!(t.value, "AB");
}

#[test]
fn hash_renders_lowercase_hex() {
    let digest: Vec<u8> = (0u8..20).collect();
    assert_eq!(decode_hash(&digest), "000102030405060708090a0b0c0d0e0f10111213");
}

#[test]
fn hash_of_empty_buffer_is_empty() {
    assert_eq!(decode_hash(&[]), "");
}

#[test]
fn word_is_little_endian_and_zero_padded() {
    assert_eq!(decode_word(&[1, 0, 0, 0]), 1);
    assert_eq!(decode_word(&[0x78, 0x56, 0x34, 0x12]), 0x12345678);
    assert_eq!(decode_word(&[]), 0);
    assert_eq!(decode_word(&[0x05]), 5);
}
