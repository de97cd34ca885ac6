//! The registry, the dispatch engine and the error mapper, exercised
//! against stub gateways.

use csops::errors::map_failure;
use csops::errors::CsError;
use csops::gateway::raw_control_word;
use csops::gateway::run_operation;
use csops::gateway::DecodedValue;
use csops::gateway::Gateway;
use csops::registry::capacity_of;
use csops::registry::registry;
use csops::registry::resolve;
use csops::registry::ResultKind;
use csops::registry::CS_OPS_BLOB;
use csops::registry::CS_OPS_CDHASH;
use csops::registry::CS_OPS_MARKINVALID;
use csops::registry::CS_OPS_PIDOFFSET;
use csops::registry::CS_OPS_STATUS;
use csops::registry::MAX_BUFFER_CAPACITY;
use csops::registry::PATH_CAPACITY;
use csops::registry::SHA1_DIGEST_LENGTH;

const ALL_OPERATIONS: [&str; 16] = [
    "status",
    "mark_invalid",
    "mark_hard",
    "mark_kill",
    "executable_path",
    "cdhash",
    "entitlements",
    "der_entitlements",
    "clear_platform",
    "clear_installer",
    "clear_lv",
    "signing_id",
    "team_id",
    "blob",
    "validation_category",
    "macho_offset",
];

/// Counts invocations and writes a fixed byte pattern at the start of the
/// buffer before returning the configured status and error code.
struct StubGateway {
    calls: usize,
    response: Vec<u8>,
    status: i32,
    error_code: i32,
}

impl StubGateway {
    fn succeeding(response: &[u8]) -> StubGateway {
        StubGateway { calls: 0, response: response.to_vec(), status: 0, error_code: 0 }
    }

    fn failing(status: i32, error_code: i32) -> StubGateway {
        StubGateway { calls: 0, response: Vec::new(), status, error_code }
    }
}

impl Gateway for StubGateway {
    fn raw_control(&mut self, _pid: i32, _opcode: u32, buffer: &mut Vec<u8>) -> (i32, i32) {
        self.calls += 1;
        let n = self.response.len().min(buffer.len());
        buffer[..n].copy_from_slice(&self.response[..n]);
        (self.status, self.error_code)
    }
}

#[test]
fn resolve_known_operations() {
    let status = resolve("status").unwrap();
    assert_eq!(status.opcode, CS_OPS_STATUS);
    assert_eq!(status.result_kind, ResultKind::Flags);

    let cdhash = resolve("cdhash").unwrap();
    assert_eq!(cdhash.opcode, CS_OPS_CDHASH);
    assert_eq!(cdhash.result_kind, ResultKind::Hash(SHA1_DIGEST_LENGTH));

    let blob = resolve("blob").unwrap();
    assert_eq!(blob.opcode, CS_OPS_BLOB);
    assert_eq!(blob.result_kind, ResultKind::Blob(MAX_BUFFER_CAPACITY));

    let mark = resolve("mark_invalid").unwrap();
    assert_eq!(mark.opcode, CS_OPS_MARKINVALID);
    assert_eq!(mark.result_kind, ResultKind::Integer);

    let offset = resolve("macho_offset").unwrap();
    assert_eq!(offset.opcode, CS_OPS_PIDOFFSET);

    let path = resolve("executable_path").unwrap();
    assert_eq!(path.result_kind, ResultKind::Text(PATH_CAPACITY));
}

#[test]
fn registry_covers_every_operation_once() {
    let table = registry();
    assert_eq!(table.len(), ALL_OPERATIONS.len());
    for (entry, name) in table.iter().zip(ALL_OPERATIONS.iter()) {
        assert_eq!(entry.name, *name);
    }
    for name in ALL_OPERATIONS {
        assert!(resolve(name).is_ok());
    }
}

#[test]
fn unknown_operation_never_reaches_the_gateway() {
    assert_eq!(resolve("not_a_real_op"), Err(CsError::UnknownOperation));

    let mut gw = StubGateway::succeeding(&[]);
    let r = run_operation(&mut gw, "not_a_real_op", 1);
    assert_eq!(r, Err(CsError::UnknownOperation));
    assert_eq!(gw.calls, 0);
}

#[test]
fn gateway_failure_propagates_for_every_operation() {
    let esrch = nix::errno::Errno::ESRCH as i32;
    for name in ALL_OPERATIONS {
        let mut gw = StubGateway::failing(-1, esrch);
        let r = run_operation(&mut gw, name, 424242);
        assert_eq!(gw.calls, 1);
        match r {
            Err(CsError::SyscallFailure(f)) => {
                assert_eq!(f.raw_code, -1);
                assert_eq!(f.description, "No such process");
            }
            other => panic!("expected a syscall failure for {name}, got {other:?}"),
        }
    }
}

#[test]
fn error_mapper_renders_the_platform_text() {
    let f = map_failure(-1, nix::errno::Errno::ESRCH as i32);
    assert_eq!(f.raw_code, -1);
    assert_eq!(f.description, "No such process");

    let f = map_failure(-1, nix::errno::Errno::EPERM as i32);
    assert_eq!(f.description, "Operation not permitted");
}

#[test]
fn status_operation_decodes_flags() {
    let mut gw = StubGateway::succeeding(&[0x01, 0x02, 0x00, 0x20]);
    match run_operation(&mut gw, "status", 1) {
        Ok(DecodedValue::Flags(f)) => {
            assert_eq!(f.value, 0x2000_0201);
            assert_eq!(f.labels, vec!["CS_VALID", "CS_KILL", "CS_SIGNED"]);
        }
        other => panic!("expected flags, got {other:?}"),
    }
}

#[test]
fn text_operation_decodes_nul_truncated_text() {
    let mut gw = StubGateway::succeeding(b"com.example.tool\0junk");
    match run_operation(&mut gw, "signing_id", 1) {
        Ok(DecodedValue::Text(t)) => {
            assert_eq!(t.value, "com.example.tool");
            assert!(!t.possibly_truncated);
        }
        other => panic!("expected text, got {other:?}"),
    }
}

#[test]
fn hash_operation_renders_hex() {
    let digest: Vec<u8> = (0u8..20).collect();
    let mut gw = StubGateway::succeeding(&digest);
    match run_operation(&mut gw, "cdhash", 1) {
        Ok(DecodedValue::Hash(h)) => {
            assert_eq!(h, "000102030405060708090a0b0c0d0e0f10111213");
        }
        other => panic!("expected a hash, got {other:?}"),
    }
}

#[test]
fn blob_operation_parses_the_header() {
    let enc = csops::blob::encode_blob(0xfade0cc0, b"superblob payload");
    let mut gw = StubGateway::succeeding(&enc);
    match run_operation(&mut gw, "blob", 1) {
        Ok(DecodedValue::Blob(h)) => {
            assert_eq!(h.tag, 0xfade0cc0);
            assert_eq!(h.declared_length, 8 + 17);
            assert_eq!(h.payload, b"superblob payload");
            // The buffer is far larger than the declared length.
            assert!(!h.truncated);
        }
        other => panic!("expected a blob, got {other:?}"),
    }
}

#[test]
fn integer_operation_reads_the_word() {
    let mut gw = StubGateway::succeeding(&[0x2a, 0, 0, 0]);
    match run_operation(&mut gw, "validation_category", 1) {
        Ok(DecodedValue::Integer(w)) => assert_eq!(w, 42),
        other => panic!("expected an integer, got {other:?}"),
    }
}

#[test]
fn word_call_shape_deserializes_explicitly() {
    let mut gw = StubGateway::succeeding(&[0x78, 0x56, 0x34, 0x12]);
    let (status, word, _code) = raw_control_word(&mut gw, 1, CS_OPS_STATUS);
    assert_eq!(status, 0);
    assert_eq!(word, 0x12345678);
    assert_eq!(gw.calls, 1);
}

#[test]
fn capacities_follow_the_registry_policy() {
    assert_eq!(capacity_of(ResultKind::Flags), 4);
    assert_eq!(capacity_of(ResultKind::Integer), 4);
    assert_eq!(capacity_of(ResultKind::Hash(SHA1_DIGEST_LENGTH)), 20);
    assert_eq!(capacity_of(ResultKind::Text(PATH_CAPACITY)), 1024);
    assert_eq!(capacity_of(ResultKind::Blob(MAX_BUFFER_CAPACITY)), 0x100000);
    assert_eq!(capacity_of(ResultKind::RawBytes(16)), 16);
}
