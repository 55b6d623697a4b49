use zktls_pipeline::backend::ProofSystem;
use zktls_pipeline::codec::{decode_public_values, encode_public_values, public_value_bytes};
use zktls_pipeline::config::{
    is_supported_length, plan_evm, plan_run, resolve_sources, select_mode, RunMode,
    DEFAULT_LENGTH,
};
use zktls_pipeline::errors::{ConfigError, ProtocolError, VerificationError};
use zktls_pipeline::fixture::{build_fixture, fixture_for_outcome, fixture_json};
use zktls_pipeline::numfmt::u32_decimal;
use zktls_pipeline::stream::{
    execute_guest, guest_run, load_inputs, Committed, InputStream, PublicValues, StreamValue,
    VerificationData,
};

fn data(records: &[&str]) -> VerificationData {
    VerificationData { records: records.iter().map(|r| r.to_string()).collect() }
}

#[test]
fn supported_sizes_resolve() {
    for size in [16u32, 256, 1024, 2048] {
        assert!(is_supported_length(size));
        let sources = resolve_sources(size).unwrap();
        assert_eq!(sources.key_path, "fixtures/zktls/verifying_k256.key");
        assert_eq!(sources.data_path, format!("fixtures/zktls/data/bench{}.json", size));
    }
    assert_eq!(DEFAULT_LENGTH, 16);
}

#[test]
fn unsupported_sizes_are_refused() {
    for size in [0u32, 17, 99, 99999] {
        assert!(!is_supported_length(size));
        let err = resolve_sources(size).unwrap_err();
        assert_eq!(err, ConfigError::UnsupportedLength(size));
    }
    let err = resolve_sources(99).unwrap_err();
    assert_eq!(err.message(), "Unsupported length: 99");
}

#[test]
fn mode_selection_requires_exactly_one_flag() {
    assert_eq!(select_mode(true, false), Ok(RunMode::Execute));
    assert_eq!(select_mode(false, true), Ok(RunMode::Prove));
    assert_eq!(select_mode(false, false), Err(ConfigError::ModeConflict));
    assert_eq!(select_mode(true, true), Err(ConfigError::ModeConflict));
    assert_eq!(
        ConfigError::ModeConflict.message(),
        "Error: You must specify either --execute or --prove"
    );
}

#[test]
fn plan_checks_mode_before_size() {
    let plan = plan_run(true, false, 16).unwrap();
    assert_eq!(plan.mode, RunMode::Execute);
    assert_eq!(plan.sources.data_path, "fixtures/zktls/data/bench16.json");

    let plan = plan_run(false, true, 2048).unwrap();
    assert_eq!(plan.mode, RunMode::Prove);

    // Conflicting flags win over a bad size.
    assert!(matches!(plan_run(true, true, 99), Err(ConfigError::ModeConflict)));
    assert!(matches!(plan_run(false, false, 16), Err(ConfigError::ModeConflict)));
    assert!(matches!(plan_run(true, false, 99), Err(ConfigError::UnsupportedLength(99))));
}

#[test]
fn evm_plan_names_the_backend_fixture() {
    let plan = plan_evm(ProofSystem::default(), 16).unwrap();
    assert_eq!(plan.system, ProofSystem::Groth16);
    assert_eq!(plan.fixture_file, "groth16-fixture.json");
    assert_eq!(plan.sources.data_path, "fixtures/zktls/data/bench16.json");

    let plan = plan_evm(ProofSystem::Plonk, 1024).unwrap();
    assert_eq!(plan.fixture_file, "plonk-fixture.json");

    assert!(matches!(
        plan_evm(ProofSystem::Groth16, 99),
        Err(ConfigError::UnsupportedLength(99))
    ));
}

#[test]
fn guest_commits_key_then_records() {
    let mut stdin = InputStream::new();
    load_inputs(&mut stdin, "the-key".to_string(), data(&["alpha", "beta"]));
    let out = guest_run(&mut stdin, true).unwrap();
    assert_eq!(
        out.items,
        vec![
            Committed::Key("the-key".to_string()),
            Committed::Records(vec!["alpha".to_string(), "beta".to_string()]),
        ]
    );
    assert!(stdin.items.is_empty());
}

#[test]
fn execute_guest_always_succeeds_on_loaded_inputs() {
    let out = execute_guest("k".to_string(), data(&["one"]), false).unwrap();
    assert_eq!(
        out.items,
        vec![
            Committed::Key("k".to_string()),
            Committed::Records(vec!["one".to_string()]),
        ]
    );
}

#[test]
fn guest_output_ignores_attestation_outcome() {
    let mut accepted = InputStream::new();
    load_inputs(&mut accepted, "k".to_string(), data(&["r"]));
    let mut rejected = InputStream::new();
    load_inputs(&mut rejected, "k".to_string(), data(&["r"]));
    let a = guest_run(&mut accepted, true).unwrap();
    let b = guest_run(&mut rejected, false).unwrap();
    assert_eq!(a.items, b.items);
}

#[test]
fn guest_runs_are_deterministic() {
    let mut first = InputStream::new();
    load_inputs(&mut first, "key".to_string(), data(&["x", "y", "z"]));
    let mut second = InputStream::new();
    load_inputs(&mut second, "key".to_string(), data(&["x", "y", "z"]));
    assert_eq!(guest_run(&mut first, true).unwrap(), guest_run(&mut second, true).unwrap());
}

#[test]
fn guest_rejects_out_of_order_stream() {
    let mut stdin = InputStream::new();
    stdin.write(StreamValue::Data(data(&["r"])));
    stdin.write(StreamValue::Key("k".to_string()));
    assert_eq!(guest_run(&mut stdin, true).unwrap_err(), ProtocolError::SchemaMismatch);
    // The failed run leaves the stream untouched.
    assert_eq!(stdin.items.len(), 2);
}

#[test]
fn guest_rejects_short_stream() {
    let mut stdin = InputStream::new();
    assert_eq!(guest_run(&mut stdin, true).unwrap_err(), ProtocolError::InputExhausted);
    stdin.write(StreamValue::Key("k".to_string()));
    assert_eq!(guest_run(&mut stdin, true).unwrap_err(), ProtocolError::InputExhausted);
}

#[test]
fn codec_round_trips() {
    let key = b"verifying-key-bytes".to_vec();
    let records: Vec<Vec<u8>> =
        vec![b"first record".to_vec(), Vec::new(), b"third".to_vec()];
    let bytes = encode_public_values(&key, &records);
    let (key2, records2) = decode_public_values(&bytes).unwrap();
    assert_eq!(key2, key);
    assert_eq!(records2, records);
}

#[test]
fn commit_then_decode_round_trips() {
    let mut stdin = InputStream::new();
    load_inputs(&mut stdin, "vkey-string".to_string(), data(&["claim one", "claim two"]));
    let out = guest_run(&mut stdin, true).unwrap();
    let bytes = public_value_bytes(&out).unwrap();
    let (key, records) = decode_public_values(&bytes).unwrap();
    assert_eq!(key, b"vkey-string".to_vec());
    assert_eq!(records, vec![b"claim one".to_vec(), b"claim two".to_vec()]);
}

#[test]
fn malformed_commit_shapes_are_refused() {
    let empty = PublicValues { items: Vec::new() };
    assert!(public_value_bytes(&empty).is_err());
    let swapped = PublicValues {
        items: vec![
            Committed::Records(vec!["r".to_string()]),
            Committed::Key("k".to_string()),
        ],
    };
    assert!(public_value_bytes(&swapped).is_err());
}

#[test]
fn codec_layout_is_exact() {
    let key = vec![0xaau8];
    let records = vec![vec![0xbbu8, 0xcc]];
    let bytes = encode_public_values(&key, &records);
    let expected = vec![
        1, 0, 0, 0, 0, 0, 0, 0, // key length
        0xaa, // key
        1, 0, 0, 0, 0, 0, 0, 0, // record count
        2, 0, 0, 0, 0, 0, 0, 0, // record length
        0xbb, 0xcc, // record
    ];
    assert_eq!(bytes, expected);
}

#[test]
fn codec_rejects_malformed_buffers() {
    let key = vec![1u8, 2, 3];
    let records = vec![vec![4u8]];
    let mut bytes = encode_public_values(&key, &records);

    // Truncated buffer.
    let truncated = bytes[..bytes.len() - 1].to_vec();
    assert!(decode_public_values(&truncated).is_err());

    // Trailing garbage.
    bytes.push(0);
    assert!(decode_public_values(&bytes).is_err());

    // Too short for any field.
    assert!(decode_public_values(&vec![0u8; 7]).is_err());
}

#[test]
fn fixture_hex_encodes_proof_bytes() {
    let fixture = build_fixture("vkey-commitment".to_string(), &vec![0x01u8, 0xab]);
    assert_eq!(fixture.vkey, "vkey-commitment");
    assert_eq!(fixture.proof, "0x01ab");
}

#[test]
fn fixture_proof_field_is_prefixed_hex() {
    let fixture = build_fixture("k".to_string(), &vec![0u8, 255, 16, 32]);
    assert!(fixture.proof.starts_with("0x"));
    assert!(fixture.proof[2..].chars().all(|c| c.is_ascii_hexdigit()));
    assert_eq!(fixture.proof, "0x00ff1020");
}

#[test]
fn fixture_json_has_vkey_and_proof() {
    let fixture = build_fixture("0xdeadbeef".to_string(), &vec![0x12u8, 0x34]);
    let text = fixture_json(&fixture);
    assert_eq!(text, "{\n  \"vkey\": \"0xdeadbeef\",\n  \"proof\": \"0x1234\"\n}");
    assert!(text.contains("\"vkey\""));
    assert!(text.contains("\"proof\""));
}

#[test]
fn no_fixture_without_local_verification() {
    let none = fixture_for_outcome(
        Err(VerificationError::ProofRejected),
        "vk".to_string(),
        &vec![1u8],
    );
    assert!(none.is_none());
    let some = fixture_for_outcome(Ok(()), "vk".to_string(), &vec![1u8]);
    assert_eq!(some.unwrap().proof, "0x01");
}

#[test]
fn backend_fixture_files_are_keyed_by_name() {
    assert_eq!(ProofSystem::Groth16.fixture_file_name(), "groth16-fixture.json");
    assert_eq!(ProofSystem::Plonk.fixture_file_name(), "plonk-fixture.json");
    assert_eq!(ProofSystem::default(), ProofSystem::Groth16);
}

#[test]
fn decimal_rendering_matches_std() {
    for n in [0u32, 1, 9, 10, 42, 99, 100, 99999, 4294967295] {
        assert_eq!(u32_decimal(n), n.to_string());
    }
}
