use archangel::audit::entry::{genesis_prev_hash_hex, sha256_hex, AuditEntry, AuditEvent, AuditRecord, Decision};
use archangel::audit::error::AuditError;
use archangel::audit::key::{verifying_key_from_hex, AuditKeypair};
use archangel::audit::log::AuditLog;
use archangel::audit::verify::{decode_sig, verify_entry, verify_lines, ChainLine, LineParse};
use archangel::hex::encode;
use archangel::mode::OperationMode;
use archangel::primitives::id::{ActionId, SessionId};

/// A second keypair handle with the same secret seed.
fn clone_keypair(kp: &AuditKeypair) -> AuditKeypair {
    let secret = kp.secret_bytes();
    let seed: [u8; 32] = secret.expose_secret().try_into().expect("ed25519 seed is 32 bytes");
    AuditKeypair::from_secret_bytes(&seed)
}

/// A stand-in for the record's canonical serialization: any deterministic
/// byte form of the record exercises the chaining logic.
fn canonical_of(record: &AuditRecord) -> Vec<u8> {
    format!("{record:?}").into_bytes()
}

fn line_of(entry: AuditEntry, canonical: Vec<u8>) -> ChainLine {
    let text = format!("{entry:?}");
    ChainLine::Text { text, parsed: LineParse::Entry { entry, canonical } }
}

fn append(log: &mut AuditLog, lines: &mut Vec<ChainLine>, event: AuditEvent, ts: u64) {
    let record = log.record_for(event, ts);
    let canonical = canonical_of(&record);
    let entry = log.seal(record, &canonical);
    log.advance(&entry);
    lines.push(line_of(entry, canonical));
}

fn open_log(keypair: AuditKeypair) -> (AuditLog, Vec<ChainLine>) {
    let mut log = AuditLog::new(keypair);
    let mut lines = Vec::new();
    let genesis = log.genesis_event();
    append(&mut log, &mut lines, genesis, 1);
    (log, lines)
}

fn write_sample_log() -> (Vec<ChainLine>, AuditKeypair) {
    let keypair = AuditKeypair::generate();
    let (mut log, mut lines) = open_log(clone_keypair(&keypair));
    let session = SessionId::new();
    let action = ActionId::new();
    append(
        &mut log,
        &mut lines,
        AuditEvent::SessionStarted { session_id: session, mode: OperationMode::ReadOnly, profile: "default".into() },
        2,
    );
    append(
        &mut log,
        &mut lines,
        AuditEvent::PolicyDecision {
            session_id: session,
            action_id: action,
            exec_name: "list-services".into(),
            decision: Decision::Allow,
            reason: "allowlisted in read-only profile".into(),
        },
        3,
    );
    append(
        &mut log,
        &mut lines,
        AuditEvent::SessionEnded { session_id: session, reason: "operator disconnected".into() },
        4,
    );
    (lines, keypair)
}

#[test]
fn fresh_log_has_genesis_only() {
    let keypair = AuditKeypair::generate();
    let (_log, lines) = open_log(clone_keypair(&keypair));
    let head = verify_lines(&lines, &keypair.verifying_key()).expect("verify genesis-only chain");
    assert_eq!(head.entries, 1);
    assert_eq!(head.next_seq, 1);
}

#[test]
fn full_chain_verifies() {
    let (lines, keypair) = write_sample_log();
    let head = verify_lines(&lines, &keypair.verifying_key()).expect("verify full chain");
    // genesis + session_started + policy_decision + session_ended
    assert_eq!(head.entries, 4);
    assert_eq!(head.next_seq, 4);
    assert_eq!(head.head_hash_hex.len(), 64);
}

#[test]
fn wrong_public_key_is_rejected() {
    let (lines, _keypair) = write_sample_log();
    let attacker = AuditKeypair::generate();
    let result = verify_lines(&lines, &attacker.verifying_key());
    assert!(result.is_err(), "chain must not verify under a foreign key");
}

#[test]
fn flipped_byte_breaks_chain() {
    let (mut lines, keypair) = write_sample_log();
    // Flip a byte inside the last entry's signed bytes, well past genesis.
    if let Some(ChainLine::Text { parsed: LineParse::Entry { canonical, .. }, .. }) = lines.last_mut() {
        let idx = canonical.len().saturating_sub(8);
        canonical[idx] ^= 0xff;
    }
    let result = verify_lines(&lines, &keypair.verifying_key());
    assert!(result.is_err(), "a single flipped byte must break the chain");
}

#[test]
fn valid_prefix_is_a_valid_chain() {
    let (mut lines, keypair) = write_sample_log();
    lines.pop(); // drop the last (session_ended) entry
    let head = verify_lines(&lines, &keypair.verifying_key())
        .expect("a valid prefix of a chain is itself a valid chain");
    assert_eq!(head.entries, 3);
}

#[test]
fn reordering_entries_breaks_chain() {
    let (mut lines, keypair) = write_sample_log();
    lines.swap(1, 2);
    let result = verify_lines(&lines, &keypair.verifying_key());
    assert!(result.is_err(), "reordering must break the chain");
}

#[test]
fn empty_log_is_an_error() {
    let keypair = AuditKeypair::generate();
    let result = verify_lines(&Vec::new(), &keypair.verifying_key());
    assert!(result.is_err(), "an empty log has no genesis entry");
    assert_eq!(result, Err(AuditError::Empty));
}

#[test]
fn keypair_seed_round_trips() {
    let kp = AuditKeypair::generate();
    let restored = AuditKeypair::from_secret_hex(&encode(kp.secret_bytes().expose_secret()))
        .expect("restore from hex seed");
    assert_eq!(kp.public_hex(), restored.public_hex());
}

#[test]
fn blank_lines_are_skipped() {
    let (mut lines, keypair) = write_sample_log();
    lines.insert(2, ChainLine::Text { text: "   ".into(), parsed: LineParse::Malformed("blank".into()) });
    let head = verify_lines(&lines, &keypair.verifying_key()).expect("blank lines are skipped");
    assert_eq!(head.entries, 4);
}

#[test]
fn only_blank_lines_are_empty() {
    let keypair = AuditKeypair::generate();
    let lines = vec![ChainLine::Text { text: "\t".into(), parsed: LineParse::Malformed("x".into()) }];
    assert_eq!(verify_lines(&lines, &keypair.verifying_key()), Err(AuditError::Empty));
}

#[test]
fn malformed_line_names_its_position() {
    let (mut lines, keypair) = write_sample_log();
    lines.insert(2, ChainLine::Text { text: "{oops".into(), parsed: LineParse::Malformed("eof".into()) });
    assert_eq!(
        verify_lines(&lines, &keypair.verifying_key()),
        Err(AuditError::ChainBroken { seq: 2, reason: "entry does not parse as JSON: eof".into() })
    );
}

#[test]
fn read_failure_and_unserializable_are_reported() {
    let keypair = AuditKeypair::generate();
    let lines = vec![ChainLine::ReadFailed("disk gone".into())];
    assert_eq!(verify_lines(&lines, &keypair.verifying_key()), Err(AuditError::Io("disk gone".into())));
    let lines = vec![ChainLine::Text { text: "{}".into(), parsed: LineParse::Unserializable("nan".into()) }];
    assert_eq!(verify_lines(&lines, &keypair.verifying_key()), Err(AuditError::Serde("nan".into())));
}

#[test]
fn first_entry_must_be_genesis() {
    let keypair = AuditKeypair::generate();
    let mut log = AuditLog::new(clone_keypair(&keypair));
    let mut lines = Vec::new();
    append(&mut log, &mut lines, AuditEvent::Note { message: "hello".into() }, 1);
    assert_eq!(
        verify_lines(&lines, &keypair.verifying_key()),
        Err(AuditError::ChainBroken { seq: 0, reason: "first entry is not a genesis entry".into() })
    );
}

#[test]
fn sequence_mismatch_is_reported() {
    let keypair = AuditKeypair::generate();
    let log = AuditLog::new(clone_keypair(&keypair));
    let record = AuditRecord {
        seq: 5,
        timestamp_ms: 1,
        prev_hash: genesis_prev_hash_hex(),
        event: log.genesis_event(),
    };
    let canonical = canonical_of(&record);
    let entry = log.seal(record, &canonical);
    assert_eq!(
        verify_entry(&entry, &canonical, 0, &genesis_prev_hash_hex(), &keypair.verifying_key()),
        Err(AuditError::ChainBroken { seq: 0, reason: "sequence number mismatch: found 5, expected 0".into() })
    );
}

#[test]
fn log_state_advances_with_each_entry() {
    let keypair = AuditKeypair::generate();
    let (log, lines) = open_log(clone_keypair(&keypair));
    assert_eq!(log.next_seq(), 1);
    let head = verify_lines(&lines, &keypair.verifying_key()).expect("verifies");
    assert_eq!(log.head_hash_hex(), head.head_hash_hex);
    assert_ne!(log.head_hash_hex(), genesis_prev_hash_hex());
}

#[test]
fn genesis_prev_hash_is_sixty_four_zeros() {
    assert_eq!(genesis_prev_hash_hex(), "0".repeat(64));
}

#[test]
fn sha256_hex_of_abc() {
    assert_eq!(
        sha256_hex(b"abc"),
        "ba7816bf8f01cfea414140de5dae2223b00361a396177a9cb410ff61f20015ad"
    );
}

#[test]
fn seed_hex_errors() {
    assert!(matches!(AuditKeypair::from_secret_hex("zz"), Err(AuditError::Hex(_))));
    assert_eq!(
        AuditKeypair::from_secret_hex("abcd").err(),
        Some(AuditError::Crypto("secret seed must be 32 bytes".into()))
    );
}

#[test]
fn known_seed_gives_known_public_key() {
    // RFC 8032 test vector 1.
    let kp = AuditKeypair::from_secret_hex("9d61b19deffd5a60ba844af492ec2cc44449c5697b326919703bac031cae7f60")
        .expect("valid seed");
    assert_eq!(kp.public_hex(), "d75a980182b10ab7d54bfed3c964073a0ee172f3daa62325af021a68f707511a");
    let key = verifying_key_from_hex(&kp.public_hex()).expect("valid key");
    assert_eq!(key, kp.verifying_key());
}

#[test]
fn short_signature_is_rejected() {
    assert!(matches!(decode_sig("abcd", 3), Err(AuditError::ChainBroken { seq: 3, .. })));
}
