use archangel::mode::{OperationMode, RiskLevel};
use archangel::primitives::error::CoreError;
use archangel::primitives::id::{ActionId, SessionId};
use archangel::primitives::secret::{SecretBytes, SecretString};

#[test]
fn session_id_display_is_32_hex_chars() {
    let id = SessionId::new();
    let s = id.to_string();
    assert_eq!(s.len(), 32);
    assert!(s.chars().all(|c| c.is_ascii_hexdigit()));
}

#[test]
fn session_id_round_trip() -> Result<(), CoreError> {
    let id = SessionId::new();
    let parsed = id.to_string().parse::<SessionId>()?;
    assert_eq!(id, parsed);
    Ok(())
}

#[test]
fn session_id_rejects_short_string() {
    assert!("abc".parse::<SessionId>().is_err());
}

#[test]
fn session_id_rejects_invalid_hex() {
    assert!("zzzzzzzzzzzzzzzzzzzzzzzzzzzzzzzz".parse::<SessionId>().is_err());
}

#[test]
fn two_new_ids_differ() {
    assert_ne!(SessionId::new(), SessionId::new());
}

#[test]
fn action_id_round_trip() -> Result<(), CoreError> {
    let id = ActionId::new();
    let parsed = id.to_string().parse::<ActionId>()?;
    assert_eq!(id, parsed);
    Ok(())
}

#[test]
fn id_text_is_lowercase_hex_of_the_bytes() {
    let id = SessionId::from_bytes([
        0x00, 0x01, 0x0a, 0x0f, 0x10, 0x7f, 0x80, 0xab, 0xcd, 0xef, 0xff, 0x12, 0x34, 0x56, 0x78, 0x9a,
    ]);
    assert_eq!(id.to_string(), "00010a0f107f80abcdefff123456789a");
    assert_eq!(id.as_bytes()[7], 0xab);
}

#[test]
fn id_parse_accepts_uppercase_and_reports_errors() {
    let id = SessionId::parse("00010A0F107F80ABCDEFFF123456789A").expect("upper case parses");
    assert_eq!(id.to_string(), "00010a0f107f80abcdefff123456789a");
    assert_eq!(
        SessionId::parse("abc"),
        Err(CoreError::InvalidId("expected 32 hex chars, got 3".to_owned()))
    );
    assert_eq!(
        ActionId::parse("0123456789abcdef0123456789abcdeg"),
        Err(CoreError::InvalidId("invalid hex character 'g'".to_owned()))
    );
}

#[test]
fn risk_level_ordering() {
    assert!(RiskLevel::Low < RiskLevel::Medium);
    assert!(RiskLevel::Medium < RiskLevel::High);
    assert!(RiskLevel::High < RiskLevel::Critical);
}

#[test]
fn read_only_does_not_allow_mutation() {
    assert!(!OperationMode::ReadOnly.allows_mutation());
}

#[test]
fn interactive_and_autonomous_allow_mutation() {
    assert!(OperationMode::Interactive.allows_mutation());
    assert!(OperationMode::Autonomous.allows_mutation());
}

#[test]
fn only_interactive_requires_human_approval() {
    assert!(OperationMode::Interactive.requires_human_approval());
    assert!(!OperationMode::Autonomous.requires_human_approval());
    assert!(!OperationMode::ReadOnly.requires_human_approval());
}

#[test]
fn only_critical_requires_two_person_rule() {
    assert!(RiskLevel::Critical.requires_two_person_rule());
    assert!(!RiskLevel::High.requires_two_person_rule());
}

#[test]
fn risk_less_than_follows_the_order() {
    assert!(RiskLevel::Low.less_than(RiskLevel::Critical));
    assert!(!RiskLevel::High.less_than(RiskLevel::Medium));
    assert!(!RiskLevel::High.less_than(RiskLevel::High));
}

#[test]
fn secret_string_debug_does_not_leak() {
    let s = SecretString::from("my-api-key-12345");
    let debug = s.debug_string();
    assert!(!debug.contains("my-api-key-12345"));
    assert!(debug.contains("REDACTED"));
}

#[test]
fn secret_string_expose_returns_value() {
    let s = SecretString::from("hello");
    assert_eq!(s.expose_secret(), "hello");
}

#[test]
fn secret_string_len_and_is_empty() {
    let empty = SecretString::from("");
    assert!(empty.is_empty());
    assert_eq!(empty.len(), 0);

    let nonempty = SecretString::from("abc");
    assert!(!nonempty.is_empty());
    assert_eq!(nonempty.len(), 3);
}

#[test]
fn secret_string_len_counts_utf8_bytes() {
    let s = SecretString::new("héllo".to_owned());
    assert_eq!(s.len(), 6);
}

#[test]
fn secret_bytes_ct_eq_equal() {
    let a = SecretBytes::from(vec![1u8, 2, 3]);
    let b = SecretBytes::from(vec![1u8, 2, 3]);
    assert!(a.ct_eq(&b));
}

#[test]
fn secret_bytes_ct_eq_different_value() {
    let a = SecretBytes::from(vec![1u8, 2, 3]);
    let b = SecretBytes::from(vec![1u8, 2, 4]);
    assert!(!a.ct_eq(&b));
}

#[test]
fn secret_bytes_ct_eq_different_length() {
    let a = SecretBytes::from(vec![1u8, 2, 3]);
    let b = SecretBytes::from(vec![1u8, 2]);
    assert!(!a.ct_eq(&b));
}

#[test]
fn secret_bytes_debug_does_not_leak() {
    let b = SecretBytes::from(vec![0xFFu8, 0xAB]);
    let debug = b.debug_string();
    assert!(!debug.contains("ff"));
    assert!(!debug.contains("ab"));
    assert!(debug.contains("REDACTED"));
    assert_eq!(debug, "SecretBytes([REDACTED; 2 bytes])");
}
