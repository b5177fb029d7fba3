use std::str::FromStr;

use archangel::bundle::args::validate;
use archangel::bundle::error::ExecFormatError;
use archangel::bundle::manifest::{
    ArgSpec, ArgType, ExecManifest, Meta, NetworkPolicy, Payload, PayloadType, SandboxSpec,
};
use archangel::bundle::trust::OperatorTrust;
use archangel::bundle::verify::{parse_signature, verify_payload_hash, VerifiedBundle};
use archangel::hex::encode;
use archangel::mode::RiskLevel;
use ed25519_dalek::{Signer, SigningKey};
use sha2::{Digest, Sha256};

const SCRIPT: &str = "systemctl restart \"$ARG_SERVICE\"";

fn payload_sha() -> String {
    let d: [u8; 32] = Sha256::digest(SCRIPT.as_bytes()).into();
    encode(&d)
}

/// The text of a signed manifest; its typed form is [`manifest_value`].
fn manifest_toml() -> String {
    format!(
        "[meta]\nname = \"restart-service\"\nversion = \"1.0.0\"\nrisk = \"medium\"\nread_only = false\n\
         [payload]\ntype = \"bash\"\nsha256 = \"{}\"\n",
        payload_sha()
    )
}

fn manifest_value(sha256: String) -> ExecManifest {
    ExecManifest {
        meta: Meta {
            name: "restart-service".into(),
            version: "1.0.0".into(),
            risk: RiskLevel::Medium,
            read_only: false,
            mutates_persistent_state: false,
            requires_network: false,
        },
        args: vec![(
            "service".into(),
            ArgSpec { ty: ArgType::Text, regex: Some("[a-z0-9.-]+\\.service".into()), required: true },
        )],
        sandbox: SandboxSpec {
            capabilities: vec![],
            allowed_paths_ro: vec![],
            allowed_paths_rw: vec![],
            syscall_profile: "service-management".into(),
            network: NetworkPolicy::Disabled,
            cpu_max: None,
            memory_max: None,
            timeout_seconds: 30,
        },
        payload: Payload { ty: PayloadType::Bash, sha256, inline: SCRIPT.into() },
        health_check: None,
    }
}

fn signing_key() -> SigningKey {
    SigningKey::from_bytes(&[7u8; 32])
}

fn trust_for(key: &SigningKey) -> OperatorTrust {
    let pub_hex = encode(key.verifying_key().as_bytes());
    OperatorTrust::from_str(&format!("{pub_hex}  operator-alice")).expect("trust parses")
}

fn sign(text: &str, key: &SigningKey) -> String {
    encode(&key.sign(text.as_bytes()).to_bytes())
}

/// Authenticates `text` and, when it verifies, completes the bundle with
/// `parsed` (what parsing the authenticated text gave).
fn verify_bytes(
    text: &str,
    sig: &str,
    trust: &OperatorTrust,
    parsed: Result<ExecManifest, String>,
) -> Result<VerifiedBundle, ExecFormatError> {
    let auth = VerifiedBundle::authenticate(text.as_bytes(), sig, trust)?;
    assert_eq!(auth.bytes(), text.as_bytes());
    VerifiedBundle::from_authenticated(auth, parsed)
}

fn verified() -> VerifiedBundle {
    let key = signing_key();
    let toml = manifest_toml();
    let sig = sign(&toml, &key);
    verify_bytes(&toml, &sig, &trust_for(&key), Ok(manifest_value(payload_sha()))).expect("verify")
}

fn pairs(items: &[(&str, &str)]) -> Vec<(String, String)> {
    items.iter().map(|(k, v)| ((*k).to_owned(), (*v).to_owned())).collect()
}

#[test]
fn valid_bundle_verifies_and_parses() {
    let bundle = verified();
    assert_eq!(bundle.manifest().meta.name, "restart-service");
    assert!(!bundle.manifest().meta.read_only);
}

#[test]
fn tampered_manifest_is_rejected() {
    let key = signing_key();
    let toml = manifest_toml();
    let sig = sign(&toml, &key);
    let mut tampered = toml;
    tampered.push(' '); // one extra byte → signature no longer covers it
    let result = verify_bytes(&tampered, &sig, &trust_for(&key), Ok(manifest_value(payload_sha())));
    assert!(matches!(result, Err(ExecFormatError::Untrusted)));
}

#[test]
fn foreign_key_is_rejected() {
    let author = signing_key();
    let toml = manifest_toml();
    let sig = sign(&toml, &author);
    let attacker_trust = trust_for(&SigningKey::from_bytes(&[9u8; 32]));
    let result = verify_bytes(&toml, &sig, &attacker_trust, Ok(manifest_value(payload_sha())));
    assert!(matches!(result, Err(ExecFormatError::Untrusted)));
}

#[test]
fn empty_trust_set_rejects_everything() {
    let key = signing_key();
    let toml = manifest_toml();
    let sig = sign(&toml, &key);
    let nobody = OperatorTrust::default();
    assert!(nobody.is_empty());
    let result = verify_bytes(&toml, &sig, &nobody, Ok(manifest_value(payload_sha())));
    assert!(matches!(result, Err(ExecFormatError::Untrusted)));
}

#[test]
fn payload_hash_mismatch_is_rejected() {
    let key = signing_key();
    // Declare a wrong hash, then sign — signature is valid but the
    // payload does not match the (signed) manifest.
    let toml = manifest_toml().replace(&payload_sha(), &"0".repeat(64));
    let sig = sign(&toml, &key);
    let result = verify_bytes(&toml, &sig, &trust_for(&key), Ok(manifest_value("0".repeat(64))));
    assert!(matches!(result, Err(ExecFormatError::PayloadHashMismatch { .. })));
    assert_eq!(
        result.err(),
        Some(ExecFormatError::PayloadHashMismatch { declared: "0".repeat(64), actual: payload_sha() })
    );
}

#[test]
fn unknown_manifest_field_is_rejected() {
    let key = signing_key();
    let toml = format!("{}\n[meta.backdoor]\nenabled = true\n", manifest_toml());
    let sig = sign(&toml, &key);
    let result = verify_bytes(&toml, &sig, &trust_for(&key), Err("unknown field `backdoor`".into()));
    assert!(matches!(result, Err(ExecFormatError::BadManifest(_))));
}

#[test]
fn args_required_and_pattern_ok() {
    let bundle = verified();
    let provided = pairs(&[("service", "nginx.service")]);
    assert!(bundle.validate_args(&provided).is_ok());
}

#[test]
fn args_missing_required_is_rejected() {
    let bundle = verified();
    assert!(matches!(bundle.validate_args(&[]), Err(ExecFormatError::ArgRejected(_))));
}

#[test]
fn undeclared_argument_is_rejected() {
    let bundle = verified();
    let provided = pairs(&[("extra_injected", "--privileged"), ("service", "nginx.service")]);
    assert!(matches!(bundle.validate_args(&provided), Err(ExecFormatError::ArgRejected(_))));
}

#[test]
fn anchored_regex_blocks_partial_match_injection() {
    let bundle = verified();
    // Starts like a valid service name but appends a command. The
    // schema regex is anchored, so this must be rejected.
    let provided = pairs(&[("service", "nginx.service; rm -rf /")]);
    assert!(matches!(bundle.validate_args(&provided), Err(ExecFormatError::ArgRejected(_))));
}

#[test]
fn trust_file_parsing_handles_comments_and_bad_lines() {
    let key = signing_key();
    let good = encode(key.verifying_key().as_bytes());
    let text = format!("# operators\n\n{good} alice\n");
    let trust = OperatorTrust::from_str(&text).expect("parses");
    assert_eq!(trust.len(), 1);
    assert_eq!(trust.keys()[0], key.verifying_key().to_bytes());

    assert!(matches!(OperatorTrust::from_str("not-hex-at-all"), Err(ExecFormatError::BadTrustFile(_))));
}

#[test]
fn malformed_signature_is_rejected() {
    let key = signing_key();
    let toml = manifest_toml();
    let result = verify_bytes(&toml, "xyz", &trust_for(&key), Ok(manifest_value(payload_sha())));
    assert!(matches!(result, Err(ExecFormatError::BadSignature(_))));
}

#[test]
fn signature_file_may_carry_whitespace() {
    let key = signing_key();
    let toml = manifest_toml();
    let sig = format!("  {}\n", sign(&toml, &key));
    assert!(verify_bytes(&toml, &sig, &trust_for(&key), Ok(manifest_value(payload_sha()))).is_ok());
    assert_eq!(parse_signature(&sig).expect("parses").to_vec(), key.sign(toml.as_bytes()).to_bytes().to_vec());
}

#[test]
fn short_signature_is_malformed() {
    assert!(matches!(parse_signature("abcd"), Err(ExecFormatError::BadSignature(_))));
}

#[test]
fn trust_line_with_short_key_names_the_line() {
    assert_eq!(
        OperatorTrust::from_str("# c\nabcd bob\n").err(),
        Some(ExecFormatError::BadTrustFile("line 2: key is not 32 bytes".into()))
    );
}

#[test]
fn second_trusted_key_also_verifies() {
    let alice = signing_key();
    let bob = SigningKey::from_bytes(&[3u8; 32]);
    let text = format!("{} alice\n{} bob\n", encode(alice.verifying_key().as_bytes()), encode(bob.verifying_key().as_bytes()));
    let trust = OperatorTrust::from_str(&text).expect("parses");
    assert_eq!(trust.len(), 2);
    let toml = manifest_toml();
    let sig = sign(&toml, &bob);
    assert!(verify_bytes(&toml, &sig, &trust, Ok(manifest_value(payload_sha()))).is_ok());
}

#[test]
fn payload_hash_check_accepts_matching_digest() {
    assert!(verify_payload_hash(&manifest_value(payload_sha())).is_ok());
    assert!(verify_payload_hash(&manifest_value(payload_sha().to_uppercase())).is_ok());
}

#[test]
fn optional_arg_may_be_absent_and_bad_regex_is_reported() {
    let mut m = manifest_value(payload_sha());
    m.args[0].1.required = false;
    assert!(validate(&m, &[]).is_ok());
    m.args[0].1.regex = Some("(".into());
    let provided = pairs(&[("service", "x")]);
    assert!(matches!(validate(&m, &provided), Err(ExecFormatError::BadArgRegex { .. })));
}

#[test]
fn bundle_error_texts() {
    assert_eq!(
        ExecFormatError::Untrusted.to_string(),
        "signature does not verify against any trusted operator key"
    );
    assert_eq!(ExecFormatError::ArgRejected("x".into()).to_string(), "argument validation failed: x");
}
