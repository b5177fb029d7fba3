use archangel::ctl::{self, CtlError, SignedCtlEnvelope};
use archangel::ipc::{self, IpcError, SignedEnvelope};

use ciborium::Value;
use ed25519_dalek::SigningKey;

fn key(seed: u8) -> SigningKey {
    SigningKey::from_bytes(&[seed; 32])
}

fn cbor(v: &Value) -> Vec<u8> {
    let mut buf = Vec::new();
    ciborium::into_writer(v, &mut buf).expect("encode");
    buf
}

fn body_value() -> Value {
    Value::Map(vec![
        (Value::Text("seq".into()), Value::Integer(1.into())),
        (Value::Text("issued_ms".into()), Value::Integer(1_700_000_000_000u64.into())),
        (
            Value::Text("request".into()),
            Value::Map(vec![
                (Value::Text("kind".into()), Value::Text("run_task".into())),
                (Value::Text("task".into()), Value::Text("why is nginx down".into())),
            ]),
        ),
    ])
}

#[test]
fn oversized_frame_prefix_rejected_before_alloc() {
    assert!(matches!(SignedCtlEnvelope::frame_len(u32::MAX.to_be_bytes()), Err(CtlError::Framing(_))));
}

#[test]
fn response_frame_round_trips() {
    let r = Value::Map(vec![
        (Value::Text("reply".into()), Value::Text("task".into())),
        (Value::Text("outcome".into()), Value::Text("executed".into())),
        (Value::Text("exec".into()), Value::Text("read-logs".into())),
        (Value::Text("exit_code".into()), Value::Integer(0.into())),
        (Value::Text("stdout".into()), Value::Text("ok".into())),
        (Value::Text("stderr".into()), Value::Text(String::new())),
    ]);
    let encoded = cbor(&r);
    let frame = ctl::response_to_frame(&encoded).expect("frame");
    let decoded: Value = ciborium::from_reader(frame.get(4..).expect("body")).expect("decode");
    assert_eq!(decoded, r);
}

#[test]
fn oversized_frame_prefix_is_rejected_before_alloc() {
    let huge = u32::MAX.to_be_bytes();
    assert!(matches!(SignedEnvelope::frame_len(huge), Err(IpcError::Framing(_))));
}

#[test]
fn lib_seal_then_open_round_trips() {
    let k = key(1);
    let body = cbor(&body_value());
    let env = SignedCtlEnvelope::seal_encoded(body.clone(), &k.to_bytes());
    let opened = env.authenticate(k.verifying_key().as_bytes()).expect("open");
    let decoded: Value = ciborium::from_reader(opened).expect("decode");
    assert_eq!(decoded, body_value());
    let env = SignedEnvelope::seal_encoded(body.clone(), &k.to_bytes());
    assert_eq!(env.authenticate(k.verifying_key().as_bytes()).expect("open"), body.as_slice());
}

#[test]
fn foreign_operator_key_is_rejected() {
    let env = SignedCtlEnvelope::seal_encoded(cbor(&body_value()), &key(1).to_bytes());
    assert!(matches!(env.authenticate(key(2).verifying_key().as_bytes()), Err(CtlError::SignatureInvalid)));
}

#[test]
fn lib_wrong_session_key_is_rejected() {
    let env = SignedEnvelope::seal_encoded(cbor(&body_value()), &key(1).to_bytes());
    assert!(matches!(env.authenticate(key(2).verifying_key().as_bytes()), Err(IpcError::SignatureInvalid)));
}

#[test]
fn tampered_body_breaks_signature() {
    let k = key(1);
    let mut env = SignedCtlEnvelope::seal_encoded(cbor(&body_value()), &k.to_bytes());
    if let Some(x) = env.body.get_mut(3) {
        *x ^= 0xff;
    }
    assert!(matches!(env.authenticate(k.verifying_key().as_bytes()), Err(CtlError::SignatureInvalid)));
}

#[test]
fn tampered_request_bytes_break_signature() {
    let k = key(1);
    let mut env = SignedEnvelope::seal_encoded(cbor(&body_value()), &k.to_bytes());
    if let Some(b) = env.request.get_mut(4) {
        *b ^= 0xff;
    }
    assert!(matches!(env.authenticate(k.verifying_key().as_bytes()), Err(IpcError::SignatureInvalid)));
}

#[test]
fn version_mismatch_rejected_before_decode() {
    let k = key(1);
    let mut env = SignedCtlEnvelope::seal_encoded(cbor(&body_value()), &k.to_bytes());
    env.version = ctl::PROTOCOL_VERSION + 1;
    assert!(matches!(env.authenticate(k.verifying_key().as_bytes()), Err(CtlError::VersionMismatch { .. })));
}

#[test]
fn version_mismatch_is_rejected_before_decode() {
    let k = key(1);
    let mut env = SignedEnvelope::seal_encoded(cbor(&body_value()), &k.to_bytes());
    env.version = ipc::PROTOCOL_VERSION + 1;
    assert_eq!(
        env.authenticate(k.verifying_key().as_bytes()),
        Err(IpcError::VersionMismatch { got: 2, expected: 1 })
    );
}

#[test]
fn bad_signature_length_rejected() {
    let k = key(1);
    let mut env = SignedCtlEnvelope::seal_encoded(cbor(&body_value()), &k.to_bytes());
    env.signature.truncate(7);
    assert!(matches!(env.authenticate(k.verifying_key().as_bytes()), Err(CtlError::BadSignatureLen(7))));
}

#[test]
fn bad_signature_length_is_rejected() {
    let k = key(1);
    let mut env = SignedEnvelope::seal_encoded(cbor(&body_value()), &k.to_bytes());
    env.signature.truncate(10);
    assert!(matches!(env.authenticate(k.verifying_key().as_bytes()), Err(IpcError::BadSignatureLen(10))));
}

#[test]
fn lib_frame_round_trip() {
    let k = key(1);
    let body = cbor(&body_value());
    let env = SignedEnvelope::seal_encoded(body.clone(), &k.to_bytes());
    let envelope_bytes = cbor(&Value::Map(vec![
        (Value::Text("version".into()), Value::Integer(env.version.into())),
        (Value::Text("request".into()), Value::Bytes(env.request.clone())),
        (Value::Text("signature".into()), Value::Bytes(env.signature.clone())),
    ]));
    let frame = SignedEnvelope::to_frame(&envelope_bytes).expect("frame");
    let prefix: [u8; 4] = frame.get(..4).expect("prefix").try_into().expect("4");
    let len = SignedEnvelope::frame_len(prefix).expect("len");
    let framed = frame.get(4..4 + len).expect("body");
    assert_eq!(framed, envelope_bytes.as_slice());
    // Decode the frame body back into an envelope: it equals the sealed one...
    let decoded: Value = ciborium::from_reader(framed).expect("decode");
    let field = |name: &str| match &decoded {
        Value::Map(entries) => entries.iter().find(|(key, _)| key == &Value::Text(name.into())).map(|(_, v)| v.clone()),
        _ => None,
    };
    let version = match field("version") {
        Some(Value::Integer(i)) => u16::try_from(i128::from(i)).expect("u16"),
        _ => panic!("version"),
    };
    let bytes = |name: &str| match field(name) {
        Some(Value::Bytes(b)) => b,
        _ => panic!("{name}"),
    };
    let back = SignedEnvelope { version, request: bytes("request"), signature: bytes("signature") };
    assert_eq!(back, env);
    // ...and it opens to the request.
    let opened = back.authenticate(k.verifying_key().as_bytes()).expect("opens");
    assert_eq!(opened, body);
    let request: Value = ciborium::from_reader(opened).expect("request decodes");
    assert_eq!(request, body_value());
}

#[test]
fn frame_prefix_is_big_endian_length() {
    let body = vec![0xabu8; 300];
    let frame = SignedCtlEnvelope::to_frame(&body).expect("frame");
    assert_eq!(&frame[..4], &[0, 0, 1, 44]);
    assert_eq!(&frame[4..], body.as_slice());
    assert_eq!(SignedCtlEnvelope::frame_len([0, 0, 1, 44]), Ok(300));
    assert_eq!(
        SignedEnvelope::frame_len([0, 16, 0, 1]),
        Err(IpcError::Framing("declared frame length 1048577 exceeds cap 1048576".to_owned()))
    );
    assert_eq!(SignedEnvelope::frame_len([0, 16, 0, 0]), Ok(1_048_576));
}

#[test]
fn oversized_body_is_not_framed() {
    let body = vec![0u8; 1_048_577];
    assert_eq!(
        SignedEnvelope::to_frame(&body),
        Err(IpcError::Framing("frame of 1048577 bytes exceeds cap 1048576".to_owned()))
    );
}

#[test]
fn ipc_error_texts() {
    assert_eq!(
        IpcError::VersionMismatch { got: 2, expected: 1 }.to_string(),
        "unsupported IPC protocol version 2 (this build speaks 1)"
    );
    assert_eq!(IpcError::BadSignatureLen(7).to_string(), "signature is malformed (expected 64 bytes, got 7)");
}
