use archangel::hex::{bytes_eq, decode, decode_bytes, decode_trimmed, encode, nibble, to_array32};

#[test]
fn encode_is_lowercase_two_digits_per_byte() {
    assert_eq!(encode(&[0x00, 0x0f, 0xa0, 0xff]), "000fa0ff");
    assert_eq!(encode(&[]), "");
}

#[test]
fn decode_accepts_either_case_and_round_trips() {
    assert_eq!(decode("00ffAb").expect("valid"), vec![0x00, 0xff, 0xab]);
    let bytes: Vec<u8> = (0u8..=255).collect();
    assert_eq!(decode(&encode(&bytes)).expect("round trip"), bytes);
}

#[test]
fn decode_errors_name_the_problem() {
    assert_eq!(decode("abc"), Err("odd-length hex string (3 chars)".to_owned()));
    assert_eq!(decode("zz"), Err("invalid hex character 'z'".to_owned()));
    assert_eq!(decode_bytes(b"0g"), Err("invalid hex character 'g'".to_owned()));
}

#[test]
fn decode_trimmed_ignores_surrounding_whitespace() {
    assert_eq!(decode_trimmed("  0a0b\n").expect("valid"), vec![0x0a, 0x0b]);
}

#[test]
fn nibble_and_helpers() {
    assert_eq!(nibble(b'7'), Some(7));
    assert_eq!(nibble(b'F'), Some(15));
    assert_eq!(nibble(b'g'), None);
    assert!(bytes_eq(b"abc", b"abc"));
    assert!(!bytes_eq(b"abc", b"abd"));
    assert!(!bytes_eq(b"ab", b"abc"));
    let v: Vec<u8> = (1u8..=32).collect();
    assert_eq!(to_array32(&v).to_vec(), v);
}
