//! Hex encoding and decoding of byte strings.
//!
//! Encoding is lowercase. Decoding accepts either case and reports the
//! first offending byte, in input order, when the text is not hex.

use vstd::prelude::*;

use crate::text::{chars_of, dec_digits, push_dec, string_of, trim, trim_chars};
use vstd::string::StringSliceAdditionalSpecFns;

verus! {

/// Whether the byte `b` is an ASCII hex digit (`0-9`, `a-f`, `A-F`).
pub open spec fn is_hex_digit(b: u8) -> bool {
    (0x30 <= b <= 0x39) || (0x61 <= b <= 0x66) || (0x41 <= b <= 0x46)
}

/// The value of the hex digit `b`.
pub open spec fn hex_value(b: u8) -> nat {
    if b <= 0x39 {
        (b - 0x30) as nat
    } else if b >= 0x61 {
        (b - 0x61 + 10) as nat
    } else {
        (b - 0x41 + 10) as nat
    }
}

/// Every byte of `s` is a hex digit.
pub open spec fn all_hex(s: Seq<u8>) -> bool {
    forall|i: int| 0 <= i < s.len() ==> is_hex_digit(#[trigger] s[i])
}

/// The byte written by the two hex digits `hi`, `lo`.
pub open spec fn hex_pair(hi: u8, lo: u8) -> u8 {
    (hex_value(hi) * 16 + hex_value(lo)) as u8
}

/// The bytes written by the hex digits `s`, two digits per byte.
pub open spec fn hex_decoded(s: Seq<u8>) -> Seq<u8>
    decreases s.len(),
{
    if s.len() < 2 {
        Seq::empty()
    } else {
        hex_decoded(s.take(s.len() - 2)).push(hex_pair(s[s.len() - 2], s[s.len() - 1]))
    }
}

/// The lowercase hex digit for `d < 16`.
pub open spec fn hex_digit_char(d: nat) -> char {
    if d < 10 {
        ((d + 48) as u32) as char
    } else {
        ((d + 87) as u32) as char
    }
}

/// The lowercase hex spelling of `b`, two digits per byte.
pub open spec fn hex_encoded(b: Seq<u8>) -> Seq<char>
    decreases b.len(),
{
    if b.len() == 0 {
        Seq::empty()
    } else {
        hex_encoded(b.drop_last()) + seq![
            hex_digit_char((b.last() / 16) as nat),
            hex_digit_char((b.last() % 16) as nat),
        ]
    }
}

/// The bytes of an ASCII character sequence.
pub open spec fn ascii_bytes(s: Seq<char>) -> Seq<u8> {
    s.map_values(|c: char| c as u8)
}

/// The message for an odd-length input of `n` bytes.
pub open spec fn odd_length_message(n: nat) -> Seq<char> {
    "odd-length hex string ("@ + dec_digits(n) + " chars)"@
}

/// The message for the non-hex byte `b`.
pub open spec fn bad_digit_message(b: u8) -> Seq<char> {
    "invalid hex character '"@ + seq![b as char, '\'']
}

/// `k` is the first non-hex byte of `s`.
pub open spec fn first_non_hex(s: Seq<u8>, k: int) -> bool {
    &&& 0 <= k < s.len()
    &&& !is_hex_digit(s[k])
    &&& forall|j: int| 0 <= j < k ==> is_hex_digit(#[trigger] s[j])
}

/// The error `decode_bytes` reports for `raw`, which is not hex.
pub open spec fn decode_error_ok(raw: Seq<u8>, m: Seq<char>) -> bool {
    if raw.len() % 2 == 1 {
        m == odd_length_message(raw.len())
    } else {
        exists|k: int| first_non_hex(raw, k) && m == bad_digit_message(#[trigger] raw[k])
    }
}

/// `raw` is an even number of hex digits.
pub open spec fn hex_ok(raw: Seq<u8>) -> bool {
    raw.len() % 2 == 0 && all_hex(raw)
}

/// Whether two byte strings are equal.
pub fn bytes_eq(a: &[u8], b: &[u8]) -> (r: bool)
    ensures
        r == (a@ == b@),
{
    if a.len() != b.len() {
        return false;
    }
    let mut i: usize = 0;
    while i < a.len()
        invariant
            i <= a@.len(),
            a@.len() == b@.len(),
            forall|j: int| 0 <= j < i ==> a@[j] == b@[j],
        decreases a.len() - i,
    {
        if a[i] != b[i] {
            return false;
        }
        i = i + 1;
    }
    assert(a@ =~= b@);
    true
}

/// The 32 bytes of `v`.
pub fn to_array32(v: &[u8]) -> (r: [u8; 32])
    requires
        v@.len() == 32,
    ensures
        r@ == v@,
{
    let mut out = [0u8; 32];
    let mut i: usize = 0;
    while i < 32
        invariant
            i <= 32,
            v@.len() == 32,
            forall|j: int| 0 <= j < i ==> out@[j] == v@[j],
        decreases 32 - i,
    {
        out[i] = v[i];
        i = i + 1;
    }
    assert(out@ =~= v@);
    out
}

/// The 64 bytes of `v`.
pub fn to_array64(v: &[u8]) -> (r: [u8; 64])
    requires
        v@.len() == 64,
    ensures
        r@ == v@,
{
    let mut out = [0u8; 64];
    let mut i: usize = 0;
    while i < 64
        invariant
            i <= 64,
            v@.len() == 64,
            forall|j: int| 0 <= j < i ==> out@[j] == v@[j],
        decreases 64 - i,
    {
        out[i] = v[i];
        i = i + 1;
    }
    assert(out@ =~= v@);
    out
}

/// Executable [`is_hex_digit`] / [`hex_value`].
pub fn nibble(b: u8) -> (r: Option<u8>)
    ensures
        r is Some <==> is_hex_digit(b),
        r matches Some(v) ==> v as nat == hex_value(b) && v < 16,
{
    if 0x30 <= b && b <= 0x39 {
        Some(b - 0x30)
    } else if 0x61 <= b && b <= 0x66 {
        Some(b - 0x61 + 10)
    } else if 0x41 <= b && b <= 0x46 {
        Some(b - 0x41 + 10)
    } else {
        None
    }
}

fn digit_char(d: u8) -> (r: char)
    requires
        d < 16,
    ensures
        r == hex_digit_char(d as nat),
{
    if d < 10 {
        crate::text::char_from_u32_ascii(d as u32 + 48)
    } else {
        crate::text::char_from_u32_ascii(d as u32 + 87)
    }
}

/// Lowercase hex spelling of `bytes`.
pub fn encode(bytes: &[u8]) -> (r: String)
    ensures
        r@ == hex_encoded(bytes@),
{
    let mut out: Vec<char> = Vec::new();
    let mut i: usize = 0;
    while i < bytes.len()
        invariant
            i <= bytes@.len(),
            out@ == hex_encoded(bytes@.take(i as int)),
        decreases bytes.len() - i,
    {
        let b = bytes[i];
        let hi = digit_char(b / 16);
        let lo = digit_char(b % 16);
        out.push(hi);
        out.push(lo);
        assert(bytes@.take(i + 1).drop_last() =~= bytes@.take(i as int));
        i = i + 1;
        assert(out@ =~= hex_encoded(bytes@.take(i as int)));
    }
    assert(bytes@.take(bytes@.len() as int) =~= bytes@);
    string_of(out.as_slice())
}

/// The message naming the non-hex byte `b`.
pub fn bad_digit_text(b: u8) -> (r: String)
    ensures
        r@ == bad_digit_message(b),
{
    let mut v = chars_of("invalid hex character '");
    let c: char = b as char;
    v.push(c);
    v.push('\'');
    assert(v@ =~= bad_digit_message(b));
    string_of(v.as_slice())
}

/// The message for an odd-length input of `n` bytes.
pub fn odd_length_text(n: usize) -> (r: String)
    ensures
        r@ == odd_length_message(n as nat),
{
    let mut v = chars_of("odd-length hex string (");
    push_dec(&mut v, n as u64);
    let tail = chars_of(" chars)");
    let mut i: usize = 0;
    let ghost before = v@;
    while i < tail.len()
        invariant
            i <= tail@.len(),
            v@ == before + tail@.take(i as int),
        decreases tail.len() - i,
    {
        v.push(tail[i]);
        i = i + 1;
        assert(v@ =~= before + tail@.take(i as int));
    }
    assert(tail@.take(tail@.len() as int) =~= tail@);
    assert(v@ =~= odd_length_message(n as nat));
    string_of(v.as_slice())
}

/// Decodes hex digits, two per byte, in either case.
///
/// Fails with the odd-length message when `raw` has an odd length, else
/// with the message naming the first non-hex byte.
pub fn decode_bytes(raw: &[u8]) -> (r: Result<Vec<u8>, String>)
    ensures
        r is Ok <==> hex_ok(raw@),
        r matches Ok(v) ==> v@ == hex_decoded(raw@),
        r matches Err(m) ==> decode_error_ok(raw@, m@),
{
    if raw.len() % 2 == 1 {
        return Err(odd_length_text(raw.len()));
    }
    let mut out: Vec<u8> = Vec::new();
    let mut i: usize = 0;
    while i < raw.len()
        invariant
            i <= raw@.len(),
            i % 2 == 0,
            raw@.len() % 2 == 0,
            forall|j: int| 0 <= j < i ==> is_hex_digit(#[trigger] raw@[j]),
            out@ == hex_decoded(raw@.take(i as int)),
        decreases raw.len() - i,
    {
        let hi = match nibble(raw[i]) {
            Some(v) => v,
            None => {
                assert(first_non_hex(raw@, i as int));
                return Err(bad_digit_text(raw[i]));
            },
        };
        let lo = match nibble(raw[i + 1]) {
            Some(v) => v,
            None => {
                assert(first_non_hex(raw@, i + 1));
                return Err(bad_digit_text(raw[i + 1]));
            },
        };
        out.push(hi * 16 + lo);
        proof {
            let t = raw@.take(i + 2);
            assert(t.take(t.len() - 2) =~= raw@.take(i as int));
            assert(t[t.len() - 2] == raw@[i as int]);
            assert(t[t.len() - 1] == raw@[i + 1]);
        }
        i = i + 2;
    }
    assert(raw@.take(raw@.len() as int) =~= raw@);
    Ok(out)
}

/// Decodes the hex text `s` (see [`decode_bytes`]), over its UTF-8 bytes.
pub fn decode(s: &str) -> (r: Result<Vec<u8>, String>)
    ensures
        r is Ok <==> hex_ok(s.spec_bytes()),
        r matches Ok(v) ==> v@ == hex_decoded(s.spec_bytes()),
        r matches Err(m) ==> decode_error_ok(s.spec_bytes(), m@),
{
    decode_bytes(s.as_bytes())
}

/// Decodes the hex text `s` with surrounding whitespace ignored (see
/// [`decode_bytes`]), over the UTF-8 bytes of the trimmed text.
pub fn decode_trimmed(s: &str) -> (r: Result<Vec<u8>, String>)
    ensures
        r is Ok <==> hex_ok(vstd::utf8::encode_utf8(trim(s@))),
        r matches Ok(v) ==> v@ == hex_decoded(vstd::utf8::encode_utf8(trim(s@))),
        r matches Err(m) ==> decode_error_ok(vstd::utf8::encode_utf8(trim(s@)), m@),
{
    let cs = chars_of(s);
    let t = trim_chars(cs.as_slice());
    let ts = string_of(t.as_slice());
    decode(ts.as_str())
}

proof fn lemma_digit_round_trip(d: nat)
    requires
        d < 16,
    ensures
        is_hex_digit(hex_digit_char(d) as u8),
        hex_value(hex_digit_char(d) as u8) == d,
{
    if d < 10 {
        assert(vstd::utf8::is_scalar((d + 48) as u32));
    } else {
        assert(vstd::utf8::is_scalar((d + 87) as u32));
    }
}

/// Decoding the hex spelling of any bytes gives those bytes back.
pub proof fn lemma_hex_round_trip(b: Seq<u8>)
    ensures
        ascii_bytes(hex_encoded(b)).len() == 2 * b.len(),
        all_hex(ascii_bytes(hex_encoded(b))),
        hex_decoded(ascii_bytes(hex_encoded(b))) == b,
    decreases b.len(),
{
    if b.len() > 0 {
        let p = b.drop_last();
        let x = b.last();
        lemma_hex_round_trip(p);
        lemma_digit_round_trip((x / 16) as nat);
        lemma_digit_round_trip((x % 16) as nat);
        let e = ascii_bytes(hex_encoded(b));
        let ep = ascii_bytes(hex_encoded(p));
        assert(hex_encoded(b) == hex_encoded(p) + seq![
            hex_digit_char((x / 16) as nat),
            hex_digit_char((x % 16) as nat),
        ]);
        assert(e =~= ep + seq![
            hex_digit_char((x / 16) as nat) as u8,
            hex_digit_char((x % 16) as nat) as u8,
        ]);
        assert(e.take(e.len() - 2) =~= ep);
        assert(hex_pair(e[e.len() - 2], e[e.len() - 1]) == x) by {
            assert((x / 16) * 16 + x % 16 == x);
        }
        assert(hex_decoded(e) =~= b);
    } else {
        assert(ascii_bytes(hex_encoded(b)) =~= Seq::<u8>::empty());
    }
}

/// The hex spelling of `n` bytes has `2 n` characters.
pub proof fn lemma_hex_encoded_len(b: Seq<u8>)
    ensures
        hex_encoded(b).len() == 2 * b.len(),
    decreases b.len(),
{
    if b.len() > 0 {
        lemma_hex_encoded_len(b.drop_last());
    }
}

/// Decoding `2 n` hex digits gives `n` bytes.
pub proof fn lemma_hex_decoded_len(s: Seq<u8>)
    requires
        s.len() % 2 == 0,
    ensures
        hex_decoded(s).len() == s.len() / 2,
    decreases s.len(),
{
    if s.len() >= 2 {
        lemma_hex_decoded_len(s.take(s.len() - 2));
    }
}

/// A lowercase hexadecimal digit.
pub open spec fn lower_hex_char(c: char) -> bool {
    ('0' <= c && c <= '9') || ('a' <= c && c <= 'f')
}

/// `s` is `n` lowercase hexadecimal digits.
pub open spec fn is_hex_text(s: Seq<char>, n: nat) -> bool {
    s.len() == n && forall|i: int| 0 <= i < s.len() ==> lower_hex_char(#[trigger] s[i])
}

/// The hex spelling of `n` bytes is `2 n` lowercase hex digits.
pub proof fn lemma_hex_encoded_text(b: Seq<u8>)
    ensures
        is_hex_text(hex_encoded(b), 2 * b.len()),
    decreases b.len(),
{
    lemma_hex_encoded_len(b);
    if b.len() > 0 {
        lemma_hex_encoded_text(b.drop_last());
        let x = b.last();
        lemma_digit_char_hex((x / 16) as nat);
        lemma_digit_char_hex((x % 16) as nat);
        let prev = hex_encoded(b.drop_last());
        let tail = seq![hex_digit_char((x / 16) as nat), hex_digit_char((x % 16) as nat)];
        assert(hex_encoded(b) == prev + tail);
        assert forall|i: int| 0 <= i < hex_encoded(b).len() implies lower_hex_char(#[trigger] hex_encoded(b)[i]) by {
            if i < prev.len() {
                assert(hex_encoded(b)[i] == prev[i]);
            } else {
                assert(hex_encoded(b)[i] == tail[i - prev.len()]);
            }
        }
    }
}

proof fn lemma_digit_char_hex(d: nat)
    requires
        d < 16,
    ensures
        lower_hex_char(hex_digit_char(d)),
{
    if d < 10 {
        assert(vstd::utf8::is_scalar((d + 48) as u32));
    } else {
        assert(vstd::utf8::is_scalar((d + 87) as u32));
    }
}

/// Every character of a hex spelling is an ASCII hex digit.
pub proof fn lemma_hex_encoded_ascii(b: Seq<u8>)
    ensures
        vstd::utf8::is_ascii_chars(hex_encoded(b)),
    decreases b.len(),
{
    if b.len() > 0 {
        lemma_hex_encoded_ascii(b.drop_last());
        let x = b.last();
        lemma_digit_round_trip((x / 16) as nat);
        lemma_digit_round_trip((x % 16) as nat);
        assert(vstd::utf8::is_scalar(((x / 16) as nat + 48) as u32));
        assert(vstd::utf8::is_scalar(((x / 16) as nat + 87) as u32));
        assert(vstd::utf8::is_scalar(((x % 16) as nat + 48) as u32));
        assert(vstd::utf8::is_scalar(((x % 16) as nat + 87) as u32));
    }
}

/// The UTF-8 bytes of the hex spelling of `b` decode back to `b`.
pub proof fn lemma_hex_chars_round_trip(b: Seq<u8>)
    ensures
        vstd::utf8::encode_utf8(hex_encoded(b)) == ascii_bytes(hex_encoded(b)),
        hex_ok(vstd::utf8::encode_utf8(hex_encoded(b))),
        vstd::utf8::encode_utf8(hex_encoded(b)).len() == 2 * b.len(),
        hex_decoded(vstd::utf8::encode_utf8(hex_encoded(b))) == b,
{
    lemma_hex_encoded_ascii(b);
    lemma_hex_round_trip(b);
    vstd::utf8::is_ascii_chars_encode_utf8(hex_encoded(b));
    assert(vstd::utf8::encode_utf8(hex_encoded(b)) =~= ascii_bytes(hex_encoded(b)));
}

/// A text spelled as the hex of `b` has, as UTF-8 bytes, the ASCII bytes of
/// that spelling: it decodes back to `b`.
pub proof fn lemma_hex_text_round_trip(b: Seq<u8>, s: &str)
    requires
        s@ == hex_encoded(b),
    ensures
        s.spec_bytes() == ascii_bytes(hex_encoded(b)),
        s.spec_bytes().len() == 2 * b.len(),
        all_hex(s.spec_bytes()),
        hex_decoded(s.spec_bytes()) == b,
{
    broadcast use vstd::string::is_ascii_spec_bytes;

    lemma_hex_encoded_ascii(b);
    lemma_hex_round_trip(b);
    assert(vstd::string::is_ascii(s));
    assert(s.spec_bytes() =~= ascii_bytes(hex_encoded(b)));
}

} // verus!
