//! The operator trust set: the Ed25519 public keys whose signatures make a
//! bundle trustworthy.
//!
//! Text format: one key per line as 64 hex digits (a 32-byte public key),
//! optionally followed by whitespace and a free-form label. Blank lines and
//! lines beginning with `#` are ignored. An empty trust set is valid and
//! means trust nobody: every bundle is then rejected.

use vstd::prelude::*;

use std::str::FromStr;

use crate::bundle::error::ExecFormatError;
use crate::crypto::{ed25519_key_error, ed25519_key_ok, public_key_error};
use crate::hex::{decode_bytes, decode_error_ok, hex_decoded, hex_ok, to_array32};
use crate::text::{starts_with, chars_of, dec_digits, lines, lines_of, push_dec, push_str, string_of, trim, trim_chars, words, words_of};

verus! {

/// A set of trusted operator public keys.
#[derive(Debug, Clone)]
pub struct OperatorTrust {
    keys: Vec<[u8; 32]>,
}

impl Default for OperatorTrust {
    fn default() -> (r: OperatorTrust)
        ensures
            r.spec_keys().len() == 0,
    {
        OperatorTrust { keys: Vec::new() }
    }
}

/// A line that holds no key: blank, or a `#` comment.
pub open spec fn skipped(line: Seq<char>) -> bool {
    trim(line).len() == 0 || trim(line)[0] == '#'
}

/// The UTF-8 bytes of a key line's hex field (its first word).
pub open spec fn key_field(line: Seq<char>) -> Seq<u8> {
    vstd::utf8::encode_utf8(words(trim(line))[0])
}

/// A key line is well formed: its hex field decodes to 32 bytes that are
/// a usable public key.
pub open spec fn key_line_ok(line: Seq<char>) -> bool {
    hex_ok(key_field(line)) && hex_decoded(key_field(line)).len() == 32 && ed25519_key_ok(
        hex_decoded(key_field(line)),
    )
}

/// The keys of the lines `ls`, all of which are skipped or well formed.
pub open spec fn keys_of(ls: Seq<Seq<char>>) -> Seq<Seq<u8>>
    decreases ls.len(),
{
    if ls.len() == 0 {
        Seq::empty()
    } else if skipped(ls.last()) {
        keys_of(ls.drop_last())
    } else {
        keys_of(ls.drop_last()).push(hex_decoded(key_field(ls.last())))
    }
}

/// `i` is the first line of `ls` that is neither skipped nor well formed.
pub open spec fn first_bad_line(ls: Seq<Seq<char>>, i: int) -> bool {
    &&& 0 <= i < ls.len()
    &&& !skipped(ls[i]) && !key_line_ok(ls[i])
    &&& forall|j: int| 0 <= j < i ==> skipped(#[trigger] ls[j]) || key_line_ok(ls[j])
}

/// The prefix `"line N: "` of an error about line `n` (counted from 1).
pub open spec fn line_prefix(n: nat) -> Seq<char> {
    "line "@ + dec_digits(n) + ": "@
}

/// The error reported for the bad line `line`, the `n`-th (from 1).
pub open spec fn line_error_ok(line: Seq<char>, n: nat, m: Seq<char>) -> bool {
    let f = key_field(line);
    if !hex_ok(f) {
        exists|d: Seq<char>| decode_error_ok(f, d) && m == line_prefix(n) + d
    } else if hex_decoded(f).len() != 32 {
        m == line_prefix(n) + "key is not 32 bytes"@
    } else {
        m == line_prefix(n) + "invalid Ed25519 key: "@ + ed25519_key_error(hex_decoded(f))->0
    }
}

fn line_message(n: usize, detail: &str) -> (r: String)
    ensures
        r@ == line_prefix(n as nat) + detail@,
{
    let mut v: Vec<char> = Vec::new();
    push_str(&mut v, "line ");
    push_dec(&mut v, n as u64);
    push_str(&mut v, ": ");
    push_str(&mut v, detail);
    string_of(v.as_slice())
}

impl OperatorTrust {
    /// The trusted keys, in file order.
    pub closed spec fn spec_keys(&self) -> Seq<Seq<u8>> {
        self.keys@.map_values(|k: [u8; 32]| k@)
    }

    /// Parses a trust set from its text format.
    ///
    /// Fails with `BadTrustFile` naming the first bad line: its key field
    /// is not hex, is not 32 bytes, or is not a usable public key.
    pub fn parse(text: &str) -> (r: Result<OperatorTrust, ExecFormatError>)
        ensures
            r is Ok <==> forall|i: int| 0 <= i < lines(text@).len() ==> skipped(#[trigger] lines(text@)[i]) || key_line_ok(lines(text@)[i]),
            r matches Ok(t) ==> t.spec_keys() == keys_of(lines(text@)),
            r matches Err(e) ==> exists|i: int|
                first_bad_line(lines(text@), i) && (e matches ExecFormatError::BadTrustFile(m) && line_error_ok(
                    #[trigger] lines(text@)[i],
                    (i + 1) as nat,
                    m@,
                )),
    {
        let cs = chars_of(text);
        let ls = lines_of(cs.as_slice());
        let ghost all = lines(text@);
        let mut keys: Vec<[u8; 32]> = Vec::new();
        let mut i: usize = 0;
        while i < ls.len()
            invariant
                i <= ls@.len(),
                all == lines(text@),
                ls@.len() == all.len(),
                forall|j: int| 0 <= j < ls@.len() ==> #[trigger] ls@[j]@ == all[j],
                forall|j: int| 0 <= j < i ==> skipped(#[trigger] all[j]) || key_line_ok(all[j]),
                keys@.map_values(|k: [u8; 32]| k@) == keys_of(all.take(i as int)),
            decreases ls.len() - i,
        {
            let line = trim_chars(ls[i].as_slice());
            proof {
                assert(all.take(i + 1).drop_last() =~= all.take(i as int));
                assert(all.take(i + 1).last() == all[i as int]);
            }
            if line.len() == 0 || line[0] == '#' {
                i = i + 1;
                continue;
            }
            let w = words_of(line.as_slice());
            proof {
                crate::text::lemma_trimmed_has_word(all[i as int]);
            }
            let field = string_of(w[0].as_slice());
            let n = i + 1;
            let bytes = match decode_bytes(field.as_str().as_bytes()) {
                Ok(b) => b,
                Err(m) => {
                    assert(first_bad_line(all, i as int));
                    return Err(ExecFormatError::BadTrustFile(line_message(n, m.as_str())));
                },
            };
            if bytes.len() != 32 {
                assert(first_bad_line(all, i as int));
                return Err(ExecFormatError::BadTrustFile(line_message(n, "key is not 32 bytes")));
            }
            let arr = to_array32(bytes.as_slice());
            match public_key_error(&arr) {
                None => {},
                Some(e) => {
                    assert(first_bad_line(all, i as int));
                    let mut v: Vec<char> = Vec::new();
                    push_str(&mut v, "invalid Ed25519 key: ");
                    push_str(&mut v, e.as_str());
                    let msg = line_message(n, string_of(v.as_slice()).as_str());
                    assert(msg@ =~= line_prefix(n as nat) + "invalid Ed25519 key: "@ + ed25519_key_error(
                        hex_decoded(key_field(all[i as int])),
                    )->0);
                    return Err(ExecFormatError::BadTrustFile(msg));
                },
            }
            keys.push(arr);
            i = i + 1;
            proof {
                assert(keys@.map_values(|k: [u8; 32]| k@) =~= keys_of(all.take(i as int)));
            }
        }
        assert(all.take(all.len() as int) =~= all);
        Ok(OperatorTrust { keys })
    }

    /// Number of trusted keys. Zero means trust nobody.
    pub fn len(&self) -> (r: usize)
        ensures
            r == self.spec_keys().len(),
    {
        self.keys.len()
    }

    /// Whether the trust set is empty (trusts nobody).
    pub fn is_empty(&self) -> (r: bool)
        ensures
            r == (self.spec_keys().len() == 0),
    {
        self.keys.len() == 0
    }

    /// The trusted keys, for the verifier to try in turn.
    pub fn keys(&self) -> (r: &[[u8; 32]])
        ensures
            r@.map_values(|k: [u8; 32]| k@) == self.spec_keys(),
    {
        self.keys.as_slice()
    }
}

impl FromStr for OperatorTrust {
    type Err = ExecFormatError;

    fn from_str(text: &str) -> (r: Result<OperatorTrust, ExecFormatError>)
        ensures
            r is Ok <==> forall|i: int| 0 <= i < lines(text@).len() ==> skipped(#[trigger] lines(text@)[i]) || key_line_ok(lines(text@)[i]),
            r matches Ok(t) ==> t.spec_keys() == keys_of(lines(text@)),
            r matches Err(e) ==> exists|i: int|
                first_bad_line(lines(text@), i) && (e matches ExecFormatError::BadTrustFile(m) && line_error_ok(
                    #[trigger] lines(text@)[i],
                    (i + 1) as nat,
                    m@,
                )),
    {
        OperatorTrust::parse(text)
    }
}

} // verus!
