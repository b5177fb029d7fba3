//! Chain verification.
//!
//! What is checked, for every entry, in order:
//!
//! 1. `seq` is exactly the expected value (no gaps, no reordering).
//! 2. `prev_hash` equals the recomputed chain hash of the previous entry
//!    (the genesis sentinel for `seq == 0`).
//! 3. The genesis entry embeds exactly the expected public key.
//! 4. The Ed25519 signature verifies strictly over the canonical bytes
//!    under the expected key.
//! 5. The stored `entry_hash` equals the recomputed chain hash (the
//!    recomputed value, never the stored one, is used for linking).

use vstd::prelude::*;

use crate::audit::entry::{chain_hash, genesis_prev_hash, genesis_prev_hash_hex, link_hash, AuditEntry, AuditEvent};
use crate::audit::error::AuditError;
use crate::audit::key::{key_error_ok, key_text_ok, verifying_key_from_hex};
use crate::crypto::{ed25519_key_error, ed25519_key_ok, ed25519_verifies, ed25519_verify_error, verify_strict};
use crate::hex::{bytes_eq, decode, decode_error_ok, encode, hex_decoded, hex_encoded, hex_ok, is_hex_text, lemma_hex_encoded_text, to_array64};
use crate::text::{chars_of, dec_digits, push_dec, push_str, string_of, trim, trim_chars};
use vstd::string::StringSliceAdditionalSpecFns;
use vstd::utf8::encode_utf8;

verus! {

/// Outcome of a successful verification: the chain head, ready to resume.
#[derive(Debug, Clone, PartialEq, Eq)]
pub struct ChainHead {
    /// Number of entries verified (including genesis).
    pub entries: u64,
    /// Sequence number the next appended entry must use.
    pub next_seq: u64,
    /// Hex chain hash of the last verified entry.
    pub head_hash_hex: String,
}

/// Which check an entry fails first, if any.
#[derive(Debug, Clone, Copy, PartialEq, Eq, Structural)]
pub enum EntryCheck {
    /// Every check passes.
    Valid,
    /// `seq` is not the expected one.
    SeqMismatch,
    /// `prev_hash` is not the previous entry's chain hash.
    PrevMismatch,
    /// The first entry is not a genesis entry.
    NotGenesis,
    /// The genesis entry's public key is not a readable key.
    GenesisKeyBad,
    /// The genesis entry names another key than the expected one.
    GenesisKeyMismatch,
    /// The signature is not hex.
    SignatureHex,
    /// The signature is not 64 bytes.
    SignatureLength,
    /// The signature does not verify.
    SignatureInvalid,
    /// The stored entry hash is not the recomputed one.
    HashMismatch,
}

/// The UTF-8 bytes of an entry's signature text.
pub open spec fn sig_text(e: AuditEntry) -> Seq<u8> {
    encode_utf8(e.signature@)
}

/// The signature bytes an entry's signature text decodes to.
pub open spec fn sig_of(e: AuditEntry) -> Seq<u8> {
    hex_decoded(sig_text(e))
}

/// The UTF-8 bytes of the public key named by a genesis event (empty for
/// any other event).
pub open spec fn genesis_key_text(ev: AuditEvent) -> Seq<u8> {
    match ev {
        AuditEvent::Genesis { audit_public_key } => encode_utf8(audit_public_key@),
        _ => Seq::empty(),
    }
}

/// The first check that entry `e`, with canonical bytes `canonical`, fails
/// when it is expected at `seq` after chain hash `prev` under the public key
/// `key`.
pub open spec fn check_entry(e: AuditEntry, canonical: Seq<u8>, seq: u64, prev: Seq<char>, key: Seq<u8>) -> EntryCheck {
    if e.record.seq != seq {
        EntryCheck::SeqMismatch
    } else if e.record.prev_hash@ != prev {
        EntryCheck::PrevMismatch
    } else if seq == 0 && !(e.record.event is Genesis) {
        EntryCheck::NotGenesis
    } else if seq == 0 && !key_text_ok(genesis_key_text(e.record.event)) {
        EntryCheck::GenesisKeyBad
    } else if seq == 0 && hex_decoded(genesis_key_text(e.record.event)) != key {
        EntryCheck::GenesisKeyMismatch
    } else if !hex_ok(sig_text(e)) {
        EntryCheck::SignatureHex
    } else if sig_of(e).len() != 64 {
        EntryCheck::SignatureLength
    } else if !ed25519_verifies(key, canonical, sig_of(e)) {
        EntryCheck::SignatureInvalid
    } else if e.entry_hash@ != hex_encoded(link_hash(canonical, sig_of(e))) {
        EntryCheck::HashMismatch
    } else {
        EntryCheck::Valid
    }
}

/// What an accepted entry is: one that every check passes. An entry that
/// passes carries the expected sequence number and previous chain hash,
/// a 64-byte Ed25519 signature over its canonical bytes that verifies
/// under `key`, and a stored `entry_hash` equal to the hex of the hash
/// chaining its canonical bytes and signature; the first entry is the
/// genesis entry naming `key`.
pub proof fn lemma_accepted_entry(e: AuditEntry, canonical: Seq<u8>, seq: u64, prev: Seq<char>, key: Seq<u8>)
    ensures
        check_entry(e, canonical, seq, prev, key) == EntryCheck::Valid ==> {
            &&& e.record.seq == seq
            &&& e.record.prev_hash@ == prev
            &&& sig_of(e).len() == 64
            &&& ed25519_verifies(key, canonical, sig_of(e))
            &&& e.entry_hash@ == hex_encoded(link_hash(canonical, sig_of(e)))
            &&& seq == 0 ==> (e.record.event is Genesis && hex_decoded(genesis_key_text(e.record.event)) == key)
        },
{
}

/// The reason given for an entry found at `found` where `expected` was due.
pub open spec fn seq_mismatch_message(found: u64, expected: u64) -> Seq<char> {
    "sequence number mismatch: found "@ + dec_digits(found as nat) + ", expected "@ + dec_digits(
        expected as nat,
    )
}

/// `err` is a chain break at `seq` with reason `reason`.
pub open spec fn broken_at(err: AuditError, seq: u64, reason: Seq<char>) -> bool {
    err matches AuditError::ChainBroken { seq: s, reason: r } && s == seq && r@ == reason
}

/// The error reported for entry `e`, with canonical bytes `canonical`,
/// failing `check` at `seq` under the public key `key`.
pub open spec fn entry_error_ok(check: EntryCheck, e: AuditEntry, canonical: Seq<u8>, seq: u64, key: Seq<u8>, err: AuditError) -> bool {
    match check {
        EntryCheck::Valid => false,
        EntryCheck::SeqMismatch => broken_at(err, seq, seq_mismatch_message(e.record.seq, seq)),
        EntryCheck::PrevMismatch => broken_at(
            err,
            seq,
            "prev_hash does not match the previous entry's hash"@,
        ),
        EntryCheck::NotGenesis => broken_at(err, 0, "first entry is not a genesis entry"@),
        EntryCheck::GenesisKeyBad => key_error_ok(genesis_key_text(e.record.event), err),
        EntryCheck::GenesisKeyMismatch => broken_at(
            err,
            0,
            "genesis public key does not match the pinned key"@,
        ),
        EntryCheck::SignatureHex => err matches AuditError::Hex(m) && decode_error_ok(
            sig_text(e),
            m@,
        ),
        EntryCheck::SignatureLength => broken_at(err, seq, "signature is not 64 bytes"@),
        EntryCheck::SignatureInvalid => broken_at(
            err,
            seq,
            "Ed25519 signature verification failed: "@ + if ed25519_key_ok(key) {
                ed25519_verify_error(key, canonical, sig_of(e))->0
            } else {
                ed25519_key_error(key)->0
            },
        ),
        EntryCheck::HashMismatch => broken_at(
            err,
            seq,
            "stored entry_hash does not match recomputed hash"@,
        ),
    }
}

fn broken(seq: u64, reason: &str) -> (r: AuditError)
    ensures
        broken_at(r, seq, reason@),
{
    AuditError::ChainBroken { seq, reason: crate::text::owned(reason) }
}

/// Decodes an entry's hex signature into its 64 bytes.
pub fn decode_sig(signature_hex: &str, seq: u64) -> (r: Result<[u8; 64], AuditError>)
    ensures
        r is Ok <==> hex_ok(signature_hex.spec_bytes()) && hex_decoded(signature_hex.spec_bytes()).len() == 64,
        r matches Ok(b) ==> b@ == hex_decoded(signature_hex.spec_bytes()),
        r matches Err(e) ==> if !hex_ok(signature_hex.spec_bytes()) {
            e matches AuditError::Hex(m) && decode_error_ok(signature_hex.spec_bytes(), m@)
        } else {
            broken_at(e, seq, "signature is not 64 bytes"@)
        },
{
    let raw = match decode(signature_hex) {
        Ok(v) => v,
        Err(m) => {
            return Err(AuditError::Hex(m));
        },
    };
    if raw.len() != 64 {
        return Err(broken(seq, "signature is not 64 bytes"));
    }
    Ok(to_array64(raw.as_slice()))
}

/// Checks one entry against the expected `seq`, the previous chain hash
/// and the expected public key.
pub fn verify_entry(
    entry: &AuditEntry,
    canonical: &[u8],
    expected_seq: u64,
    expected_prev: &String,
    expected_public_key: &[u8; 32],
) -> (r: Result<(), AuditError>)
    ensures
        r is Ok <==> check_entry(*entry, canonical@, expected_seq, expected_prev@, expected_public_key@) == EntryCheck::Valid,
        r matches Err(err) ==> entry_error_ok(
            check_entry(*entry, canonical@, expected_seq, expected_prev@, expected_public_key@),
            *entry,
            canonical@,
            expected_seq,
            expected_public_key@,
            err,
        ),
        r is Ok ==> {
            &&& entry.record.seq == expected_seq
            &&& entry.record.prev_hash@ == expected_prev@
            &&& sig_of(*entry).len() == 64
            &&& ed25519_verifies(expected_public_key@, canonical@, sig_of(*entry))
            &&& entry.entry_hash@ == hex_encoded(link_hash(canonical@, sig_of(*entry)))
            &&& expected_seq == 0 ==> (entry.record.event is Genesis && hex_decoded(
                genesis_key_text(entry.record.event),
            ) == expected_public_key@)
        },
{
    proof {
        lemma_accepted_entry(*entry, canonical@, expected_seq, expected_prev@, expected_public_key@);
    }
    if entry.record.seq != expected_seq {
        let mut v: Vec<char> = Vec::new();
        push_str(&mut v, "sequence number mismatch: found ");
        push_dec(&mut v, entry.record.seq);
        push_str(&mut v, ", expected ");
        push_dec(&mut v, expected_seq);
        assert(v@ =~= seq_mismatch_message(entry.record.seq, expected_seq));
        return Err(AuditError::ChainBroken { seq: expected_seq, reason: string_of(v.as_slice()) });
    }
    if !(entry.record.prev_hash == *expected_prev) {
        return Err(broken(expected_seq, "prev_hash does not match the previous entry's hash"));
    }
    if expected_seq == 0 {
        match &entry.record.event {
            AuditEvent::Genesis { audit_public_key } => {
                let declared = match verifying_key_from_hex(audit_public_key.as_str()) {
                    Ok(k) => k,
                    Err(e) => {
                        return Err(e);
                    },
                };
                if !bytes_eq(declared.as_slice(), expected_public_key.as_slice()) {
                    return Err(broken(0, "genesis public key does not match the pinned key"));
                }
            },
            _ => {
                return Err(broken(0, "first entry is not a genesis entry"));
            },
        }
    }
    let sig_bytes = match decode_sig(entry.signature.as_str(), expected_seq) {
        Ok(b) => b,
        Err(e) => {
            return Err(e);
        },
    };
    match verify_strict(expected_public_key, canonical, &sig_bytes) {
        Ok(()) => {},
        Err(e) => {
            let mut v: Vec<char> = Vec::new();
            push_str(&mut v, "Ed25519 signature verification failed: ");
            push_str(&mut v, e.as_str());
            return Err(AuditError::ChainBroken { seq: expected_seq, reason: string_of(v.as_slice()) });
        },
    }
    let recomputed = chain_hash(canonical, &sig_bytes);
    let recomputed_hex = encode(recomputed.as_slice());
    if !(recomputed_hex == entry.entry_hash) {
        return Err(broken(expected_seq, "stored entry_hash does not match recomputed hash"));
    }
    Ok(())
}

/// What was made of one log line before verification.
#[derive(Debug, Clone)]
pub enum LineParse {
    /// The line parsed as an entry; `canonical` is its record's canonical
    /// bytes.
    Entry {
        /// The parsed entry.
        entry: AuditEntry,
        /// The canonical bytes of `entry.record`.
        canonical: Vec<u8>,
    },
    /// The line is not a JSON audit entry (the parser's message).
    Malformed(String),
    /// The parsed record could not be serialized back (the message).
    Unserializable(String),
}

/// One line of a log as read.
#[derive(Debug, Clone)]
pub enum ChainLine {
    /// A line that was read, with its text and what it parsed to.
    Text {
        /// The raw line.
        text: String,
        /// What the line parsed to.
        parsed: LineParse,
    },
    /// Reading the line failed (the I/O error's text).
    ReadFailed(String),
}

/// Whether a line holds only whitespace (and is skipped).
pub open spec fn is_blank(text: Seq<char>) -> bool {
    trim(text).len() == 0
}

/// `seq + 1`, saturating at `u64::MAX`.
pub open spec fn seq_after(seq: u64) -> u64 {
    if seq == u64::MAX {
        seq
    } else {
        (seq + 1) as u64
    }
}

/// Reads `lines` from expected sequence number `seq` and chain hash `head`,
/// stopping at the first line that fails. Gives how many lines were read,
/// and the expected sequence number and chain hash at that point.
pub open spec fn scan(lines: Seq<ChainLine>, key: Seq<u8>, seq: u64, head: Seq<char>) -> (nat, u64, Seq<char>)
    decreases lines.len(),
{
    if lines.len() == 0 {
        (0, seq, head)
    } else {
        match lines[0] {
            ChainLine::ReadFailed(_) => (0, seq, head),
            ChainLine::Text { text, parsed } => {
                if is_blank(text@) {
                    let (i, s, h) = scan(lines.drop_first(), key, seq, head);
                    (i + 1, s, h)
                } else {
                    match parsed {
                        LineParse::Entry { entry, canonical } => {
                            if check_entry(entry, canonical@, seq, head, key) == EntryCheck::Valid {
                                let (i, s, h) = scan(
                                    lines.drop_first(),
                                    key,
                                    seq_after(seq),
                                    hex_encoded(link_hash(canonical@, sig_of(entry))),
                                );
                                (i + 1, s, h)
                            } else {
                                (0, seq, head)
                            }
                        },
                        _ => (0, seq, head),
                    }
                }
            },
        }
    }
}

/// The error reported for the failing line `line`, reached at expected
/// sequence number `seq` and chain hash `head`.
pub open spec fn line_error_ok(line: ChainLine, key: Seq<u8>, seq: u64, head: Seq<char>, err: AuditError) -> bool {
    match line {
        ChainLine::ReadFailed(m) => err matches AuditError::Io(x) && x@ == m@,
        ChainLine::Text { text, parsed } => match parsed {
            LineParse::Malformed(m) => broken_at(err, seq, "entry does not parse as JSON: "@ + m@),
            LineParse::Unserializable(m) => err matches AuditError::Serde(x) && x@ == m@,
            LineParse::Entry { entry, canonical } => entry_error_ok(
                check_entry(entry, canonical@, seq, head, key),
                entry,
                canonical@,
                seq,
                key,
                err,
            ),
        },
    }
}

fn is_blank_text(text: &String) -> (r: bool)
    ensures
        r == is_blank(text@),
{
    let cs = chars_of(text.as_str());
    let t = trim_chars(cs.as_slice());
    t.len() == 0
}

/// Verifies a whole chain, line by line, requiring every entry to be signed
/// under `expected_public_key`. Blank lines are skipped.
///
/// On the first failing line this reports that line's error (a chain break
/// names the sequence number expected there); a log with no entry is
/// `Empty`.
pub fn verify_lines(lines: &Vec<ChainLine>, expected_public_key: &[u8; 32]) -> (r: Result<ChainHead, AuditError>)
    ensures
        ({
            let (i, s, h) = scan(lines@, expected_public_key@, 0, genesis_prev_hash());
            &&& i == lines@.len() && s == 0 ==> r == Err::<ChainHead, AuditError>(AuditError::Empty)
            &&& i == lines@.len() && s > 0 ==> (r matches Ok(head) && head.entries == s && head.next_seq == s
                && head.head_hash_hex@ == h)
            &&& i < lines@.len() ==> (r matches Err(err) && line_error_ok(
                lines@[i as int],
                expected_public_key@,
                s,
                h,
                err,
            ))
        }),
        r matches Ok(head) ==> is_hex_text(head.head_hash_hex@, 64),
{
    let ghost key = expected_public_key@;
    let mut expected_seq: u64 = 0;
    let mut chain_head = genesis_prev_hash_hex();
    proof {
        lemma_hex_encoded_text(Seq::new(32, |i: int| 0u8));
    }
    let mut i: usize = 0;
    assert(lines@.skip(0) =~= lines@);
    while i < lines.len()
        invariant
            i <= lines@.len(),
            is_hex_text(chain_head@, 64),
            key == expected_public_key@,
            ({
                let (a, s, h) = scan(lines@.skip(i as int), key, expected_seq, chain_head@);
                scan(lines@, key, 0, genesis_prev_hash()) == ((a + i) as nat, s, h)
            }),
        decreases lines.len() - i,
    {
        let ghost rest = lines@.skip(i as int);
        proof {
            assert(rest.drop_first() =~= lines@.skip(i + 1));
            assert(rest[0] == lines@[i as int]);
        }
        match &lines[i] {
            ChainLine::ReadFailed(m) => {
                return Err(AuditError::Io(m.clone()));
            },
            ChainLine::Text { text, parsed } => {
                if !is_blank_text(text) {
                    match parsed {
                        LineParse::Malformed(m) => {
                            let mut v: Vec<char> = Vec::new();
                            push_str(&mut v, "entry does not parse as JSON: ");
                            push_str(&mut v, m.as_str());
                            return Err(AuditError::ChainBroken { seq: expected_seq, reason: string_of(v.as_slice()) });
                        },
                        LineParse::Unserializable(m) => {
                            return Err(AuditError::Serde(m.clone()));
                        },
                        LineParse::Entry { entry, canonical } => {
                            match verify_entry(entry, canonical.as_slice(), expected_seq, &chain_head, expected_public_key) {
                                Ok(()) => {},
                                Err(e) => {
                                    return Err(e);
                                },
                            }
                            let sig_bytes = match decode_sig(entry.signature.as_str(), expected_seq) {
                                Ok(b) => b,
                                Err(e) => {
                                    return Err(e);
                                },
                            };
                            let recomputed = chain_hash(canonical.as_slice(), &sig_bytes);
                            chain_head = encode(recomputed.as_slice());
                            proof {
                                lemma_hex_encoded_text(recomputed@);
                            }
                            expected_seq = expected_seq.saturating_add(1);
                        },
                    }
                }
            },
        }
        i = i + 1;
    }
    proof {
        assert(lines@.skip(i as int).len() == 0);
    }
    if expected_seq == 0 {
        return Err(AuditError::Empty);
    }
    Ok(ChainHead { entries: expected_seq, next_seq: expected_seq, head_hash_hex: chain_head })
}

} // verus!
