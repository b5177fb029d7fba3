//! The log writer's chaining state.
//!
//! Appending an event is: build its record from this state, obtain the
//! record's canonical bytes, seal it, make the entry's line durable, and
//! only then advance the state. The state holds the signing key, the next
//! sequence number and the chain hash of the last entry written.

use vstd::prelude::*;

use crate::audit::entry::{genesis_prev_hash, genesis_prev_hash_hex, link_hash, seal, AuditEntry, AuditEvent, AuditRecord};
use crate::audit::key::AuditKeypair;
use crate::audit::verify::{check_entry, genesis_key_text, is_blank, scan, seq_after, sig_of, ChainLine, EntryCheck, LineParse};
use crate::crypto::{ed25519_key_ok, ed25519_public, ed25519_signature, ed25519_verifies};
use crate::hex::{hex_decoded, hex_encoded};

verus! {

/// A live audit log's chaining state.
pub struct AuditLog {
    keypair: AuditKeypair,
    next_seq: u64,
    prev_hash_hex: String,
}

impl AuditLog {
    /// The signing seed.
    pub closed spec fn seed(&self) -> Seq<u8> {
        self.keypair@
    }

    /// The sequence number the next entry receives.
    pub closed spec fn spec_next_seq(&self) -> u64 {
        self.next_seq
    }

    /// The chain hash the next entry links to.
    pub closed spec fn head(&self) -> Seq<char> {
        self.prev_hash_hex@
    }

    /// A log with no entry yet: the next entry is the genesis entry.
    pub fn new(keypair: AuditKeypair) -> (r: AuditLog)
        ensures
            r.seed() == keypair@,
            r.spec_next_seq() == 0,
            r.head() == genesis_prev_hash(),
    {
        AuditLog { keypair, next_seq: 0, prev_hash_hex: genesis_prev_hash_hex() }
    }

    /// The genesis event, which anchors the chain to the public key.
    pub fn genesis_event(&self) -> (r: AuditEvent)
        ensures
            r matches AuditEvent::Genesis { audit_public_key } && audit_public_key@ == hex_encoded(
                ed25519_public(self.seed()),
            ),
    {
        AuditEvent::Genesis { audit_public_key: self.keypair.public_hex() }
    }

    /// The record for `event` at `timestamp_ms`, chained onto the head.
    pub fn record_for(&self, event: AuditEvent, timestamp_ms: u64) -> (r: AuditRecord)
        ensures
            r.seq == self.spec_next_seq(),
            r.timestamp_ms == timestamp_ms,
            r.prev_hash@ == self.head(),
            r.event == event,
    {
        AuditRecord { seq: self.next_seq, timestamp_ms, prev_hash: self.prev_hash_hex.clone(), event }
    }

    /// Seals `record`, whose canonical bytes are `canonical`, with the log's
    /// key.
    pub fn seal(&self, record: AuditRecord, canonical: &[u8]) -> (r: AuditEntry)
        ensures
            r.record == record,
            r.signature@ == hex_encoded(ed25519_signature(self.seed(), canonical@)),
            r.entry_hash@ == hex_encoded(link_hash(canonical@, ed25519_signature(self.seed(), canonical@))),
    {
        let (entry, _hash) = seal(record, canonical, &self.keypair);
        entry
    }

    /// Records that `entry` was made durable: the next entry chains onto it.
    pub fn advance(&mut self, entry: &AuditEntry)
        ensures
            final(self).seed() == old(self).seed(),
            final(self).spec_next_seq() == seq_after(old(self).spec_next_seq()),
            final(self).head() == entry.entry_hash@,
    {
        self.next_seq = self.next_seq.saturating_add(1);
        self.prev_hash_hex = entry.entry_hash.clone();
    }

    /// The sequence number the next appended entry will receive.
    pub fn next_seq(&self) -> (r: u64)
        ensures
            r == self.spec_next_seq(),
    {
        self.next_seq
    }

    /// The hex chain hash of the current head.
    pub fn head_hash_hex(&self) -> (r: &str)
        ensures
            r@ == self.head(),
    {
        self.prev_hash_hex.as_str()
    }
}

/// An entry sealed by the log passes every check of the verifier at the
/// log's position, whenever its signature verifies under the log's public
/// key (and, for the genesis entry, that key is usable and the event is the
/// log's genesis event).
pub proof fn lemma_sealed_entry_verifies(seed: Seq<u8>, entry: AuditEntry, canonical: Seq<u8>, seq: u64, prev: Seq<char>)
    requires
        entry.record.seq == seq,
        entry.record.prev_hash@ == prev,
        entry.signature@ == hex_encoded(ed25519_signature(seed, canonical)),
        entry.entry_hash@ == hex_encoded(link_hash(canonical, ed25519_signature(seed, canonical))),
        ed25519_signature(seed, canonical).len() == 64,
        ed25519_public(seed).len() == 32,
        ed25519_verifies(ed25519_public(seed), canonical, ed25519_signature(seed, canonical)),
        seq == 0 ==> (entry.record.event matches AuditEvent::Genesis { audit_public_key }
            && audit_public_key@ == hex_encoded(ed25519_public(seed))),
        seq == 0 ==> ed25519_key_ok(ed25519_public(seed)),
    ensures
        check_entry(entry, canonical, seq, prev, ed25519_public(seed)) == EntryCheck::Valid,
{
    let sig = ed25519_signature(seed, canonical);
    let pk = ed25519_public(seed);
    crate::hex::lemma_hex_chars_round_trip(sig);
    assert(sig_of(entry) == sig);
    if seq == 0 {
        crate::hex::lemma_hex_chars_round_trip(pk);
        assert(genesis_key_text(entry.record.event) == vstd::utf8::encode_utf8(hex_encoded(pk)));
        assert(hex_decoded(genesis_key_text(entry.record.event)) == pk);
    }
}

/// Line `line` holds an entry the log with secret seed `seed` sealed at
/// sequence number `seq` after chain hash `head`: a non-blank line whose
/// entry carries that position, the log's signature over its canonical
/// bytes and the chain hash of both. (The genesis entry also carries the
/// log's public key.) The signature facts are those the signing key's
/// public half confirms.
pub open spec fn sealed_line(seed: Seq<u8>, line: ChainLine, seq: u64, head: Seq<char>) -> bool {
    match line {
        ChainLine::Text { text, parsed: LineParse::Entry { entry, canonical } } => {
            let sig = ed25519_signature(seed, canonical@);
            &&& !is_blank(text@)
            &&& entry.record.seq == seq
            &&& entry.record.prev_hash@ == head
            &&& entry.signature@ == hex_encoded(sig)
            &&& entry.entry_hash@ == hex_encoded(link_hash(canonical@, sig))
            &&& sig.len() == 64
            &&& ed25519_public(seed).len() == 32
            &&& ed25519_verifies(ed25519_public(seed), canonical@, sig)
            &&& seq == 0 ==> (entry.record.event matches AuditEvent::Genesis { audit_public_key }
                && audit_public_key@ == hex_encoded(ed25519_public(seed)))
            &&& seq == 0 ==> ed25519_key_ok(ed25519_public(seed))
        },
        _ => false,
    }
}

/// The chain hash that follows line `line` (meaningful for entry lines).
pub open spec fn hash_after(line: ChainLine) -> Seq<char> {
    match line {
        ChainLine::Text { parsed: LineParse::Entry { entry, .. }, .. } => entry.entry_hash@,
        _ => Seq::empty(),
    }
}

/// `lines` are what the log with secret seed `seed` wrote from position
/// `seq` after chain hash `head`: each line sealed at its position, chained
/// onto the one before.
pub open spec fn sealed_chain(seed: Seq<u8>, lines: Seq<ChainLine>, seq: u64, head: Seq<char>) -> bool
    decreases lines.len(),
{
    lines.len() == 0 || (sealed_line(seed, lines[0], seq, head) && sealed_chain(
        seed,
        lines.drop_first(),
        seq_after(seq),
        hash_after(lines[0]),
    ))
}

/// What the log writes, the verifier accepts: a chain of lines sealed by
/// the log, from its genesis entry on, is read to its end under the log's
/// public key, the verifier's head is the hash of the last entry, and it
/// counts one entry per line.
pub proof fn lemma_written_chain_verifies(seed: Seq<u8>, lines: Seq<ChainLine>, seq: u64, head: Seq<char>)
    requires
        sealed_chain(seed, lines, seq, head),
    ensures
        scan(lines, ed25519_public(seed), seq, head).0 == lines.len(),
        lines.len() > 0 ==> scan(lines, ed25519_public(seed), seq, head).2 == hash_after(lines.last()),
        seq + lines.len() <= u64::MAX ==> scan(lines, ed25519_public(seed), seq, head).1 == seq + lines.len(),
    decreases lines.len(),
{
    if lines.len() > 0 {
        match lines[0] {
            ChainLine::Text { text, parsed: LineParse::Entry { entry, canonical } } => {
                lemma_sealed_entry_verifies(seed, entry, canonical@, seq, head);
                let sig = ed25519_signature(seed, canonical@);
                crate::hex::lemma_hex_chars_round_trip(sig);
                assert(sig_of(entry) == sig);
                lemma_written_chain_verifies(seed, lines.drop_first(), seq_after(seq), entry.entry_hash@);
                if lines.len() > 1 {
                    assert(lines.drop_first().last() == lines.last());
                }
            },
            _ => {},
        }
    }
}

/// A valid prefix of a chain is itself a valid chain: when every line of
/// `lines` is read, so is every line of each of its prefixes, from the
/// same position.
pub proof fn lemma_prefix_of_valid_chain(lines: Seq<ChainLine>, key: Seq<u8>, seq: u64, head: Seq<char>, k: int)
    requires
        scan(lines, key, seq, head).0 == lines.len(),
        0 <= k <= lines.len(),
    ensures
        scan(lines.take(k), key, seq, head).0 == k,
    decreases lines.len(),
{
    if k > 0 {
        assert(lines.take(k)[0] == lines[0]);
        assert(lines.take(k).drop_first() =~= lines.drop_first().take(k - 1));
        match lines[0] {
            ChainLine::Text { text, parsed } => {
                if is_blank(text@) {
                    lemma_prefix_of_valid_chain(lines.drop_first(), key, seq, head, k - 1);
                } else {
                    match parsed {
                        LineParse::Entry { entry, canonical } => {
                            lemma_prefix_of_valid_chain(
                                lines.drop_first(),
                                key,
                                seq_after(seq),
                                hex_encoded(link_hash(canonical@, sig_of(entry))),
                                k - 1,
                            );
                        },
                        _ => {},
                    }
                }
            },
            _ => {},
        }
    }
}

/// The sequence number an entry line carries (`None` for any other line).
pub open spec fn line_seq(line: ChainLine) -> Option<u64> {
    match line {
        ChainLine::Text { parsed: LineParse::Entry { entry, .. }, .. } => Some(entry.record.seq),
        _ => None,
    }
}

/// Whether a line was read as blank (and is skipped by the verifier).
pub open spec fn blank_line(line: ChainLine) -> bool {
    line matches ChainLine::Text { text, .. } && is_blank(text@)
}

/// An accepted chain is in order: when every line of `lines`, none of
/// them blank, is read from position `seq`, the `i`-th line is an entry
/// carrying sequence number `seq + i`. Entries cannot be dropped,
/// duplicated or reordered without the verifier stopping.
pub proof fn lemma_accepted_chain_is_in_order(lines: Seq<ChainLine>, key: Seq<u8>, seq: u64, head: Seq<char>)
    requires
        scan(lines, key, seq, head).0 == lines.len(),
        forall|i: int| 0 <= i < lines.len() ==> !blank_line(#[trigger] lines[i]),
        seq + lines.len() <= u64::MAX,
    ensures
        forall|i: int| 0 <= i < lines.len() ==> #[trigger] line_seq(lines[i]) == Some((seq + i) as u64),
    decreases lines.len(),
{
    if lines.len() > 0 {
        assert(!blank_line(lines[0]));
        match lines[0] {
            ChainLine::Text { text, parsed: LineParse::Entry { entry, canonical } } => {
                let rest = lines.drop_first();
                assert forall|i: int| 0 <= i < rest.len() implies !blank_line(#[trigger] rest[i]) by {
                    assert(rest[i] == lines[i + 1]);
                }
                lemma_accepted_chain_is_in_order(
                    rest,
                    key,
                    seq_after(seq),
                    hex_encoded(link_hash(canonical@, sig_of(entry))),
                );
                assert forall|i: int| 0 <= i < lines.len() implies #[trigger] line_seq(lines[i]) == Some(
                    (seq + i) as u64,
                ) by {
                    if i > 0 {
                        assert(lines[i] == rest[i - 1]);
                    }
                }
            },
            _ => {},
        }
    }
}

/// An accepted chain counts its entries: when every line of `lines`, none
/// of them blank, is read from position `seq`, the verifier ends expecting
/// `seq + lines.len()`, so a chain of `n` entries read from 0 reports `n`
/// entries, and so does each accepted prefix of it.
pub proof fn lemma_accepted_chain_counts(lines: Seq<ChainLine>, key: Seq<u8>, seq: u64, head: Seq<char>)
    requires
        scan(lines, key, seq, head).0 == lines.len(),
        forall|i: int| 0 <= i < lines.len() ==> !blank_line(#[trigger] lines[i]),
        seq + lines.len() <= u64::MAX,
    ensures
        scan(lines, key, seq, head).1 == seq + lines.len(),
    decreases lines.len(),
{
    if lines.len() > 0 {
        assert(!blank_line(lines[0]));
        match lines[0] {
            ChainLine::Text { text, parsed: LineParse::Entry { entry, canonical } } => {
                let rest = lines.drop_first();
                assert forall|i: int| 0 <= i < rest.len() implies !blank_line(#[trigger] rest[i]) by {
                    assert(rest[i] == lines[i + 1]);
                }
                lemma_accepted_chain_counts(
                    rest,
                    key,
                    seq_after(seq),
                    hex_encoded(link_hash(canonical@, sig_of(entry))),
                );
            },
            _ => {},
        }
    }
}

/// The verifier reads at most the lines it is given.
proof fn lemma_scan_within(lines: Seq<ChainLine>, key: Seq<u8>, seq: u64, head: Seq<char>)
    ensures
        scan(lines, key, seq, head).0 <= lines.len(),
    decreases lines.len(),
{
    if lines.len() > 0 {
        match lines[0] {
            ChainLine::Text { text, parsed } => {
                if is_blank(text@) {
                    lemma_scan_within(lines.drop_first(), key, seq, head);
                } else {
                    match parsed {
                        LineParse::Entry { entry, canonical } => {
                            lemma_scan_within(
                                lines.drop_first(),
                                key,
                                seq_after(seq),
                                hex_encoded(link_hash(canonical@, sig_of(entry))),
                            );
                        },
                        _ => {},
                    }
                }
            },
            _ => {},
        }
    }
}

/// Reordering breaks the chain: when every line of `lines`, none of them
/// blank, is read from position `seq`, the same lines with two neighbours
/// swapped are not all read.
pub proof fn lemma_swapped_chain_is_refused(lines: Seq<ChainLine>, key: Seq<u8>, seq: u64, head: Seq<char>, i: int)
    requires
        scan(lines, key, seq, head).0 == lines.len(),
        forall|j: int| 0 <= j < lines.len() ==> !blank_line(#[trigger] lines[j]),
        seq + lines.len() <= u64::MAX,
        0 <= i,
        i + 1 < lines.len(),
    ensures
        scan(lines.update(i, lines[i + 1]).update(i + 1, lines[i]), key, seq, head).0 < lines.len(),
{
    lemma_accepted_chain_is_in_order(lines, key, seq, head);
    let swapped = lines.update(i, lines[i + 1]).update(i + 1, lines[i]);
    lemma_scan_within(swapped, key, seq, head);
    assert(line_seq(lines[i + 1]) == Some((seq + i + 1) as u64));
    if scan(swapped, key, seq, head).0 == lines.len() {
        assert forall|j: int| 0 <= j < swapped.len() implies !blank_line(#[trigger] swapped[j]) by {
            if j == i {
                assert(swapped[j] == lines[i + 1]);
            } else if j == i + 1 {
                assert(swapped[j] == lines[i]);
            } else {
                assert(swapped[j] == lines[j]);
            }
        }
        lemma_accepted_chain_is_in_order(swapped, key, seq, head);
        assert(swapped[i] == lines[i + 1]);
        assert(line_seq(swapped[i]) == Some((seq + i) as u64));
    }
}

} // verus!
