//! Audit entries, events, and the hash chain.
//!
//! An entry's record is signed and hashed in its canonical byte form. That
//! form is deterministic because every record is made of structs and enums
//! with a fixed field order, with no maps and no floating point, and bulk
//! content (prompts, model output, command output, argument blobs) appears
//! only as its SHA-256 hash.

use vstd::prelude::*;

use crate::audit::key::AuditKeypair;
use crate::crypto::{ed25519_signature, sha256, sha256_digest};
use crate::hex::{encode, hex_encoded};
use crate::mode::OperationMode;
use crate::primitives::id::{ActionId, SessionId};

verus! {

/// The policy decision recorded for a proposed action.
#[derive(Debug, Clone, Copy, PartialEq, Eq, Structural)]
pub enum Decision {
    /// Action permitted by denylist and allowlist.
    Allow,
    /// Action rejected; final for that action.
    Deny,
    /// Action permitted only after explicit operator approval.
    RequireApproval,
}

/// A single recorded event in the life of the daemon.
///
/// Bulk content is referenced by SHA-256 (`*_sha256` fields), never
/// embedded.
#[derive(Debug, Clone, PartialEq, Eq)]
pub enum AuditEvent {
    /// First entry of every log: anchors the chain to an audit key.
    Genesis {
        /// Hex Ed25519 public key that must sign every entry.
        audit_public_key: String,
    },
    /// A new operator session began.
    SessionStarted {
        /// Session identifier.
        session_id: SessionId,
        /// Operating mode selected for the session.
        mode: OperationMode,
        /// Name of the profile in effect.
        profile: String,
    },
    /// A session ended (normally or by kill switch).
    SessionEnded {
        /// Session identifier.
        session_id: SessionId,
        /// Reason the session ended.
        reason: String,
    },
    /// A prompt was sent to the model backend.
    LlmRequest {
        /// Session identifier.
        session_id: SessionId,
        /// Backend name.
        backend: String,
        /// Model identifier.
        model: String,
        /// SHA-256 of the exact prompt bytes sent.
        prompt_sha256: String,
    },
    /// The model backend returned a response.
    LlmResponse {
        /// Session identifier.
        session_id: SessionId,
        /// SHA-256 of the exact response bytes received.
        response_sha256: String,
        /// Whether a canary token leaked into the response.
        canary_triggered: bool,
    },
    /// Policy was evaluated for a proposed action.
    PolicyDecision {
        /// Session identifier.
        session_id: SessionId,
        /// Action identifier.
        action_id: ActionId,
        /// The bundle name the action resolved to.
        exec_name: String,
        /// The decision reached.
        decision: Decision,
        /// Which layer or rule decided.
        reason: String,
    },
    /// An operator (or second approver) approved an action.
    ApprovalGranted {
        /// Session identifier.
        session_id: SessionId,
        /// Action identifier.
        action_id: ActionId,
        /// Identity of the approver.
        approver: String,
    },
    /// An execution request was dispatched to the executor.
    ExecRequested {
        /// Session identifier.
        session_id: SessionId,
        /// Action identifier.
        action_id: ActionId,
        /// The bundle name.
        exec_name: String,
        /// SHA-256 of the canonical argument blob.
        args_sha256: String,
    },
    /// An execution finished.
    ExecCompleted {
        /// Session identifier.
        session_id: SessionId,
        /// Action identifier.
        action_id: ActionId,
        /// Process exit code (`-1` if killed by signal or timeout).
        exit_code: i32,
        /// Wall-clock duration in milliseconds.
        duration_ms: u64,
        /// SHA-256 of captured stdout.
        stdout_sha256: String,
        /// SHA-256 of captured stderr.
        stderr_sha256: String,
    },
    /// A filesystem snapshot was taken before a mutating action.
    SnapshotTaken {
        /// Session identifier.
        session_id: SessionId,
        /// Action identifier.
        action_id: ActionId,
        /// Opaque snapshot identifier.
        snapshot_id: String,
    },
    /// A snapshot was rolled back after a failed action.
    RollbackPerformed {
        /// Session identifier.
        session_id: SessionId,
        /// Action identifier.
        action_id: ActionId,
        /// Snapshot that was restored.
        snapshot_id: String,
    },
    /// A free-form operational note.
    Note {
        /// The message.
        message: String,
    },
}

/// The signed, hashed part of an audit entry. The field order defines the
/// canonical byte form.
#[derive(Debug, Clone, PartialEq, Eq)]
pub struct AuditRecord {
    /// Monotonic sequence number; the genesis entry is `0`.
    pub seq: u64,
    /// Milliseconds since the Unix epoch when the entry was created.
    pub timestamp_ms: u64,
    /// Hex SHA-256 chain hash of the previous entry (64 zeros for genesis).
    pub prev_hash: String,
    /// The event being recorded.
    pub event: AuditEvent,
}

/// A complete audit entry: the record plus its signature.
#[derive(Debug, Clone, PartialEq, Eq)]
pub struct AuditEntry {
    /// The signed, hashed record.
    pub record: AuditRecord,
    /// Hex Ed25519 signature over the record's canonical bytes.
    pub signature: String,
    /// Hex SHA-256 over the canonical bytes followed by the signature
    /// bytes. Stored for inspection only: verification recomputes it.
    pub entry_hash: String,
}

/// The chain hash of an entry: SHA-256 of its canonical bytes followed by
/// its signature bytes.
pub open spec fn link_hash(canonical: Seq<u8>, signature: Seq<u8>) -> Seq<u8> {
    sha256(canonical + signature)
}

/// Computes [`link_hash`]. Binding the signature into the hash prevents
/// swapping a validly signed record's signature for another.
pub fn chain_hash(canonical: &[u8], signature: &[u8; 64]) -> (r: [u8; 32])
    ensures
        r@ == link_hash(canonical@, signature@),
{
    let mut data: Vec<u8> = Vec::new();
    let mut i: usize = 0;
    while i < canonical.len()
        invariant
            i <= canonical@.len(),
            data@ == canonical@.take(i as int),
        decreases canonical.len() - i,
    {
        data.push(canonical[i]);
        i = i + 1;
        assert(data@ =~= canonical@.take(i as int));
    }
    let mut j: usize = 0;
    while j < 64
        invariant
            j <= 64,
            i == canonical@.len(),
            signature@.len() == 64,
            data@ == canonical@.take(i as int) + signature@.take(j as int),
        decreases 64 - j,
    {
        data.push(signature[j]);
        j = j + 1;
        assert(data@ =~= canonical@.take(i as int) + signature@.take(j as int));
    }
    assert(canonical@.take(canonical@.len() as int) =~= canonical@);
    assert(signature@.take(64) =~= signature@);
    sha256_digest(data.as_slice())
}

/// SHA-256 of `content`, hex-encoded: the value of a `*_sha256` field.
pub fn sha256_hex(content: &[u8]) -> (r: String)
    ensures
        r@ == hex_encoded(sha256(content@)),
{
    let digest = sha256_digest(content);
    encode(digest.as_slice())
}

/// The predecessor hash of the genesis entry: 32 zero bytes, in hex.
pub open spec fn genesis_prev_hash() -> Seq<char> {
    hex_encoded(Seq::new(32, |i: int| 0u8))
}

/// [`genesis_prev_hash`] as a string.
pub fn genesis_prev_hash_hex() -> (r: String)
    ensures
        r@ == genesis_prev_hash(),
{
    let zeros = [0u8; 32];
    assert(zeros@ =~= Seq::new(32, |i: int| 0u8));
    encode(zeros.as_slice())
}

/// Signs `record`, whose canonical bytes are `canonical`, and computes its
/// chain hash.
pub fn seal(record: AuditRecord, canonical: &[u8], keypair: &AuditKeypair) -> (r: (AuditEntry, [u8; 32]))
    ensures
        r.0.record == record,
        r.0.signature@ == hex_encoded(ed25519_signature(keypair@, canonical@)),
        r.1@ == link_hash(canonical@, ed25519_signature(keypair@, canonical@)),
        r.0.entry_hash@ == hex_encoded(r.1@),
{
    let signature = keypair.sign(canonical);
    let entry_hash = chain_hash(canonical, &signature);
    let entry = AuditEntry {
        record,
        signature: encode(signature.as_slice()),
        entry_hash: encode(entry_hash.as_slice()),
    };
    (entry, entry_hash)
}

} // verus!
