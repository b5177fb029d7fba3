//! Audit errors.

use vstd::prelude::*;

verus! {

/// Errors produced by the audit log writer and verifier.
#[derive(Debug, Clone, PartialEq, Eq)]
#[non_exhaustive]
pub enum AuditError {
    /// Opening, appending to, or reading the log failed (the I/O error's text).
    Io(String),
    /// A log line could not be (de)serialized as a JSON audit entry.
    Serde(String),
    /// A hex-encoded field was malformed.
    Hex(String),
    /// A cryptographic key or signature was malformed.
    Crypto(String),
    /// Chain verification failed: the log was tampered with, truncated,
    /// reordered, or signed by an unexpected key.
    ChainBroken {
        /// Sequence number of the first entry that failed verification.
        seq: u64,
        /// Human-readable explanation of the failure.
        reason: String,
    },
    /// The log held no entry, not even a genesis entry.
    Empty,
}

} // verus!
