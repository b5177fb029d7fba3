//! Hash-chained, signed, append-only audit log.
//!
//! Every entry carries a monotonic sequence number, embeds the hash of the
//! previous entry, is signed with the daemon's Ed25519 audit key, and binds
//! its own signature into its chain hash so signatures cannot be moved
//! between records. Tampering with, reordering, truncating or re-signing
//! any entry makes chain verification fail at the first offending sequence
//! number: the log makes tampering evident after the fact.
//!
//! The bytes that are signed and hashed are the canonical JSON encoding of
//! an entry's record; producing them is the caller's part, and this module
//! works on those bytes.

/// Audit entries, events, and the hash chain.
pub mod entry;
/// Audit errors.
pub mod error;
/// Ed25519 key handling.
pub mod key;
/// The log writer's chaining state.
pub mod log;
/// Chain verification.
pub mod verify;
