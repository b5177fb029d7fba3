//! Signed action bundles: their manifest, the operator trust set, signature
//! verification, and argument validation.
//!
//! A bundle is a TOML manifest describing one action: its risk, its
//! argument schema, its declarative sandbox and its payload. A detached
//! signature covers the exact manifest bytes and must come from a key in
//! the operator trust set. Nothing leaves here trusted unless a trusted
//! operator key signed it.
//!
//! Pipeline, in this order:
//!
//! 1. verify the detached signature over the raw manifest bytes;
//! 2. parse the now-authenticated TOML;
//! 3. confirm the payload's SHA-256 matches the signed manifest;
//! 4. later, validate proposed argument values against the schema.

/// Argument schema validation.
pub mod args;
/// Bundle error types.
pub mod error;
/// The typed manifest.
pub mod manifest;
/// The operator trust set.
pub mod trust;
/// Signature verification and the verified-bundle typestate.
pub mod verify;
