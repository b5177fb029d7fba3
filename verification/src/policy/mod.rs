//! Policy engine: the immutable denylist and the per-profile allowlist.
//!
//! Evaluation is deny-first and fail-closed:
//!
//! 1. every command the action would run is checked against the denylist;
//! 2. every path the action would touch is checked against the denylist;
//! 3. only if nothing is denied, the allowlist must explicitly permit the
//!    bundle for the active profile and mode;
//! 4. anything not explicitly allowed is refused.
//!
//! A denied or unprovable input never becomes allowed. This module makes
//! the decision; enforcement is the executor's job.

/// Per-profile allowlist.
pub mod allowlist;
/// The immutable, compiled-in denylist.
pub mod denylist;
/// The combined engine.
pub mod engine;
/// Policy subsystem error types.
pub mod error;
/// Lexical path normalization (denylist evasion resistance).
pub mod pathnorm;
