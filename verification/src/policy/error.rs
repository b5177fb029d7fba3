//! Policy subsystem error types.

use vstd::prelude::*;

verus! {

/// Errors produced by the policy engine.
///
/// A *denial* is not an error — it is a normal decision. These variants are
/// for failures that prevent a decision from being made at all; callers
/// treat any of them as fail-closed (deny).
#[derive(Debug, Clone, PartialEq, Eq)]
pub enum PolicyError {
    /// The allowlist file could not be read.
    Io(String),
    /// The allowlist file is not valid TOML or has the wrong shape.
    AllowlistParse(String),
    /// A path could not be normalized for matching (not absolute, or holds
    /// an embedded NUL). Such a path is rejected, never allowed.
    BadPath(String),
}

} // verus!
