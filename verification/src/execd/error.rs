//! Executor infrastructure errors.

use vstd::prelude::*;

verus! {

/// Errors that prevent the executor from forming a verdict at all (cannot
/// bind the socket, cannot read the bundle directory). A refused request is
/// not an error: it is a normal response naming the refusing stage.
/// Nothing here is ever read as allow.
#[derive(Debug, Clone, PartialEq, Eq)]
#[non_exhaustive]
pub enum ExecdError {
    /// Socket or filesystem I/O failure (the error's text).
    Io(String),
    /// Configuration was unusable (bad key, missing bundle directory).
    Config(String),
}

} // verus!
