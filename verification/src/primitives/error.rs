//! Errors produced by the shared primitives.

use vstd::prelude::*;

verus! {

/// Errors produced by the shared primitives.
#[derive(Debug, Clone, PartialEq, Eq)]
#[non_exhaustive]
pub enum CoreError {
    /// An identifier string was malformed or had the wrong length.
    InvalidId(String),
}

} // verus!
