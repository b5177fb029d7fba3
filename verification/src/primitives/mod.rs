//! Shared primitives: typed identifiers, secret containers, and their
//! error type. Nothing here performs I/O or holds global state.

/// Errors produced by the primitives.
pub mod error;
/// Typed 128-bit identifiers for sessions and actions.
pub mod id;
/// Containers for secret material.
pub mod secret;
