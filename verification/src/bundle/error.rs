//! Bundle error types.

use vstd::prelude::*;

use crate::text::{debug_quoted, debug_text, push_str, string_of};

verus! {

/// Errors produced while loading, verifying or validating a bundle.
///
/// Every variant is a rejection: a bundle that does not load as `Ok` must
/// not be executed.
#[derive(Debug, Clone, PartialEq, Eq)]
#[non_exhaustive]
pub enum ExecFormatError {
    /// Bundle or signature file could not be read (the I/O error's text).
    Io(String),
    /// The detached signature is malformed (wrong length, not hex).
    BadSignature(String),
    /// No trusted operator key produced a valid signature over the bundle.
    Untrusted,
    /// The operator trust file is malformed.
    BadTrustFile(String),
    /// The manifest is not valid TOML or violates the schema.
    BadManifest(String),
    /// The payload bytes do not match the SHA-256 the manifest declares.
    PayloadHashMismatch {
        /// Hash the signed manifest declares (trimmed, lowercased).
        declared: String,
        /// Hash computed over the payload.
        actual: String,
    },
    /// A declared argument pattern failed to compile.
    BadArgRegex {
        /// The argument whose pattern is invalid.
        arg: String,
        /// The compiler's error text.
        source: String,
    },
    /// Provided arguments failed schema validation.
    ArgRejected(String),
}

/// The text of a bundle error.
pub open spec fn bundle_error_text(e: ExecFormatError) -> Seq<char> {
    match e {
        ExecFormatError::Io(m) => "I/O error reading bundle: "@ + m@,
        ExecFormatError::BadSignature(m) => "malformed signature: "@ + m@,
        ExecFormatError::Untrusted => "signature does not verify against any trusted operator key"@,
        ExecFormatError::BadTrustFile(m) => "invalid operator trust file: "@ + m@,
        ExecFormatError::BadManifest(m) => "invalid manifest: "@ + m@,
        ExecFormatError::PayloadHashMismatch { declared, actual } => "payload hash mismatch: manifest declares "@
            + declared@ + ", payload is "@ + actual@,
        ExecFormatError::BadArgRegex { arg, source } => "argument "@ + debug_quoted(arg@)
            + " has an invalid regex: "@ + source@,
        ExecFormatError::ArgRejected(m) => "argument validation failed: "@ + m@,
    }
}

impl ExecFormatError {
    /// The error's text.
    pub fn to_string(&self) -> (r: String)
        ensures
            r@ == bundle_error_text(*self),
    {
        let mut v: Vec<char> = Vec::new();
        match self {
            ExecFormatError::Io(m) => {
                push_str(&mut v, "I/O error reading bundle: ");
                push_str(&mut v, m.as_str());
            },
            ExecFormatError::BadSignature(m) => {
                push_str(&mut v, "malformed signature: ");
                push_str(&mut v, m.as_str());
            },
            ExecFormatError::Untrusted => {
                push_str(&mut v, "signature does not verify against any trusted operator key");
            },
            ExecFormatError::BadTrustFile(m) => {
                push_str(&mut v, "invalid operator trust file: ");
                push_str(&mut v, m.as_str());
            },
            ExecFormatError::BadManifest(m) => {
                push_str(&mut v, "invalid manifest: ");
                push_str(&mut v, m.as_str());
            },
            ExecFormatError::PayloadHashMismatch { declared, actual } => {
                push_str(&mut v, "payload hash mismatch: manifest declares ");
                push_str(&mut v, declared.as_str());
                push_str(&mut v, ", payload is ");
                push_str(&mut v, actual.as_str());
            },
            ExecFormatError::BadArgRegex { arg, source } => {
                push_str(&mut v, "argument ");
                let q = debug_text(arg.as_str());
                push_str(&mut v, q.as_str());
                push_str(&mut v, " has an invalid regex: ");
                push_str(&mut v, source.as_str());
            },
            ExecFormatError::ArgRejected(m) => {
                push_str(&mut v, "argument validation failed: ");
                push_str(&mut v, m.as_str());
            },
        }
        string_of(v.as_slice())
    }
}

} // verus!
