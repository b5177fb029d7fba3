//! Sandbox subsystem errors.

use vstd::prelude::*;

use crate::text::{debug_quoted, debug_text, push_str, string_of};

verus! {

/// Why a sandbox plan could not be built (or applied).
///
/// Every variant is fail-closed at the call site: an action whose sandbox
/// plan cannot be constructed must not run.
#[derive(Debug, Clone, PartialEq, Eq)]
pub enum SandboxError {
    /// The bundle named a seccomp profile this build does not define.
    UnknownProfile(String),
    /// The bundle requested a capability that is not a recognized Linux capability.
    UnknownCapability(String),
    /// A resource limit (`cpu_max` / `memory_max`) was invalid. Never "unlimited".
    InvalidLimit(String),
    /// The declarative profile was internally inconsistent (e.g. a bad path).
    InvalidProfile(String),
    /// Compiling the seccomp allowlist into a BPF program failed.
    SeccompCompile(String),
    /// A declared cgroup limit could not be applied.
    CgroupFailed(String),
    /// The sandbox is not available on this platform/build.
    Unsupported,
}

/// The text of a sandbox error.
pub open spec fn sandbox_error_text(e: SandboxError) -> Seq<char> {
    match e {
        SandboxError::UnknownProfile(p) => "unknown seccomp profile "@ + debug_quoted(p@),
        SandboxError::UnknownCapability(c) => "unknown capability "@ + debug_quoted(c@),
        SandboxError::InvalidLimit(m) => "invalid resource limit: "@ + m@,
        SandboxError::InvalidProfile(m) => "invalid sandbox profile: "@ + m@,
        SandboxError::SeccompCompile(m) => "seccomp compilation failed: "@ + m@,
        SandboxError::CgroupFailed(m) => "cgroup limit could not be applied: "@ + m@,
        SandboxError::Unsupported => "sandbox unsupported on this platform"@,
    }
}

impl SandboxError {
    /// The error's text.
    pub fn to_string(&self) -> (r: String)
        ensures
            r@ == sandbox_error_text(*self),
    {
        let mut v: Vec<char> = Vec::new();
        match self {
            SandboxError::UnknownProfile(p) => {
                push_str(&mut v, "unknown seccomp profile ");
                let q = debug_text(p.as_str());
                push_str(&mut v, q.as_str());
            },
            SandboxError::UnknownCapability(c) => {
                push_str(&mut v, "unknown capability ");
                let q = debug_text(c.as_str());
                push_str(&mut v, q.as_str());
            },
            SandboxError::InvalidLimit(m) => {
                push_str(&mut v, "invalid resource limit: ");
                push_str(&mut v, m.as_str());
            },
            SandboxError::InvalidProfile(m) => {
                push_str(&mut v, "invalid sandbox profile: ");
                push_str(&mut v, m.as_str());
            },
            SandboxError::SeccompCompile(m) => {
                push_str(&mut v, "seccomp compilation failed: ");
                push_str(&mut v, m.as_str());
            },
            SandboxError::CgroupFailed(m) => {
                push_str(&mut v, "cgroup limit could not be applied: ");
                push_str(&mut v, m.as_str());
            },
            SandboxError::Unsupported => {
                push_str(&mut v, "sandbox unsupported on this platform");
            },
        }
        string_of(v.as_slice())
    }
}

} // verus!
