//! The typed manifest of a bundle.
//!
//! Unknown keys in a signed manifest are a rejection, not something to
//! ignore: a later release must never silently skip a field a newer bundle
//! added. The argument schema is held in ascending name order with distinct
//! names, as a map would hold it.

use vstd::prelude::*;

use crate::mode::RiskLevel;

verus! {

/// A fully parsed manifest.
#[derive(Debug, Clone, PartialEq, Eq)]
pub struct ExecManifest {
    /// Identity and risk metadata.
    pub meta: Meta,
    /// Declared argument schema, by argument name. Empty if the bundle
    /// takes none.
    pub args: Vec<(String, ArgSpec)>,
    /// Declarative sandbox profile; the executor builds it, the bundle
    /// cannot widen it.
    pub sandbox: SandboxSpec,
    /// The script to run.
    pub payload: Payload,
    /// Optional post-execution health check.
    pub health_check: Option<HealthCheck>,
}

/// `[meta]`: identity and risk classification.
#[derive(Debug, Clone, PartialEq, Eq)]
pub struct Meta {
    /// Bundle name (equals the file stem).
    pub name: String,
    /// Semantic version string.
    pub version: String,
    /// Risk level; `critical` triggers the two-person rule in every mode.
    pub risk: RiskLevel,
    /// The bundle performs no mutation and may run in read-only mode.
    pub read_only: bool,
    /// A filesystem snapshot is taken before execution.
    pub mutates_persistent_state: bool,
    /// The action needs network egress (subject to the egress filter).
    pub requires_network: bool,
}

/// One entry of the `[args]` schema.
#[derive(Debug, Clone, PartialEq, Eq)]
pub struct ArgSpec {
    /// Value type.
    pub ty: ArgType,
    /// Optional pattern the value must fully match; anchored at both ends
    /// by the validator.
    pub regex: Option<String>,
    /// Whether the argument must be supplied.
    pub required: bool,
}

/// Supported argument value types.
#[derive(Debug, Clone, Copy, PartialEq, Eq, Structural)]
#[non_exhaustive]
pub enum ArgType {
    /// A UTF-8 string, optionally constrained by `regex`.
    Text,
}

/// `[sandbox]`: the declarative isolation profile.
#[derive(Debug, Clone, PartialEq, Eq)]
pub struct SandboxSpec {
    /// Linux capabilities to grant (empty by default).
    pub capabilities: Vec<String>,
    /// Paths mountable read-only inside the sandbox.
    pub allowed_paths_ro: Vec<String>,
    /// Paths mountable read-write inside the sandbox.
    pub allowed_paths_rw: Vec<String>,
    /// Named seccomp profile to install.
    pub syscall_profile: String,
    /// Network policy for the action's network namespace.
    pub network: NetworkPolicy,
    /// Optional CPU ceiling, e.g. `"10%"`.
    pub cpu_max: Option<String>,
    /// Optional memory ceiling, e.g. `"128M"`.
    pub memory_max: Option<String>,
    /// Hard wall-clock timeout in seconds.
    pub timeout_seconds: u32,
}

/// Network policy declared by a bundle.
#[derive(Debug, Clone, Copy, PartialEq, Eq, Structural)]
#[non_exhaustive]
pub enum NetworkPolicy {
    /// No network at all (written `none`; the safe default).
    Disabled,
    /// Loopback only.
    Loopback,
    /// Egress permitted, still subject to the egress filter.
    Egress,
}

/// Payload kind.
#[derive(Debug, Clone, Copy, PartialEq, Eq, Structural)]
#[non_exhaustive]
pub enum PayloadType {
    /// A bash script.
    Bash,
}

/// `[payload]`: what actually runs. Its SHA-256 binds it to the signed
/// manifest.
#[derive(Debug, Clone, PartialEq, Eq)]
pub struct Payload {
    /// Payload kind.
    pub ty: PayloadType,
    /// Hex SHA-256 of the payload bytes.
    pub sha256: String,
    /// Inline payload source.
    pub inline: String,
}

/// `[health_check]`: optional post-action verification.
#[derive(Debug, Clone, PartialEq, Eq)]
pub struct HealthCheck {
    /// Command template (may reference `{{ args.* }}`).
    pub command: String,
    /// Expected exit code for healthy.
    pub expect_exit: i32,
    /// Health-check timeout in seconds.
    pub timeout_seconds: u32,
}

} // verus!
