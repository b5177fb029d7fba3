//! Per-action sandbox construction: the decision of what an action's
//! sandbox will be (seccomp profile, capabilities, resource ceilings, paths,
//! namespaces), made from the verified bundle's declarative profile.

/// Sandbox subsystem errors.
pub mod error;
/// cgroup v2 resource-limit parsing and per-action cgroup naming.
pub mod cgroup;

pub use error::SandboxError;
/// Capability names → a validated capability set.
pub mod capability;
/// Named seccomp profiles.
pub mod seccomp;
/// Sandbox policy → validated plan.
pub mod plan;

pub use cgroup::{CpuMax, MemoryMax};
pub use plan::{Namespaces, NetworkMode, SandboxPlan, SandboxPolicy};
