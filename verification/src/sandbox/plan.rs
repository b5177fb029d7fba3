//! [`SandboxPolicy`] (the declarative request) → a validated [`SandboxPlan`].
//!
//! The executor maps the verified bundle's `[sandbox]` section onto a
//! [`SandboxPolicy`]; [`SandboxPolicy::plan`] runs every fail-closed check.
//! A [`SandboxPlan`] in hand is proof the request was acceptable.

use vstd::prelude::*;

use crate::sandbox::capability::{all_known, caps_canonical, CapabilitySet};
use crate::sandbox::cgroup::{cpu_percent, memory_bytes, CpuMax, MemoryMax};
use crate::sandbox::error::SandboxError;
use crate::sandbox::seccomp::{bpf_of, inspect_plan, profile_known, Arch, FilterAction, SeccompProfile};
use crate::text::{chars_of, debug_quoted, debug_text, has_char, owned, push_str, split_chars, split_on, string_of, strictly_sorted, utf8_len, utf8_len_at_most};

verus! {

/// Network posture for the action.
#[derive(Debug, Clone, Copy, PartialEq, Eq, Structural)]
pub enum NetworkMode {
    /// No network at all: a fresh, empty network namespace (default-safe).
    Disabled,
    /// Loopback only: a fresh network namespace with `lo` up.
    Loopback,
    /// Egress permitted, still subject to the kernel egress filter.
    Egress,
}

/// Which namespaces the applier will unshare.
#[derive(Debug, Clone, Copy, PartialEq, Eq, Structural)]
pub struct Namespaces {
    /// Mount namespace (mandatory).
    pub mount: bool,
    /// PID namespace (mandatory).
    pub pid: bool,
    /// IPC namespace (mandatory).
    pub ipc: bool,
    /// UTS namespace (mandatory).
    pub uts: bool,
    /// cgroup namespace (mandatory).
    pub cgroup: bool,
    /// User namespace (requested).
    pub user: bool,
    /// Network namespace (fresh unless egress is permitted).
    pub net: bool,
}

/// The declarative sandbox request, mapped from the verified manifest.
#[derive(Debug, Clone)]
pub struct SandboxPolicy {
    /// Named seccomp profile.
    pub syscall_profile: String,
    /// Capability names to retain (default: none).
    pub capabilities: Vec<String>,
    /// Paths to expose read-only.
    pub allowed_paths_ro: Vec<String>,
    /// Paths to expose read-write.
    pub allowed_paths_rw: Vec<String>,
    /// Network posture.
    pub network: NetworkMode,
    /// Optional CPU ceiling string (e.g. `"10%"`).
    pub cpu_max: Option<String>,
    /// Optional memory ceiling string (e.g. `"128M"`).
    pub memory_max: Option<String>,
}

impl Default for SandboxPolicy {
    fn default() -> (r: SandboxPolicy)
        ensures
            r.syscall_profile@.len() == 0,
            r.capabilities@.len() == 0,
            r.allowed_paths_ro@.len() == 0,
            r.allowed_paths_rw@.len() == 0,
            r.network == NetworkMode::Disabled,
            r.cpu_max is None,
            r.memory_max is None,
    {
        SandboxPolicy {
            syscall_profile: String::new(),
            capabilities: Vec::new(),
            allowed_paths_ro: Vec::new(),
            allowed_paths_rw: Vec::new(),
            network: NetworkMode::Disabled,
            cpu_max: None,
            memory_max: None,
        }
    }
}

/// A path the sandbox may expose: non-empty, absolute, at most 4096 bytes,
/// no NUL, no `..` component, and no empty component between two slashes.
pub open spec fn valid_path(p: Seq<char>) -> bool {
    &&& p.len() > 0
    &&& p[0] == '/'
    &&& utf8_len(p) <= 4096
    &&& !p.contains('\0')
    &&& forall|i: int| 0 <= i < split_on(p, '/').len() ==> #[trigger] split_on(p, '/')[i] != seq!['.', '.']
    &&& forall|i: int| 0 < i < split_on(p, '/').len() - 1 ==> #[trigger] split_on(p, '/')[i].len() > 0
}

/// Why `p` is refused (the first failing check), or `None` for a valid path.
pub open spec fn path_refusal(p: Seq<char>) -> Option<Seq<char>> {
    if p.len() == 0 {
        Some("empty"@)
    } else if p[0] != '/' {
        Some("must be absolute"@)
    } else if utf8_len(p) > 4096 {
        Some("too long"@)
    } else if p.contains('\0') {
        Some("contains NUL"@)
    } else if exists|i: int| 0 <= i < split_on(p, '/').len() && #[trigger] split_on(p, '/')[i] == seq!['.', '.'] {
        Some("contains a `..` component"@)
    } else if exists|i: int| 0 < i < split_on(p, '/').len() - 1 && #[trigger] split_on(p, '/')[i].len() == 0 {
        Some("contains an empty component"@)
    } else {
        None
    }
}

/// The refusal text for path `p` and reason `m`: `path "<p>": <m>`.
pub open spec fn path_message(p: Seq<char>, m: Seq<char>) -> Seq<char> {
    "path "@ + debug_quoted(p) + ": "@ + m
}

/// The `InvalidProfile` error for path `p` refused for reason `m`.
fn path_error(p: &str, m: &str) -> (e: SandboxError)
    ensures
        e matches SandboxError::InvalidProfile(t) && t@ == path_message(p@, m@),
{
    let mut v: Vec<char> = Vec::new();
    push_str(&mut v, "path ");
    let q = debug_text(p);
    push_str(&mut v, q.as_str());
    push_str(&mut v, ": ");
    push_str(&mut v, m);
    SandboxError::InvalidProfile(string_of(v.as_slice()))
}

/// Reject anything that is not a clean, absolute path: traversal, relative
/// paths, NUL, over-long and empty paths, and empty components are refused
/// with `InvalidProfile`; the first failing check names the reason.
pub fn validate_path(p: &str) -> (r: Result<(), SandboxError>)
    ensures
        r is Ok <==> valid_path(p@),
        valid_path(p@) <==> path_refusal(p@) is None,
        r matches Err(e) ==> (e matches SandboxError::InvalidProfile(t) && t@ == path_message(p@, path_refusal(p@)->0)),
{
    let c = chars_of(p);
    if c.len() == 0 {
        return Err(path_error(p, "empty"));
    }
    if c[0] != '/' {
        return Err(path_error(p, "must be absolute"));
    }
    if !utf8_len_at_most(c.as_slice(), 4096) {
        return Err(path_error(p, "too long"));
    }
    if has_char(c.as_slice(), '\0') {
        return Err(path_error(p, "contains NUL"));
    }
    let parts = split_chars(c.as_slice(), '/');
    let mut i: usize = 0;
    while i < parts.len()
        invariant
            i <= parts@.len(),
            p@.len() > 0,
            p@[0] == '/',
            utf8_len(p@) <= 4096,
            !p@.contains('\0'),
            parts@.len() == split_on(p@, '/').len(),
            forall|j: int| 0 <= j < parts@.len() ==> #[trigger] parts@[j]@ == split_on(p@, '/')[j],
            forall|j: int| 0 <= j < i ==> #[trigger] split_on(p@, '/')[j] != seq!['.', '.'],
        decreases parts.len() - i,
    {
        let part = &parts[i];
        if part.len() == 2 && part[0] == '.' && part[1] == '.' {
            assert(part@ =~= seq!['.', '.']);
            assert(split_on(p@, '/')[i as int] == seq!['.', '.']);
            return Err(path_error(p, "contains a `..` component"));
        }
        proof {
            if part@ == seq!['.', '.'] {
                assert(part@[0] == '.' && part@[1] == '.');
            }
        }
        i = i + 1;
    }
    let mut k: usize = 1;
    while k < parts.len() && k + 1 < parts.len()
        invariant
            1 <= k,
            p@.len() > 0,
            p@[0] == '/',
            utf8_len(p@) <= 4096,
            !p@.contains('\0'),
            forall|j: int| 0 <= j < split_on(p@, '/').len() ==> #[trigger] split_on(p@, '/')[j] != seq!['.', '.'],
            parts@.len() == split_on(p@, '/').len(),
            forall|j: int| 0 <= j < parts@.len() ==> #[trigger] parts@[j]@ == split_on(p@, '/')[j],
            forall|j: int| 0 < j < k && j < parts@.len() - 1 ==> #[trigger] split_on(p@, '/')[j].len() > 0,
        decreases parts.len() - k,
    {
        if parts[k].len() == 0 {
            assert(split_on(p@, '/')[k as int].len() == 0);
            return Err(path_error(p, "contains an empty component"));
        }
        k = k + 1;
    }
    Ok(())
}

/// An optional CPU ceiling that parses (or is absent).
pub open spec fn cpu_ok(c: Option<String>) -> bool {
    match c {
        Some(s) => cpu_percent(s@) is Some,
        None => true,
    }
}

/// An optional memory ceiling that parses (or is absent).
pub open spec fn memory_ok(m: Option<String>) -> bool {
    match m {
        Some(s) => memory_bytes(s@) is Some,
        None => true,
    }
}

/// Every declared path, read-only then read-write, is valid.
pub open spec fn paths_ok(ro: Seq<String>, rw: Seq<String>) -> bool {
    (forall|i: int| 0 <= i < ro.len() ==> valid_path(#[trigger] ro[i]@))
        && (forall|i: int| 0 <= i < rw.len() ==> valid_path(#[trigger] rw[i]@))
}

/// A fully validated, ready-to-apply sandbox description.
#[derive(Debug, Clone)]
pub struct SandboxPlan {
    seccomp: SeccompProfile,
    capabilities: CapabilitySet,
    cpu_max: Option<CpuMax>,
    memory_max: Option<MemoryMax>,
    paths_ro: Vec<String>,
    paths_rw: Vec<String>,
    network: NetworkMode,
    namespaces: Namespaces,
}

/// Validates every path in `paths`.
fn validate_all(paths: &Vec<String>) -> (r: Result<(), SandboxError>)
    ensures
        r is Ok <==> forall|i: int| 0 <= i < paths@.len() ==> valid_path(#[trigger] paths@[i]@),
        r matches Err(e) ==> e is InvalidProfile,
{
    let mut i: usize = 0;
    while i < paths.len()
        invariant
            i <= paths@.len(),
            forall|j: int| 0 <= j < i ==> valid_path(#[trigger] paths@[j]@),
        decreases paths.len() - i,
    {
        match validate_path(paths[i].as_str()) {
            Ok(()) => {},
            Err(e) => {
                return Err(e);
            },
        }
        i = i + 1;
    }
    Ok(())
}

impl SandboxPolicy {
    /// Every check of [`SandboxPolicy::plan`] passes: a known seccomp
    /// profile, known capabilities, parseable limits and valid paths.
    pub open spec fn acceptable(self) -> bool {
        &&& profile_known(self.syscall_profile@)
        &&& all_known(self.capabilities@)
        &&& cpu_ok(self.cpu_max)
        &&& memory_ok(self.memory_max)
        &&& paths_ok(self.allowed_paths_ro@, self.allowed_paths_rw@)
    }

    /// What a plan resolved from this policy for `arch` holds: the
    /// `inspect` program lowered with kill-on-mismatch, the canonical
    /// capabilities (ascending, without repetition), the parsed limits, the
    /// declared paths and network posture, and every mandatory namespace
    /// (the network one unless egress is permitted).
    pub open spec fn planned(self, p: SandboxPlan, arch: Arch) -> bool {
        &&& p.spec_profile() == self.syscall_profile@
        &&& p.spec_seccomp().spec_program() == bpf_of(
            inspect_plan(arch),
            FilterAction::KillProcess,
            FilterAction::Allow,
            arch,
        )
        &&& strictly_sorted(p.spec_capabilities())
        &&& p.spec_capabilities().to_set() == self.capabilities@.map_values(|d: String| caps_canonical(d@)).to_set()
        &&& p.spec_network() == self.network
        &&& p.spec_namespaces() == (Namespaces {
            mount: true,
            pid: true,
            ipc: true,
            uts: true,
            cgroup: true,
            user: true,
            net: self.network != NetworkMode::Egress,
        })
        &&& p.spec_paths_ro() == self.allowed_paths_ro@
        &&& p.spec_paths_rw() == self.allowed_paths_rw@
        &&& (match self.cpu_max {
            Some(c) => p.spec_cpu_max() matches Some(x) && Some(x.spec_percent()) == cpu_percent(c@),
            None => p.spec_cpu_max() is None,
        })
        &&& (match self.memory_max {
            Some(m) => p.spec_memory_max() matches Some(x) && Some(x.spec_bytes()) == memory_bytes(m@),
            None => p.spec_memory_max() is None,
        })
    }

    /// Validate this policy and resolve it into a [`SandboxPlan`], with the
    /// seccomp profile compiled for `arch`.
    ///
    /// Fail-closed; the first failing check wins, in this order: unknown
    /// seccomp profile, unknown capability, invalid CPU limit, invalid memory limit, invalid
    /// path.
    #[verifier::rlimit(40)]
    pub fn plan(&self, arch: Arch) -> (r: Result<SandboxPlan, SandboxError>)
        ensures
            r is Ok <==> self.acceptable(),
            !profile_known(self.syscall_profile@) ==> (r matches Err(e) && e is UnknownProfile),
            profile_known(self.syscall_profile@) && !all_known(self.capabilities@) ==> (r matches Err(e)
                && e is UnknownCapability),
            profile_known(self.syscall_profile@) && all_known(self.capabilities@) && !(cpu_ok(self.cpu_max)
                && memory_ok(self.memory_max)) ==> (r matches Err(e) && e is InvalidLimit),
            profile_known(self.syscall_profile@) && all_known(self.capabilities@) && cpu_ok(self.cpu_max)
                && memory_ok(self.memory_max) && !paths_ok(self.allowed_paths_ro@, self.allowed_paths_rw@) ==> (
            r matches Err(e) && e is InvalidProfile),
            r matches Ok(p) ==> self.planned(p, arch),
    {
        let seccomp = SeccompProfile::compile(self.syscall_profile.as_str(), arch)?;
        let capabilities = CapabilitySet::resolve(&self.capabilities)?;
        let cpu_max = match &self.cpu_max {
            Some(s) => Some(CpuMax::parse(s.as_str())?),
            None => None,
        };
        let memory_max = match &self.memory_max {
            Some(s) => Some(MemoryMax::parse(s.as_str())?),
            None => None,
        };
        validate_all(&self.allowed_paths_ro)?;
        validate_all(&self.allowed_paths_rw)?;
        let net = match self.network {
            NetworkMode::Egress => false,
            _ => true,
        };
        let namespaces = Namespaces {
            mount: true,
            pid: true,
            ipc: true,
            uts: true,
            cgroup: true,
            user: true,
            net,
        };
        Ok(
            SandboxPlan {
                seccomp,
                capabilities,
                cpu_max,
                memory_max,
                paths_ro: self.allowed_paths_ro.clone(),
                paths_rw: self.allowed_paths_rw.clone(),
                network: self.network,
                namespaces,
            },
        )
    }
}

impl SandboxPlan {
    /// The selected seccomp profile's name.
    pub closed spec fn spec_profile(self) -> Seq<char> {
        self.seccomp.spec_name()
    }

    /// The compiled seccomp profile.
    pub closed spec fn spec_seccomp(self) -> SeccompProfile {
        self.seccomp
    }

    /// The capabilities to retain, canonical and ascending.
    pub closed spec fn spec_capabilities(self) -> Seq<Seq<char>> {
        self.capabilities.spec_names()
    }

    /// The resolved network posture.
    pub closed spec fn spec_network(self) -> NetworkMode {
        self.network
    }

    /// The namespaces to unshare.
    pub closed spec fn spec_namespaces(self) -> Namespaces {
        self.namespaces
    }

    /// Read-only paths.
    pub closed spec fn spec_paths_ro(self) -> Seq<String> {
        self.paths_ro@
    }

    /// Read-write paths.
    pub closed spec fn spec_paths_rw(self) -> Seq<String> {
        self.paths_rw@
    }

    /// The CPU ceiling.
    pub closed spec fn spec_cpu_max(self) -> Option<CpuMax> {
        self.cpu_max
    }

    /// The memory ceiling.
    pub closed spec fn spec_memory_max(self) -> Option<MemoryMax> {
        self.memory_max
    }

    /// The selected seccomp profile.
    pub fn seccomp(&self) -> (r: &SeccompProfile)
        ensures
            *r == self.spec_seccomp(),
            r.spec_name() == self.spec_profile(),
    {
        &self.seccomp
    }

    /// The capability set to retain (all others dropped).
    pub fn capabilities(&self) -> (r: &CapabilitySet)
        ensures
            r.spec_names() == self.spec_capabilities(),
    {
        &self.capabilities
    }

    /// The validated CPU ceiling, if the bundle declared one.
    pub fn cpu_max(&self) -> (r: Option<CpuMax>)
        ensures
            r == self.spec_cpu_max(),
    {
        self.cpu_max
    }

    /// The validated memory ceiling, if the bundle declared one.
    pub fn memory_max(&self) -> (r: Option<MemoryMax>)
        ensures
            r == self.spec_memory_max(),
    {
        self.memory_max
    }

    /// Paths to expose read-only in the mount namespace.
    pub fn paths_ro(&self) -> (r: &Vec<String>)
        ensures
            r@ == self.spec_paths_ro(),
    {
        &self.paths_ro
    }

    /// Paths to expose read-write in the mount namespace.
    pub fn paths_rw(&self) -> (r: &Vec<String>)
        ensures
            r@ == self.spec_paths_rw(),
    {
        &self.paths_rw
    }

    /// The resolved network posture.
    pub fn network(&self) -> (r: NetworkMode)
        ensures
            r == self.spec_network(),
    {
        self.network
    }

    /// The namespaces the applier must unshare.
    pub fn namespaces(&self) -> (r: Namespaces)
        ensures
            r == self.spec_namespaces(),
    {
        self.namespaces
    }
}

} // verus!
