//! Shared, fail-closed configuration for the daemon and the executor.
//!
//! One schema and one validator, used by both daemons, so the control plane
//! and the executor never disagree about paths, sockets, or the
//! peer-credential gates. Validation is fail-closed: settings that weaken
//! security below the documented baseline are a refusal to start, never a
//! silent downgrade.
//!
//! Paths are held as strings; a path is absolute when it begins with `/`.

use vstd::prelude::*;

use crate::egress::{all_rules_ok, allow_word, bad_rule_for, deny_word, egress_error_text, normalized_default, rule_of, EgressError, EgressPolicy};
use crate::mode::OperationMode;
use crate::text::{chars_eq, chars_of, debug_quoted, debug_text, oct_digits, owned, push_oct, push_str, starts_with, string_of};

verus! {

/// Why a configuration was rejected.
#[derive(Debug, Clone, PartialEq, Eq)]
#[non_exhaustive]
pub enum ConfigError {
    /// The file could not be read (the I/O error's text).
    Io(String),
    /// The file was not valid TOML or had the wrong shape, including a
    /// missing required field such as `sockets.operator_uid`.
    Parse(String),
    /// The configuration parsed but violates a security baseline.
    Invalid(String),
}

/// Default `daemon.audit_key`.
pub fn d_audit_key() -> (r: String)
    ensures
        r@ == "/etc/archangel/trust/audit.key"@,
{
    owned("/etc/archangel/trust/audit.key")
}

/// Default `daemon.operator_pubkey`.
pub fn d_operator_pub() -> (r: String)
    ensures
        r@ == "/etc/archangel/trust/operator.pub"@,
{
    owned("/etc/archangel/trust/operator.pub")
}

/// Default `daemon.allowlist`.
pub fn d_allowlist() -> (r: String)
    ensures
        r@ == "/etc/archangel/policies/allowlist.toml"@,
{
    owned("/etc/archangel/policies/allowlist.toml")
}

/// Default `daemon.bundle_dir`.
pub fn d_bundle_dir() -> (r: String)
    ensures
        r@ == "/etc/archangel/exec"@,
{
    owned("/etc/archangel/exec")
}

/// Default `daemon.session_pub`.
pub fn d_session_pub() -> (r: String)
    ensures
        r@ == "/run/archangel/session.pub"@,
{
    owned("/run/archangel/session.pub")
}

/// Default `sockets.control_mode`: owner and group read/write.
pub fn d_ctl_mode() -> (r: u32)
    ensures
        r == 0o660,
{
    0o660
}

/// Default `sockets.control_group`.
pub fn d_ctl_group() -> (r: String)
    ensures
        r@ == "archangel"@,
{
    owned("archangel")
}

/// `[daemon]`.
#[derive(Debug, Clone)]
pub struct DaemonCfg {
    /// Operator trust store: public keys allowed to sign bundles and policies.
    pub trust_store: String,
    /// Append-only audit log path.
    pub audit_log: String,
    /// Persistent audit signing key (hex seed).
    pub audit_key: String,
    /// Pinned operator public key for control-socket authentication.
    pub operator_pubkey: String,
    /// Allowlist TOML.
    pub allowlist: String,
    /// Directory of signed bundles.
    pub bundle_dir: String,
    /// Where the daemon publishes its per-run session public key.
    pub session_pub: String,
}

/// `[sockets]`.
#[derive(Debug, Clone)]
pub struct SocketsCfg {
    /// Operator control socket.
    pub control: String,
    /// Control socket file mode.
    pub control_mode: u32,
    /// Group that owns the control socket.
    pub control_group: String,
    /// Executor socket.
    pub exec_socket: String,
    /// UID allowed to connect to the control socket. Required.
    pub operator_uid: u32,
    /// UID the daemon runs as; the executor accepts only this UID. Required.
    pub daemon_uid: u32,
}

/// `[session]`.
#[derive(Debug, Clone)]
pub struct SessionCfg {
    /// Per-task context isolation.
    pub per_task_isolation: bool,
    /// Per-session lifetime in seconds.
    pub ttl_seconds: u64,
}

impl Default for SessionCfg {
    fn default() -> (r: SessionCfg)
        ensures
            r.per_task_isolation,
            r.ttl_seconds == 3600,
    {
        SessionCfg { per_task_isolation: true, ttl_seconds: 3600 }
    }
}

/// `[modes]`.
#[derive(Debug, Clone)]
pub struct ModesCfg {
    /// Default mode for new sessions.
    pub default: OperationMode,
    /// Whether autonomous mode is permitted on this host at all.
    pub autonomous_allowed: bool,
}

impl Default for ModesCfg {
    /// Fail-closed: an omitted `[modes]` section gives the safest posture
    /// (no mutation); an operator opts into mutation explicitly.
    fn default() -> (r: ModesCfg)
        ensures
            r.default == OperationMode::ReadOnly,
            !r.autonomous_allowed,
    {
        ModesCfg { default: OperationMode::ReadOnly, autonomous_allowed: false }
    }
}

/// `[llm]`.
#[derive(Debug, Clone)]
pub struct LlmCfg {
    /// Active backend name (`anthropic` or `ollama`).
    pub default_backend: String,
    /// Model id; `None` lets the daemon pick a per-backend default.
    pub model: Option<String>,
    /// Max tokens per completion.
    pub max_tokens: u32,
}

impl Default for LlmCfg {
    fn default() -> (r: LlmCfg)
        ensures
            r.default_backend@ == "ollama"@,
            r.model is None,
            r.max_tokens == 1024,
    {
        LlmCfg { default_backend: owned("ollama"), model: None, max_tokens: 1024 }
    }
}

/// `[rate_limits]`: host-wide blast-rate ceilings, enforced by the
/// executor. `0` means none permitted, not unlimited.
#[derive(Debug, Clone, Copy)]
pub struct RateLimitsCfg {
    /// Max actions of any kind admitted per 60 s.
    pub actions_per_minute: u32,
    /// Max mutating actions admitted per 60 s.
    pub mutating_actions_per_minute: u32,
    /// Max critical-risk actions admitted per hour.
    pub critical_actions_per_hour: u32,
    /// Max approval requests per 60 s (enforced by the daemon).
    pub approval_requests_per_minute: u32,
}

impl Default for RateLimitsCfg {
    fn default() -> (r: RateLimitsCfg)
        ensures
            r.actions_per_minute == 20,
            r.mutating_actions_per_minute == 5,
            r.critical_actions_per_hour == 2,
            r.approval_requests_per_minute == 10,
    {
        RateLimitsCfg {
            actions_per_minute: 20,
            mutating_actions_per_minute: 5,
            critical_actions_per_hour: 2,
            approval_requests_per_minute: 10,
        }
    }
}

/// One `[[monitor.patterns]]` entry: an operator-defined log trigger.
#[derive(Debug, Clone)]
pub struct MonitorPatternCfg {
    /// Human label.
    pub label: String,
    /// Linear-time regular expression matched against each log line.
    pub regex: String,
}

/// `[monitor]`: real-time log monitoring, off by default.
#[derive(Debug, Clone)]
pub struct MonitorCfg {
    /// Master switch.
    pub enabled: bool,
    /// How often (seconds) to poll the watched files.
    pub poll_interval_secs: u64,
    /// Per-trigger cooldown (seconds).
    pub cooldown_secs: u64,
    /// Absolute paths of the log files to watch.
    pub sources: Vec<String>,
    /// Operator-defined trigger patterns.
    pub patterns: Vec<MonitorPatternCfg>,
    /// Per-line byte cap.
    pub max_line_bytes: usize,
    /// Per-poll line cap.
    pub max_lines_per_poll: usize,
}

impl Default for MonitorCfg {
    fn default() -> (r: MonitorCfg)
        ensures
            !r.enabled,
            r.poll_interval_secs == 5,
            r.cooldown_secs == 300,
            r.sources@.len() == 0,
            r.patterns@.len() == 0,
            r.max_line_bytes == 4096,
            r.max_lines_per_poll == 256,
    {
        MonitorCfg {
            enabled: false,
            poll_interval_secs: 5,
            cooldown_secs: 300,
            sources: Vec::new(),
            patterns: Vec::new(),
            max_line_bytes: 4096,
            max_lines_per_poll: 256,
        }
    }
}

/// `[egress]`: the egress allowlist. Fail-closed: `deny` by default.
#[derive(Debug, Clone)]
pub struct EgressCfg {
    /// `"deny"` (default) or `"allow"` (permit all, development only).
    pub default_policy: String,
    /// Permitted destinations as `host` or `host:port`.
    pub allow: Vec<String>,
}

impl Default for EgressCfg {
    fn default() -> (r: EgressCfg)
        ensures
            r.default_policy@ == "deny"@,
            r.allow@.len() == 0,
    {
        EgressCfg { default_policy: owned("deny"), allow: Vec::new() }
    }
}

/// Whether the egress section compiles into a policy.
pub open spec fn egress_compiles(e: EgressCfg) -> bool {
    &&& (normalized_default(e.default_policy@) == deny_word() || normalized_default(e.default_policy@)
        == allow_word())
    &&& forall|i: int| 0 <= i < e.allow@.len() ==> rule_of((#[trigger] e.allow@[i])@) is Some
}

/// `err` is the refusal of the egress section `e`: the normalized default
/// when it is neither `deny` nor `allow`, else the first malformed entry.
pub open spec fn egress_error_ok(err: EgressError, e: EgressCfg) -> bool {
    if normalized_default(e.default_policy@) != deny_word() && normalized_default(e.default_policy@)
        != allow_word() {
        err matches EgressError::BadDefaultPolicy(w) && w@ == normalized_default(e.default_policy@)
    } else {
        exists|k: int|
            0 <= k < e.allow@.len() && bad_rule_for(err, (#[trigger] e.allow@[k])@) && forall|j: int|
                0 <= j < k ==> rule_of((#[trigger] e.allow@[j])@) is Some
    }
}

impl EgressCfg {
    /// Compiles this section into an enforceable egress policy.
    pub fn to_policy(&self) -> (r: Result<EgressPolicy, EgressError>)
        ensures
            r is Ok <==> egress_compiles(*self),
            r matches Err(err) ==> egress_error_ok(err, *self),
            r matches Ok(p) ==> p.spec_allow_all() == (normalized_default(self.default_policy@) == allow_word())
                && p.spec_rules().len() == self.allow@.len() && forall|i: int|
                0 <= i < self.allow@.len() ==> Some(#[trigger] p.spec_rules()[i]) == rule_of(self.allow@[i]@),
    {
        let mut entries: Vec<&str> = Vec::new();
        let mut i: usize = 0;
        while i < self.allow.len()
            invariant
                i <= self.allow@.len(),
                entries@.len() == i,
                forall|j: int| 0 <= j < i ==> (#[trigger] entries@[j])@ == self.allow@[j]@,
            decreases self.allow.len() - i,
        {
            entries.push(self.allow[i].as_str());
            i = i + 1;
        }
        proof {
            assert(all_rules_ok(entries@) == (forall|j: int| 0 <= j < self.allow@.len() ==> rule_of((#[trigger] self.allow@[j])@) is Some)) by {
                if all_rules_ok(entries@) {
                    assert forall|j: int| 0 <= j < self.allow@.len() implies rule_of((#[trigger] self.allow@[j])@) is Some by {
                        assert(entries@[j]@ == self.allow@[j]@);
                    }
                }
                if forall|j: int| 0 <= j < self.allow@.len() ==> rule_of((#[trigger] self.allow@[j])@) is Some {
                    assert forall|j: int| 0 <= j < entries@.len() implies rule_of((#[trigger] entries@[j])@) is Some by {
                        assert(entries@[j]@ == self.allow@[j]@);
                    }
                }
            }
        }
        let r = EgressPolicy::new(self.default_policy.as_str(), entries.as_slice());
        proof {
            if r is Ok {
                let p = r->Ok_0;
                assert forall|i: int| 0 <= i < self.allow@.len() implies Some(#[trigger] p.spec_rules()[i])
                    == rule_of(self.allow@[i]@) by {
                    assert(entries@[i]@ == self.allow@[i]@);
                }
            }
            if r is Err && (normalized_default(self.default_policy@) == deny_word() || normalized_default(
                self.default_policy@,
            ) == allow_word()) {
                let err = r->Err_0;
                let k = choose|k: int|
                    0 <= k < entries@.len() && bad_rule_for(err, (#[trigger] entries@[k])@) && forall|j: int|
                        0 <= j < k ==> rule_of((#[trigger] entries@[j])@) is Some;
                assert(entries@[k]@ == self.allow@[k]@);
                assert forall|j: int| 0 <= j < k implies rule_of((#[trigger] self.allow@[j])@) is Some by {
                    assert(entries@[j]@ == self.allow@[j]@);
                }
                assert(bad_rule_for(err, self.allow@[k]@));
            }
        }
        r
    }
}

/// The parsed configuration.
#[derive(Debug, Clone)]
pub struct Config {
    /// `[daemon]`.
    pub daemon: DaemonCfg,
    /// `[sockets]`.
    pub sockets: SocketsCfg,
    /// `[session]`.
    pub session: SessionCfg,
    /// `[modes]`.
    pub modes: ModesCfg,
    /// `[llm]`.
    pub llm: LlmCfg,
    /// `[rate_limits]`.
    pub rate_limits: RateLimitsCfg,
    /// `[monitor]`.
    pub monitor: MonitorCfg,
    /// `[egress]`.
    pub egress: EgressCfg,
}

/// A path is absolute when it begins with `/`.
pub open spec fn is_absolute(p: Seq<char>) -> bool {
    p.len() > 0 && p[0] == '/'
}

/// The paths that must be absolute, with their labels, in check order.
pub open spec fn labeled_paths(c: Config) -> Seq<(Seq<char>, Seq<char>)> {
    seq![
        ("daemon.trust_store"@, c.daemon.trust_store@),
        ("daemon.audit_log"@, c.daemon.audit_log@),
        ("daemon.audit_key"@, c.daemon.audit_key@),
        ("daemon.operator_pubkey"@, c.daemon.operator_pubkey@),
        ("daemon.allowlist"@, c.daemon.allowlist@),
        ("daemon.bundle_dir"@, c.daemon.bundle_dir@),
        ("sockets.control"@, c.sockets.control@),
        ("sockets.exec"@, c.sockets.exec_socket@),
    ]
}

/// The first entry of `ps` whose path is not absolute.
pub open spec fn first_relative(ps: Seq<(Seq<char>, Seq<char>)>) -> Option<int>
    decreases ps.len(),
{
    if ps.len() == 0 {
        None
    } else if !is_absolute(ps[0].1) {
        Some(0)
    } else {
        match first_relative(ps.drop_first()) {
            Some(i) => Some(i + 1),
            None => None,
        }
    }
}

/// The first source of `ss` that is not absolute.
pub open spec fn first_relative_source(ss: Seq<String>) -> Option<int>
    decreases ss.len(),
{
    if ss.len() == 0 {
        None
    } else if !is_absolute(ss[0]@) {
        Some(0)
    } else {
        match first_relative_source(ss.drop_first()) {
            Some(i) => Some(i + 1),
            None => None,
        }
    }
}

/// Whether `b` names a supported backend.
pub open spec fn supported_backend(b: Seq<char>) -> bool {
    b == "anthropic"@ || b == "ollama"@
}

/// The message for a control socket mode that grants access to others.
pub open spec fn control_mode_message(mode: u32) -> Seq<char> {
    "sockets.control_mode 0o"@ + oct_digits(mode as nat)
        + " grants access to 'other'; the control socket must be owner/group only"@
}

/// The first baseline violation of `c` apart from the egress section, as
/// the refusal message.
pub open spec fn first_problem(c: Config) -> Option<Seq<char>> {
    let ps = labeled_paths(c);
    if first_relative(ps) is Some {
        let i = first_relative(ps)->0;
        Some(ps[i].0 + " must be an absolute path, got "@ + ps[i].1)
    } else if !is_absolute(c.daemon.session_pub@) {
        Some("daemon.session_pub must be an absolute path"@)
    } else if c.sockets.control_mode & 7 != 0 {
        Some(control_mode_message(c.sockets.control_mode))
    } else if c.modes.default == OperationMode::Autonomous && !c.modes.autonomous_allowed {
        Some("modes.default = autonomous but modes.autonomous_allowed = false"@)
    } else if !supported_backend(c.llm.default_backend@) {
        Some(
            "llm.default_backend "@ + debug_quoted(c.llm.default_backend@)
                + " is not supported (anthropic|ollama)"@,
        )
    } else if c.monitor.enabled && first_relative_source(c.monitor.sources@) is Some {
        Some(
            "monitor.sources entry must be an absolute path, got "@
                + c.monitor.sources@[first_relative_source(c.monitor.sources@)->0]@,
        )
    } else if c.monitor.enabled && c.monitor.poll_interval_secs == 0 {
        Some("monitor.poll_interval_secs must be > 0 when monitoring is enabled"@)
    } else {
        None
    }
}

fn absolute(p: &String) -> (r: bool)
    ensures
        r == is_absolute(p@),
{
    let cs = chars_of(p.as_str());
    cs.len() > 0 && cs[0] == '/'
}

fn invalid(v: Vec<char>) -> (r: ConfigError)
    ensures
        r matches ConfigError::Invalid(m) && m@ == v@,
{
    ConfigError::Invalid(string_of(v.as_slice()))
}

impl Config {
    /// Security baseline checks; any failure is a refusal to start.
    ///
    /// In order: the daemon and socket paths are absolute; the session key
    /// path is absolute; the control socket grants nothing to others;
    /// autonomous as default mode is opted into; the backend is supported;
    /// when monitoring is on, its sources are absolute and its poll
    /// interval positive; the egress section compiles.
    pub fn validate(&self) -> (r: Result<(), ConfigError>)
        ensures
            first_problem(*self) matches Some(m) ==> (r matches Err(ConfigError::Invalid(x)) && x@ == m),
            first_problem(*self) is None && egress_compiles(self.egress) ==> r is Ok,
            first_problem(*self) is None && !egress_compiles(self.egress) ==> (r matches Err(
                ConfigError::Invalid(x),
            ) && exists|err: EgressError| #[trigger] egress_error_ok(err, self.egress) && x@ == "egress: "@
                + egress_error_text(err)),
            r is Ok ==> {
                &&& self.daemon.trust_store@.len() > 0 && self.daemon.trust_store@[0] == '/'
                &&& self.daemon.audit_log@.len() > 0 && self.daemon.audit_log@[0] == '/'
                &&& self.daemon.audit_key@.len() > 0 && self.daemon.audit_key@[0] == '/'
                &&& self.daemon.operator_pubkey@.len() > 0 && self.daemon.operator_pubkey@[0] == '/'
                &&& self.daemon.allowlist@.len() > 0 && self.daemon.allowlist@[0] == '/'
                &&& self.daemon.bundle_dir@.len() > 0 && self.daemon.bundle_dir@[0] == '/'
                &&& self.daemon.session_pub@.len() > 0 && self.daemon.session_pub@[0] == '/'
                &&& self.sockets.control@.len() > 0 && self.sockets.control@[0] == '/'
                &&& self.sockets.exec_socket@.len() > 0 && self.sockets.exec_socket@[0] == '/'
                &&& self.sockets.control_mode & 7 == 0
            },
    {
        let ghost ps = labeled_paths(*self);
        let labels: [&str; 8] = [
            "daemon.trust_store",
            "daemon.audit_log",
            "daemon.audit_key",
            "daemon.operator_pubkey",
            "daemon.allowlist",
            "daemon.bundle_dir",
            "sockets.control",
            "sockets.exec",
        ];
        let paths: [&String; 8] = [
            &self.daemon.trust_store,
            &self.daemon.audit_log,
            &self.daemon.audit_key,
            &self.daemon.operator_pubkey,
            &self.daemon.allowlist,
            &self.daemon.bundle_dir,
            &self.sockets.control,
            &self.sockets.exec_socket,
        ];
        assert(forall|j: int| 0 <= j < 8 ==> (#[trigger] labels@[j])@ == ps[j].0);
        assert(forall|j: int| 0 <= j < 8 ==> (#[trigger] paths@[j])@ == ps[j].1);
        let mut i: usize = 0;
        while i < 8
            invariant
                i <= 8,
                ps == labeled_paths(*self),
                forall|j: int| 0 <= j < 8 ==> (#[trigger] labels@[j])@ == ps[j].0,
                forall|j: int| 0 <= j < 8 ==> (#[trigger] paths@[j])@ == ps[j].1,
                forall|j: int| 0 <= j < i ==> is_absolute((#[trigger] ps[j]).1),
            decreases 8 - i,
        {
            if !absolute(paths[i]) {
                proof {
                    lemma_first_relative_at(ps, i as int);
                }
                let mut v: Vec<char> = Vec::new();
                push_str(&mut v, labels[i]);
                push_str(&mut v, " must be an absolute path, got ");
                push_str(&mut v, paths[i].as_str());
                return Err(invalid(v));
            }
            i = i + 1;
        }
        proof {
            lemma_first_relative_none(ps);
        }
        if !absolute(&self.daemon.session_pub) {
            return Err(ConfigError::Invalid(owned("daemon.session_pub must be an absolute path")));
        }
        if self.sockets.control_mode & 7 != 0 {
            let mut v: Vec<char> = Vec::new();
            push_str(&mut v, "sockets.control_mode 0o");
            push_oct(&mut v, self.sockets.control_mode as u64);
            push_str(&mut v, " grants access to 'other'; the control socket must be owner/group only");
            return Err(invalid(v));
        }
        if self.modes.default == OperationMode::Autonomous && !self.modes.autonomous_allowed {
            return Err(ConfigError::Invalid(owned("modes.default = autonomous but modes.autonomous_allowed = false")));
        }
        let backend = chars_of(self.llm.default_backend.as_str());
        let anthropic = chars_of("anthropic");
        let ollama = chars_of("ollama");
        if !(chars_eq(backend.as_slice(), anthropic.as_slice()) || chars_eq(backend.as_slice(), ollama.as_slice())) {
            let mut v: Vec<char> = Vec::new();
            push_str(&mut v, "llm.default_backend ");
            let q = debug_text(self.llm.default_backend.as_str());
            push_str(&mut v, q.as_str());
            push_str(&mut v, " is not supported (anthropic|ollama)");
            return Err(invalid(v));
        }
        if self.monitor.enabled {
            let mut k: usize = 0;
            while k < self.monitor.sources.len()
                invariant
                    k <= self.monitor.sources@.len(),
                    first_relative(labeled_paths(*self)) is None,
                    is_absolute(self.daemon.session_pub@),
                    self.sockets.control_mode & 7 == 0,
                    !(self.modes.default == OperationMode::Autonomous && !self.modes.autonomous_allowed),
                    supported_backend(self.llm.default_backend@),
                    self.monitor.enabled,
                    forall|j: int| 0 <= j < k ==> is_absolute((#[trigger] self.monitor.sources@[j])@),
                decreases self.monitor.sources.len() - k,
            {
                if !absolute(&self.monitor.sources[k]) {
                    proof {
                        lemma_first_relative_source_at(self.monitor.sources@, k as int);
                    }
                    let mut v: Vec<char> = Vec::new();
                    push_str(&mut v, "monitor.sources entry must be an absolute path, got ");
                    push_str(&mut v, self.monitor.sources[k].as_str());
                    return Err(invalid(v));
                }
                k = k + 1;
            }
            proof {
                lemma_first_relative_source_none(self.monitor.sources@);
            }
            if self.monitor.poll_interval_secs == 0 {
                return Err(ConfigError::Invalid(owned("monitor.poll_interval_secs must be > 0 when monitoring is enabled")));
            }
        }
        proof {
            if first_problem(*self) is None {
                lemma_accepted_config_meets_baseline(*self);
            }
        }
        match self.egress.to_policy() {
            Ok(_) => Ok(()),
            Err(e) => {
                let mut v: Vec<char> = Vec::new();
                push_str(&mut v, "egress: ");
                let t = e.to_string();
                push_str(&mut v, t.as_str());
                assert(egress_error_ok(e, self.egress));
                Err(invalid(v))
            },
        }
    }
}

proof fn lemma_first_relative_at(ps: Seq<(Seq<char>, Seq<char>)>, i: int)
    requires
        0 <= i < ps.len(),
        !is_absolute(ps[i].1),
        forall|j: int| 0 <= j < i ==> is_absolute((#[trigger] ps[j]).1),
    ensures
        first_relative(ps) == Some(i),
    decreases i,
{
    if i > 0 {
        lemma_first_relative_at(ps.drop_first(), i - 1);
    }
}

proof fn lemma_first_relative_none(ps: Seq<(Seq<char>, Seq<char>)>)
    requires
        forall|j: int| 0 <= j < ps.len() ==> is_absolute((#[trigger] ps[j]).1),
    ensures
        first_relative(ps) is None,
    decreases ps.len(),
{
    if ps.len() > 0 {
        lemma_first_relative_none(ps.drop_first());
    }
}

proof fn lemma_first_relative_source_at(ss: Seq<String>, i: int)
    requires
        0 <= i < ss.len(),
        !is_absolute(ss[i]@),
        forall|j: int| 0 <= j < i ==> is_absolute((#[trigger] ss[j])@),
    ensures
        first_relative_source(ss) == Some(i),
    decreases i,
{
    if i > 0 {
        lemma_first_relative_source_at(ss.drop_first(), i - 1);
    }
}

proof fn lemma_first_relative_source_none(ss: Seq<String>)
    requires
        forall|j: int| 0 <= j < ss.len() ==> is_absolute((#[trigger] ss[j])@),
    ensures
        first_relative_source(ss) is None,
    decreases ss.len(),
{
    if ss.len() > 0 {
        lemma_first_relative_source_none(ss.drop_first());
    }
}

/// With monitoring off, the watched paths are inert: they never decide
/// whether a configuration is refused.
pub proof fn lemma_disabled_monitor_is_inert(c: Config, d: Config)
    requires
        !c.monitor.enabled,
        d == (Config { monitor: MonitorCfg { sources: d.monitor.sources, ..c.monitor }, ..c }),
    ensures
        first_problem(c) == first_problem(d),
{
}

/// A world-accessible control socket is always refused.
pub proof fn lemma_other_access_refused(c: Config)
    requires
        c.sockets.control_mode & 7 != 0,
    ensures
        first_problem(c) is Some,
{
}

proof fn lemma_no_relative(ps: Seq<(Seq<char>, Seq<char>)>, i: int)
    requires
        first_relative(ps) is None,
        0 <= i < ps.len(),
    ensures
        is_absolute(ps[i].1),
    decreases ps.len(),
{
    if i > 0 {
        assert(ps.drop_first()[i - 1] == ps[i]);
        lemma_no_relative(ps.drop_first(), i - 1);
    }
}

proof fn lemma_no_relative_source(ss: Seq<String>, i: int)
    requires
        first_relative_source(ss) is None,
        0 <= i < ss.len(),
    ensures
        is_absolute(ss[i]@),
    decreases ss.len(),
{
    if i > 0 {
        assert(ss.drop_first()[i - 1] == ss[i]);
        lemma_no_relative_source(ss.drop_first(), i - 1);
    }
}

/// The security baseline an accepted configuration meets: every daemon
/// and socket path (trust store, audit log, audit key, operator key,
/// allowlist, bundle directory, session key, control and exec sockets) is
/// absolute; the control socket grants nothing to others; autonomous is
/// the default mode only when allowed; the model backend is supported; and
/// with monitoring on, every watched path is absolute and the poll interval
/// positive.
pub proof fn lemma_accepted_config_meets_baseline(c: Config)
    requires
        first_problem(c) is None,
    ensures
        c.daemon.trust_store@.len() > 0 && c.daemon.trust_store@[0] == '/',
        c.daemon.audit_log@.len() > 0 && c.daemon.audit_log@[0] == '/',
        c.daemon.audit_key@.len() > 0 && c.daemon.audit_key@[0] == '/',
        c.daemon.operator_pubkey@.len() > 0 && c.daemon.operator_pubkey@[0] == '/',
        c.daemon.allowlist@.len() > 0 && c.daemon.allowlist@[0] == '/',
        c.daemon.bundle_dir@.len() > 0 && c.daemon.bundle_dir@[0] == '/',
        c.daemon.session_pub@.len() > 0 && c.daemon.session_pub@[0] == '/',
        c.sockets.control@.len() > 0 && c.sockets.control@[0] == '/',
        c.sockets.exec_socket@.len() > 0 && c.sockets.exec_socket@[0] == '/',
        c.sockets.control_mode & 7 == 0,
        c.modes.default == OperationMode::Autonomous ==> c.modes.autonomous_allowed,
        c.llm.default_backend@ == "anthropic"@ || c.llm.default_backend@ == "ollama"@,
        c.monitor.enabled ==> c.monitor.poll_interval_secs > 0,
        c.monitor.enabled ==> forall|i: int|
            0 <= i < c.monitor.sources@.len() ==> (#[trigger] c.monitor.sources@[i])@.len() > 0
                && c.monitor.sources@[i]@[0] == '/',
{
    let ps = labeled_paths(c);
    assert(first_relative(ps) is None);
    assert(ps[0].1 == c.daemon.trust_store@);
    lemma_no_relative(ps, 0);
    lemma_no_relative(ps, 1);
    lemma_no_relative(ps, 2);
    lemma_no_relative(ps, 3);
    lemma_no_relative(ps, 4);
    lemma_no_relative(ps, 5);
    lemma_no_relative(ps, 6);
    lemma_no_relative(ps, 7);
    if c.monitor.enabled {
        assert forall|i: int| 0 <= i < c.monitor.sources@.len() implies (#[trigger] c.monitor.sources@[i])@.len() > 0
            && c.monitor.sources@[i]@[0] == '/' by {
            lemma_no_relative_source(c.monitor.sources@, i);
        }
    }
}

} // verus!
