//! The combined policy engine: the immutable denylist plus a loaded
//! allowlist, evaluated deny-first and fail-closed.

use vstd::prelude::*;

use crate::mode::{OperationMode, RiskLevel};
use crate::policy::allowlist::{allows, Allowlist};
use crate::policy::denylist::{command_denied, path_denied, DenyCategory, DenyMatch, Denylist, PathAccess};
use crate::policy::pathnorm::normalizable;
use crate::text::{debug_quoted, debug_text, push_str, string_of};

verus! {

/// The outcome of evaluating an action against policy.
#[derive(Debug, Clone, PartialEq, Eq)]
pub enum PolicyDecision {
    /// Permitted to run now: nothing denied, allowlisted, and no human
    /// approval required for this mode and risk.
    Allow,
    /// Not denied and allowlisted, but a human must approve it first; it
    /// must not run until a valid operator approval is presented.
    RequireApproval {
        /// Why approval is required (mode or risk).
        reason: String,
        /// Whether two independent operator signatures are required
        /// (`risk = "critical"`).
        two_person: bool,
    },
    /// Forbidden by the immutable denylist. Final.
    Deny {
        /// Category of the rule that fired.
        category: DenyCategory,
        /// Stable id of the rule.
        rule_id: &'static str,
        /// Human-readable reason, suitable for the audit log.
        reason: String,
    },
    /// Not denied, but not explicitly allowed either: the fail-closed default.
    NotAllowed {
        /// Why it was not allowed.
        reason: String,
    },
}

impl PolicyDecision {
    /// `true` only for `Allow`: safe to run now with no further gating.
    /// `RequireApproval` is not allowed: it goes through the approval flow.
    pub fn is_allowed(&self) -> (r: bool)
        ensures
            r == (*self is Allow),
    {
        matches!(self, PolicyDecision::Allow)
    }

    /// `true` if the action is permissible but gated on human approval.
    pub fn needs_approval(&self) -> (r: bool)
        ensures
            r == (*self is RequireApproval),
    {
        matches!(self, PolicyDecision::RequireApproval { .. })
    }
}

/// A single path the action intends to touch.
#[derive(Debug, Clone, Copy)]
pub struct PathIntent<'a> {
    /// The path (normalized before matching).
    pub path: &'a str,
    /// The access requested.
    pub access: PathAccess,
}

/// Everything policy needs to know about a proposed action.
#[derive(Debug, Clone, Copy)]
pub struct PolicyRequest<'a> {
    /// Active profile name.
    pub profile: &'a str,
    /// Active operating mode.
    pub mode: OperationMode,
    /// The bundle name the action resolved to.
    pub exec_name: &'a str,
    /// Risk the verified bundle declares (drives approval and two-person).
    pub risk: RiskLevel,
    /// Commands the bundle would execute.
    pub commands: &'a [&'a str],
    /// Paths the bundle would touch.
    pub paths: &'a [PathIntent<'a>],
}

/// The combined policy engine.
#[derive(Debug, Clone)]
pub struct PolicyEngine {
    allowlist: Allowlist,
}

/// `i` is the first denied command of `cmds`.
pub open spec fn first_denied_command(cmds: Seq<&str>, i: int) -> bool {
    &&& 0 <= i < cmds.len()
    &&& command_denied(cmds[i]@)
    &&& forall|j: int| 0 <= j < i ==> !command_denied((#[trigger] cmds[j])@)
}

/// `i` is the first denied path intent of `paths`.
pub open spec fn first_denied_path(paths: Seq<PathIntent>, i: int) -> bool {
    &&& 0 <= i < paths.len()
    &&& path_denied(paths[i].path@, paths[i].access)
    &&& forall|j: int| 0 <= j < i ==> !path_denied((#[trigger] paths[j]).path@, paths[j].access)
}

/// The reason recorded for a denylist match.
pub open spec fn match_reason(description: Seq<char>, matched: Seq<char>) -> Seq<char> {
    description + " (matched "@ + debug_quoted(matched) + ")"@
}

/// The reason given when a bundle is not allowlisted.
pub open spec fn not_allowed_reason(exec: Seq<char>, profile: Seq<char>, mode: OperationMode) -> Seq<char> {
    "exec "@ + debug_quoted(exec) + " is not allowlisted for profile "@ + debug_quoted(profile) + " in "@
        + mode.spec_debug_name() + " mode"@
}

/// The reason given when interactive mode gates an action.
pub open spec fn interactive_reason(risk: RiskLevel) -> Seq<char> {
    "interactive mode requires operator approval (risk="@ + risk.spec_debug_name() + ")"@
}

/// The decision policy owes `req` under the allowlist profiles `ps`.
pub open spec fn decision_ok(ps: Seq<crate::policy::allowlist::ProfileAllow>, req: PolicyRequest, d: PolicyDecision) -> bool {
    if exists|i: int| first_denied_command(req.commands@, i) {
        exists|i: int|
            first_denied_command(req.commands@, i) && (d matches PolicyDecision::Deny { category, rule_id, reason }
                && category == DenyCategory::HostDestruction && rule_id@ == "rm-rf-root"@ && reason@
                == match_reason(
                "recursive deletion of the root filesystem"@,
                (#[trigger] req.commands@[i])@,
            ))
    } else if exists|i: int| first_denied_path(req.paths@, i) {
        exists|i: int|
            first_denied_path(req.paths@, i) && (d matches PolicyDecision::Deny { category, rule_id, reason }
                && category == DenyCategory::SelfProtection && if !normalizable(
                (#[trigger] req.paths@[i]).path@,
            ) {
                rule_id@ == "path-not-normalizable"@ && reason@ == match_reason(
                    "path cannot be normalized"@,
                    req.paths@[i].path@,
                )
            } else {
                rule_id@ == "archangel-self-write"@ && reason@ == match_reason(
                    "write to archangel's own configuration"@,
                    req.paths@[i].path@,
                )
            })
    } else if !allows(ps, req.profile@, req.exec_name@, req.mode) {
        d matches PolicyDecision::NotAllowed { reason } && reason@ == not_allowed_reason(
            req.exec_name@,
            req.profile@,
            req.mode,
        )
    } else if req.mode.spec_requires_human_approval() {
        d matches PolicyDecision::RequireApproval { reason, two_person } && two_person
            == req.risk.spec_requires_two_person_rule() && reason@ == interactive_reason(req.risk)
    } else if req.risk.spec_requires_two_person_rule() {
        d matches PolicyDecision::RequireApproval { reason, two_person } && two_person && reason@
            == "critical risk requires the two-person rule"@
    } else {
        d is Allow
    }
}

fn deny_from(m: &DenyMatch) -> (r: PolicyDecision)
    ensures
        r matches PolicyDecision::Deny { category, rule_id, reason } && category == m.category && rule_id
            == m.rule_id && reason@ == match_reason(m.description@, m.matched@),
{
    let mut v: Vec<char> = Vec::new();
    push_str(&mut v, m.description);
    push_str(&mut v, " (matched ");
    let q = debug_text(m.matched.as_str());
    push_str(&mut v, q.as_str());
    push_str(&mut v, ")");
    PolicyDecision::Deny { category: m.category, rule_id: m.rule_id, reason: string_of(v.as_slice()) }
}

impl PolicyEngine {
    /// The allowlist in force, as a spec value.
    pub closed spec fn spec_allowlist(&self) -> Allowlist {
        self.allowlist
    }

    /// An engine around an already-loaded allowlist.
    pub fn new(allowlist: Allowlist) -> (r: PolicyEngine)
        ensures
            r.spec_allowlist() == allowlist,
    {
        PolicyEngine { allowlist }
    }

    /// The allowlist in force.
    pub fn allowlist(&self) -> (r: &Allowlist)
        ensures
            *r == self.spec_allowlist(),
    {
        &self.allowlist
    }

    /// Evaluates a request, deny-first and fail-closed: the first denied
    /// command, else the first denied path, decides; then the allowlist
    /// must permit the bundle; then interactive mode and critical risk gate
    /// on human approval.
    pub fn evaluate(&self, request: &PolicyRequest) -> (r: PolicyDecision)
        ensures
            decision_ok(self.spec_allowlist().profiles@, *request, r),
    {
        let mut i: usize = 0;
        while i < request.commands.len()
            invariant
                i <= request.commands@.len(),
                forall|j: int| 0 <= j < i ==> !command_denied((#[trigger] request.commands@[j])@),
            decreases request.commands.len() - i,
        {
            match Denylist::check_command(request.commands[i]) {
                Some(m) => {
                    assert(first_denied_command(request.commands@, i as int));
                    return deny_from(&m);
                },
                None => {},
            }
            i = i + 1;
        }
        assert(!exists|i: int| first_denied_command(request.commands@, i));
        let mut k: usize = 0;
        while k < request.paths.len()
            invariant
                k <= request.paths@.len(),
                !exists|i: int| first_denied_command(request.commands@, i),
                forall|j: int| 0 <= j < k ==> !path_denied((#[trigger] request.paths@[j]).path@, request.paths@[j].access),
            decreases request.paths.len() - k,
        {
            let intent = request.paths[k];
            match Denylist::check_path(intent.path, intent.access) {
                Ok(Some(m)) => {
                    assert(first_denied_path(request.paths@, k as int));
                    return deny_from(&m);
                },
                Ok(None) => {},
                Err(_) => {
                    return PolicyDecision::Deny {
                        category: DenyCategory::SelfProtection,
                        rule_id: "path-evaluation-error",
                        reason: crate::text::owned("path could not be evaluated"),
                    };
                },
            }
            k = k + 1;
        }
        assert(!exists|i: int| first_denied_path(request.paths@, i));
        if !self.allowlist.is_allowed(request.profile, request.exec_name, request.mode) {
            let mut v: Vec<char> = Vec::new();
            push_str(&mut v, "exec ");
            let e = debug_text(request.exec_name);
            push_str(&mut v, e.as_str());
            push_str(&mut v, " is not allowlisted for profile ");
            let p = debug_text(request.profile);
            push_str(&mut v, p.as_str());
            push_str(&mut v, " in ");
            push_str(&mut v, request.mode.debug_name());
            push_str(&mut v, " mode");
            return PolicyDecision::NotAllowed { reason: string_of(v.as_slice()) };
        }
        let two_person = request.risk.requires_two_person_rule();
        if request.mode.requires_human_approval() {
            let mut v: Vec<char> = Vec::new();
            push_str(&mut v, "interactive mode requires operator approval (risk=");
            push_str(&mut v, request.risk.debug_name());
            push_str(&mut v, ")");
            PolicyDecision::RequireApproval { reason: string_of(v.as_slice()), two_person }
        } else if two_person {
            PolicyDecision::RequireApproval {
                reason: crate::text::owned("critical risk requires the two-person rule"),
                two_person: true,
            }
        } else {
            PolicyDecision::Allow
        }
    }
}

/// A denylisted command is refused whatever the allowlist, mode and risk.
pub proof fn lemma_deny_overrides(ps: Seq<crate::policy::allowlist::ProfileAllow>, req: PolicyRequest, d: PolicyDecision, i: int)
    requires
        decision_ok(ps, req, d),
        0 <= i < req.commands@.len(),
        command_denied(req.commands@[i]@),
    ensures
        d is Deny,
{
    lemma_some_first_denied(req.commands@, i);
}

proof fn lemma_some_first_denied(cmds: Seq<&str>, i: int)
    requires
        0 <= i < cmds.len(),
        command_denied(cmds[i]@),
    ensures
        exists|f: int| first_denied_command(cmds, f),
    decreases i,
{
    if forall|j: int| 0 <= j < i ==> !command_denied((#[trigger] cmds[j])@) {
        assert(first_denied_command(cmds, i));
    } else {
        let j = choose|j: int| 0 <= j < i && command_denied((#[trigger] cmds[j])@);
        lemma_some_first_denied(cmds, j);
    }
}

/// Only `Allow` is allowed: an approval-gated decision never is.
pub proof fn lemma_approval_is_not_allowed(d: PolicyDecision)
    ensures
        d is RequireApproval ==> !(d is Allow),
{
}

/// A request that is neither denied nor allowlisted is refused, never
/// allowed.
pub proof fn lemma_unlisted_is_refused(ps: Seq<crate::policy::allowlist::ProfileAllow>, req: PolicyRequest, d: PolicyDecision)
    requires
        decision_ok(ps, req, d),
        !allows(ps, req.profile@, req.exec_name@, req.mode),
    ensures
        !(d is Allow),
        !(d is RequireApproval),
{
}

/// Critical risk is never allowed to run unattended, in any mode.
pub proof fn lemma_critical_needs_two_people(ps: Seq<crate::policy::allowlist::ProfileAllow>, req: PolicyRequest, d: PolicyDecision)
    requires
        decision_ok(ps, req, d),
        req.risk == RiskLevel::Critical,
    ensures
        !(d is Allow),
        d matches PolicyDecision::RequireApproval { two_person, .. } ==> two_person,
{
}

} // verus!
