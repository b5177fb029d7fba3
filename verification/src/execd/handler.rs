//! The executor's security pipeline.
//!
//! This is the single place where a request becomes an execution. Order is
//! load-bearing and every gate is fail-closed; the daemon is lower trust
//! than this code, so every field of a request is a claim to re-verify.
//!
//! The gates, in strict order (the first failure is the answer):
//!
//! 1. decode the envelope and check version and session signature;
//! 2. replay and reorder check (monotonic `seq` and nonce);
//! 3. bundle name hygiene, then the signed bundle is resolved and verified;
//! 4. argument validation against the bundle's schema;
//! 5. the mutation gate: a mutating bundle (per the verified bundle, never
//!    the daemon's claim) runs only if the executor's own mode ceiling
//!    allows mutation;
//! 6. the denylist and allowlist, re-evaluated over the bundle's own
//!    payload and declared paths;
//! 7. the blast-rate ceilings;
//! 8. a recovery point for a bundle that mutates persistent state;
//! 9. the sandbox plan, built from the verified manifest;
//! 10. the run.
//!
//! Decoding, file reads, snapshots, cgroups and the run itself are done by
//! the caller between these gates; each gate here is a decision.

use vstd::prelude::*;

use crate::bundle::args::args_ok;
use crate::bundle::error::{bundle_error_text, ExecFormatError};
use crate::bundle::manifest::{ExecManifest, NetworkPolicy, SandboxSpec};
use crate::bundle::trust::OperatorTrust;
use crate::bundle::verify::VerifiedBundle;
use crate::execd::ratelimit::{pruned, verdict, ActionClass, RateLimiter, RateLimits, RateRejection, HOUR_MS, MINUTE_MS};
use crate::execd::replay::{key16, replay_verdict, ReplayGuard, ReplayRejection};
use crate::ipc::{ipc_error_text, ExecOutcome, ExecRequest, ExecResponse, IpcError, RejectStage, SignedEnvelope};
use crate::mode::{OperationMode, RiskLevel};
use crate::policy::allowlist::allows;
use crate::policy::denylist::{command_denied, path_denied, PathAccess};
use crate::policy::engine::{decision_ok, first_denied_command, first_denied_path, PathIntent, PolicyDecision, PolicyEngine, PolicyRequest};
use crate::primitives::id::ActionId;
use crate::sandbox::error::sandbox_error_text;
use crate::execd::runner::RunResult;
use crate::sandbox::plan::{NetworkMode, SandboxPlan, SandboxPolicy};
use crate::sandbox::seccomp::Arch;
use crate::text::{debug_quoted, debug_text, owned, push_str, string_of};
use vstd::string::StringSliceAdditionalSpecFns;

verus! {

/// Limits applied to every sandboxed run.
#[derive(Debug, Clone, Copy)]
pub struct ExecLimits {
    /// Hard wall-clock timeout per action, in milliseconds.
    pub timeout_ms: u64,
    /// Per-stream output byte cap.
    pub max_output: usize,
}

impl Default for ExecLimits {
    fn default() -> (r: ExecLimits)
        ensures
            r.timeout_ms == 30000,
            r.max_output == 1048576,
    {
        ExecLimits { timeout_ms: 30000, max_output: 1048576 }
    }
}

/// The id named in responses to requests that could not be decoded far
/// enough to learn their own.
pub fn unknown_action() -> (r: ActionId)
    ensures
        r@ == Seq::new(16, |i: int| 0u8),
{
    let r = ActionId::from_bytes([0u8; 16]);
    assert(r@ =~= Seq::new(16, |i: int| 0u8));
    r
}

/// A byte allowed in a bundle name: ASCII letters and digits, `.`, `_`, `-`.
pub open spec fn name_byte(b: u8) -> bool {
    (0x30 <= b <= 0x39) || (0x41 <= b <= 0x5a) || (0x61 <= b <= 0x7a) || b == 0x2e || b == 0x5f
        || b == 0x2d
}

/// A bundle name is one safe path component: 1 to 128 bytes from
/// [`name_byte`], not `.`, and no `..` anywhere.
pub open spec fn safe_name(b: Seq<u8>) -> bool {
    &&& 0 < b.len() <= 128
    &&& b != seq![0x2eu8]
    &&& forall|i: int| 0 <= i < b.len() ==> name_byte(#[trigger] b[i])
    &&& forall|i: int| 0 <= i < b.len() - 1 ==> !(#[trigger] b[i] == 0x2e && b[i + 1] == 0x2e)
}

/// Whether `name` is a single safe path component; anything else is
/// refused before it can be joined to the bundle directory.
pub fn safe_exec_name(name: &str) -> (r: bool)
    ensures
        r == safe_name(name.spec_bytes()),
{
    let b = name.as_bytes();
    if b.len() == 0 || b.len() > 128 {
        return false;
    }
    if b.len() == 1 && b[0] == 0x2e {
        assert(b@ =~= seq![0x2eu8]);
        return false;
    }
    let mut i: usize = 0;
    while i < b.len()
        invariant
            i <= b@.len(),
            b@ == name.spec_bytes(),
            0 < b@.len() <= 128,
            forall|j: int| 0 <= j < i ==> name_byte(#[trigger] b@[j]),
            forall|j: int| 0 <= j < i && j < b@.len() - 1 ==> !(#[trigger] b@[j] == 0x2e && b@[j + 1] == 0x2e),
        decreases b.len() - i,
    {
        let c = b[i];
        let ok = (0x30 <= c && c <= 0x39) || (0x41 <= c && c <= 0x5a) || (0x61 <= c && c <= 0x7a) || c == 0x2e
            || c == 0x5f || c == 0x2d;
        if !ok {
            assert(!name_byte(b@[i as int]));
            return false;
        }
        if i + 1 < b.len() && c == 0x2e && b[i + 1] == 0x2e {
            assert(b@[i as int] == 0x2e && b@[i + 1] == 0x2e);
            return false;
        }
        i = i + 1;
    }
    if b.len() == 1 {
        assert(b@ != seq![0x2eu8]) by {
            if b@ == seq![0x2eu8] {
                assert(b@[0] == 0x2e);
            }
        }
    }
    true
}

/// `resp` refuses action `id` at `stage`.
pub open spec fn refused_at(resp: ExecResponse, id: ActionId, stage: RejectStage) -> bool {
    resp.action_id == id && (resp.outcome matches ExecOutcome::Rejected { stage: s, .. } && s == stage)
}

/// `resp` refuses action `id` at `stage` with `reason`.
pub open spec fn refused_with(resp: ExecResponse, id: ActionId, stage: RejectStage, reason: Seq<char>) -> bool {
    resp.action_id == id && (resp.outcome matches ExecOutcome::Rejected { stage: s, reason: r } && s == stage
        && r@ == reason)
}

pub(crate) fn refuse(id: ActionId, stage: RejectStage, reason: Vec<char>) -> (r: ExecResponse)
    ensures
        refused_with(r, id, stage, reason@),
{
    ExecResponse::rejected(id, stage, string_of(reason.as_slice()))
}

/// The name `{:?}` gives a replay rejection.
pub open spec fn replay_reason(why: ReplayRejection) -> Seq<char> {
    match why {
        ReplayRejection::NonMonotonicSeq => "replay guard: NonMonotonicSeq"@,
        ReplayRejection::DuplicateNonce => "replay guard: DuplicateNonce"@,
    }
}

/// The ceiling named when a rate rejection refuses an action.
pub open spec fn rate_reason(why: RateRejection) -> Seq<char> {
    match why {
        RateRejection::TotalPerMinute => "rate limit hit: actions-per-minute ceiling exceeded"@,
        RateRejection::MutatingPerMinute => "rate limit hit: mutating-actions-per-minute ceiling exceeded"@,
        RateRejection::CriticalPerHour => "rate limit hit: critical-actions-per-hour ceiling exceeded"@,
    }
}

/// The denylist passes the bundle `m`: its payload is not denied, none of
/// its read-only paths is denied for reading, none of its read-write paths
/// for writing.
pub open spec fn bundle_not_denied(m: ExecManifest) -> bool {
    &&& !command_denied(m.payload.inline@)
    &&& forall|i: int| 0 <= i < m.sandbox.allowed_paths_ro@.len() ==> !path_denied(
        (#[trigger] m.sandbox.allowed_paths_ro@[i])@,
        PathAccess::Read,
    )
    &&& forall|i: int| 0 <= i < m.sandbox.allowed_paths_rw@.len() ==> !path_denied(
        (#[trigger] m.sandbox.allowed_paths_rw@[i])@,
        PathAccess::Write,
    )
}

/// The policy needs an operator approval before the action may run: the
/// request's mode asks for one, or the bundle's risk calls for the
/// two-person rule.
pub open spec fn needs_approval(req: ExecRequest, m: ExecManifest) -> bool {
    req.mode.spec_requires_human_approval() || m.meta.risk.spec_requires_two_person_rule()
}

/// The stage at which the policy refuses the bundle `m` for `req` under the
/// allowlist profiles `ps`, in order: a denylist hit, then an allowlist
/// miss, then a required approval (the executor holds no approval, so an
/// action that needs one does not run); `None` when the policy admits it.
pub open spec fn policy_stage(ps: Seq<crate::policy::allowlist::ProfileAllow>, req: ExecRequest, m: ExecManifest) -> Option<RejectStage> {
    if !bundle_not_denied(m) {
        Some(RejectStage::DenylistHit)
    } else if !allows(ps, req.profile@, req.exec_name@, req.mode) {
        Some(RejectStage::NotAllowlisted)
    } else if needs_approval(req, m) {
        Some(RejectStage::ApprovalRequired)
    } else {
        None
    }
}

/// The policy admits the bundle `m` for `req` outright (see
/// [`policy_stage`]).
pub open spec fn bundle_policy_ok(ps: Seq<crate::policy::allowlist::ProfileAllow>, req: ExecRequest, m: ExecManifest) -> bool {
    policy_stage(ps, req, m) is None
}

/// The action class of a bundle, from its verified metadata.
pub open spec fn class_of(m: ExecManifest) -> ActionClass {
    ActionClass { mutating: !m.meta.read_only, critical: m.meta.risk == RiskLevel::Critical }
}

/// The executor's decision state.
pub struct Pipeline {
    session_key: [u8; 32],
    trust: OperatorTrust,
    policy: PolicyEngine,
    limits: ExecLimits,
    replay: ReplayGuard,
    mode_ceiling: OperationMode,
    rate: RateLimiter,
}

impl Pipeline {
    /// Gates 2 and 3a pass `request`: the replay guard admits it and its
    /// bundle name is safe.
    pub open spec fn screens(&self, request: ExecRequest) -> bool {
        &&& replay_verdict(
            self.spec_replay().last_seqs(),
            self.spec_replay().window(),
            key16(request.session_id@),
            request.seq,
            key16(request.nonce@),
        ) is Ok
        &&& safe_name(vstd::utf8::encode_utf8(request.exec_name@))
    }

    /// Gates 4 to 7 pass `request` for the bundle manifest `m` at `now_ms`:
    /// valid arguments, within the mode ceiling, admitted by the policy and
    /// within the blast-rate ceilings.
    pub open spec fn admits(&self, request: ExecRequest, m: ExecManifest, now_ms: u64) -> bool {
        &&& args_ok(m.args@, request.args@)
        &&& (m.meta.read_only || self.spec_mode_ceiling().spec_allows_mutation())
        &&& bundle_policy_ok(self.spec_policy().spec_allowlist().profiles@, request, m)
        &&& verdict(
            pruned(self.spec_rate().total_hits(), now_ms, MINUTE_MS).len(),
            pruned(self.spec_rate().mutating_hits(), now_ms, MINUTE_MS).len(),
            pruned(self.spec_rate().critical_hits(), now_ms, HOUR_MS).len(),
            self.spec_rate().ceilings().0,
            self.spec_rate().ceilings().1,
            self.spec_rate().ceilings().2,
            class_of(m),
        ) is Ok
    }

    /// The session public key requests must be signed under.
    pub closed spec fn spec_session_key(&self) -> Seq<u8> {
        self.session_key@
    }

    /// The executor's own mutation ceiling.
    pub closed spec fn spec_mode_ceiling(&self) -> OperationMode {
        self.mode_ceiling
    }

    /// The replay state.
    pub closed spec fn spec_replay(&self) -> ReplayGuard {
        self.replay
    }

    /// The blast-rate state.
    pub closed spec fn spec_rate(&self) -> RateLimiter {
        self.rate
    }

    /// The policy engine.
    pub closed spec fn spec_policy(&self) -> PolicyEngine {
        self.policy
    }

    /// The operator trust set bundles are verified against.
    pub closed spec fn spec_trust(&self) -> OperatorTrust {
        self.trust
    }

    /// The limits for each run.
    pub closed spec fn spec_limits(&self) -> ExecLimits {
        self.limits
    }

    /// The replay and rate states are well formed.
    pub closed spec fn wf(&self) -> bool {
        self.replay.wf() && self.rate.within_ceilings()
    }

    /// A pipeline with fresh replay state, default rate limits, and the
    /// fail-closed mode ceiling: no mutation until the host config opts in.
    pub fn new(session_key: [u8; 32], trust: OperatorTrust, policy: PolicyEngine, limits: ExecLimits) -> (r: Pipeline)
        ensures
            r.wf(),
            r.spec_session_key() == session_key@,
            r.spec_mode_ceiling() == OperationMode::ReadOnly,
            r.spec_policy() == policy,
            r.spec_trust() == trust,
            r.spec_limits() == limits,
            r.spec_replay().last_seqs() == Map::<u128, u64>::empty(),
            r.spec_replay().window() == Seq::<u128>::empty(),
            r.spec_rate().ceilings() == (20nat, 5nat, 2nat),
    {
        Pipeline {
            session_key,
            trust,
            policy,
            limits,
            replay: ReplayGuard::new(),
            mode_ceiling: OperationMode::ReadOnly,
            rate: RateLimiter::new(RateLimits::default()),
        }
    }

    /// Sets the host-wide blast-rate ceilings from the executor's config.
    pub fn set_rate_limits(&mut self, limits: RateLimits)
        requires
            old(self).wf(),
        ensures
            final(self).spec_trust() == old(self).spec_trust(),
            final(self).wf(),
            final(self).spec_rate().ceilings() == (
                limits.actions_per_minute as nat,
                limits.mutating_actions_per_minute as nat,
                limits.critical_actions_per_hour as nat,
            ),
            final(self).spec_replay() == old(self).spec_replay(),
            final(self).spec_mode_ceiling() == old(self).spec_mode_ceiling(),
            final(self).spec_session_key() == old(self).spec_session_key(),
    {
        self.rate = RateLimiter::new(limits);
    }

    /// Sets the executor's own mutation ceiling (from its config, never from
    /// the daemon's claimed session mode).
    pub fn set_mode_ceiling(&mut self, mode: OperationMode)
        ensures
            final(self).spec_trust() == old(self).spec_trust(),
            final(self).spec_mode_ceiling() == mode,
            final(self).spec_replay() == old(self).spec_replay(),
            final(self).spec_rate() == old(self).spec_rate(),
            final(self).spec_session_key() == old(self).spec_session_key(),
            final(self).wf() == old(self).wf(),
    {
        self.mode_ceiling = mode;
    }

    /// Replaces the session public key (the daemon rotates it on restart).
    pub fn set_session_key(&mut self, key: [u8; 32])
        ensures
            final(self).spec_trust() == old(self).spec_trust(),
            final(self).spec_session_key() == key@,
            final(self).spec_replay() == old(self).spec_replay(),
            final(self).spec_rate() == old(self).spec_rate(),
            final(self).spec_mode_ceiling() == old(self).spec_mode_ceiling(),
            final(self).wf() == old(self).wf(),
    {
        self.session_key = key;
    }

    /// The per-run limits.
    pub fn limits(&self) -> (r: ExecLimits)
        ensures
            r == self.spec_limits(),
    {
        self.limits
    }

    /// The operator trust set bundles are verified against.
    pub fn trust(&self) -> (r: &OperatorTrust)
        ensures
            *r == self.spec_trust(),
    {
        &self.trust
    }

    /// Gate 1: the decoded envelope must carry this build's version and a
    /// valid session signature; gives the request bytes to decode.
    pub fn authenticate(&self, envelope: Result<SignedEnvelope, IpcError>) -> (r: Result<Vec<u8>, ExecResponse>)
        ensures
            envelope matches Err(e) ==> (r matches Err(resp) && refused_with(
                resp,
                resp.action_id,
                RejectStage::SignatureInvalid,
                "malformed envelope: "@ + ipc_error_text(e),
            ) && resp.action_id@ == Seq::new(16, |i: int| 0u8)),
            envelope matches Ok(e) ==> (r is Ok <==> crate::ipc::opens(e, self.spec_session_key())),
            envelope matches Ok(e) ==> (r matches Ok(b) ==> b@ == e.request@),
            envelope is Ok && r is Err ==> (r matches Err(resp) && refused_at(resp, resp.action_id, RejectStage::SignatureInvalid)
                && resp.action_id@ == Seq::new(16, |i: int| 0u8)),
    {
        match envelope {
            Err(e) => {
                let mut v: Vec<char> = Vec::new();
                push_str(&mut v, "malformed envelope: ");
                let t = e.to_string();
                push_str(&mut v, t.as_str());
                Err(refuse(unknown_action(), RejectStage::SignatureInvalid, v))
            },
            Ok(env) => {
                match env.authenticate(&self.session_key) {
                    Ok(bytes) => {
                        let mut out: Vec<u8> = Vec::new();
                        let mut i: usize = 0;
                        while i < bytes.len()
                            invariant
                                i <= bytes@.len(),
                                out@ == bytes@.take(i as int),
                            decreases bytes.len() - i,
                        {
                            out.push(bytes[i]);
                            i = i + 1;
                            assert(out@ =~= bytes@.take(i as int));
                        }
                        assert(bytes@.take(bytes@.len() as int) =~= bytes@);
                        Ok(out)
                    },
                    Err(e) => {
                        let mut v: Vec<char> = Vec::new();
                        push_str(&mut v, "envelope rejected: ");
                        let t = e.to_string();
                        push_str(&mut v, t.as_str());
                        Err(refuse(unknown_action(), RejectStage::SignatureInvalid, v))
                    },
                }
            },
        }
    }

    /// The refusal for authenticated request bytes that do not decode.
    pub fn undecodable(codec_message: String) -> (r: ExecResponse)
        ensures
            refused_with(r, r.action_id, RejectStage::SignatureInvalid, "envelope rejected: IPC codec error: "@ + codec_message@),
            r.action_id@ == Seq::new(16, |i: int| 0u8),
    {
        let mut v: Vec<char> = Vec::new();
        push_str(&mut v, "envelope rejected: IPC codec error: ");
        push_str(&mut v, codec_message.as_str());
        refuse(unknown_action(), RejectStage::SignatureInvalid, v)
    }

    /// Gates 2 and 3a: replay check, then bundle name hygiene.
    ///
    /// A replay leaves the replay state unchanged; an unsafe name is
    /// refused after the request was recorded as seen.
    pub fn screen(&mut self, request: &ExecRequest) -> (r: Result<(), ExecResponse>)
        requires
            old(self).wf(),
        ensures
            final(self).spec_trust() == old(self).spec_trust(),
            final(self).wf(),
            final(self).spec_rate() == old(self).spec_rate(),
            final(self).spec_mode_ceiling() == old(self).spec_mode_ceiling(),
            final(self).spec_session_key() == old(self).spec_session_key(),
            final(self).spec_policy() == old(self).spec_policy(),
            final(self).spec_limits() == old(self).spec_limits(),
            r is Ok <==> old(self).screens(*request),
            ({
                let v = replay_verdict(
                    old(self).spec_replay().last_seqs(),
                    old(self).spec_replay().window(),
                    key16(request.session_id@),
                    request.seq,
                    key16(request.nonce@),
                );
                &&& v matches Err(why) ==> (r matches Err(resp) && refused_with(
                    resp,
                    request.action_id,
                    RejectStage::Replay,
                    replay_reason(why),
                ) && final(self).spec_replay().last_seqs() == old(self).spec_replay().last_seqs()
                    && final(self).spec_replay().window() == old(self).spec_replay().window())
                &&& v is Ok ==> final(self).spec_replay().last_seqs() == old(self).spec_replay().last_seqs().insert(
                    key16(request.session_id@),
                    request.seq,
                )
                &&& v is Ok ==> (r is Ok <==> safe_name(vstd::utf8::encode_utf8(request.exec_name@)))
                &&& v is Ok && r is Err ==> (r matches Err(resp) && refused_with(
                    resp,
                    request.action_id,
                    RejectStage::BundleUnverified,
                    "unsafe exec name "@ + debug_quoted(request.exec_name@),
                ))
            }),
    {
        match self.replay.admit_request(request.session_id, request.seq, request.nonce) {
            Ok(()) => {},
            Err(why) => {
                let mut v: Vec<char> = Vec::new();
                match why {
                    ReplayRejection::NonMonotonicSeq => push_str(&mut v, "replay guard: NonMonotonicSeq"),
                    ReplayRejection::DuplicateNonce => push_str(&mut v, "replay guard: DuplicateNonce"),
                }
                return Err(refuse(request.action_id, RejectStage::Replay, v));
            },
        }
        if !safe_exec_name(request.exec_name.as_str()) {
            let mut v: Vec<char> = Vec::new();
            push_str(&mut v, "unsafe exec name ");
            let q = debug_text(request.exec_name.as_str());
            push_str(&mut v, q.as_str());
            return Err(refuse(request.action_id, RejectStage::BundleUnverified, v));
        }
        Ok(())
    }

    /// Gate 3b: the bundle named by the request, loaded and verified by the
    /// caller, or the refusal for its failure.
    pub fn bundle_gate(request: &ExecRequest, loaded: Result<VerifiedBundle, ExecFormatError>) -> (r: Result<VerifiedBundle, ExecResponse>)
        ensures
            loaded matches Ok(b) ==> r == Ok::<VerifiedBundle, ExecResponse>(b),
            loaded matches Err(e) ==> (r matches Err(resp) && refused_with(
                resp,
                request.action_id,
                RejectStage::BundleUnverified,
                "bundle did not verify: "@ + bundle_error_text(e),
            )),
    {
        match loaded {
            Ok(b) => Ok(b),
            Err(e) => {
                let mut v: Vec<char> = Vec::new();
                push_str(&mut v, "bundle did not verify: ");
                let t = e.to_string();
                push_str(&mut v, t.as_str());
                Err(refuse(request.action_id, RejectStage::BundleUnverified, v))
            },
        }
    }

    /// Gates 4 to 7: arguments, mutation ceiling, denylist and allowlist,
    /// blast rate (at `now_ms`, a monotonic clock reading). Only an action
    /// that would otherwise run consumes rate budget.
    pub fn admit_action(&mut self, request: &ExecRequest, bundle: &VerifiedBundle, now_ms: u64) -> (r: Result<(), ExecResponse>)
        requires
            old(self).wf(),
        ensures
            final(self).spec_trust() == old(self).spec_trust(),
            final(self).wf(),
            final(self).spec_replay() == old(self).spec_replay(),
            final(self).spec_mode_ceiling() == old(self).spec_mode_ceiling(),
            final(self).spec_session_key() == old(self).spec_session_key(),
            final(self).spec_policy() == old(self).spec_policy(),
            final(self).spec_limits() == old(self).spec_limits(),
            final(self).spec_rate().ceilings() == old(self).spec_rate().ceilings(),
            r is Ok <==> old(self).admits(*request, bundle.spec_manifest(), now_ms),
            ({
                let m = bundle.spec_manifest();
                let args_pass = args_ok(m.args@, request.args@);
                let mut_pass = m.meta.read_only || old(self).spec_mode_ceiling().spec_allows_mutation();
                let pol_pass = bundle_policy_ok(old(self).spec_policy().spec_allowlist().profiles@, *request, m);
                let rate = verdict(
                    pruned(old(self).spec_rate().total_hits(), now_ms, MINUTE_MS).len(),
                    pruned(old(self).spec_rate().mutating_hits(), now_ms, MINUTE_MS).len(),
                    pruned(old(self).spec_rate().critical_hits(), now_ms, HOUR_MS).len(),
                    old(self).spec_rate().ceilings().0,
                    old(self).spec_rate().ceilings().1,
                    old(self).spec_rate().ceilings().2,
                    class_of(m),
                );
                &&& !args_pass ==> (r matches Err(resp) && refused_at(resp, request.action_id, RejectStage::ArgRejected))
                &&& args_pass && !mut_pass ==> (r matches Err(resp) && refused_with(
                    resp,
                    request.action_id,
                    RejectStage::NotReadOnly,
                    "executor is in read-only mode; refusing a mutating bundle"@,
                ))
                &&& args_pass && mut_pass && !pol_pass ==> (r matches Err(resp) && refused_at(
                    resp,
                    request.action_id,
                    policy_stage(old(self).spec_policy().spec_allowlist().profiles@, *request, m)->0,
                ))
                &&& args_pass && mut_pass && pol_pass ==> (rate matches Err(why) ==> (r matches Err(resp)
                    && refused_with(resp, request.action_id, RejectStage::RateLimited, rate_reason(why))))
                &&& r is Ok <==> args_pass && mut_pass && pol_pass && rate is Ok
                &&& !(args_pass && mut_pass && pol_pass) ==> final(self).spec_rate() == old(self).spec_rate()
            }),
    {
        let ghost m = bundle.spec_manifest();
        let manifest = bundle.manifest();
        match bundle.validate_args(request.args.as_slice()) {
            Ok(()) => {},
            Err(e) => {
                let mut v: Vec<char> = Vec::new();
                push_str(&mut v, "argument rejected: ");
                let t = e.to_string();
                push_str(&mut v, t.as_str());
                return Err(refuse(request.action_id, RejectStage::ArgRejected, v));
            },
        }
        if !(manifest.meta.read_only || self.mode_ceiling.allows_mutation()) {
            let mut v: Vec<char> = Vec::new();
            push_str(&mut v, "executor is in read-only mode; refusing a mutating bundle");
            return Err(refuse(request.action_id, RejectStage::NotReadOnly, v));
        }
        match self.policy_gate(request, manifest) {
            Ok(()) => {},
            Err(resp) => {
                return Err(resp);
            },
        }
        let class = ActionClass { mutating: !manifest.meta.read_only, critical: manifest.meta.risk == RiskLevel::Critical };
        match self.rate.try_admit(now_ms, class) {
            Ok(()) => Ok(()),
            Err(why) => {
                let mut v: Vec<char> = Vec::new();
                match why {
                    RateRejection::TotalPerMinute => push_str(&mut v, "rate limit hit: actions-per-minute ceiling exceeded"),
                    RateRejection::MutatingPerMinute => push_str(&mut v, "rate limit hit: mutating-actions-per-minute ceiling exceeded"),
                    RateRejection::CriticalPerHour => push_str(&mut v, "rate limit hit: critical-actions-per-hour ceiling exceeded"),
                }
                Err(refuse(request.action_id, RejectStage::RateLimited, v))
            },
        }
    }

    /// Gate 6: the denylist and allowlist over the bundle's own payload and
    /// declared paths. A decision that requires an operator approval is
    /// refused: the executor must not run such an action until an approval
    /// is presented, and it is given none.
    fn policy_gate(&self, request: &ExecRequest, manifest: &ExecManifest) -> (r: Result<(), ExecResponse>)
        ensures
            r is Ok <==> bundle_policy_ok(self.spec_policy().spec_allowlist().profiles@, *request, *manifest),
            r matches Err(resp) ==> refused_at(
                resp,
                request.action_id,
                policy_stage(self.spec_policy().spec_allowlist().profiles@, *request, *manifest)->0,
            ),
    {
        let ro = &manifest.sandbox.allowed_paths_ro;
        let rw = &manifest.sandbox.allowed_paths_rw;
        let mut intents: Vec<PathIntent> = Vec::new();
        let mut i: usize = 0;
        while i < ro.len()
            invariant
                i <= ro@.len(),
                intents@.len() == i,
                forall|j: int| 0 <= j < i ==> (#[trigger] intents@[j]).path@ == ro@[j]@ && intents@[j].access == PathAccess::Read,
            decreases ro.len() - i,
        {
            intents.push(PathIntent { path: ro[i].as_str(), access: PathAccess::Read });
            i = i + 1;
        }
        let mut k: usize = 0;
        while k < rw.len()
            invariant
                k <= rw@.len(),
                intents@.len() == ro@.len() + k,
                forall|j: int| 0 <= j < ro@.len() ==> (#[trigger] intents@[j]).path@ == ro@[j]@ && intents@[j].access == PathAccess::Read,
                forall|j: int| 0 <= j < k ==> (#[trigger] intents@[ro@.len() + j]).path@ == rw@[j]@ && intents@[ro@.len() + j].access == PathAccess::Write,
            decreases rw.len() - k,
        {
            intents.push(PathIntent { path: rw[k].as_str(), access: PathAccess::Write });
            k = k + 1;
        }
        let mut commands: Vec<&str> = Vec::new();
        commands.push(manifest.payload.inline.as_str());
        let preq = PolicyRequest {
            profile: request.profile.as_str(),
            mode: request.mode,
            exec_name: request.exec_name.as_str(),
            risk: manifest.meta.risk,
            commands: commands.as_slice(),
            paths: intents.as_slice(),
        };
        let decision = self.policy.evaluate(&preq);
        proof {
            lemma_policy_pass(self.spec_policy().spec_allowlist().profiles@, preq, decision, *request, *manifest);
        }
        match decision {
            PolicyDecision::Allow => Ok(()),
            PolicyDecision::RequireApproval { reason, .. } => {
                let mut v: Vec<char> = Vec::new();
                push_str(&mut v, "operator approval required: ");
                push_str(&mut v, reason.as_str());
                Err(refuse(request.action_id, RejectStage::ApprovalRequired, v))
            },
            PolicyDecision::Deny { category, reason, .. } => {
                let mut v: Vec<char> = Vec::new();
                push_str(&mut v, "denied (");
                push_str(&mut v, category.debug_name());
                push_str(&mut v, "): ");
                push_str(&mut v, reason.as_str());
                Err(refuse(request.action_id, RejectStage::DenylistHit, v))
            },
            PolicyDecision::NotAllowed { reason } => Err(ExecResponse::rejected(request.action_id, RejectStage::NotAllowlisted, reason)),
        }
    }

    /// Gate 8, decision part: the path to take a recovery point of before a
    /// bundle that mutates persistent state (its first read-write path), or
    /// `None` when it does not. Refused when it declares no read-write path
    /// or no snapshot backend is available.
    pub fn snapshot_target(request: &ExecRequest, bundle: &VerifiedBundle, has_backend: bool) -> (r: Result<Option<String>, ExecResponse>)
        ensures
            !bundle.spec_manifest().meta.mutates_persistent_state ==> r == Ok::<Option<String>, ExecResponse>(None),
            bundle.spec_manifest().meta.mutates_persistent_state && bundle.spec_manifest().sandbox.allowed_paths_rw@.len() == 0
                ==> (r matches Err(resp) && refused_with(
                resp,
                request.action_id,
                RejectStage::SnapshotUnavailable,
                "mutating action declares no rw path to snapshot"@,
            )),
            bundle.spec_manifest().meta.mutates_persistent_state && bundle.spec_manifest().sandbox.allowed_paths_rw@.len() > 0
                && !has_backend ==> (r matches Err(resp) && refused_with(
                resp,
                request.action_id,
                RejectStage::SnapshotUnavailable,
                "action mutates persistent state but no snapshot backend is available (no recovery point ⇒ refused)"@,
            )),
            bundle.spec_manifest().meta.mutates_persistent_state && bundle.spec_manifest().sandbox.allowed_paths_rw@.len() > 0
                && has_backend ==> (r matches Ok(Some(t)) && t@ == bundle.spec_manifest().sandbox.allowed_paths_rw@[0]@),
    {
        let m = bundle.manifest();
        if !m.meta.mutates_persistent_state {
            return Ok(None);
        }
        if m.sandbox.allowed_paths_rw.len() == 0 {
            let mut v: Vec<char> = Vec::new();
            push_str(&mut v, "mutating action declares no rw path to snapshot");
            return Err(refuse(request.action_id, RejectStage::SnapshotUnavailable, v));
        }
        if !has_backend {
            let mut v: Vec<char> = Vec::new();
            push_str(&mut v, "action mutates persistent state but no snapshot backend is available (no recovery point ⇒ refused)");
            return Err(refuse(request.action_id, RejectStage::SnapshotUnavailable, v));
        }
        Ok(Some(m.sandbox.allowed_paths_rw[0].clone()))
    }

    /// Gate 8, outcome part: the refusal when taking the recovery point
    /// failed (the backend's message).
    pub fn snapshot_failed(request: &ExecRequest, message: &str) -> (r: ExecResponse)
        ensures
            refused_with(r, request.action_id, RejectStage::SnapshotUnavailable, "snapshot failed: "@ + message@),
    {
        let mut v: Vec<char> = Vec::new();
        push_str(&mut v, "snapshot failed: ");
        push_str(&mut v, message);
        refuse(request.action_id, RejectStage::SnapshotUnavailable, v)
    }

    /// Gate 9: the enforceable sandbox plan for the verified bundle's
    /// `[sandbox]` section. A bundle that cannot produce a plan never runs.
    pub fn sandbox_gate(request: &ExecRequest, bundle: &VerifiedBundle, arch: Arch) -> (r: Result<SandboxPlan, ExecResponse>)
        ensures
            r is Ok <==> policy_of(bundle.spec_manifest().sandbox).acceptable(),
            r matches Err(resp) ==> refused_at(resp, request.action_id, RejectStage::SandboxRejected),
            r matches Ok(p) ==> policy_of(bundle.spec_manifest().sandbox).planned(p, arch),
    {
        let s = &bundle.manifest().sandbox;
        let network = match s.network {
            NetworkPolicy::Disabled => NetworkMode::Disabled,
            NetworkPolicy::Loopback => NetworkMode::Loopback,
            NetworkPolicy::Egress => NetworkMode::Egress,
        };
        let policy = SandboxPolicy {
            syscall_profile: s.syscall_profile.clone(),
            capabilities: s.capabilities.clone(),
            allowed_paths_ro: s.allowed_paths_ro.clone(),
            allowed_paths_rw: s.allowed_paths_rw.clone(),
            network,
            cpu_max: s.cpu_max.clone(),
            memory_max: s.memory_max.clone(),
        };
        assert(policy.capabilities@ == s.capabilities@);
        assert(policy.allowed_paths_ro@ == s.allowed_paths_ro@);
        assert(policy.allowed_paths_rw@ == s.allowed_paths_rw@);
        match policy.plan(arch) {
            Ok(p) => Ok(p),
            Err(e) => {
                let mut v: Vec<char> = Vec::new();
                push_str(&mut v, "sandbox plan refused: ");
                let t = e.to_string();
                push_str(&mut v, t.as_str());
                Err(refuse(request.action_id, RejectStage::SandboxRejected, v))
            },
        }
    }

    /// The refusal when a declared cgroup limit cannot be enforced.
    pub fn cgroup_refused(request: &ExecRequest, message: &str) -> (r: ExecResponse)
        ensures
            refused_with(r, request.action_id, RejectStage::SandboxRejected, "cgroup limit not enforceable: "@ + message@),
    {
        let mut v: Vec<char> = Vec::new();
        push_str(&mut v, "cgroup limit not enforceable: ");
        push_str(&mut v, message);
        refuse(request.action_id, RejectStage::SandboxRejected, v)
    }
}

/// The sandbox request a manifest's `[sandbox]` section maps to.
pub open spec fn policy_of(s: SandboxSpec) -> SandboxPolicy {
    SandboxPolicy {
        syscall_profile: s.syscall_profile,
        capabilities: s.capabilities,
        allowed_paths_ro: s.allowed_paths_ro,
        allowed_paths_rw: s.allowed_paths_rw,
        network: network_of(s.network),
        cpu_max: s.cpu_max,
        memory_max: s.memory_max,
    }
}

/// The sandbox network mode for a bundle's network policy.
pub open spec fn network_of(p: NetworkPolicy) -> NetworkMode {
    match p {
        NetworkPolicy::Disabled => NetworkMode::Disabled,
        NetworkPolicy::Loopback => NetworkMode::Loopback,
        NetworkPolicy::Egress => NetworkMode::Egress,
    }
}

proof fn lemma_first_denied_path_exists(paths: Seq<PathIntent>, i: int)
    requires
        0 <= i < paths.len(),
        path_denied(paths[i].path@, paths[i].access),
    ensures
        exists|f: int| first_denied_path(paths, f),
    decreases i,
{
    if forall|j: int| 0 <= j < i ==> !path_denied((#[trigger] paths[j]).path@, paths[j].access) {
        assert(first_denied_path(paths, i));
    } else {
        let j = choose|j: int| 0 <= j < i && path_denied((#[trigger] paths[j]).path@, paths[j].access);
        lemma_first_denied_path_exists(paths, j);
    }
}

proof fn lemma_policy_pass(
    ps: Seq<crate::policy::allowlist::ProfileAllow>,
    preq: PolicyRequest,
    d: PolicyDecision,
    req: ExecRequest,
    m: ExecManifest,
)
    requires
        decision_ok(ps, preq, d),
        preq.commands@.len() == 1,
        preq.commands@[0]@ == m.payload.inline@,
        preq.profile@ == req.profile@,
        preq.exec_name@ == req.exec_name@,
        preq.mode == req.mode,
        preq.risk == m.meta.risk,
        preq.paths@.len() == m.sandbox.allowed_paths_ro@.len() + m.sandbox.allowed_paths_rw@.len(),
        forall|j: int| 0 <= j < m.sandbox.allowed_paths_ro@.len() ==> (#[trigger] preq.paths@[j]).path@ == m.sandbox.allowed_paths_ro@[j]@
            && preq.paths@[j].access == PathAccess::Read,
        forall|j: int| 0 <= j < m.sandbox.allowed_paths_rw@.len() ==> (#[trigger] preq.paths@[m.sandbox.allowed_paths_ro@.len() + j]).path@
            == m.sandbox.allowed_paths_rw@[j]@ && preq.paths@[m.sandbox.allowed_paths_ro@.len() + j].access == PathAccess::Write,
    ensures
        d is Allow <==> bundle_policy_ok(ps, req, m),
        d is Deny <==> policy_stage(ps, req, m) == Some(RejectStage::DenylistHit),
        d is NotAllowed <==> policy_stage(ps, req, m) == Some(RejectStage::NotAllowlisted),
        d is RequireApproval <==> policy_stage(ps, req, m) == Some(RejectStage::ApprovalRequired),
{
    let nro = m.sandbox.allowed_paths_ro@.len();
    if command_denied(m.payload.inline@) {
        assert(first_denied_command(preq.commands@, 0));
    } else {
        assert forall|i: int| !first_denied_command(preq.commands@, i) by {}
        if exists|i: int| 0 <= i < nro && path_denied((#[trigger] m.sandbox.allowed_paths_ro@[i])@, PathAccess::Read) {
            let i = choose|i: int| 0 <= i < nro && path_denied((#[trigger] m.sandbox.allowed_paths_ro@[i])@, PathAccess::Read);
            assert(preq.paths@[i].path@ == m.sandbox.allowed_paths_ro@[i]@);
            lemma_first_denied_path_exists(preq.paths@, i);
        } else if exists|i: int| 0 <= i < m.sandbox.allowed_paths_rw@.len() && path_denied((#[trigger] m.sandbox.allowed_paths_rw@[i])@, PathAccess::Write) {
            let i = choose|i: int| 0 <= i < m.sandbox.allowed_paths_rw@.len() && path_denied((#[trigger] m.sandbox.allowed_paths_rw@[i])@, PathAccess::Write);
            assert(preq.paths@[nro + i].path@ == m.sandbox.allowed_paths_rw@[i]@);
            lemma_first_denied_path_exists(preq.paths@, nro + i);
        } else {
            assert forall|f: int| !first_denied_path(preq.paths@, f) by {
                if 0 <= f < preq.paths@.len() {
                    if f < nro {
                        assert(preq.paths@[f].path@ == m.sandbox.allowed_paths_ro@[f]@);
                    } else {
                        assert(preq.paths@[nro + (f - nro)].path@ == m.sandbox.allowed_paths_rw@[f - nro]@);
                    }
                }
            }
        }
    }
}

/// The response for an action that ran.
pub fn completed(action_id: ActionId, result: RunResult, snapshot_id: Option<String>) -> (r: ExecResponse)
    ensures
        r.action_id == action_id,
        r.outcome == (ExecOutcome::Completed {
            exit_code: result.exit_code,
            duration_ms: result.duration_ms,
            stdout: result.stdout,
            stderr: result.stderr,
            output_truncated: result.truncated,
            snapshot_id,
        }),
{
    ExecResponse {
        action_id,
        outcome: ExecOutcome::Completed {
            exit_code: result.exit_code,
            duration_ms: result.duration_ms,
            stdout: result.stdout,
            stderr: result.stderr,
            output_truncated: result.truncated,
            snapshot_id,
        },
    }
}

} // verus!
