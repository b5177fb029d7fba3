//! The pipeline's order as a state machine.
//!
//! Handling a request alternates decisions with outside work: decoding the
//! authenticated bytes, loading the signed bundle from disk, taking a
//! recovery point, applying cgroup limits and running the action. The
//! caller performs each [`DispatchAction`] and hands the outcome back as a
//! [`DispatchEvent`]; [`Pipeline::step`] makes every decision. The gates
//! run in strict order, the first refusal is the answer, and nothing runs
//! unless every gate passed.

use vstd::prelude::*;

use crate::bundle::error::{bundle_error_text, ExecFormatError};
use crate::bundle::manifest::ExecManifest;
use crate::bundle::verify::VerifiedBundle;
use crate::bundle::args::args_ok;
use crate::execd::handler::{
    bundle_policy_ok, completed, policy_of, policy_stage, refuse, refused_at, refused_with, unknown_action, Pipeline,
};
use crate::execd::replay::{key16, replay_verdict, ReplayRejection};
use crate::execd::runner::RunResult;
use crate::ipc::{opens, ExecOutcome, ExecRequest, ExecResponse, IpcError, RejectStage, SignedEnvelope};
use crate::primitives::id::ActionId;
use crate::sandbox::plan::SandboxPlan;
use crate::sandbox::seccomp::Arch;
use crate::text::push_str;

verus! {

/// A gate of the pipeline.
#[derive(Debug, Clone, Copy, PartialEq, Eq, Structural)]
pub enum Gate {
    /// Version and session signature.
    Authenticate,
    /// Replay guard and bundle name hygiene.
    Screen,
    /// The signed bundle verified.
    BundleGate,
    /// Arguments, mode ceiling, policy and blast rate.
    AdmitAction,
    /// The recovery point decision.
    SnapshotTarget,
    /// The sandbox plan.
    SandboxGate,
}

/// Every gate, in the order a request passes them before it runs.
pub open spec fn all_gates() -> Seq<Gate> {
    seq![
        Gate::Authenticate,
        Gate::Screen,
        Gate::BundleGate,
        Gate::AdmitAction,
        Gate::SnapshotTarget,
        Gate::SandboxGate,
    ]
}

/// Where a request stands.
pub enum Stage {
    /// Waiting for a frame.
    Idle,
    /// The authenticated request bytes are out for decoding.
    Decoding,
    /// The screened request's bundle is out for loading.
    Loading { request: ExecRequest },
    /// A recovery point is being taken before the admitted action.
    Snapshotting { request: ExecRequest, bundle: VerifiedBundle },
    /// The action runs inside its sandbox.
    Running { action_id: ActionId, snapshot_id: Option<String> },
    /// The response was handed out.
    Done,
}

/// The state of one request's dispatch. Only [`DispatchState::idle`] and
/// [`Pipeline::step`] make one.
pub struct DispatchState {
    stage: Stage,
}

/// Outside work the caller performs next.
pub enum DispatchAction {
    /// Decode these authenticated request bytes.
    Decode(Vec<u8>),
    /// Load and verify the bundle of this name.
    Load(String),
    /// Take a recovery point of this path.
    Snapshot(String),
    /// Apply the plan's cgroup limits and run `script` with `args` under
    /// `plan`.
    Run { action_id: ActionId, script: String, args: Vec<(String, String)>, plan: SandboxPlan },
    /// Send this response; the request is over.
    Respond(ExecResponse),
}

/// The outcome of the caller's work.
pub enum DispatchEvent {
    /// A frame body arrived, decoded as an envelope or not.
    Frame(Result<SignedEnvelope, IpcError>),
    /// The request bytes decoded, or the codec's message.
    Decoded(Result<ExecRequest, String>),
    /// The bundle loaded (or its verification error), with a monotonic
    /// clock reading and whether a snapshot backend is available.
    Loaded { bundle: Result<VerifiedBundle, ExecFormatError>, now_ms: u64, has_backend: bool },
    /// The recovery point's id, or the backend's message.
    Snapshotted(Result<String, String>),
    /// The plan's cgroup limits could not be applied (the message).
    CgroupRefused(String),
    /// The action ran.
    Finished(RunResult),
}

impl DispatchState {
    /// Where the request stands.
    pub closed spec fn spec_stage(self) -> Stage {
        self.stage
    }

    /// The gates a request in this state has passed, in order.
    pub open spec fn spec_passed(self) -> Seq<Gate> {
        match self.spec_stage() {
            Stage::Decoding => all_gates().take(1),
            Stage::Loading { .. } => all_gates().take(2),
            Stage::Snapshotting { .. } => all_gates().take(5),
            Stage::Running { .. } => all_gates(),
            _ => Seq::empty(),
        }
    }

    /// The state before a frame arrives.
    pub fn idle() -> (r: DispatchState)
        ensures
            r.spec_stage() is Idle,
    {
        DispatchState { stage: Stage::Idle }
    }

    /// Whether the request is over.
    pub fn is_done(&self) -> (r: bool)
        ensures
            r == self.spec_stage() is Done,
    {
        match self.stage {
            Stage::Done => true,
            _ => false,
        }
    }
}

/// The sandbox gate's outcome for `request` and the bundle manifest `m`:
/// an acceptable sandbox section runs with its plan, any other is refused.
pub open spec fn sandbox_outcome(
    request: ExecRequest,
    m: ExecManifest,
    arch: Arch,
    snapshot_id: Option<String>,
    next: DispatchState,
    act: DispatchAction,
) -> bool {
    &&& policy_of(m.sandbox).acceptable() ==> {
        &&& next.spec_stage() == (Stage::Running { action_id: request.action_id, snapshot_id })
        &&& act matches DispatchAction::Run { action_id, script, args, plan } && action_id == request.action_id
            && script@ == m.payload.inline@ && args == request.args && policy_of(m.sandbox).planned(plan, arch)
    }
    &&& !policy_of(m.sandbox).acceptable() ==> (act matches DispatchAction::Respond(resp) && refused_at(
        resp,
        request.action_id,
        RejectStage::SandboxRejected,
    ) && next.spec_stage() is Done)
}

/// The screen gate's refusal of `request` by pipeline `p`.
pub open spec fn screen_refusal(p: Pipeline, request: ExecRequest, resp: ExecResponse) -> bool {
    let v = replay_verdict(
        p.spec_replay().last_seqs(),
        p.spec_replay().window(),
        key16(request.session_id@),
        request.seq,
        key16(request.nonce@),
    );
    &&& v is Err ==> refused_at(resp, request.action_id, RejectStage::Replay)
    &&& v is Ok ==> refused_at(resp, request.action_id, RejectStage::BundleUnverified)
}

/// The stage at which gates 4 to 7 refuse `request` for the bundle
/// manifest `m` under pipeline `p`, when they do: arguments, then the mode
/// ceiling, then the policy, then the blast rate.
pub open spec fn admit_stage(p: Pipeline, request: ExecRequest, m: ExecManifest) -> RejectStage {
    if !args_ok(m.args@, request.args@) {
        RejectStage::ArgRejected
    } else if !(m.meta.read_only || p.spec_mode_ceiling().spec_allows_mutation()) {
        RejectStage::NotReadOnly
    } else if !bundle_policy_ok(p.spec_policy().spec_allowlist().profiles@, request, m) {
        policy_stage(p.spec_policy().spec_allowlist().profiles@, request, m)->0
    } else {
        RejectStage::RateLimited
    }
}

/// Every session's highest accepted sequence number in `before` is still
/// known in `after`, and no lower.
pub open spec fn seqs_grow(before: Map<u128, u64>, after: Map<u128, u64>) -> bool {
    forall|k: u128| before.contains_key(k) ==> #[trigger] after.contains_key(k) && before[k] <= after[k]
}

/// A replayed request is refused. Once a pipeline has accepted a request's
/// sequence number for its session (and, by [`Pipeline::step`], every
/// later pipeline state keeps a number at least that high), the same
/// request, byte for byte, does not pass the screen: it is refused at
/// [`RejectStage::Replay`].
pub proof fn lemma_replayed_request_refused(p: Pipeline, accepted: Map<u128, u64>, request: ExecRequest)
    requires
        accepted.contains_key(key16(request.session_id@)),
        accepted[key16(request.session_id@)] == request.seq,
        seqs_grow(accepted, p.spec_replay().last_seqs()),
    ensures
        !p.screens(request),
        replay_verdict(
            p.spec_replay().last_seqs(),
            p.spec_replay().window(),
            key16(request.session_id@),
            request.seq,
            key16(request.nonce@),
        ) == Err::<(), ReplayRejection>(ReplayRejection::NonMonotonicSeq),
{
    assert(p.spec_replay().last_seqs().contains_key(key16(request.session_id@)));
}

/// A response for an event that does not belong to the request's stage.
fn out_of_order() -> (r: ExecResponse)
    ensures
        r.outcome matches ExecOutcome::Rejected { stage, .. } && stage == RejectStage::ExecFailure,
{
    let mut v: Vec<char> = Vec::new();
    push_str(&mut v, "dispatch event out of order");
    refuse(unknown_action(), RejectStage::ExecFailure, v)
}

/// The end of a request with response `resp`.
fn respond(resp: ExecResponse) -> (r: (DispatchState, DispatchAction))
    ensures
        r.0.spec_stage() is Done,
        r.1 == DispatchAction::Respond(resp),
{
    (DispatchState { stage: Stage::Done }, DispatchAction::Respond(resp))
}

/// Gate 9 and the run: the plan for the admitted `request`, or its refusal.
fn plan_and_run(request: ExecRequest, bundle: &VerifiedBundle, arch: Arch, snapshot_id: Option<String>) -> (r: (
    DispatchState,
    DispatchAction,
))
    ensures
        sandbox_outcome(request, bundle.spec_manifest(), arch, snapshot_id, r.0, r.1),
{
    match Pipeline::sandbox_gate(&request, bundle, arch) {
        Err(resp) => respond(resp),
        Ok(plan) => {
            let script = bundle.manifest().payload.inline.clone();
            let action_id = request.action_id;
            let args = request.args;
            (
                DispatchState { stage: Stage::Running { action_id, snapshot_id } },
                DispatchAction::Run { action_id, script, args, plan },
            )
        },
    }
}

impl Pipeline {
    /// Envelope `envelope` passes gate 1 under this pipeline's session key.
    pub open spec fn authenticates(&self, envelope: Result<SignedEnvelope, IpcError>) -> bool {
        envelope matches Ok(e) && opens(e, self.spec_session_key())
    }

    /// One decision of the dispatch: from the request's state and the
    /// outcome of the caller's last work, the next state and the next work.
    ///
    /// The gates run in order (authenticate, decode, screen, bundle, admit,
    /// snapshot, sandbox); the first refusal is the response and ends the
    /// request; [`DispatchAction::Run`] comes only once every gate passed.
    /// An event that does not belong to the state ends the request with an
    /// `ExecFailure` refusal.
    #[verifier::rlimit(40)]
    pub fn step(&mut self, state: DispatchState, event: DispatchEvent, arch: Arch) -> (r: (DispatchState, DispatchAction))
        requires
            old(self).wf(),
        ensures
            final(self).wf(),
            final(self).spec_session_key() == old(self).spec_session_key(),
            final(self).spec_trust() == old(self).spec_trust(),
            final(self).spec_policy() == old(self).spec_policy(),
            final(self).spec_limits() == old(self).spec_limits(),
            final(self).spec_mode_ceiling() == old(self).spec_mode_ceiling(),
            r.1 is Run ==> r.0.spec_passed() == all_gates(),
            seqs_grow(old(self).spec_replay().last_seqs(), final(self).spec_replay().last_seqs()),
            r.1 is Respond <==> r.0.spec_stage() is Done,
            state.spec_stage() matches Stage::Idle ==> (event matches DispatchEvent::Frame(env) ==> {
                &&& old(self).authenticates(env) ==> (r.1 matches DispatchAction::Decode(b) && b@ == env->Ok_0.request@
                    && r.0.spec_stage() is Decoding)
                &&& !old(self).authenticates(env) ==> (r.1 matches DispatchAction::Respond(resp) && refused_at(
                    resp,
                    resp.action_id,
                    RejectStage::SignatureInvalid,
                ) && resp.action_id@ == Seq::new(16, |i: int| 0u8))
            }),
            state.spec_stage() matches Stage::Decoding ==> (event matches DispatchEvent::Decoded(Err(m)) ==> (r.1 matches DispatchAction::Respond(
                resp,
            ) && refused_with(
                resp,
                resp.action_id,
                RejectStage::SignatureInvalid,
                "envelope rejected: IPC codec error: "@ + m@,
            ))),
            state.spec_stage() matches Stage::Decoding ==> (event matches DispatchEvent::Decoded(Ok(req)) ==> {
                &&& old(self).screens(req) ==> (r.1 matches DispatchAction::Load(n) && n@ == req.exec_name@
                    && r.0.spec_stage() == (Stage::Loading { request: req }))
                &&& !old(self).screens(req) ==> (r.1 matches DispatchAction::Respond(resp) && screen_refusal(
                    *old(self),
                    req,
                    resp,
                ))
            }),
            state.spec_stage() matches Stage::Loading { request } ==> (event matches DispatchEvent::Loaded {
                bundle: loaded,
                now_ms,
                has_backend,
            } ==> {
                &&& loaded matches Err(e) ==> (r.1 matches DispatchAction::Respond(resp) && refused_with(
                    resp,
                    request.action_id,
                    RejectStage::BundleUnverified,
                    "bundle did not verify: "@ + bundle_error_text(e),
                ))
                &&& loaded matches Ok(b) ==> {
                    let m = b.spec_manifest();
                    let rw = m.sandbox.allowed_paths_rw@;
                    &&& !old(self).admits(request, m, now_ms) ==> (r.1 matches DispatchAction::Respond(resp)
                        && refused_at(resp, request.action_id, admit_stage(*old(self), request, m)))
                    &&& old(self).admits(request, m, now_ms) && m.meta.mutates_persistent_state && (rw.len() == 0
                        || !has_backend) ==> (r.1 matches DispatchAction::Respond(resp) && refused_at(
                        resp,
                        request.action_id,
                        RejectStage::SnapshotUnavailable,
                    ))
                    &&& old(self).admits(request, m, now_ms) && m.meta.mutates_persistent_state && rw.len() > 0
                        && has_backend ==> (r.1 matches DispatchAction::Snapshot(t) && t@ == rw[0]@
                        && r.0.spec_stage() == (Stage::Snapshotting { request, bundle: b }))
                    &&& old(self).admits(request, m, now_ms) && !m.meta.mutates_persistent_state
                        ==> sandbox_outcome(request, m, arch, None, r.0, r.1)
                }
            }),
            state.spec_stage() matches Stage::Snapshotting { request, bundle } ==> (event matches DispatchEvent::Snapshotted(
                taken,
            ) ==> {
                &&& taken matches Err(msg) ==> (r.1 matches DispatchAction::Respond(resp) && refused_with(
                    resp,
                    request.action_id,
                    RejectStage::SnapshotUnavailable,
                    "snapshot failed: "@ + msg@,
                ))
                &&& taken matches Ok(id) ==> sandbox_outcome(request, bundle.spec_manifest(), arch, Some(id), r.0, r.1)
            }),
            state.spec_stage() matches Stage::Running { action_id, snapshot_id } ==> (event matches DispatchEvent::CgroupRefused(
                msg,
            ) ==> (r.1 matches DispatchAction::Respond(resp) && refused_with(
                resp,
                action_id,
                RejectStage::SandboxRejected,
                "cgroup limit not enforceable: "@ + msg@,
            ))),
            state.spec_stage() matches Stage::Running { action_id, snapshot_id } ==> (event matches DispatchEvent::Finished(
                result,
            ) ==> (r.1 matches DispatchAction::Respond(resp) && resp.action_id == action_id && resp.outcome == (
            ExecOutcome::Completed {
                exit_code: result.exit_code,
                duration_ms: result.duration_ms,
                stdout: result.stdout,
                stderr: result.stderr,
                output_truncated: result.truncated,
                snapshot_id,
            }))),
    {
        match state.stage {
            Stage::Idle => match event {
                DispatchEvent::Frame(env) => {
                    let ghost e0 = env;
                    let res = self.authenticate(env);
                    assert(res is Ok <==> old(self).authenticates(e0));
                    match res {
                        Ok(bytes) => (DispatchState { stage: Stage::Decoding }, DispatchAction::Decode(bytes)),
                        Err(resp) => respond(resp),
                    }
                },
                _ => respond(out_of_order()),
            },
            Stage::Decoding => match event {
                DispatchEvent::Decoded(Err(m)) => respond(Pipeline::undecodable(m)),
                DispatchEvent::Decoded(Ok(request)) => {
                    match self.screen(&request) {
                        Ok(()) => {
                            let name = request.exec_name.clone();
                            (DispatchState { stage: Stage::Loading { request } }, DispatchAction::Load(name))
                        },
                        Err(resp) => respond(resp),
                    }
                },
                _ => respond(out_of_order()),
            },
            Stage::Loading { request } => match event {
                DispatchEvent::Loaded { bundle: loaded, now_ms, has_backend } => {
                    match Pipeline::bundle_gate(&request, loaded) {
                        Err(resp) => respond(resp),
                        Ok(bundle) => {
                            match self.admit_action(&request, &bundle, now_ms) {
                                Err(resp) => respond(resp),
                                Ok(()) => {
                                    match Pipeline::snapshot_target(&request, &bundle, has_backend) {
                                        Err(resp) => respond(resp),
                                        Ok(None) => plan_and_run(request, &bundle, arch, None),
                                        Ok(Some(target)) => (
                                            DispatchState { stage: Stage::Snapshotting { request, bundle } },
                                            DispatchAction::Snapshot(target),
                                        ),
                                    }
                                },
                            }
                        },
                    }
                },
                _ => respond(out_of_order()),
            },
            Stage::Snapshotting { request, bundle } => match event {
                DispatchEvent::Snapshotted(Err(msg)) => respond(Pipeline::snapshot_failed(&request, msg.as_str())),
                DispatchEvent::Snapshotted(Ok(id)) => plan_and_run(request, &bundle, arch, Some(id)),
                _ => respond(out_of_order()),
            },
            Stage::Running { action_id, snapshot_id } => match event {
                DispatchEvent::CgroupRefused(msg) => {
                    let mut v: Vec<char> = Vec::new();
                    push_str(&mut v, "cgroup limit not enforceable: ");
                    push_str(&mut v, msg.as_str());
                    respond(refuse(action_id, RejectStage::SandboxRejected, v))
                },
                DispatchEvent::Finished(result) => respond(completed(action_id, result, snapshot_id)),
                _ => respond(out_of_order()),
            },
            Stage::Done => respond(out_of_order()),
        }
    }
}

} // verus!
