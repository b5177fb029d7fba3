use archangel::bundle::manifest::{
    ArgSpec, ArgType, ExecManifest, Meta, NetworkPolicy, Payload, PayloadType, SandboxSpec,
};
use archangel::bundle::trust::OperatorTrust;
use archangel::bundle::verify::VerifiedBundle;
use archangel::execd::dispatch::{DispatchAction, DispatchEvent, DispatchState};
use archangel::execd::handler::{safe_exec_name, ExecLimits, Pipeline};
use archangel::execd::runner::RunResult;
use archangel::execd::ratelimit::{ActionClass, RateLimiter, RateLimits, RateRejection};
use archangel::execd::replay::{ReplayGuard, ReplayRejection};
use archangel::execd::runner::{action_env, CappedBuffer};
use archangel::execd::settings::{key_from_hex, need, resolve, CliArgs};
use archangel::ipc::{ExecOutcome, ExecRequest, RejectStage, SignedEnvelope, PROTOCOL_VERSION};
use archangel::sandbox::seccomp::Arch;
use archangel::mode::{OperationMode, RiskLevel};
use archangel::policy::allowlist::{Allowlist, ProfileAllow};
use archangel::policy::engine::PolicyEngine;
use archangel::primitives::id::{ActionId, SessionId};

use ed25519_dalek::{Signer, SigningKey};
use sha2::{Digest, Sha256};

const READ: ActionClass = ActionClass { mutating: false, critical: false };
const MUTATE: ActionClass = ActionClass { mutating: true, critical: false };
const CRIT: ActionClass = ActionClass { mutating: true, critical: true };

fn limits(total: u32, mutating: u32, critical: u32) -> RateLimits {
    RateLimits { actions_per_minute: total, mutating_actions_per_minute: mutating, critical_actions_per_hour: critical }
}

const T: u64 = 5_000_000;

#[test]
fn admits_up_to_total_then_sheds() {
    let mut rl = RateLimiter::new(limits(3, 10, 10));
    for _ in 0..3 {
        assert!(rl.try_admit(T, READ).is_ok());
    }
    assert_eq!(rl.try_admit(T, READ), Err(RateRejection::TotalPerMinute));
}

#[test]
fn window_slides_after_horizon() {
    let mut rl = RateLimiter::new(limits(2, 10, 10));
    assert!(rl.try_admit(T, READ).is_ok());
    assert!(rl.try_admit(T, READ).is_ok());
    assert!(rl.try_admit(T, READ).is_err());
    let later = T + 61_000;
    assert!(rl.try_admit(later, READ).is_ok());
    assert!(rl.try_admit(later, READ).is_ok());
    assert!(rl.try_admit(later, READ).is_err());
}

#[test]
fn mutating_ceiling_is_independent_of_total() {
    let mut rl = RateLimiter::new(limits(100, 1, 10));
    assert!(rl.try_admit(T, MUTATE).is_ok());
    assert_eq!(rl.try_admit(T, MUTATE), Err(RateRejection::MutatingPerMinute));
    assert!(rl.try_admit(T, READ).is_ok());
}

#[test]
fn critical_uses_the_hour_window() {
    let mut rl = RateLimiter::new(limits(100, 100, 1));
    assert!(rl.try_admit(T, CRIT).is_ok());
    assert_eq!(rl.try_admit(T, CRIT), Err(RateRejection::CriticalPerHour));
    assert!(rl.try_admit(T + 600_000, CRIT).is_err());
    assert!(rl.try_admit(T + 3_601_000, CRIT).is_ok());
}

#[test]
fn rejection_consumes_no_budget() {
    let mut rl = RateLimiter::new(limits(1, 0, 10));
    assert_eq!(rl.try_admit(T, MUTATE), Err(RateRejection::MutatingPerMinute));
    assert!(rl.try_admit(T, READ).is_ok());
}

#[test]
fn zero_limit_is_fail_closed() {
    let mut rl = RateLimiter::new(limits(0, 5, 5));
    assert_eq!(rl.try_admit(T, READ), Err(RateRejection::TotalPerMinute));
}

#[test]
fn default_rate_limits() {
    let d = RateLimits::default();
    assert_eq!((d.actions_per_minute, d.mutating_actions_per_minute, d.critical_actions_per_hour), (20, 5, 2));
}

#[test]
fn first_request_is_admitted() {
    let mut g = ReplayGuard::new();
    assert!(g.admit_request(SessionId::new(), 1, [1u8; 16]).is_ok());
}

#[test]
fn strictly_increasing_seq_is_required() {
    let mut g = ReplayGuard::new();
    let s = SessionId::new();
    assert!(g.admit_request(s, 5, [1u8; 16]).is_ok());
    assert_eq!(g.admit_request(s, 5, [2u8; 16]), Err(ReplayRejection::NonMonotonicSeq), "same seq is a replay");
    assert_eq!(g.admit_request(s, 4, [3u8; 16]), Err(ReplayRejection::NonMonotonicSeq), "lower seq is a replay");
    assert!(g.admit_request(s, 6, [4u8; 16]).is_ok(), "higher seq advances");
}

#[test]
fn duplicate_nonce_is_rejected_even_with_higher_seq() {
    let mut g = ReplayGuard::new();
    let s = SessionId::new();
    let n = [9u8; 16];
    assert!(g.admit_request(s, 1, n).is_ok());
    assert_eq!(g.admit_request(s, 2, n), Err(ReplayRejection::DuplicateNonce), "a reused nonce is refused regardless of seq");
}

#[test]
fn sessions_are_independent() {
    let mut g = ReplayGuard::new();
    let a = SessionId::new();
    let b = SessionId::new();
    assert!(g.admit_request(a, 10, [1u8; 16]).is_ok());
    assert!(g.admit_request(b, 1, [2u8; 16]).is_ok());
}

#[test]
fn rejected_request_does_not_advance_state() {
    let mut g = ReplayGuard::new();
    let s = SessionId::new();
    assert!(g.admit_request(s, 5, [1u8; 16]).is_ok());
    let _ = g.admit_request(s, 3, [2u8; 16]);
    assert!(g.admit_request(s, 6, [3u8; 16]).is_ok());
}

#[test]
fn nonce_window_evicts_the_oldest() {
    let mut g = ReplayGuard::new();
    let s = SessionId::from_bytes([7u8; 16]);
    let mut seq = 1u64;
    for i in 0..4097u32 {
        let mut n = [0u8; 16];
        n[..4].copy_from_slice(&i.to_be_bytes());
        assert!(g.admit_request(s, seq, n).is_ok());
        seq += 1;
    }
    // Nonce 0 has left the 4096-entry window; admitting it again evicts
    // nonce 1, while nonce 2 is still remembered.
    assert!(g.admit_request(s, seq, [0u8; 16]).is_ok());
    let mut two = [0u8; 16];
    two[3] = 2;
    assert_eq!(g.admit_request(s, seq + 1, two), Err(ReplayRejection::DuplicateNonce));
}

#[test]
fn exec_names_are_single_safe_components() {
    assert!(safe_exec_name("read-logs"));
    assert!(safe_exec_name("svc_1.v2"));
    for bad in ["", ".", "..", "../etc/passwd", "a/b", "a..b", "x\0y", "héllo"] {
        assert!(!safe_exec_name(bad), "{bad:?} must be refused");
    }
    assert!(safe_exec_name(&"a".repeat(128)));
    assert!(!safe_exec_name(&"a".repeat(129)));
}

#[test]
fn capped_capture_keeps_the_prefix() {
    let mut b = CappedBuffer::new(5);
    b.push_chunk(b"abc");
    b.push_chunk(b"defg");
    b.push_chunk(b"hij");
    let (data, truncated) = b.finish();
    assert_eq!(data, b"abcde");
    assert!(truncated);
    let mut c = CappedBuffer::new(10);
    c.push_chunk(b"abc");
    let (data, truncated) = c.finish();
    assert_eq!(data, b"abc");
    assert!(!truncated);
}

#[test]
fn settings_need_prefers_the_command_line() {
    assert_eq!(need(Some(1u32), Some(2u32), "x"), Ok(1));
    assert_eq!(need(None, Some(2u32), "x"), Ok(2));
    assert_eq!(
        need::<u32>(None, None, "sockets.exec"),
        Err("missing required setting: sockets.exec (set it in --config or pass the flag)".to_owned())
    );
}

#[test]
fn session_key_hex_is_checked() {
    let sk = SigningKey::from_bytes(&[5u8; 32]);
    let hex: String = sk.verifying_key().as_bytes().iter().map(|b| format!("{b:02x}")).collect();
    assert_eq!(key_from_hex(&format!("  {hex}\n")).expect("valid key"), *sk.verifying_key().as_bytes());
    assert_eq!(key_from_hex("abc"), Err("odd-length hex".to_owned()));
    assert_eq!(key_from_hex("zz"), Err("invalid hex char".to_owned()));
    assert_eq!(key_from_hex("abcd"), Err("session pubkey must be 32 bytes".to_owned()));
}

// ── the admission pipeline ────────────────────────────────────────────────

const SCRIPT: &str = "journalctl -u nginx --no-pager -n 50";

fn hex(bytes: &[u8]) -> String {
    bytes.iter().map(|b| format!("{b:02x}")).collect()
}

fn operator() -> SigningKey {
    SigningKey::from_bytes(&[7u8; 32])
}

fn trust() -> OperatorTrust {
    OperatorTrust::parse(&format!("{}  operator\n", hex(operator().verifying_key().as_bytes()))).expect("trust")
}

fn manifest(name: &str, read_only: bool, script: &str) -> ExecManifest {
    ExecManifest {
        meta: Meta {
            name: name.to_owned(),
            version: "1.0.0".to_owned(),
            risk: RiskLevel::Low,
            read_only,
            mutates_persistent_state: false,
            requires_network: false,
        },
        args: vec![(
            "service".to_owned(),
            ArgSpec { ty: ArgType::Text, regex: Some("[a-z0-9.-]+".to_owned()), required: true },
        )],
        sandbox: SandboxSpec {
            capabilities: vec![],
            allowed_paths_ro: vec!["/var/log".to_owned()],
            allowed_paths_rw: vec![],
            syscall_profile: "inspect".to_owned(),
            network: NetworkPolicy::Disabled,
            cpu_max: None,
            memory_max: None,
            timeout_seconds: 30,
        },
        payload: Payload { ty: PayloadType::Bash, sha256: hex(&Sha256::digest(script.as_bytes())), inline: script.to_owned() },
        health_check: None,
    }
}

fn bundle(m: ExecManifest) -> VerifiedBundle {
    let bytes = b"manifest bytes as signed".to_vec();
    let sig = hex(&operator().sign(&bytes).to_bytes());
    let auth = VerifiedBundle::authenticate(&bytes, &sig, &trust()).expect("authentic");
    VerifiedBundle::from_authenticated(auth, Ok(m)).expect("payload matches")
}

fn pipeline(allowed: &[&str]) -> Pipeline {
    let al = Allowlist {
        profiles: vec![ProfileAllow {
            name: "default".to_owned(),
            mode: OperationMode::ReadOnly,
            allowed_exec: allowed.iter().map(|s| (*s).to_owned()).collect(),
        }],
    };
    Pipeline::new([0u8; 32], trust(), PolicyEngine::new(al), ExecLimits::default())
}

fn request(exec: &str, seq: u64, service: Option<&str>) -> ExecRequest {
    ExecRequest {
        session_id: SessionId::from_bytes([1u8; 16]),
        action_id: ActionId::from_bytes([2u8; 16]),
        seq,
        nonce: [seq as u8; 16],
        issued_ms: 1_700_000_000_000,
        profile: "default".to_owned(),
        mode: OperationMode::ReadOnly,
        exec_name: exec.to_owned(),
        args: service.map(|s| vec![("service".to_owned(), s.to_owned())]).unwrap_or_default(),
        declared_risk: RiskLevel::Low,
        declared_read_only: true,
    }
}

fn stage(r: Result<(), archangel::ipc::ExecResponse>) -> Option<RejectStage> {
    match r {
        Ok(()) => None,
        Err(resp) => match resp.outcome {
            ExecOutcome::Rejected { stage, .. } => Some(stage),
            ExecOutcome::Completed { .. } => panic!("a refusal is never a completion"),
        },
    }
}

#[test]
fn happy_path_read_only_is_admitted() {
    let mut p = pipeline(&["read-logs"]);
    let req = request("read-logs", 1, Some("nginx.service"));
    assert!(p.screen(&req).is_ok());
    let b = bundle(manifest("read-logs", true, SCRIPT));
    assert_eq!(stage(p.admit_action(&req, &b, T)), None);
    assert!(Pipeline::sandbox_gate(&req, &b, Arch::X86_64).is_ok());
}

#[test]
fn replayed_request_is_screened_out() {
    let mut p = pipeline(&["read-logs"]);
    let req = request("read-logs", 1, Some("nginx.service"));
    assert!(p.screen(&req).is_ok());
    assert_eq!(stage(p.screen(&req)), Some(RejectStage::Replay));
}

#[test]
fn path_traversal_exec_name_is_screened_out() {
    let mut p = pipeline(&["read-logs"]);
    let req = request("../../etc/passwd", 1, None);
    assert_eq!(stage(p.screen(&req)), Some(RejectStage::BundleUnverified));
}

#[test]
fn missing_required_arg_is_refused() {
    let mut p = pipeline(&["read-logs"]);
    let req = request("read-logs", 1, None);
    let b = bundle(manifest("read-logs", true, "echo hi"));
    assert_eq!(stage(p.admit_action(&req, &b, T)), Some(RejectStage::ArgRejected));
}

#[test]
fn non_read_only_bundle_is_refused_under_a_read_only_ceiling() {
    let mut p = pipeline(&["mutator"]);
    let req = request("mutator", 1, Some("x"));
    let b = bundle(manifest("mutator", false, "echo hi"));
    assert_eq!(stage(p.admit_action(&req, &b, T)), Some(RejectStage::NotReadOnly));
}

#[test]
fn denylisted_payload_is_refused_even_if_signed_and_read_only() {
    let mut p = pipeline(&["danger"]);
    let req = request("danger", 1, Some("x"));
    let b = bundle(manifest("danger", true, "rm -rf /"));
    assert_eq!(stage(p.admit_action(&req, &b, T)), Some(RejectStage::DenylistHit));
}

#[test]
fn not_allowlisted_exec_is_refused() {
    let mut p = pipeline(&["something-else"]);
    let req = request("read-logs", 1, Some("x"));
    let b = bundle(manifest("read-logs", true, "echo hi"));
    assert_eq!(stage(p.admit_action(&req, &b, T)), Some(RejectStage::NotAllowlisted));
}

#[test]
fn blast_rate_sheds_after_the_ceiling() {
    let mut p = pipeline(&["read-logs"]);
    p.set_rate_limits(limits(1, 1, 1));
    let b = bundle(manifest("read-logs", true, "echo hi"));
    assert_eq!(stage(p.admit_action(&request("read-logs", 1, Some("x")), &b, T)), None);
    assert_eq!(stage(p.admit_action(&request("read-logs", 2, Some("x")), &b, T)), Some(RejectStage::RateLimited));
}

#[test]
fn garbage_envelope_is_rejected_not_panicked() {
    let p = pipeline(&["read-logs"]);
    let resp = p
        .authenticate(Err(archangel::ipc::IpcError::Codec("bad cbor".to_owned())))
        .unwrap_err();
    assert_eq!(
        resp.outcome,
        ExecOutcome::Rejected { stage: RejectStage::SignatureInvalid, reason: "malformed envelope: IPC codec error: bad cbor".to_owned() }
    );
    assert_eq!(resp.action_id, ActionId::from_bytes([0u8; 16]));
}

#[test]
fn mutating_bundle_needs_a_recovery_point() {
    let req = request("m", 1, None);
    let mut m = manifest("m", false, "echo hi");
    m.meta.mutates_persistent_state = true;
    let b = bundle(m.clone());
    assert!(Pipeline::snapshot_target(&req, &b, false).is_err());
    m.sandbox.allowed_paths_rw = vec!["/var/lib/x".to_owned()];
    let b = bundle(m);
    assert_eq!(Pipeline::snapshot_target(&req, &b, true).expect("target"), Some("/var/lib/x".to_owned()));
    assert!(Pipeline::snapshot_target(&req, &b, false).is_err());
    let ro = bundle(manifest("r", true, "echo hi"));
    assert_eq!(Pipeline::snapshot_target(&req, &ro, false).expect("none"), None);
}

#[test]
fn action_environment_is_minimal_and_exposes_args() {
    let args = vec![("service".to_owned(), "nginx".to_owned()), ("n".to_owned(), "3".to_owned())];
    let env = action_env(&args);
    let expect: Vec<(String, String)> = [
        ("PATH", "/usr/bin:/bin"),
        ("HOME", "/nonexistent"),
        ("LC_ALL", "C"),
        ("ARG_service", "nginx"),
        ("ARG_n", "3"),
    ]
    .iter()
    .map(|(k, v)| ((*k).to_owned(), (*v).to_owned()))
    .collect();
    assert_eq!(env, expect);
}

fn session() -> SigningKey {
    SigningKey::from_bytes(&[9u8; 32])
}

fn signed_pipeline(allowed: &[&str]) -> Pipeline {
    let al = Allowlist {
        profiles: vec![ProfileAllow {
            name: "default".to_owned(),
            mode: OperationMode::ReadOnly,
            allowed_exec: allowed.iter().map(|s| (*s).to_owned()).collect(),
        }],
    };
    Pipeline::new(session().verifying_key().to_bytes(), trust(), PolicyEngine::new(al), ExecLimits::default())
}

fn envelope(bytes: &[u8]) -> SignedEnvelope {
    SignedEnvelope { version: PROTOCOL_VERSION, request: bytes.to_vec(), signature: session().sign(bytes).to_bytes().to_vec() }
}

fn refusal_stage(a: &DispatchAction) -> Option<RejectStage> {
    match a {
        DispatchAction::Respond(resp) => match &resp.outcome {
            ExecOutcome::Rejected { stage, .. } => Some(*stage),
            ExecOutcome::Completed { .. } => None,
        },
        _ => None,
    }
}

#[test]
fn dispatch_runs_only_after_every_gate() {
    let mut p = signed_pipeline(&["read-logs"]);
    let (s, a) = p.step(DispatchState::idle(), DispatchEvent::Frame(Ok(envelope(b"request bytes"))), Arch::X86_64);
    match &a {
        DispatchAction::Decode(b) => assert_eq!(b.as_slice(), b"request bytes"),
        _ => panic!("an authentic envelope is decoded next"),
    }
    let req = request("read-logs", 1, Some("nginx.service"));
    let (s, a) = p.step(s, DispatchEvent::Decoded(Ok(req)), Arch::X86_64);
    match &a {
        DispatchAction::Load(name) => assert_eq!(name, "read-logs"),
        _ => panic!("a screened request loads its bundle next"),
    }
    let loaded = Ok(bundle(manifest("read-logs", true, SCRIPT)));
    let (s, a) = p.step(s, DispatchEvent::Loaded { bundle: loaded, now_ms: T, has_backend: false }, Arch::X86_64);
    let plan_profile = match &a {
        DispatchAction::Run { action_id, script, args, plan } => {
            assert_eq!(*action_id, ActionId::from_bytes([2u8; 16]));
            assert_eq!(script, SCRIPT);
            assert_eq!(args, &vec![("service".to_owned(), "nginx.service".to_owned())]);
            plan.seccomp().name().to_owned()
        }
        _ => panic!("an admitted read-only action runs next"),
    };
    assert_eq!(plan_profile, "inspect");
    assert!(!s.is_done());
    let result = RunResult { exit_code: 0, duration_ms: 5, stdout: "ok".to_owned(), stderr: String::new(), truncated: false };
    let (s, a) = p.step(s, DispatchEvent::Finished(result), Arch::X86_64);
    assert!(s.is_done());
    match a {
        DispatchAction::Respond(resp) => {
            assert_eq!(resp.action_id, ActionId::from_bytes([2u8; 16]));
            assert!(matches!(resp.outcome, ExecOutcome::Completed { exit_code: 0, snapshot_id: None, .. }));
        }
        _ => panic!("a finished action is answered"),
    }
}

#[test]
fn dispatch_refuses_a_forged_envelope_before_anything_else() {
    let mut p = signed_pipeline(&["read-logs"]);
    let mut env = envelope(b"request bytes");
    env.signature[0] ^= 1;
    let (s, a) = p.step(DispatchState::idle(), DispatchEvent::Frame(Ok(env)), Arch::X86_64);
    assert!(s.is_done());
    assert_eq!(refusal_stage(&a), Some(RejectStage::SignatureInvalid));
}

#[test]
fn dispatch_first_refusal_is_the_answer() {
    let mut p = signed_pipeline(&["read-logs"]);
    let (s, _) = p.step(DispatchState::idle(), DispatchEvent::Frame(Ok(envelope(b"r"))), Arch::X86_64);
    let (s, _) = p.step(s, DispatchEvent::Decoded(Ok(request("read-logs", 1, None))), Arch::X86_64);
    let loaded = Ok(bundle(manifest("read-logs", true, SCRIPT)));
    let (s, a) = p.step(s, DispatchEvent::Loaded { bundle: loaded, now_ms: T, has_backend: false }, Arch::X86_64);
    assert!(s.is_done());
    assert_eq!(refusal_stage(&a), Some(RejectStage::ArgRejected));
}

#[test]
fn dispatch_snapshots_a_mutating_action_before_it_runs() {
    let mut p = signed_pipeline(&["m"]);
    p.set_mode_ceiling(OperationMode::Autonomous);
    let (s, _) = p.step(DispatchState::idle(), DispatchEvent::Frame(Ok(envelope(b"r"))), Arch::X86_64);
    let (s, _) = p.step(s, DispatchEvent::Decoded(Ok(request("m", 1, Some("x")))), Arch::X86_64);
    let mut m = manifest("m", false, SCRIPT);
    m.meta.mutates_persistent_state = true;
    m.sandbox.allowed_paths_rw = vec!["/var/lib/x".to_owned()];
    let (s, a) = p.step(s, DispatchEvent::Loaded { bundle: Ok(bundle(m)), now_ms: T, has_backend: true }, Arch::X86_64);
    match &a {
        DispatchAction::Snapshot(t) => assert_eq!(t, "/var/lib/x"),
        _ => panic!("a mutating action takes a recovery point first: {:?}", refusal_stage(&a)),
    }
    let (s, a) = p.step(s, DispatchEvent::Snapshotted(Err("disk full".to_owned())), Arch::X86_64);
    assert!(s.is_done());
    match a {
        DispatchAction::Respond(resp) => assert_eq!(
            resp.outcome,
            ExecOutcome::Rejected { stage: RejectStage::SnapshotUnavailable, reason: "snapshot failed: disk full".to_owned() }
        ),
        _ => panic!("a failed snapshot is refused"),
    }
}

#[test]
fn dispatch_event_out_of_order_is_refused() {
    let mut p = signed_pipeline(&["read-logs"]);
    let (s, a) = p.step(DispatchState::idle(), DispatchEvent::Snapshotted(Ok("id".to_owned())), Arch::X86_64);
    assert!(s.is_done());
    assert_eq!(refusal_stage(&a), Some(RejectStage::ExecFailure));
}

#[test]
fn interactive_mode_requires_an_approval_the_executor_does_not_hold() {
    let mut req = request("read-logs", 1, Some("nginx.service"));
    req.mode = OperationMode::Interactive;
    let al = Allowlist {
        profiles: vec![ProfileAllow {
            name: "default".to_owned(),
            mode: OperationMode::Interactive,
            allowed_exec: vec!["read-logs".to_owned()],
        }],
    };
    let mut p = Pipeline::new([0u8; 32], trust(), PolicyEngine::new(al), ExecLimits::default());
    let b = bundle(manifest("read-logs", true, SCRIPT));
    assert_eq!(stage(p.admit_action(&req, &b, T)), Some(RejectStage::ApprovalRequired));
}

fn cli() -> CliArgs {
    CliArgs {
        config: None,
        socket: Some("/run/x.sock".to_owned()),
        peer_uid: Some(1000),
        session_pubkey_hex: None,
        session_pub_file: Some("/run/key".to_owned()),
        operators: Some("/etc/ops".to_owned()),
        allowlist: Some("/etc/allow.toml".to_owned()),
        bundle_dir: Some("/etc/bundles".to_owned()),
        timeout_secs: 30,
    }
}

#[test]
fn settings_refusal_names_the_first_missing_setting() {
    assert!(resolve(cli(), None).is_ok());
    let mut a = cli();
    a.peer_uid = None;
    a.bundle_dir = None;
    assert_eq!(
        resolve(a, None).err().as_deref(),
        Some("missing required setting: sockets.daemon_uid (set it in --config or pass the flag)")
    );
    let mut a = cli();
    a.session_pub_file = None;
    assert_eq!(
        resolve(a, None).err().as_deref(),
        Some("missing required setting: daemon.session_pub (set it in --config or pass the flag)")
    );
    let mut a = cli();
    a.session_pubkey_hex = Some("zz".to_owned());
    assert_eq!(resolve(a, None).err().as_deref(), Some("--session-pubkey-hex"));
}
