use archangel::mode::{OperationMode, RiskLevel};
use archangel::policy::allowlist::{Allowlist, ProfileAllow};
use archangel::policy::denylist::{DenyCategory, Denylist, PathAccess};
use archangel::policy::engine::{PathIntent, PolicyDecision, PolicyEngine, PolicyRequest};
use archangel::policy::pathnorm::normalize_absolute;

#[test]
fn collapses_double_slashes() {
    assert_eq!(normalize_absolute("/etc//archangel///config").unwrap_or_default(), "/etc/archangel/config");
}

#[test]
fn removes_dot_components() {
    assert_eq!(normalize_absolute("/etc/./archangel/./config").unwrap_or_default(), "/etc/archangel/config");
}

#[test]
fn resolves_dotdot() {
    assert_eq!(normalize_absolute("/etc/archangel/../archangel/config").unwrap_or_default(), "/etc/archangel/config");
}

#[test]
fn dotdot_cannot_escape_root() {
    assert_eq!(normalize_absolute("/../../../etc/shadow").unwrap_or_default(), "/etc/shadow");
}

#[test]
fn strips_trailing_slash() {
    assert_eq!(normalize_absolute("/etc/ssh/").unwrap_or_default(), "/etc/ssh");
}

#[test]
fn root_stays_root() {
    assert_eq!(normalize_absolute("/").unwrap_or_default(), "/");
    assert_eq!(normalize_absolute("/..").unwrap_or_default(), "/");
}

#[test]
fn relative_path_is_rejected() {
    assert!(normalize_absolute("etc/passwd").is_err());
    assert!(normalize_absolute("../etc/passwd").is_err());
}

#[test]
fn nul_byte_is_rejected() {
    assert!(normalize_absolute("/etc/ssh\0/../safe").is_err());
}

#[test]
fn normalizing_twice_changes_nothing() {
    for p in ["/a//b/./c/../d/", "/..", "/x/y/../../z", "/"] {
        let once = normalize_absolute(p).expect("absolute");
        assert_eq!(normalize_absolute(&once).expect("absolute"), once);
    }
}

fn sample() -> Allowlist {
    Allowlist {
        profiles: vec![
            ProfileAllow {
                name: "default".to_owned(),
                mode: OperationMode::ReadOnly,
                allowed_exec: vec!["list-services".to_owned(), "read-logs".to_owned()],
            },
            ProfileAllow {
                name: "ops".to_owned(),
                mode: OperationMode::Interactive,
                allowed_exec: vec!["restart-service".to_owned()],
            },
        ],
    }
}

#[test]
fn parses_and_looks_up() {
    let al = sample();
    assert!(al.is_allowed("default", "list-services", OperationMode::ReadOnly));
    assert!(al.is_allowed("ops", "restart-service", OperationMode::Interactive));
    assert_eq!(al.profile("ops").map(|p| p.mode), Some(OperationMode::Interactive));
}

#[test]
fn allowlist_unknown_profile_fails_closed() {
    assert!(!sample().is_allowed("nope", "list-services", OperationMode::ReadOnly));
}

#[test]
fn mode_mismatch_fails_closed() {
    assert!(!sample().is_allowed("default", "list-services", OperationMode::Autonomous));
}

#[test]
fn exec_not_listed_fails_closed() {
    assert!(!sample().is_allowed("default", "rm-rf-everything", OperationMode::ReadOnly));
}

#[test]
fn empty_allowlist_denies_all() {
    let al = Allowlist { profiles: vec![] };
    assert!(!al.is_allowed("default", "anything", OperationMode::ReadOnly));
}

fn engine() -> PolicyEngine {
    PolicyEngine::new(Allowlist {
        profiles: vec![
            ProfileAllow {
                name: "default".to_owned(),
                mode: OperationMode::ReadOnly,
                allowed_exec: vec!["read-logs".to_owned()],
            },
            ProfileAllow {
                name: "ops".to_owned(),
                mode: OperationMode::Interactive,
                allowed_exec: vec!["restart-svc".to_owned(), "danger-op".to_owned()],
            },
            ProfileAllow {
                name: "auto".to_owned(),
                mode: OperationMode::Autonomous,
                allowed_exec: vec!["rotate-logs".to_owned(), "wipe-disk".to_owned()],
            },
        ],
    })
}

fn req<'a>(
    profile: &'a str,
    mode: OperationMode,
    exec_name: &'a str,
    risk: RiskLevel,
    commands: &'a [&'a str],
    paths: &'a [PathIntent<'a>],
) -> PolicyRequest<'a> {
    PolicyRequest { profile, mode, exec_name, risk, commands, paths }
}

#[test]
fn read_only_benign_action_runs_without_approval() {
    let paths = [PathIntent { path: "/var/log/nginx/access.log", access: PathAccess::Read }];
    let r = req(
        "default",
        OperationMode::ReadOnly,
        "read-logs",
        RiskLevel::Low,
        &["journalctl -u nginx --no-pager -n 100"],
        &paths,
    );
    assert_eq!(engine().evaluate(&r), PolicyDecision::Allow);
}

#[test]
fn denylisted_command_overrides_everything() {
    let r = req("default", OperationMode::ReadOnly, "read-logs", RiskLevel::Low, &["rm -rf /"], &[]);
    assert!(matches!(engine().evaluate(&r), PolicyDecision::Deny { .. }));
}

#[test]
fn denylisted_path_overrides_allowlist() {
    let paths = [PathIntent { path: "/etc/archangel/../archangel/keys/audit.key", access: PathAccess::Write }];
    let r = req("default", OperationMode::ReadOnly, "read-logs", RiskLevel::Low, &[], &paths);
    assert!(matches!(engine().evaluate(&r), PolicyDecision::Deny { .. }));
}

#[test]
fn not_allowlisted_is_refused() {
    let r = req("default", OperationMode::ReadOnly, "totally-unknown-exec", RiskLevel::Low, &[], &[]);
    assert!(matches!(engine().evaluate(&r), PolicyDecision::NotAllowed { .. }));
}

#[test]
fn interactive_mode_always_requires_approval() {
    let r = req("ops", OperationMode::Interactive, "restart-svc", RiskLevel::Medium, &["systemctl restart nginx"], &[]);
    let d = engine().evaluate(&r);
    assert!(matches!(d, PolicyDecision::RequireApproval { two_person: false, .. }));
    assert!(!d.is_allowed(), "approval-gated must never be is_allowed()");
    assert!(d.needs_approval());
}

#[test]
fn interactive_critical_requires_two_person() {
    let r = req("ops", OperationMode::Interactive, "danger-op", RiskLevel::Critical, &[], &[]);
    assert!(matches!(engine().evaluate(&r), PolicyDecision::RequireApproval { two_person: true, .. }));
}

#[test]
fn autonomous_low_risk_runs_unattended() {
    let r = req("auto", OperationMode::Autonomous, "rotate-logs", RiskLevel::Low, &[], &[]);
    assert_eq!(engine().evaluate(&r), PolicyDecision::Allow);
}

#[test]
fn autonomous_cannot_self_authorize_a_critical_action() {
    let r = req("auto", OperationMode::Autonomous, "wipe-disk", RiskLevel::Critical, &[], &[]);
    assert!(matches!(engine().evaluate(&r), PolicyDecision::RequireApproval { two_person: true, .. }));
}

#[test]
fn wrong_mode_for_profile_is_refused() {
    let r = req("default", OperationMode::Autonomous, "read-logs", RiskLevel::Low, &[], &[]);
    assert!(!engine().evaluate(&r).is_allowed());
}

#[test]
fn decision_reasons_are_exact() {
    let r = req("default", OperationMode::ReadOnly, "nope", RiskLevel::Low, &[], &[]);
    assert_eq!(
        engine().evaluate(&r),
        PolicyDecision::NotAllowed {
            reason: "exec \"nope\" is not allowlisted for profile \"default\" in ReadOnly mode".to_owned()
        }
    );
    let r = req("default", OperationMode::ReadOnly, "read-logs", RiskLevel::Low, &["rm -rf /"], &[]);
    assert_eq!(
        engine().evaluate(&r),
        PolicyDecision::Deny {
            category: DenyCategory::HostDestruction,
            rule_id: "rm-rf-root",
            reason: "recursive deletion of the root filesystem (matched \"rm -rf /\")".to_owned(),
        }
    );
    let r = req("ops", OperationMode::Interactive, "restart-svc", RiskLevel::High, &[], &[]);
    assert_eq!(
        engine().evaluate(&r),
        PolicyDecision::RequireApproval {
            reason: "interactive mode requires operator approval (risk=High)".to_owned(),
            two_person: false,
        }
    );
}

#[test]
fn denylist_rules() {
    assert!(Denylist::check_command("rm -rf /").is_some());
    assert!(Denylist::check_command("  rm   -fr   / ").is_some());
    assert!(Denylist::check_command("rm -rf /var/tmp/x").is_none());
    assert!(Denylist::check_command("echo rm /").is_none());
    assert!(Denylist::check_path("/etc/archangel", PathAccess::Write).expect("total").is_some());
    assert!(Denylist::check_path("/etc/archangel/policies/a.toml", PathAccess::Write).expect("total").is_some());
    assert!(Denylist::check_path("/etc/archangel/policies/a.toml", PathAccess::Read).expect("total").is_none());
    assert!(Denylist::check_path("/etc/archangelx", PathAccess::Write).expect("total").is_none());
    assert!(Denylist::check_path("relative", PathAccess::Read).expect("total").is_some());
}
