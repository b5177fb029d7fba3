use archangel::config::{
    d_allowlist, d_audit_key, d_bundle_dir, d_ctl_group, d_ctl_mode, d_operator_pub, d_session_pub, Config,
    ConfigError, DaemonCfg, EgressCfg, LlmCfg, ModesCfg, MonitorCfg, MonitorPatternCfg, RateLimitsCfg, SessionCfg,
    SocketsCfg,
};
use archangel::mode::OperationMode;

/// The configuration the minimal file describes: the two required daemon
/// paths, the sockets section, and defaults everywhere else.
fn minimal() -> Config {
    Config {
        daemon: DaemonCfg {
            trust_store: "/etc/archangel/trust/operators.pubkeys".into(),
            audit_log: "/var/log/archangel/audit.log.jsonl".into(),
            audit_key: d_audit_key(),
            operator_pubkey: d_operator_pub(),
            allowlist: d_allowlist(),
            bundle_dir: d_bundle_dir(),
            session_pub: d_session_pub(),
        },
        sockets: SocketsCfg {
            control: "/run/archangel/ctl.sock".into(),
            control_mode: 0o660,
            control_group: d_ctl_group(),
            exec_socket: "/run/archangel/exec.sock".into(),
            operator_uid: 1000,
            daemon_uid: 1000,
        },
        session: SessionCfg::default(),
        modes: ModesCfg::default(),
        llm: LlmCfg::default(),
        rate_limits: RateLimitsCfg::default(),
        monitor: MonitorCfg::default(),
        egress: EgressCfg::default(),
    }
}

fn invalid_message(c: &Config) -> String {
    match c.validate() {
        Err(ConfigError::Invalid(m)) => m,
        other => panic!("expected Invalid, got {other:?}"),
    }
}

#[test]
fn minimal_valid_config_parses_with_defaults() {
    let c = minimal();
    assert!(c.validate().is_ok(), "valid");
    // Fail-closed default: no `[modes]` section ⇒ read-only.
    assert_eq!(c.modes.default, OperationMode::ReadOnly);
    assert!(!c.modes.autonomous_allowed);
    assert!(c.session.per_task_isolation);
    assert_eq!(c.sockets.operator_uid, 1000);
    assert_eq!(c.daemon.session_pub.as_str(), "/run/archangel/session.pub");
    assert_eq!(c.llm.default_backend, "ollama");
}

#[test]
fn egress_defaults_to_deny_all() {
    let c = minimal();
    assert_eq!(c.egress.default_policy, "deny");
    assert!(c.egress.allow.is_empty());
    let pol = c.egress.to_policy().expect("compiles");
    assert!(!pol.is_allowed("api.anthropic.com", 443), "deny-all by default");
}

#[test]
fn egress_allowlist_parses_and_compiles() {
    let mut c = minimal();
    c.egress = EgressCfg {
        default_policy: "deny".into(),
        allow: vec!["api.anthropic.com".into(), "127.0.0.1:11434".into()],
    };
    assert!(c.validate().is_ok());
    let pol = c.egress.to_policy().expect("compiles");
    assert!(pol.is_allowed("api.anthropic.com", 443));
    assert!(pol.is_allowed("127.0.0.1", 11434));
    assert!(!pol.is_allowed("127.0.0.1", 22));
}

#[test]
fn malformed_egress_entry_refuses_startup() {
    let mut c = minimal();
    c.egress.allow = vec!["host:notaport".into()];
    let m = invalid_message(&c);
    assert!(m.starts_with("egress: "), "a bad egress entry must fail config validation (fail-closed)");
}

#[test]
fn monitor_is_disabled_by_default() {
    let c = minimal();
    assert!(!c.monitor.enabled, "monitoring must be off unless opted in");
    assert!(c.monitor.sources.is_empty());
    assert_eq!(c.monitor.cooldown_secs, 300);
}

#[test]
fn enabled_monitor_parses_sources_and_patterns() {
    let mut c = minimal();
    c.monitor.enabled = true;
    c.monitor.poll_interval_secs = 3;
    c.monitor.sources = vec!["/var/log/syslog".into()];
    c.monitor.patterns = vec![MonitorPatternCfg { label: "oom".into(), regex: "Out of memory".into() }];
    assert!(c.validate().is_ok());
    assert!(c.monitor.enabled);
    assert_eq!(c.monitor.poll_interval_secs, 3);
    assert_eq!(c.monitor.sources.len(), 1);
    assert_eq!(c.monitor.patterns.first().map(|p| p.label.as_str()), Some("oom"));
}

#[test]
fn enabled_monitor_with_relative_source_is_refused() {
    let mut c = minimal();
    c.monitor.enabled = true;
    c.monitor.sources = vec!["var/log/syslog".into()];
    assert_eq!(
        invalid_message(&c),
        "monitor.sources entry must be an absolute path, got var/log/syslog",
        "a relative watched path must be refused when monitoring is on"
    );
}

#[test]
fn disabled_monitor_ignores_relative_source() {
    // When off, the watched paths are inert, so they are not validated.
    let mut c = minimal();
    c.monitor.enabled = false;
    c.monitor.sources = vec!["relative/path".into()];
    assert!(c.validate().is_ok());
}

#[test]
fn relative_path_is_refused() {
    let mut c = minimal();
    c.daemon.audit_log = "var/log/audit.jsonl".into();
    assert_eq!(invalid_message(&c), "daemon.audit_log must be an absolute path, got var/log/audit.jsonl");
}

#[test]
fn world_accessible_control_socket_is_refused() {
    let mut c = minimal();
    c.sockets.control_mode = 0o666;
    let e = invalid_message(&c);
    assert!(e.contains("other"));
    assert_eq!(
        e,
        "sockets.control_mode 0o666 grants access to 'other'; the control socket must be owner/group only"
    );
}

#[test]
fn autonomous_default_without_optin_is_refused() {
    let mut c = minimal();
    c.modes = ModesCfg { default: OperationMode::Autonomous, autonomous_allowed: false };
    assert!(c.validate().is_err());
    c.modes.autonomous_allowed = true;
    assert!(c.validate().is_ok());
}

#[test]
fn unsupported_backend_is_refused() {
    let mut c = minimal();
    c.llm.default_backend = "gpt5".into();
    assert_eq!(invalid_message(&c), "llm.default_backend \"gpt5\" is not supported (anthropic|ollama)");
}

#[test]
fn rate_limits_default_when_section_absent() {
    let c = minimal();
    assert_eq!(c.rate_limits.actions_per_minute, 20);
    assert_eq!(c.rate_limits.mutating_actions_per_minute, 5);
    assert_eq!(c.rate_limits.critical_actions_per_hour, 2);
    assert_eq!(c.rate_limits.approval_requests_per_minute, 10);
}

#[test]
fn defaults_of_daemon_paths() {
    assert_eq!(d_audit_key(), "/etc/archangel/trust/audit.key");
    assert_eq!(d_session_pub(), "/run/archangel/session.pub");
    assert_eq!(d_ctl_mode(), 0o660);
}

#[test]
fn zero_poll_interval_is_refused_when_monitoring() {
    let mut c = minimal();
    c.monitor.enabled = true;
    c.monitor.poll_interval_secs = 0;
    assert_eq!(invalid_message(&c), "monitor.poll_interval_secs must be > 0 when monitoring is enabled");
}

#[test]
fn relative_session_key_is_refused() {
    let mut c = minimal();
    c.daemon.session_pub = "session.pub".into();
    assert_eq!(invalid_message(&c), "daemon.session_pub must be an absolute path");
}
