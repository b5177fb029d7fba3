use archangel::sandbox::capability::CapabilitySet;
use archangel::sandbox::cgroup::{cgroup_settings, parse_self_cgroup_v2, safe_component, CpuMax, MemoryMax, MAX_MEMORY_BYTES};
use archangel::sandbox::error::SandboxError;
use archangel::sandbox::plan::{validate_path, NetworkMode, SandboxPolicy};
use archangel::sandbox::seccomp::{allowlist_for, rules_for, Arch, SeccompProfile, AF_NETLINK, AF_UNIX};
use nix::libc;

fn is_invalid<T>(r: Result<T, SandboxError>) -> bool {
    matches!(r.err(), Some(SandboxError::InvalidLimit(_)))
}

#[test]
fn cpu_percent_maps_to_quota_period() {
    assert_eq!(CpuMax::parse("10%").unwrap().cgroup_value(), "10000 100000");
    assert_eq!(CpuMax::parse("100%").unwrap().cgroup_value(), "100000 100000");
    assert_eq!(CpuMax::parse(" 25% ").unwrap().cgroup_value(), "25000 100000");
}

#[test]
fn cpu_rejects_garbage_zero_and_over_ceiling() {
    for bad in ["", "%", "10", "abc%", "-5%", "10 %", "0%", "101%", "1000%", "10%%", "1e3%"] {
        assert!(is_invalid(CpuMax::parse(bad)), "cpu_max {bad:?} must be rejected");
    }
}

#[test]
fn memory_units_and_raw_bytes() {
    assert_eq!(MemoryMax::parse("128M").unwrap().bytes(), 128 * 1024 * 1024);
    assert_eq!(MemoryMax::parse("1G").unwrap().bytes(), 1024 * 1024 * 1024);
    assert_eq!(MemoryMax::parse("512k").unwrap().bytes(), 512 * 1024);
    assert_eq!(MemoryMax::parse("1048576").unwrap().bytes(), 1_048_576);
    assert_eq!(MemoryMax::parse("64M").unwrap().cgroup_value(), (64 * 1024 * 1024).to_string());
}

#[test]
fn memory_rejects_garbage_zero_overflow_and_unknown_units() {
    for bad in [
        "",
        " ",
        "M",
        "abc",
        "12X",
        "12.5M",
        "-1",
        "0",
        "0M",
        "0G",
        "99999999999999999999999999G",
        "18446744073709551615K",
        "2T",
    ] {
        assert!(is_invalid(MemoryMax::parse(bad)), "memory_max {bad:?} must be rejected");
    }
}

#[test]
fn memory_rejects_above_sanity_ceiling() {
    let over = (MAX_MEMORY_BYTES + 1).to_string();
    assert!(is_invalid(MemoryMax::parse(&over)));
    assert!(MemoryMax::parse(&MAX_MEMORY_BYTES.to_string()).is_ok());
}

#[test]
fn parses_unified_cgroup_line() {
    let content = "0::/system.slice/archangel-execd.service\n";
    assert_eq!(parse_self_cgroup_v2(content).as_deref(), Some("/system.slice/archangel-execd.service"));
}

#[test]
fn ignores_v1_only_content() {
    let content = "12:pids:/\n4:memory:/user.slice\n1:cpu:/\n";
    assert_eq!(parse_self_cgroup_v2(content), None);
}

#[test]
fn picks_v2_line_among_v1_lines() {
    let content = "5:cpu:/legacy\n0::/the/unified/path\n3:pids:/x\n";
    assert_eq!(parse_self_cgroup_v2(content).as_deref(), Some("/the/unified/path"));
}

#[test]
fn safe_component_accepts_action_names() {
    assert!(safe_component("action-deadbeef"));
    assert!(!safe_component("a/b"));
    assert!(!safe_component(".."));
    assert!(!safe_component(""));
}

#[test]
fn cgroup_settings_write_the_declared_limits() {
    let cpu = CpuMax::parse("10%").unwrap();
    let mem = MemoryMax::parse("128M").unwrap();
    let s = cgroup_settings("action-1", Some(cpu), Some(mem)).expect("safe name");
    assert_eq!(
        s,
        vec![
            ("cpu.max".to_owned(), "10000 100000".to_owned()),
            ("memory.max".to_owned(), (128 * 1024 * 1024).to_string())
        ]
    );
    let only_cpu = cgroup_settings("action-2", Some(CpuMax::parse("50%").unwrap()), None).expect("safe");
    assert_eq!(only_cpu, vec![("cpu.max".to_owned(), "50000 100000".to_owned())]);
    for bad in ["../escape", "a/b", "", "."] {
        assert!(matches!(cgroup_settings(bad, Some(cpu), None), Err(SandboxError::CgroupFailed(_))));
    }
}

fn base() -> SandboxPolicy {
    SandboxPolicy { syscall_profile: "inspect".to_owned(), ..SandboxPolicy::default() }
}

#[test]
fn minimal_valid_policy_plans() {
    let plan = base().plan(Arch::X86_64).expect("minimal policy is valid");
    assert!(plan.capabilities().is_empty());
    assert!(plan.cpu_max().is_none());
    assert!(plan.memory_max().is_none());
    let ns = plan.namespaces();
    assert!(ns.mount && ns.pid && ns.ipc && ns.uts && ns.cgroup && ns.user);
    assert!(ns.net, "default (no network) ⇒ isolated net namespace");
    assert_eq!(plan.seccomp().name(), "inspect");
}

#[test]
fn egress_keeps_host_net_namespace() {
    let p = SandboxPolicy { network: NetworkMode::Egress, ..base() };
    assert!(!p.plan(Arch::X86_64).unwrap().namespaces().net);
}

#[test]
fn loopback_still_isolates_net() {
    let p = SandboxPolicy { network: NetworkMode::Loopback, ..base() };
    assert!(p.plan(Arch::X86_64).unwrap().namespaces().net);
}

#[test]
fn plan_unknown_profile_fails_closed() {
    let p = SandboxPolicy { syscall_profile: "nope".to_owned(), ..base() };
    assert!(matches!(p.plan(Arch::X86_64), Err(SandboxError::UnknownProfile(_))));
}

#[test]
fn unknown_capability_fails_closed() {
    let p = SandboxPolicy { capabilities: vec!["CAP_NOPE".to_owned()], ..base() };
    assert!(matches!(p.plan(Arch::X86_64), Err(SandboxError::UnknownCapability(_))));
}

#[test]
fn bad_limits_fail_closed() {
    let cpu = SandboxPolicy { cpu_max: Some("nonsense".to_owned()), ..base() };
    assert!(matches!(cpu.plan(Arch::X86_64), Err(SandboxError::InvalidLimit(_))));
    let mem = SandboxPolicy { memory_max: Some("0".to_owned()), ..base() };
    assert!(matches!(mem.plan(Arch::X86_64), Err(SandboxError::InvalidLimit(_))));
}

#[test]
fn valid_limits_resolve() {
    let p = SandboxPolicy { cpu_max: Some("10%".to_owned()), memory_max: Some("128M".to_owned()), ..base() };
    let plan = p.plan(Arch::X86_64).expect("valid limits");
    assert_eq!(plan.cpu_max().unwrap().cgroup_value(), "10000 100000");
    assert_eq!(plan.memory_max().unwrap().bytes(), 128 * 1024 * 1024);
}

#[test]
fn path_traversal_is_refused() {
    for bad in ["../etc", "relative/path", "", "/ok/../../escape"] {
        let p = SandboxPolicy { allowed_paths_ro: vec![bad.to_owned()], ..base() };
        assert!(matches!(p.plan(Arch::X86_64), Err(SandboxError::InvalidProfile(_))), "path {bad:?} must be refused");
    }
}

#[test]
fn nul_in_path_is_refused() {
    let p = SandboxPolicy { allowed_paths_rw: vec!["/var/lib/\0evil".to_owned()], ..base() };
    assert!(matches!(p.plan(Arch::X86_64), Err(SandboxError::InvalidProfile(_))));
}

#[test]
fn clean_absolute_paths_are_accepted() {
    let p = SandboxPolicy {
        allowed_paths_ro: vec!["/etc/archangel".to_owned()],
        allowed_paths_rw: vec!["/var/lib/archangel-exec".to_owned()],
        ..base()
    };
    let plan = p.plan(Arch::X86_64).expect("clean paths accepted");
    assert_eq!(plan.paths_ro(), &vec!["/etc/archangel".to_owned()]);
    assert_eq!(plan.paths_rw(), &vec!["/var/lib/archangel-exec".to_owned()]);
}

#[test]
fn empty_is_the_default_and_grants_nothing() {
    let set = CapabilitySet::new();
    assert!(set.is_empty());
    assert!(set.names().is_empty());
    let resolved = CapabilitySet::resolve(&Vec::<String>::new()).expect("empty list resolves");
    assert!(resolved.is_empty());
}

#[test]
fn accepts_informal_and_canonical_names() {
    let set = CapabilitySet::resolve(&vec!["net_bind_service".to_owned(), "CAP_KILL".to_owned()])
        .expect("known capabilities resolve");
    assert_eq!(set.names(), vec!["CAP_KILL", "CAP_NET_BIND_SERVICE"]);
}

#[test]
fn unknown_capability_is_rejected_fail_closed() {
    let err = CapabilitySet::resolve(&vec!["CAP_DOES_NOT_EXIST".to_owned()]).unwrap_err();
    assert_eq!(err, SandboxError::UnknownCapability("CAP_DOES_NOT_EXIST".to_owned()));
    assert!(matches!(
        CapabilitySet::resolve(&vec!["CAP_KILL".to_owned(), "bogus".to_owned()]),
        Err(SandboxError::UnknownCapability(_))
    ));
}

#[test]
fn duplicates_collapse_deterministically() {
    let set = CapabilitySet::resolve(&vec!["CAP_KILL".to_owned(), "kill".to_owned(), "CAP_KILL".to_owned()])
        .expect("resolves");
    assert_eq!(set.names(), vec!["CAP_KILL"]);
}

/// The syscall tables are audited per architecture; these tests run on
/// the `x86_64` build machine, whose `libc` numbers they compare against.
const HOST: Arch = Arch::X86_64;

#[test]
fn every_known_profile_compiles() {
    for p in SeccompProfile::known() {
        for arch in [Arch::X86_64, Arch::Aarch64] {
            let prof = SeccompProfile::compile(&p, arch)
                .unwrap_or_else(|e| panic!("profile {p} must compile: {e:?}"));
            assert_eq!(prof.name(), p);
            assert!(!prof.program().is_empty(), "compiled BPF program must be non-empty");
        }
    }
}

#[test]
fn unknown_profile_is_rejected_not_permissive() {
    let err = SeccompProfile::compile("totally-made-up", HOST).unwrap_err();
    assert_eq!(err, SandboxError::UnknownProfile("totally-made-up".to_owned()));
}

#[test]
fn empty_profile_name_is_rejected() {
    assert!(matches!(SeccompProfile::compile("", HOST), Err(SandboxError::UnknownProfile(_))));
}

#[test]
fn inspect_allows_core_io_and_process_syscalls() {
    let allow = allowlist_for("inspect", HOST).expect("inspect resolves");
    for required in [
        libc::SYS_read,
        libc::SYS_write,
        libc::SYS_openat,
        libc::SYS_execve,
        libc::SYS_clone,
        libc::SYS_exit_group,
    ] {
        assert!(allow.contains(&required), "inspect must allow syscall {required}");
    }
}

#[test]
fn inspect_denies_escape_and_escalation_syscalls() {
    let allow = allowlist_for("inspect", HOST).expect("inspect resolves");
    // These must NOT be on the list, so the kill-on-mismatch default
    // terminates any attempt.
    for forbidden in [
        libc::SYS_mount,
        libc::SYS_ptrace,
        libc::SYS_setuid,
        libc::SYS_setgid,
        libc::SYS_unlinkat,
        libc::SYS_init_module,
        libc::SYS_finit_module,
        libc::SYS_kexec_load,
        libc::SYS_bpf,
        libc::SYS_ptrace,
        libc::SYS_listen,
        libc::SYS_accept,
    ] {
        assert!(!allow.contains(&forbidden), "inspect must NOT allow dangerous syscall {forbidden}");
    }
}

#[test]
fn socket_is_present_only_as_a_conditioned_rule() {
    // `socket` is NOT an unconditional allow…
    let allow = allowlist_for("inspect", HOST).expect("inspect resolves");
    assert!(!allow.contains(&libc::SYS_socket));
    // …but the rule map carries it with non-empty (argument-conditioned)
    // rules restricting the address family.
    let rules = rules_for("inspect", HOST).expect("rules build");
    let socket_rules = &rules.iter().find(|(nr, _)| *nr == libc::SYS_socket).expect("socket entry present").1;
    assert_eq!(socket_rules.len(), 2, "expected AF_UNIX and AF_NETLINK rules");
    assert_eq!(socket_rules[0][0].value, libc::AF_UNIX as u64);
    assert_eq!(socket_rules[1][0].value, libc::AF_NETLINK as u64);
    assert_eq!((AF_UNIX, AF_NETLINK), (libc::AF_UNIX as u64, libc::AF_NETLINK as u64));
}

#[test]
fn allowlist_has_no_duplicates() {
    for arch in [Arch::X86_64, Arch::Aarch64] {
        let mut allow = allowlist_for("inspect", arch).expect("inspect resolves");
        let before = allow.len();
        allow.sort_unstable();
        allow.dedup();
        assert_eq!(before, allow.len(), "duplicate syscall in allowlist");
    }
}

#[test]
fn host_table_names_the_expected_syscalls() {
    let allow = allowlist_for("inspect", HOST).expect("inspect resolves");
    assert_eq!(allow.len(), 110);
    for nr in [libc::SYS_newfstatat, libc::SYS_getrandom, libc::SYS_clone3, libc::SYS_open, libc::SYS_time] {
        assert!(allow.contains(&nr));
    }
    assert_eq!(allowlist_for("inspect", Arch::Aarch64).expect("resolves").len(), 94);
}

#[test]
fn sandbox_error_texts() {
    assert_eq!(SandboxError::UnknownProfile("x".to_owned()).to_string(), "unknown seccomp profile \"x\"");
    assert_eq!(SandboxError::Unsupported.to_string(), "sandbox unsupported on this platform");
}

#[test]
fn empty_path_components_are_refused() {
    for bad in ["/etc//archangel", "//etc", "/var/lib//"] {
        let p = SandboxPolicy { allowed_paths_ro: vec![bad.to_owned()], ..base() };
        assert!(matches!(p.plan(Arch::X86_64), Err(SandboxError::InvalidProfile(_))), "path {bad:?} must be refused");
    }
    match validate_path("/etc//archangel") {
        Err(SandboxError::InvalidProfile(m)) => assert_eq!(m, "path \"/etc//archangel\": contains an empty component"),
        other => panic!("unexpected {other:?}"),
    }
}

#[test]
fn path_refusals_name_the_path_and_the_reason() {
    let cases = [
        ("", "path \"\": empty"),
        ("etc", "path \"etc\": must be absolute"),
        ("/a\0b", "path \"/a\\0b\": contains NUL"),
        ("/ok/../escape", "path \"/ok/../escape\": contains a `..` component"),
    ];
    for (p, want) in cases {
        match validate_path(p) {
            Err(SandboxError::InvalidProfile(m)) => assert_eq!(m, want),
            other => panic!("unexpected {other:?} for {p:?}"),
        }
    }
    let long = format!("/{}", "a".repeat(4096));
    assert!(matches!(validate_path(&long), Err(SandboxError::InvalidProfile(m)) if m.ends_with(": too long")));
    assert!(validate_path("/etc/archangel/").is_ok());
    assert!(validate_path("/").is_ok());
}

#[test]
fn allowlist_lists_the_common_calls_then_the_arch_extras() {
    let x86 = allowlist_for("inspect", Arch::X86_64).expect("inspect resolves");
    assert_eq!(&x86[..4], &[libc::SYS_read, libc::SYS_write, libc::SYS_readv, libc::SYS_writev]);
    assert_eq!(x86[92], libc::SYS_prctl);
    assert_eq!(x86[93], libc::SYS_open);
    assert_eq!(x86[109], libc::SYS_time);
    let arm = allowlist_for("inspect", Arch::Aarch64).expect("inspect resolves");
    assert_eq!(arm[0], 63); // read
    assert_eq!(arm[93], 80); // fstat
}

fn limit_text<T: std::fmt::Debug>(r: Result<T, SandboxError>) -> String {
    match r {
        Err(SandboxError::InvalidLimit(m)) => m,
        other => panic!("expected InvalidLimit, got {other:?}"),
    }
}

#[test]
fn limit_refusals_name_the_value_and_the_reason() {
    assert_eq!(limit_text(CpuMax::parse(" 10 ")), "cpu_max \"10\": expected \"<n>%\"");
    assert_eq!(limit_text(CpuMax::parse("1e3%")), "cpu_max \"1e3%\": non-integer percentage");
    assert_eq!(limit_text(CpuMax::parse("99999999999999999999%")), "cpu_max \"99999999999999999999%\": percentage overflow");
    assert_eq!(limit_text(CpuMax::parse("0%")), "cpu_max \"0%\": a zero quota would wedge the action");
    assert_eq!(limit_text(CpuMax::parse("0101%")), "cpu_max 101% exceeds the 100% ceiling");
    assert_eq!(limit_text(MemoryMax::parse("  ")), "memory_max: empty");
    assert_eq!(limit_text(MemoryMax::parse("12X")), "memory_max \"12X\": unknown unit (use K/M/G or raw bytes)");
    assert_eq!(limit_text(MemoryMax::parse("1.5G")), "memory_max \"1.5G\": non-integer amount");
    assert_eq!(limit_text(MemoryMax::parse("99999999999999999999")), "memory_max \"99999999999999999999\": amount overflow");
    assert_eq!(limit_text(MemoryMax::parse("99999999999999G")), "memory_max \"99999999999999G\": byte count overflow");
    assert_eq!(limit_text(MemoryMax::parse("0K")), "memory_max: zero would make every allocation fail");
    assert_eq!(
        limit_text(MemoryMax::parse("2048G")),
        "memory_max 2199023255552 bytes exceeds the sanity ceiling (1099511627776 bytes); likely a unit mistake"
    );
}

#[test]
fn compiled_program_checks_the_arch_first_and_fits_the_bound() {
    let prof = SeccompProfile::compile("inspect", Arch::X86_64).expect("compiles");
    let program = prof.program();
    // Load the architecture field of `seccomp_data` (offset 4) first.
    assert_eq!((program[0].0, program[0].3), (0x20, 4));
    // 110 unconditional entries of five instructions, the socket entry and
    // the framing: more than the entries alone, within the stated bound.
    assert!(program.len() > 3 + 5 * 110);
    assert!(program.len() <= 5 + 5 * 110 + 26);
    // The last instruction is the kill-on-mismatch default.
    assert_eq!(program[program.len() - 1].0, 0x06);
    assert_eq!(program[program.len() - 1].3, 0x8000_0000);
}

#[test]
fn first_unrecognized_capability_is_named() {
    let declared = vec!["net_bind_service".to_owned(), "cap_bogus".to_owned(), "also_bogus".to_owned()];
    assert_eq!(CapabilitySet::resolve(&declared), Err(SandboxError::UnknownCapability("cap_bogus".to_owned())));
    let canonical = vec!["CAP_KILL".to_owned(), "CAP_CHOWN".to_owned(), "CAP_KILL".to_owned()];
    let raw = vec!["kill".to_owned(), "chown".to_owned(), "CAP_KILL".to_owned()];
    let set = CapabilitySet::from_canonical(&raw, &canonical).expect("known names");
    assert_eq!(set.names(), vec!["CAP_CHOWN", "CAP_KILL"]);
    let bad = vec!["CAP_KILL".to_owned(), "CAP_NOPE".to_owned()];
    assert_eq!(
        CapabilitySet::from_canonical(&vec!["kill".to_owned(), "nope".to_owned()], &bad),
        Err(SandboxError::UnknownCapability("nope".to_owned()))
    );
}
