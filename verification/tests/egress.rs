use archangel::egress::render_systemd_dropin;
use archangel::egress::{EgressError, EgressPolicy};

#[test]
fn deny_all_blocks_everything() {
    let p = EgressPolicy::deny_all();
    assert!(!p.is_allowed("api.anthropic.com", 443));
    assert!(!p.is_allowed("127.0.0.1", 11434));

    let p2 = EgressPolicy::new("deny", &[] as &[&str]).expect("valid");
    assert!(!p2.is_allowed("anything", 443));
}

#[test]
fn host_entry_allows_any_port_exact_host_only() {
    let p = EgressPolicy::new("deny", &["api.anthropic.com"]).expect("valid");
    assert!(p.is_allowed("api.anthropic.com", 443));
    assert!(p.is_allowed("api.anthropic.com", 8443), "no port ⇒ any port");
    assert!(!p.is_allowed("evil.com", 443));
    assert!(!p.is_allowed("api.anthropic.com.evil.com", 443));
    assert!(!p.is_allowed("anthropic.com", 443));
}

#[test]
fn host_port_entry_pins_the_port() {
    let p = EgressPolicy::new("deny", &["127.0.0.1:11434"]).expect("valid");
    assert!(p.is_allowed("127.0.0.1", 11434));
    assert!(!p.is_allowed("127.0.0.1", 443), "wrong port ⇒ denied");
}

#[test]
fn matching_is_case_insensitive() {
    let p = EgressPolicy::new("deny", &["API.Anthropic.COM"]).expect("valid");
    assert!(p.is_allowed("api.anthropic.com", 443));
    assert!(p.is_allowed("Api.Anthropic.Com", 443));
}

#[test]
fn allow_all_permits_everything() {
    let p = EgressPolicy::new("allow", &[] as &[&str]).expect("valid");
    assert!(p.is_allow_all());
    assert!(p.is_allowed("literally-anywhere.example", 1));
}

#[test]
fn bad_default_policy_is_refused() {
    assert_eq!(
        EgressPolicy::new("permit", &[] as &[&str]).unwrap_err(),
        EgressError::BadDefaultPolicy("permit".to_owned())
    );
}

#[test]
fn malformed_rules_are_refused_fail_closed() {
    for bad in [
        "",
        "host:notaport",
        "host:0",
        "host:99999",
        "::1",
        "[2001:db8::1]:443",
        "has space.com",
        "host:",
    ] {
        assert!(
            matches!(EgressPolicy::new("deny", &[bad]), Err(EgressError::BadRule { .. })),
            "entry {bad:?} must be refused"
        );
    }
}

#[test]
fn multiple_rules_combine() {
    let p = EgressPolicy::new("deny", &["api.anthropic.com", "127.0.0.1:11434"]).expect("valid");
    assert!(p.is_allowed("api.anthropic.com", 443));
    assert!(p.is_allowed("127.0.0.1", 11434));
    assert!(!p.is_allowed("127.0.0.1", 22));
    assert!(!p.is_allowed("github.com", 443));
}

#[test]
fn hosts_are_distinct_and_sorted() {
    let p = EgressPolicy::new("deny", &["api.anthropic.com:443", "api.anthropic.com", "127.0.0.1:11434"])
        .expect("valid");
    assert_eq!(p.hosts(), vec!["127.0.0.1", "api.anthropic.com"]);
}

#[test]
fn egress_error_text() {
    let e = EgressPolicy::new("permit", &[] as &[&str]).unwrap_err();
    assert_eq!(e.to_string(), "invalid egress default_policy \"permit\" (expected \"deny\" or \"allow\")");
}

#[test]
fn dropin_pins_ips_and_always_keeps_localhost() {
    let ips: Vec<String> = vec!["1.2.3.4".to_owned(), "2606:4700::1111".to_owned()];
    let d = render_systemd_dropin(&ips);
    assert!(d.contains("IPAddressDeny=any"));
    assert!(d.contains("IPAddressAllow=localhost 1.2.3.4 2606:4700::1111"));
    assert!(d.contains("[Service]"));
}

#[test]
fn dropin_with_no_ips_is_localhost_only() {
    let d = render_systemd_dropin(&[]);
    assert!(d.contains("IPAddressAllow=localhost\n"));
    assert!(d.ends_with("[Service]\nIPAddressDeny=any\nIPAddressAllow=localhost\n"));
}

#[test]
fn first_malformed_entry_is_named_with_its_reason() {
    assert_eq!(
        EgressPolicy::new("deny", &["ok.example", " host:0 ", "host:notaport"]).err(),
        Some(EgressError::BadRule { entry: "host:0".to_owned(), why: "port 0 is not valid".to_owned() })
    );
    assert_eq!(
        EgressPolicy::new("deny", &["bad host"]).err(),
        Some(EgressError::BadRule {
            entry: "bad host".to_owned(),
            why: "host is too long or has illegal characters".to_owned()
        })
    );
}
