//! Egress allowlist policy: given a destination `(host, port)`, is the
//! connection permitted?
//!
//! Pure, deterministic, fail-closed: the default posture is deny, and a
//! destination is allowed only if it matches an explicit allowlist entry
//! (`host` for any port, `host:port` for one port). Host comparison is
//! case-insensitive and exact — no implicit subdomain matching.

use vstd::prelude::*;

use crate::text::{
    chars_eq, chars_of, insert_sorted, last_index_of, last_index_of_char, lemma_last_index_of,
    debug_quoted, debug_text, lower_all, lower_chars, owned, parse_u16, push_str, string_of, strictly_sorted, sub_chars, trim,
    trim_chars, u16_value, views,
};

verus! {

/// Why an egress configuration was rejected.
#[derive(Debug, Clone, PartialEq, Eq)]
pub enum EgressError {
    /// `default_policy` was neither `deny` nor `allow` (the normalized value).
    BadDefaultPolicy(String),
    /// An `allow` entry could not be parsed as `host` or `host:port`.
    BadRule {
        /// The offending entry (trimmed).
        entry: String,
        /// What was wrong with it.
        why: String,
    },
}

/// The text of an egress error.
pub open spec fn egress_error_text(e: EgressError) -> Seq<char> {
    match e {
        EgressError::BadDefaultPolicy(w) => "invalid egress default_policy "@ + debug_quoted(w@)
            + " (expected \"deny\" or \"allow\")"@,
        EgressError::BadRule { entry, why } => "invalid egress allow entry "@ + debug_quoted(entry@)
            + ": "@ + why@,
    }
}

impl EgressError {
    /// The error's text.
    pub fn to_string(&self) -> (r: String)
        ensures
            r@ == egress_error_text(*self),
    {
        let mut v: Vec<char> = Vec::new();
        match self {
            EgressError::BadDefaultPolicy(w) => {
                push_str(&mut v, "invalid egress default_policy ");
                let q = debug_text(w.as_str());
                push_str(&mut v, q.as_str());
                push_str(&mut v, " (expected \"deny\" or \"allow\")");
            },
            EgressError::BadRule { entry, why } => {
                push_str(&mut v, "invalid egress allow entry ");
                let q = debug_text(entry.as_str());
                push_str(&mut v, q.as_str());
                push_str(&mut v, ": ");
                push_str(&mut v, why.as_str());
            },
        }
        string_of(v.as_slice())
    }
}

/// One allowlist entry: a host, optionally pinned to a single port.
#[derive(Debug, Clone, PartialEq, Eq)]
struct EgressRule {
    /// Lowercased hostname or IPv4 literal.
    host: Vec<char>,
    /// `None` ⇒ any port; `Some(p)` ⇒ only port `p`.
    port: Option<u16>,
}

/// A character allowed in a host: ASCII letter, digit, `.` or `-`.
pub open spec fn host_char(c: char) -> bool {
    ('a' <= c && c <= 'z') || ('A' <= c && c <= 'Z') || ('0' <= c && c <= '9') || c == '.' || c
        == '-'
}

/// Hostnames/IPv4 only: 1 to 253 characters, each a [`host_char`].
/// Whitespace, control characters and IPv6 literals (with `:`) are refused.
pub open spec fn valid_host_spec(h: Seq<char>) -> bool {
    0 < h.len() <= 253 && forall|i: int| 0 <= i < h.len() ==> host_char(#[trigger] h[i])
}

/// Whether `h` is an acceptable host (see [`valid_host_spec`]).
pub fn valid_host(h: &[char]) -> (r: bool)
    ensures
        r == valid_host_spec(h@),
{
    if h.len() == 0 || h.len() > 253 {
        return false;
    }
    let mut i: usize = 0;
    while i < h.len()
        invariant
            i <= h@.len(),
            forall|j: int| 0 <= j < i ==> host_char(#[trigger] h@[j]),
        decreases h.len() - i,
    {
        let c = h[i];
        let ok = ('a' <= c && c <= 'z') || ('A' <= c && c <= 'Z') || ('0' <= c && c <= '9') || c
            == '.' || c == '-';
        if !ok {
            assert(!host_char(h@[i as int]));
            return false;
        }
        i = i + 1;
    }
    true
}

/// The rule an allowlist entry denotes, if it is well-formed: the trimmed
/// entry is split at its last `:`; the part after it must be a port in
/// `1..=65535`; the (lowercased) host must be valid.
pub open spec fn rule_of(raw: Seq<char>) -> Option<(Seq<char>, Option<nat>)> {
    let e = trim(raw);
    let k = last_index_of(e, ':');
    if e.len() == 0 {
        None
    } else if k >= 0 {
        match u16_value(e.skip(k + 1)) {
            Some(p) => if p != 0 && valid_host_spec(lower_all(e.take(k))) {
                Some((lower_all(e.take(k)), Some(p)))
            } else {
                None
            },
            None => None,
        }
    } else if valid_host_spec(lower_all(e)) {
        Some((lower_all(e), None))
    } else {
        None
    }
}

/// Why an allowlist entry is malformed (`None` when it denotes a rule; see
/// [`rule_of`]).
pub open spec fn rule_problem(raw: Seq<char>) -> Option<Seq<char>> {
    let e = trim(raw);
    let k = last_index_of(e, ':');
    if e.len() == 0 {
        Some("empty"@)
    } else if k >= 0 {
        match u16_value(e.skip(k + 1)) {
            None => Some("port after ':' is not a valid 1..=65535 number"@),
            Some(p) => if p == 0 {
                Some("port 0 is not valid"@)
            } else if !valid_host_spec(lower_all(e.take(k))) {
                Some("host part is empty, too long, or has illegal characters (IPv6 is unsupported)"@)
            } else {
                None
            },
        }
    } else if !valid_host_spec(lower_all(e)) {
        Some("host is too long or has illegal characters"@)
    } else {
        None
    }
}

/// `e` is the `BadRule` error for the malformed entry `raw`: the trimmed
/// entry, and why it is malformed.
pub open spec fn bad_rule_for(e: EgressError, raw: Seq<char>) -> bool {
    e matches EgressError::BadRule { entry, why } && entry@ == trim(raw) && rule_problem(raw) == Some(why@)
}

/// Builds a `BadRule` error for `entry`.
fn bad(entry: &[char], why: &str) -> (r: EgressError)
    ensures
        r matches EgressError::BadRule { entry: e, why: w } && e@ == entry@ && w@ == why@,
{
    EgressError::BadRule { entry: string_of(entry), why: owned(why) }
}

/// Parses one allowlist entry.
fn parse_rule(raw: &str) -> (r: Result<EgressRule, EgressError>)
    ensures
        r is Ok <==> rule_of(raw@) is Some,
        r matches Ok(rule) ==> Some((rule.host@, port_view(rule.port))) == rule_of(
            raw@,
        ),
        r matches Err(e) ==> bad_rule_for(e, raw@),
        r is Ok <==> rule_problem(raw@) is None,
{
    let raw_chars = chars_of(raw);
    let entry = trim_chars(raw_chars.as_slice());
    if entry.len() == 0 {
        return Err(bad(entry.as_slice(), "empty"));
    }
    proof {
        lemma_last_index_of(entry@, ':');
    }
    match last_index_of_char(entry.as_slice(), ':') {
        Some(k) => {
            let port_str = sub_chars(entry.as_slice(), k + 1, entry.len());
            assert(port_str@ =~= entry@.skip(k + 1));
            let port = match parse_u16(port_str.as_slice()) {
                Some(p) => p,
                None => {
                    return Err(bad(entry.as_slice(), "port after ':' is not a valid 1..=65535 number"));
                },
            };
            if port == 0 {
                return Err(bad(entry.as_slice(), "port 0 is not valid"));
            }
            let host_raw = sub_chars(entry.as_slice(), 0, k);
            assert(host_raw@ =~= entry@.take(k as int));
            let host = lower_chars(host_raw.as_slice());
            if !valid_host(host.as_slice()) {
                return Err(bad(entry.as_slice(), "host part is empty, too long, or has illegal characters (IPv6 is unsupported)"));
            }
            Ok(EgressRule { host, port: Some(port) })
        },
        None => {
            let host = lower_chars(entry.as_slice());
            if !valid_host(host.as_slice()) {
                return Err(bad(entry.as_slice(), "host is too long or has illegal characters"));
            }
            Ok(EgressRule { host, port: None })
        },
    }
}

/// A port pin as a mathematical value.
pub open spec fn port_view(p: Option<u16>) -> Option<nat> {
    match p {
        Some(x) => Some(x as nat),
        None => None,
    }
}

/// A compiled egress allowlist.
#[derive(Debug, Clone)]
pub struct EgressPolicy {
    allow_all: bool,
    rules: Vec<EgressRule>,
}

/// The normalized `default_policy`: trimmed and ASCII-lowercased.
pub open spec fn normalized_default(d: Seq<char>) -> Seq<char> {
    lower_all(trim(d))
}

/// `"deny"`.
pub open spec fn deny_word() -> Seq<char> {
    seq!['d', 'e', 'n', 'y']
}

/// `"allow"`.
pub open spec fn allow_word() -> Seq<char> {
    seq!['a', 'l', 'l', 'o', 'w']
}

/// Every entry of `allow` is a well-formed rule.
pub open spec fn all_rules_ok(allow: Seq<&str>) -> bool {
    forall|i: int| 0 <= i < allow.len() ==> rule_of(#[trigger] allow[i]@) is Some
}

/// Whether a rule (host, port) admits `host:port` for an already
/// normalized host.
pub open spec fn rule_admits(rule: (Seq<char>, Option<nat>), host: Seq<char>, port: nat) -> bool {
    rule.0 == host && match rule.1 {
        None => true,
        Some(p) => p == port,
    }
}

impl EgressPolicy {
    /// `true` only when the default policy is `allow` (permits everything).
    pub closed spec fn spec_allow_all(self) -> bool {
        self.allow_all
    }

    /// The compiled rules, in declaration order: (lowercased host, port).
    pub closed spec fn spec_rules(self) -> Seq<(Seq<char>, Option<nat>)> {
        self.rules@.map_values(|r: EgressRule| (r.host@, port_view(r.port)))
    }

    /// Compile a policy from `default_policy` (`"deny"`/`"allow"`, any case,
    /// surrounding whitespace allowed) and the `allow` entries.
    ///
    /// Fail-closed: a default that is neither word is `BadDefaultPolicy`
    /// (holding the normalized word); otherwise the first malformed entry is
    /// `BadRule`.
    pub fn new(default_policy: &str, allow: &[&str]) -> (r: Result<EgressPolicy, EgressError>)
        ensures
            normalized_default(default_policy@) != deny_word() && normalized_default(default_policy@)
                != allow_word() ==> (r matches Err(EgressError::BadDefaultPolicy(w)) && w@
                == normalized_default(default_policy@)),
            (normalized_default(default_policy@) == deny_word() || normalized_default(
                default_policy@,
            ) == allow_word()) && !all_rules_ok(allow@) ==> (r matches Err(e) && exists|k: int|
                0 <= k < allow@.len() && bad_rule_for(e, (#[trigger] allow@[k])@) && forall|j: int|
                    0 <= j < k ==> rule_of((#[trigger] allow@[j])@) is Some),
            r is Ok <==> (normalized_default(default_policy@) == deny_word() || normalized_default(
                default_policy@,
            ) == allow_word()) && all_rules_ok(allow@),
            r matches Ok(p) ==> p.spec_allow_all() == (normalized_default(default_policy@)
                == allow_word()) && p.spec_rules().len() == allow@.len() && forall|i: int|
                0 <= i < allow@.len() ==> Some(#[trigger] p.spec_rules()[i]) == rule_of(allow@[i]@),
    {
        let d0 = chars_of(default_policy);
        let d1 = trim_chars(d0.as_slice());
        let d = lower_chars(d1.as_slice());
        let deny = chars_of("deny");
        let allow_w = chars_of("allow");
        proof {
            reveal_strlit("deny");
            reveal_strlit("allow");
        }
        assert(deny@ =~= deny_word());
        assert(allow_w@ =~= allow_word());
        let allow_all = if chars_eq(d.as_slice(), deny.as_slice()) {
            false
        } else if chars_eq(d.as_slice(), allow_w.as_slice()) {
            true
        } else {
            return Err(EgressError::BadDefaultPolicy(string_of(d.as_slice())));
        };
        let mut rules: Vec<EgressRule> = Vec::new();
        let mut i: usize = 0;
        while i < allow.len()
            invariant
                i <= allow@.len(),
                normalized_default(default_policy@) == deny_word() || normalized_default(
                    default_policy@,
                ) == allow_word(),
                allow_all == (normalized_default(default_policy@) == allow_word()),
                rules@.len() == i,
                forall|j: int| 0 <= j < i ==> rule_of(#[trigger] allow@[j]@) is Some,
                forall|j: int|
                    0 <= j < i ==> Some(
                        (#[trigger] rules@[j].host@, port_view(rules@[j].port)),
                    ) == rule_of(allow@[j]@),
            decreases allow.len() - i,
        {
            let rule = match parse_rule(allow[i]) {
                Ok(r) => r,
                Err(e) => {
                    assert(bad_rule_for(e, allow@[i as int]@));
                    return Err(e);
                },
            };
            rules.push(rule);
            i = i + 1;
        }
        let p = EgressPolicy { allow_all, rules };
        assert forall|j: int| 0 <= j < allow@.len() implies Some(#[trigger] p.spec_rules()[j])
            == rule_of(allow@[j]@) by {
            assert(p.spec_rules()[j] == (p.rules@[j].host@, port_view(p.rules@[j].port)));
        }
        Ok(p)
    }

    /// A deny-all policy (no egress permitted). The safest possible posture.
    pub fn deny_all() -> (r: EgressPolicy)
        ensures
            !r.spec_allow_all(),
            r.spec_rules().len() == 0,
    {
        EgressPolicy { allow_all: false, rules: Vec::new() }
    }

    /// Whether a connection to `host:port` is permitted. Fail-closed: unless
    /// the policy is allow-all or an entry matches the trimmed, lowercased
    /// host exactly (and its port, if pinned), the answer is `false`.
    pub fn is_allowed(&self, host: &str, port: u16) -> (r: bool)
        ensures
            r == admits(*self, host@, port as nat),
            forall|i: int|
                0 <= i < self.spec_rules().len() && (#[trigger] self.spec_rules()[i]).0 == lower_all(trim(host@)) && (
                self.spec_rules()[i].1 is None || self.spec_rules()[i].1 == Some(port as nat)) ==> r,
            r ==> self.spec_allow_all() || exists|i: int|
                0 <= i < self.spec_rules().len() && (#[trigger] self.spec_rules()[i]).0 == lower_all(trim(host@)) && (
                self.spec_rules()[i].1 is None || self.spec_rules()[i].1 == Some(port as nat)),
    {
        proof {
            lemma_each_rule_admits(*self, host@, port as nat);
        }
        if self.allow_all {
            return true;
        }
        let h0 = chars_of(host);
        let h1 = trim_chars(h0.as_slice());
        let h = lower_chars(h1.as_slice());
        let mut i: usize = 0;
        while i < self.rules.len()
            invariant
                i <= self.rules@.len(),
                !self.allow_all,
                h@ == normalized_default(host@),
                forall|j: int|
                    0 <= j < i ==> !rule_admits(
                        #[trigger] self.spec_rules()[j],
                        normalized_default(host@),
                        port as nat,
                    ),
            decreases self.rules.len() - i,
        {
            let rule = &self.rules[i];
            let port_ok = match rule.port {
                None => true,
                Some(p) => p == port,
            };
            assert(self.spec_rules()[i as int] == (rule.host@, port_view(rule.port)));
            if chars_eq(rule.host.as_slice(), h.as_slice()) && port_ok {
                return true;
            }
            i = i + 1;
        }
        false
    }

    /// True if this policy permits everything (`default_policy = "allow"`).
    pub fn is_allow_all(&self) -> (r: bool)
        ensures
            r == self.spec_allow_all(),
    {
        self.allow_all
    }

    /// The distinct hosts in the allowlist, sorted, ports dropped (the
    /// kernel-level filter is IP-granular, not port-granular).
    pub fn hosts(&self) -> (r: Vec<String>)
        ensures
            strictly_sorted(r@.map_values(|s: String| s@)),
            r@.map_values(|s: String| s@).to_set() == self.spec_rules().map_values(
                |x: (Seq<char>, Option<nat>)| x.0,
            ).to_set(),
    {
        let ghost all = self.spec_rules().map_values(|x: (Seq<char>, Option<nat>)| x.0);
        let mut set: Vec<Vec<char>> = Vec::new();
        let mut i: usize = 0;
        assert(views(set@) =~= Seq::<Seq<char>>::empty());
        while i < self.rules.len()
            invariant
                i <= self.rules@.len(),
                all == self.spec_rules().map_values(|x: (Seq<char>, Option<nat>)| x.0),
                strictly_sorted(views(set@)),
                views(set@).to_set() == all.take(i as int).to_set(),
            decreases self.rules.len() - i,
        {
            let h = self.rules[i].host.clone();
            assert(h@ == all[i as int]);
            insert_sorted(&mut set, h);
            assert(all.take(i + 1) =~= all.take(i as int).push(all[i as int]));
            proof {
                all.take(i as int).lemma_push_to_set_commute(all[i as int]);
            }
            i = i + 1;
        }
        assert(all.take(self.rules@.len() as int) =~= all);
        let mut out: Vec<String> = Vec::new();
        let mut k: usize = 0;
        while k < set.len()
            invariant
                k <= set@.len(),
                out@.len() == k,
                forall|j: int| 0 <= j < k ==> #[trigger] out@[j]@ == set@[j]@,
            decreases set.len() - k,
        {
            out.push(string_of(set[k].as_slice()));
            k = k + 1;
        }
        assert(out@.map_values(|s: String| s@) =~= views(set@));
        out
    }
}

/// The IP addresses after `localhost` in an `IPAddressAllow=` line, each
/// preceded by a space.
pub open spec fn ip_tail(ips: Seq<Seq<char>>) -> Seq<char>
    decreases ips.len(),
{
    if ips.len() == 0 {
        Seq::empty()
    } else {
        ip_tail(ips.drop_last()) + seq![' '] + ips.last()
    }
}

/// The fixed head of the systemd drop-in, up to `IPAddressAllow=`.
pub open spec fn dropin_head() -> Seq<char> {
    "# Generated by `archangelctl egress-sync` — do not edit by hand.\n"@
        + "# Kernel-enforced egress allowlist (threat-model #17) for archangeld.\n"@
        + "# Re-run egress-sync after an allowlisted host's IPs change (CDN/DNS\n"@
        + "# rotation), or the daemon will lose access to it.\n"@
        + "[Service]\n"@
        + "IPAddressDeny=any\n"@
        + "IPAddressAllow=localhost"@
}

/// Renders a systemd drop-in that confines a service's egress to
/// `allowed_ips` (their textual forms) at the kernel level: deny any, then
/// allow `localhost` and each address in order. `localhost` is always kept
/// so loopback services keep working.
pub fn render_systemd_dropin(allowed_ips: &[String]) -> (r: String)
    ensures
        r@ == dropin_head() + ip_tail(allowed_ips@.map_values(|s: String| s@)) + seq!['\n'],
{
    let mut v: Vec<char> = Vec::new();
    push_str(&mut v, "# Generated by `archangelctl egress-sync` — do not edit by hand.\n");
    push_str(&mut v, "# Kernel-enforced egress allowlist (threat-model #17) for archangeld.\n");
    push_str(&mut v, "# Re-run egress-sync after an allowlisted host's IPs change (CDN/DNS\n");
    push_str(&mut v, "# rotation), or the daemon will lose access to it.\n");
    push_str(&mut v, "[Service]\n");
    push_str(&mut v, "IPAddressDeny=any\n");
    push_str(&mut v, "IPAddressAllow=localhost");
    let ghost head = v@;
    assert(head =~= dropin_head());
    let mut i: usize = 0;
    while i < allowed_ips.len()
        invariant
            i <= allowed_ips@.len(),
            head == dropin_head(),
            v@ == head + ip_tail(allowed_ips@.take(i as int).map_values(|s: String| s@)),
        decreases allowed_ips.len() - i,
    {
        let ghost before = v@;
        v.push(' ');
        push_str(&mut v, allowed_ips[i].as_str());
        proof {
            let t = allowed_ips@.take(i + 1).map_values(|s: String| s@);
            assert(t.drop_last() =~= allowed_ips@.take(i as int).map_values(|s: String| s@));
            assert(t.last() == allowed_ips@[i as int]@);
            assert(v@ =~= head + ip_tail(t));
        }
        i = i + 1;
    }
    assert(allowed_ips@.take(i as int) =~= allowed_ips@);
    v.push('\n');
    string_of(v.as_slice())
}

/// Whether policy `p` admits a connection to `host:port`: it allows
/// everything, or one of its rules names the host (trimmed, ASCII
/// lowercased) and, if it names a port, that port.
pub open spec fn admits(p: EgressPolicy, host: Seq<char>, port: nat) -> bool {
    p.spec_allow_all() || exists|i: int|
        0 <= i < p.spec_rules().len() && rule_admits(#[trigger] p.spec_rules()[i], normalized_default(host), port)
}

/// Every rule admits on its own, whatever the other rules say: a rule that
/// names the host (trimmed, ASCII lowercased) and either no port or `port`
/// admits the connection; and nothing else does, unless the policy allows
/// everything.
pub proof fn lemma_each_rule_admits(p: EgressPolicy, host: Seq<char>, port: nat)
    ensures
        forall|i: int|
            0 <= i < p.spec_rules().len() && (#[trigger] p.spec_rules()[i]).0 == lower_all(trim(host)) && (
            p.spec_rules()[i].1 is None || p.spec_rules()[i].1 == Some(port)) ==> admits(p, host, port),
        admits(p, host, port) ==> p.spec_allow_all() || exists|i: int|
            0 <= i < p.spec_rules().len() && (#[trigger] p.spec_rules()[i]).0 == lower_all(trim(host)) && (
            p.spec_rules()[i].1 is None || p.spec_rules()[i].1 == Some(port)),
{
    assert forall|i: int|
        0 <= i < p.spec_rules().len() && (#[trigger] p.spec_rules()[i]).0 == lower_all(trim(host)) && (
        p.spec_rules()[i].1 is None || p.spec_rules()[i].1 == Some(port)) implies admits(p, host, port) by {
        assert(rule_admits(p.spec_rules()[i], normalized_default(host), port));
    }
    if admits(p, host, port) && !p.spec_allow_all() {
        let i = choose|i: int|
            0 <= i < p.spec_rules().len() && rule_admits(#[trigger] p.spec_rules()[i], normalized_default(host), port);
        assert(p.spec_rules()[i].0 == lower_all(trim(host)));
    }
}

/// Host comparison ignores ASCII case and surrounding whitespace: two
/// spellings of a host that normalize alike are admitted alike.
pub proof fn lemma_host_case_insensitive(p: EgressPolicy, h1: Seq<char>, h2: Seq<char>, port: nat)
    requires
        normalized_default(h1) == normalized_default(h2),
    ensures
        admits(p, h1, port) == admits(p, h2, port),
{
}

/// Fail-closed: a deny-all policy admits no destination at all.
pub proof fn lemma_deny_all_admits_nothing(p: EgressPolicy, host: Seq<char>, port: nat)
    requires
        !p.spec_allow_all(),
        p.spec_rules().len() == 0,
    ensures
        !admits(p, host, port),
{
}

/// Host matching is exact: a rule admits only the very host it names (in
/// normalized form), so no other host — a subdomain included — is implied.
pub proof fn lemma_rule_exact_host(rule: (Seq<char>, Option<nat>), h1: Seq<char>, h2: Seq<char>, port: nat)
    requires
        rule_admits(rule, h1, port),
        rule_admits(rule, h2, port),
    ensures
        h1 == h2,
{
}

} // verus!
