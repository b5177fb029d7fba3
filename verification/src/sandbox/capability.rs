//! Bundle capability strings → a validated capability set.
//!
//! The sandbox drops every capability and re-grants only this set; the
//! default (an empty list) grants nothing. An unrecognized name is a hard
//! refusal, never silently ignored.

use vstd::prelude::*;

use crate::sandbox::error::SandboxError;
use crate::text::{chars_of, insert_sorted, owned, strictly_sorted, string_of, views};

verus! {

/// The canonical `CAP_*` spelling that `caps::to_canonical` gives a name
/// (Unicode upper-casing, then a `CAP_` prefix unless already present).
pub uninterp spec fn caps_canonical(name: Seq<char>) -> Seq<char>;

/// The names `caps::Capability::from_str` accepts, in the kernel's order.
pub open spec fn capability_names() -> Seq<Seq<char>> {
    seq![
        "CAP_CHOWN"@,
        "CAP_DAC_OVERRIDE"@,
        "CAP_DAC_READ_SEARCH"@,
        "CAP_FOWNER"@,
        "CAP_FSETID"@,
        "CAP_KILL"@,
        "CAP_SETGID"@,
        "CAP_SETUID"@,
        "CAP_SETPCAP"@,
        "CAP_LINUX_IMMUTABLE"@,
        "CAP_NET_BIND_SERVICE"@,
        "CAP_NET_BROADCAST"@,
        "CAP_NET_ADMIN"@,
        "CAP_NET_RAW"@,
        "CAP_IPC_LOCK"@,
        "CAP_IPC_OWNER"@,
        "CAP_SYS_MODULE"@,
        "CAP_SYS_RAWIO"@,
        "CAP_SYS_CHROOT"@,
        "CAP_SYS_PTRACE"@,
        "CAP_SYS_PACCT"@,
        "CAP_SYS_ADMIN"@,
        "CAP_SYS_BOOT"@,
        "CAP_SYS_NICE"@,
        "CAP_SYS_RESOURCE"@,
        "CAP_SYS_TIME"@,
        "CAP_SYS_TTY_CONFIG"@,
        "CAP_MKNOD"@,
        "CAP_LEASE"@,
        "CAP_AUDIT_WRITE"@,
        "CAP_AUDIT_CONTROL"@,
        "CAP_SETFCAP"@,
        "CAP_MAC_OVERRIDE"@,
        "CAP_MAC_ADMIN"@,
        "CAP_SYSLOG"@,
        "CAP_WAKE_ALARM"@,
        "CAP_BLOCK_SUSPEND"@,
        "CAP_AUDIT_READ"@,
        "CAP_PERFMON"@,
        "CAP_BPF"@,
        "CAP_CHECKPOINT_RESTORE"@,
    ]
}

/// Whether `caps::Capability::from_str` accepts a (canonical) name: it is
/// one of [`capability_names`].
pub open spec fn caps_known(canonical: Seq<char>) -> bool {
    capability_names().contains(canonical)
}

/// Calls `caps::to_canonical`. Claimed: the result is a function of the
/// name alone, named [`caps_canonical`]; nothing more is stated of it.
#[verifier::external_body]
fn to_canonical(name: &str) -> (r: String)
    ensures
        r@ == caps_canonical(name@),
{
    caps::to_canonical(name)
}

/// Calls `<caps::Capability as FromStr>::from_str` and reports whether it
/// succeeded. Claimed: it accepts exactly the names of
/// [`capability_names`] (its match arms) and refuses any other.
#[verifier::external_body]
fn is_known_capability(canonical: &str) -> (r: bool)
    ensures
        r == caps_known(canonical@),
{
    canonical.parse::<caps::Capability>().is_ok()
}

/// Position `i` of the canonical names `c` is the first that is not a
/// known capability.
pub open spec fn first_unknown(c: Seq<Seq<char>>, i: int) -> bool {
    &&& 0 <= i < c.len()
    &&& !caps_known(c[i])
    &&& forall|j: int| 0 <= j < i ==> caps_known(#[trigger] c[j])
}

/// Every declared name canonicalizes to a known capability.
pub open spec fn all_known(declared: Seq<String>) -> bool {
    forall|i: int| 0 <= i < declared.len() ==> caps_known(caps_canonical(#[trigger] declared[i]@))
}

/// A validated set of capabilities to retain inside the sandbox, held as
/// canonical `CAP_*` names in strictly increasing order (deterministic
/// audit rendering, duplicates collapsed).
#[derive(Debug, Clone, PartialEq, Eq)]
pub struct CapabilitySet {
    names: Vec<Vec<char>>,
}

impl CapabilitySet {
    /// The canonical names held, in order.
    pub closed spec fn spec_names(self) -> Seq<Seq<char>> {
        views(self.names@)
    }

    /// The empty set: no capabilities at all (the default, safest posture).
    pub fn new() -> (r: CapabilitySet)
        ensures
            r.spec_names() == Seq::<Seq<char>>::empty(),
    {
        let r = CapabilitySet { names: Vec::new() };
        assert(r.spec_names() =~= Seq::<Seq<char>>::empty());
        r
    }

    /// Resolve and validate bundle-declared capability strings. Names are
    /// accepted in informal form (`net_bind_service`, `CAP_NET_BIND_SERVICE`)
    /// and canonicalized; each must be a real Linux capability.
    ///
    /// Errors with `UnknownCapability` naming the first name that is not
    /// recognized: one bad name rejects the whole set.
    pub fn resolve(declared: &Vec<String>) -> (r: Result<CapabilitySet, SandboxError>)
        ensures
            r is Ok <==> all_known(declared@),
            r matches Ok(set) ==> strictly_sorted(set.spec_names()) && set.spec_names().to_set()
                == declared@.map_values(|d: String| caps_canonical(d@)).to_set(),
            r matches Err(e) ==> exists|i: int|
                0 <= i < declared@.len() && first_unknown(declared@.map_values(|d: String| caps_canonical(d@)), i)
                    && e == SandboxError::UnknownCapability(#[trigger] declared@[i]),
    {
        let mut canonical: Vec<String> = Vec::new();
        let mut i: usize = 0;
        while i < declared.len()
            invariant
                i <= declared@.len(),
                canonical@.len() == i,
                forall|j: int| 0 <= j < i ==> (#[trigger] canonical@[j])@ == caps_canonical(declared@[j]@),
            decreases declared.len() - i,
        {
            canonical.push(to_canonical(declared[i].as_str()));
            i = i + 1;
        }
        let ghost canon = declared@.map_values(|d: String| caps_canonical(d@));
        assert(canonical@.map_values(|s: String| s@) =~= canon);
        let r = CapabilitySet::from_canonical(declared, &canonical);
        proof {
            if r is Ok {
                assert forall|j: int| 0 <= j < declared@.len() implies caps_known(caps_canonical(#[trigger] declared@[j]@)) by {
                    assert(canon[j] == caps_canonical(declared@[j]@));
                }
            } else {
                assert(!all_known(declared@)) by {
                    let k = choose|k: int| 0 <= k < declared@.len() && first_unknown(canon, k) && r->Err_0 == SandboxError::UnknownCapability(#[trigger] declared@[k]);
                    assert(canon[k] == caps_canonical(declared@[k]@));
                }
            }
        }
        r
    }

    /// The set for names whose canonical spellings `canonical` gives, in
    /// the same order: each canonical name must be a known capability, and
    /// the first that is not is refused with `UnknownCapability` naming the
    /// declared name at its position.
    pub fn from_canonical(declared: &Vec<String>, canonical: &Vec<String>) -> (r: Result<CapabilitySet, SandboxError>)
        requires
            declared@.len() == canonical@.len(),
        ensures
            r is Ok <==> forall|j: int| 0 <= j < canonical@.len() ==> caps_known(#[trigger] canonical@[j]@),
            r matches Ok(set) ==> strictly_sorted(set.spec_names()) && set.spec_names().to_set()
                == canonical@.map_values(|s: String| s@).to_set(),
            r matches Err(e) ==> exists|i: int|
                0 <= i < declared@.len() && first_unknown(canonical@.map_values(|s: String| s@), i)
                    && e == SandboxError::UnknownCapability(#[trigger] declared@[i]),
    {
        let mut names: Vec<Vec<char>> = Vec::new();
        let ghost canon = canonical@.map_values(|s: String| s@);
        let mut i: usize = 0;
        assert(views(names@) =~= Seq::<Seq<char>>::empty());
        while i < canonical.len()
            invariant
                i <= canonical@.len(),
                declared@.len() == canonical@.len(),
                canon == canonical@.map_values(|s: String| s@),
                strictly_sorted(views(names@)),
                views(names@).to_set() == canon.take(i as int).to_set(),
                forall|j: int| 0 <= j < i ==> caps_known(#[trigger] canonical@[j]@),
            decreases canonical.len() - i,
        {
            if !is_known_capability(canonical[i].as_str()) {
                proof {
                    assert forall|j: int| 0 <= j < i implies caps_known(#[trigger] canon[j]) by {
                        assert(canon[j] == canonical@[j]@);
                    }
                    assert(first_unknown(canon, i as int));
                }
                return Err(SandboxError::UnknownCapability(declared[i].clone()));
            }
            let c = chars_of(canonical[i].as_str());
            assert(c@ == canon[i as int]);
            insert_sorted(&mut names, c);
            assert(canon.take(i + 1) =~= canon.take(i as int).push(canon[i as int]));
            proof {
                canon.take(i as int).lemma_push_to_set_commute(canon[i as int]);
            }
            i = i + 1;
        }
        assert(canon.take(canonical@.len() as int) =~= canon);
        Ok(CapabilitySet { names })
    }

    /// True if no capabilities are retained (the default, safest case).
    pub fn is_empty(&self) -> (r: bool)
        ensures
            r == (self.spec_names().len() == 0),
    {
        self.names.len() == 0
    }

    /// The canonical capability names (sorted), for audit/diagnostics and
    /// for the applier that keeps exactly these while dropping all others.
    pub fn names(&self) -> (r: Vec<String>)
        ensures
            r@.len() == self.spec_names().len(),
            forall|i: int| 0 <= i < r@.len() ==> #[trigger] r@[i]@ == self.spec_names()[i],
    {
        let mut out: Vec<String> = Vec::new();
        let mut i: usize = 0;
        while i < self.names.len()
            invariant
                i <= self.names@.len(),
                out@.len() == i,
                forall|j: int| 0 <= j < i ==> #[trigger] out@[j]@ == self.names@[j]@,
            decreases self.names.len() - i,
        {
            out.push(string_of(self.names[i].as_slice()));
            i = i + 1;
        }
        out
    }
}

} // verus!
