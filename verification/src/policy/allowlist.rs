//! The per-profile allowlist.
//!
//! It names which bundles may be invoked, per profile and per mode: the
//! permissive half of policy. The denylist says what may never happen; the
//! allowlist says what is explicitly permitted; both must agree. Lookups
//! fail closed. The loader does not establish authenticity: it must only be
//! fed a file the daemon already trusts by filesystem permissions.

use vstd::prelude::*;

use crate::mode::OperationMode;
use crate::text::{chars_eq, chars_of};

verus! {

/// One profile's permitted actions.
#[derive(Debug, Clone, PartialEq, Eq)]
pub struct ProfileAllow {
    /// Profile name (selected at session start).
    pub name: String,
    /// Mode this profile runs in.
    pub mode: OperationMode,
    /// Names of bundles permitted in this profile.
    pub allowed_exec: Vec<String>,
}

/// A parsed allowlist.
#[derive(Debug, Clone, PartialEq, Eq)]
pub struct Allowlist {
    /// All configured profiles.
    pub profiles: Vec<ProfileAllow>,
}

/// `i` is the first profile of `ps` named `name`.
pub open spec fn first_named(ps: Seq<ProfileAllow>, name: Seq<char>, i: int) -> bool {
    &&& 0 <= i < ps.len()
    &&& ps[i].name@ == name
    &&& forall|j: int| 0 <= j < i ==> (#[trigger] ps[j]).name@ != name
}

/// No profile of `ps` is named `name`.
pub open spec fn none_named(ps: Seq<ProfileAllow>, name: Seq<char>) -> bool {
    forall|j: int| 0 <= j < ps.len() ==> (#[trigger] ps[j]).name@ != name
}

/// `p` lists `exec`.
pub open spec fn lists(p: ProfileAllow, exec: Seq<char>) -> bool {
    exists|k: int| 0 <= k < p.allowed_exec@.len() && (#[trigger] p.allowed_exec@[k])@ == exec
}

/// `exec` is allowed in `profile` under `mode`: the first profile of that
/// name runs in `mode` and lists `exec`.
pub open spec fn allows(ps: Seq<ProfileAllow>, profile: Seq<char>, exec: Seq<char>, mode: OperationMode) -> bool {
    exists|i: int| first_named(ps, profile, i) && ps[i].mode == mode && lists(#[trigger] ps[i], exec)
}

impl Allowlist {
    /// The first profile named `name`.
    pub fn profile(&self, name: &str) -> (r: Option<&ProfileAllow>)
        ensures
            r is None <==> none_named(self.profiles@, name@),
            r matches Some(p) ==> exists|i: int| first_named(self.profiles@, name@, i) && *p == #[trigger] self.profiles@[i],
    {
        let want = chars_of(name);
        let mut i: usize = 0;
        while i < self.profiles.len()
            invariant
                i <= self.profiles@.len(),
                want@ == name@,
                forall|j: int| 0 <= j < i ==> (#[trigger] self.profiles@[j]).name@ != name@,
            decreases self.profiles.len() - i,
        {
            let have = chars_of(self.profiles[i].name.as_str());
            if chars_eq(have.as_slice(), want.as_slice()) {
                assert(first_named(self.profiles@, name@, i as int));
                return Some(&self.profiles[i]);
            }
            i = i + 1;
        }
        None
    }

    /// Whether `exec` is explicitly permitted in `profile` and that profile
    /// runs in `mode`. An unknown profile, a mode mismatch, or an unlisted
    /// bundle all give `false`.
    pub fn is_allowed(&self, profile: &str, exec: &str, mode: OperationMode) -> (r: bool)
        ensures
            r == allows(self.profiles@, profile@, exec@, mode),
    {
        match self.profile(profile) {
            None => false,
            Some(p) => {
                let ghost i = choose|i: int| first_named(self.profiles@, profile@, i) && *p == #[trigger] self.profiles@[i];
                if p.mode != mode {
                    assert forall|i2: int| first_named(self.profiles@, profile@, i2) implies i2 == i by {
                        if i2 < i {
                            assert(self.profiles@[i2].name@ != profile@);
                        } else if i2 > i {
                            assert(self.profiles@[i].name@ != profile@);
                        }
                    }
                    return false;
                }
                let want = chars_of(exec);
                let mut k: usize = 0;
                while k < p.allowed_exec.len()
                    invariant
                        k <= p.allowed_exec@.len(),
                        want@ == exec@,
                        first_named(self.profiles@, profile@, i),
                        *p == self.profiles@[i],
                        p.mode == mode,
                        forall|j: int| 0 <= j < k ==> (#[trigger] p.allowed_exec@[j])@ != exec@,
                    decreases p.allowed_exec.len() - k,
                {
                    let have = chars_of(p.allowed_exec[k].as_str());
                    if chars_eq(have.as_slice(), want.as_slice()) {
                        assert(lists(*p, exec@));
                        assert(lists(self.profiles@[i], exec@));
                        return true;
                    }
                    k = k + 1;
                }
                assert forall|i2: int| first_named(self.profiles@, profile@, i2) implies i2 == i by {
                    if i2 < i {
                        assert(self.profiles@[i2].name@ != profile@);
                    } else if i2 > i {
                        assert(self.profiles@[i].name@ != profile@);
                    }
                }
                false
            },
        }
    }
}

} // verus!
