//! The immutable denylist.
//!
//! Its rules are compiled in and cannot change at runtime: a change takes a
//! code change, review and a release. A denylist match is final and
//! overrides any allowlist entry. This build's rules:
//!
//! - `rm-rf-root` (host destruction): a command whose first word is `rm`
//!   and one of whose later words is the root `/`;
//! - `archangel-self-write` (self protection): write access to
//!   `/etc/archangel` or anything below it, judged on the normalized path;
//! - `path-not-normalizable` (self protection): a path that is not
//!   absolute or holds a NUL. A path that cannot be reasoned about is
//!   treated as hostile.

use vstd::prelude::*;

use crate::policy::error::PolicyError;
use crate::policy::pathnorm::{normalizable, normalize_absolute, normalized};
use crate::text::{chars_eq, chars_of, owned, starts_with, starts_with_chars, words, words_of};

verus! {

/// The access an action requests to a path.
#[derive(Debug, Clone, Copy, PartialEq, Eq, Structural)]
pub enum PathAccess {
    /// Reading only.
    Read,
    /// Creating, modifying or deleting.
    Write,
}

/// The family of a denylist rule.
#[derive(Debug, Clone, Copy, PartialEq, Eq, Structural)]
pub enum DenyCategory {
    /// Could destroy the host or its data.
    HostDestruction,
    /// Could cut off remote administration.
    RemoteAccess,
    /// Could modify archangel itself.
    SelfProtection,
}

impl DenyCategory {
    /// The variant's name, as `{:?}` writes it.
    pub open spec fn spec_debug_name(self) -> Seq<char> {
        match self {
            DenyCategory::HostDestruction => "HostDestruction"@,
            DenyCategory::RemoteAccess => "RemoteAccess"@,
            DenyCategory::SelfProtection => "SelfProtection"@,
        }
    }

    /// The variant's name, as `{:?}` writes it.
    pub fn debug_name(self) -> (r: &'static str)
        ensures
            r@ == self.spec_debug_name(),
    {
        match self {
            DenyCategory::HostDestruction => "HostDestruction",
            DenyCategory::RemoteAccess => "RemoteAccess",
            DenyCategory::SelfProtection => "SelfProtection",
        }
    }
}

/// A denylist rule that fired.
#[derive(Debug, Clone, PartialEq, Eq)]
pub struct DenyMatch {
    /// The rule's family.
    pub category: DenyCategory,
    /// The rule's stable id.
    pub rule_id: &'static str,
    /// What the rule forbids.
    pub description: &'static str,
    /// The command or path that matched.
    pub matched: String,
}

/// The compiled-in denylist.
pub struct Denylist;

/// The words of a command that destroys the root filesystem: `rm` first,
/// and the root `/` among the later words.
pub open spec fn rm_root(w: Seq<Seq<char>>) -> bool {
    &&& w.len() >= 2
    &&& w[0] == seq!['r', 'm']
    &&& exists|j: int| 1 <= j < w.len() && #[trigger] w[j] == seq!['/']
}

/// Whether the command `cmd` is denied.
pub open spec fn command_denied(cmd: Seq<char>) -> bool {
    rm_root(words(cmd))
}

/// The protected configuration directory.
pub open spec fn protected_dir() -> Seq<char> {
    "/etc/archangel"@
}

/// `p` is `dir` or lies below it.
pub open spec fn within(p: Seq<char>, dir: Seq<char>) -> bool {
    p == dir || starts_with(p, dir.push('/'))
}

/// Whether access `access` to `path` is denied.
pub open spec fn path_denied(path: Seq<char>, access: PathAccess) -> bool {
    !normalizable(path) || (access == PathAccess::Write && within(normalized(path), protected_dir()))
}

impl Denylist {
    /// The rule a command trips, if any.
    pub fn check_command(command: &str) -> (r: Option<DenyMatch>)
        ensures
            r is Some <==> command_denied(command@),
            r matches Some(m) ==> m.category == DenyCategory::HostDestruction && m.rule_id@ == "rm-rf-root"@
                && m.description@ == "recursive deletion of the root filesystem"@ && m.matched@ == command@,
    {
        let cs = chars_of(command);
        let w = words_of(cs.as_slice());
        let rm = chars_of("rm");
        let root = chars_of("/");
        proof {
            reveal_strlit("rm");
            reveal_strlit("/");
        }
        assert(rm@ =~= seq!['r', 'm']);
        assert(root@ =~= seq!['/']);
        if w.len() < 2 || !chars_eq(w[0].as_slice(), rm.as_slice()) {
            return None;
        }
        assert(words(cs@)[0] == seq!['r', 'm']);
        let mut j: usize = 1;
        while j < w.len()
            invariant
                1 <= j <= w@.len(),
                cs@ == command@,
                w@.len() >= 2,
                words(cs@)[0] == seq!['r', 'm'],
                w@.len() == words(cs@).len(),
                forall|i: int| 0 <= i < w@.len() ==> #[trigger] w@[i]@ == words(cs@)[i],
                root@ == seq!['/'],
                forall|k: int| 1 <= k < j ==> words(cs@)[k] != seq!['/'],
            decreases w.len() - j,
        {
            if chars_eq(w[j].as_slice(), root.as_slice()) {
                assert(words(cs@)[j as int] == seq!['/']);
                return Some(
                    DenyMatch {
                        category: DenyCategory::HostDestruction,
                        rule_id: "rm-rf-root",
                        description: "recursive deletion of the root filesystem",
                        matched: owned(command),
                    },
                );
            }
            j = j + 1;
        }
        None
    }

    /// The rule access `access` to `path` trips, if any. The path is
    /// normalized first; one that cannot be is denied.
    pub fn check_path(path: &str, access: PathAccess) -> (r: Result<Option<DenyMatch>, PolicyError>)
        ensures
            r is Ok,
            r matches Ok(o) ==> (o is Some <==> path_denied(path@, access)),
            r matches Ok(Some(m)) ==> m.category == DenyCategory::SelfProtection && m.matched@ == path@
                && (if !normalizable(path@) {
                m.rule_id@ == "path-not-normalizable"@ && m.description@ == "path cannot be normalized"@
            } else {
                m.rule_id@ == "archangel-self-write"@ && m.description@
                    == "write to archangel's own configuration"@
            }),
    {
        let norm = match normalize_absolute(path) {
            Ok(n) => n,
            Err(_) => {
                return Ok(
                    Some(
                        DenyMatch {
                            category: DenyCategory::SelfProtection,
                            rule_id: "path-not-normalizable",
                            description: "path cannot be normalized",
                            matched: owned(path),
                        },
                    ),
                );
            },
        };
        match access {
            PathAccess::Read => Ok(None),
            PathAccess::Write => {
                let n = chars_of(norm.as_str());
                let dir = chars_of("/etc/archangel");
                let mut below = chars_of("/etc/archangel");
                below.push('/');
                if chars_eq(n.as_slice(), dir.as_slice()) || starts_with_chars(n.as_slice(), below.as_slice()) {
                    Ok(
                        Some(
                            DenyMatch {
                                category: DenyCategory::SelfProtection,
                                rule_id: "archangel-self-write",
                                description: "write to archangel's own configuration",
                                matched: owned(path),
                            },
                        ),
                    )
                } else {
                    Ok(None)
                }
            },
        }
    }
}

} // verus!
