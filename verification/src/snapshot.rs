//! Filesystem snapshot / recovery-point support.
//!
//! The property this serves is "no mutation without a recovery point":
//! before an action that mutates persistent state runs, a snapshot of the
//! affected path must be created; if no backend exists for the filesystem,
//! the action is refused (fail-closed). This module holds the decision of
//! which filesystem a path lives on; taking the snapshot is the backend's
//! job.

use vstd::prelude::*;

use crate::text::{
    chars_eq, chars_of, lines, lines_of, push_str, starts_with, starts_with_chars, string_of, utf8_len,
    words, words_of,
};

verus! {

/// Snapshot subsystem errors.
#[derive(Debug, Clone, PartialEq, Eq)]
pub enum SnapshotError {
    /// No snapshot backend is available for the target path.
    NoBackend(String),
    /// The backend command failed.
    BackendFailed(String),
    /// An operation this build does not perform automatically yet.
    Unsupported(String),
    /// Underlying I/O failure.
    Io(String),
}

/// The human-readable text of a snapshot error.
pub open spec fn snapshot_error_text(e: SnapshotError) -> Seq<char> {
    match e {
        SnapshotError::NoBackend(m) => "no snapshot backend for "@ + m@,
        SnapshotError::BackendFailed(m) => "snapshot backend failed: "@ + m@,
        SnapshotError::Unsupported(m) => "unsupported in this build: "@ + m@,
        SnapshotError::Io(m) => "snapshot I/O error: "@ + m@,
    }
}

impl SnapshotError {
    /// The error's text (see [`snapshot_error_text`]).
    pub fn to_string(&self) -> (r: String)
        ensures
            r@ == snapshot_error_text(*self),
    {
        let mut v: Vec<char> = Vec::new();
        match self {
            SnapshotError::NoBackend(m) => {
                push_str(&mut v, "no snapshot backend for ");
                push_str(&mut v, m.as_str());
            },
            SnapshotError::BackendFailed(m) => {
                push_str(&mut v, "snapshot backend failed: ");
                push_str(&mut v, m.as_str());
            },
            SnapshotError::Unsupported(m) => {
                push_str(&mut v, "unsupported in this build: ");
                push_str(&mut v, m.as_str());
            },
            SnapshotError::Io(m) => {
                push_str(&mut v, "snapshot I/O error: ");
                push_str(&mut v, m.as_str());
            },
        }
        string_of(v.as_slice())
    }
}

/// Opaque handle to a created recovery point (the snapshot's path).
#[derive(Debug, Clone, PartialEq, Eq)]
pub struct SnapshotId(pub String);

/// A filesystem backend that can take a pre-mutation recovery point.
pub trait Snapshotter {
    /// Backend name for logs and audit (e.g. `"btrfs"`).
    fn backend(&self) -> &'static str;

    /// Creates a recovery point of `target`. On `Ok` the action may
    /// proceed; on `Err` the mutating action must be refused.
    fn snapshot(&self, target: &str) -> Result<SnapshotId, SnapshotError>;

    /// Restores a recovery point.
    fn rollback(&self, id: &SnapshotId) -> Result<(), SnapshotError>;

    /// Deletes a recovery point that is no longer needed.
    fn discard(&self, id: &SnapshotId) -> Result<(), SnapshotError>;
}

/// `prefix` is a path-component prefix of `path` (`/a` matches `/a` and
/// `/a/b` but not `/ab`); `/` matches every absolute path.
pub open spec fn path_prefix(prefix: Seq<char>, path: Seq<char>) -> bool {
    if prefix == seq!['/'] {
        path.len() > 0 && path[0] == '/'
    } else {
        starts_with(path, prefix) && (path.len() == prefix.len() || path[prefix.len() as int]
            == '/')
    }
}

/// Whether `prefix` is a path-component prefix of `path` (see [`path_prefix`]).
pub fn is_path_prefix(prefix: &str, path: &str) -> (r: bool)
    ensures
        r == path_prefix(prefix@, path@),
{
    let p = chars_of(prefix);
    let s = chars_of(path);
    if p.len() == 1 && p[0] == '/' {
        assert(p@ =~= seq!['/']);
        return s.len() > 0 && s[0] == '/';
    }
    proof {
        if p@ == seq!['/'] {
            assert(p@[0] == '/');
        }
    }
    if !starts_with_chars(s.as_slice(), p.as_slice()) {
        return false;
    }
    s.len() == p.len() || s[p.len()] == '/'
}

/// The (mount point, filesystem type) a `/proc/mounts` line declares.
pub open spec fn mount_entry(line: Seq<char>) -> Option<(Seq<char>, Seq<char>)> {
    let w = words(line);
    if w.len() >= 3 {
        Some((w[1], w[2]))
    } else {
        None
    }
}

/// The entry with the longest mount point that is a path prefix of `path`
/// (the earliest such line wins a tie).
pub open spec fn best_mount(ls: Seq<Seq<char>>, path: Seq<char>) -> Option<(Seq<char>, Seq<char>)>
    decreases ls.len(),
{
    if ls.len() == 0 {
        None
    } else {
        let b = best_mount(ls.drop_last(), path);
        match mount_entry(ls.last()) {
            Some(e) => if path_prefix(e.0, path) {
                match b {
                    Some(x) => if utf8_len(x.0) >= utf8_len(e.0) {
                        b
                    } else {
                        Some(e)
                    },
                    None => Some(e),
                }
            } else {
                b
            },
            None => b,
        }
    }
}

/// Line `i` of `ls` declares a mount point that is a path prefix of `path`.
pub open spec fn covers(ls: Seq<Seq<char>>, i: int, path: Seq<char>) -> bool {
    0 <= i < ls.len() && mount_entry(ls[i]) is Some && path_prefix(mount_entry(ls[i]).unwrap().0, path)
}

/// The mount chosen for `path` is a longest covering one: when some line's
/// mount point is a path prefix of `path`, the choice is the entry of such
/// a line, and no covering line has a longer mount point (in UTF-8
/// bytes); when none is, there is no choice.
pub proof fn lemma_best_mount_is_longest(ls: Seq<Seq<char>>, path: Seq<char>)
    ensures
        best_mount(ls, path) is None <==> forall|i: int| 0 <= i < ls.len() ==> !#[trigger] covers(ls, i, path),
        best_mount(ls, path) matches Some(b) ==> exists|i: int|
            #[trigger] covers(ls, i, path) && mount_entry(ls[i]) == Some(b),
        best_mount(ls, path) matches Some(b) ==> forall|i: int|
            #[trigger] covers(ls, i, path) ==> utf8_len(mount_entry(ls[i]).unwrap().0) <= utf8_len(b.0),
    decreases ls.len(),
{
    if ls.len() > 0 {
        let init = ls.drop_last();
        lemma_best_mount_is_longest(init, path);
        let n = ls.len() - 1;
        assert(ls.last() == ls[n]);
        assert forall|i: int| 0 <= i < n implies covers(init, i, path) == covers(ls, i, path) by {
            assert(init[i] == ls[i]);
        }
        let b0 = best_mount(init, path);
        if covers(ls, n, path) {
            let e = mount_entry(ls[n]).unwrap();
            match b0 {
                Some(x) => {
                    let k = choose|k: int| #[trigger] covers(init, k, path) && mount_entry(init[k]) == Some(x);
                    assert(covers(ls, k, path) && mount_entry(ls[k]) == Some(x));
                    if utf8_len(x.0) >= utf8_len(e.0) {
                        assert(best_mount(ls, path) == Some(x));
                        assert forall|i: int| #[trigger] covers(ls, i, path) implies utf8_len(mount_entry(ls[i]).unwrap().0)
                            <= utf8_len(x.0) by {
                            if i < n {
                                assert(covers(init, i, path));
                                assert(init[i] == ls[i]);
                            }
                        }
                    } else {
                        assert(best_mount(ls, path) == Some(e));
                        assert forall|i: int| #[trigger] covers(ls, i, path) implies utf8_len(mount_entry(ls[i]).unwrap().0)
                            <= utf8_len(e.0) by {
                            if i < n {
                                assert(covers(init, i, path));
                                assert(init[i] == ls[i]);
                            }
                        }
                    }
                },
                None => {
                    assert(best_mount(ls, path) == Some(e));
                    assert forall|i: int| #[trigger] covers(ls, i, path) implies utf8_len(mount_entry(ls[i]).unwrap().0)
                        <= utf8_len(e.0) by {
                        if i < n {
                            assert(covers(init, i, path));
                        }
                    }
                },
            }
        } else {
            assert(best_mount(ls, path) == b0);
            match b0 {
                Some(x) => {
                    let k = choose|k: int| #[trigger] covers(init, k, path) && mount_entry(init[k]) == Some(x);
                    assert(covers(ls, k, path) && mount_entry(ls[k]) == Some(x));
                    assert forall|i: int| #[trigger] covers(ls, i, path) implies utf8_len(mount_entry(ls[i]).unwrap().0)
                        <= utf8_len(x.0) by {
                        assert(i < n);
                        assert(covers(init, i, path));
                        assert(init[i] == ls[i]);
                    }
                },
                None => {
                    assert forall|i: int| 0 <= i < ls.len() implies !#[trigger] covers(ls, i, path) by {
                        if i < n {
                            assert(!covers(init, i, path));
                        }
                    }
                },
            }
        }
    }
}

/// The filesystem type mounted at the longest path-prefix of `path`, read
/// from `/proc/mounts`-format text.
pub fn fs_type_for(mounts: &str, path: &str) -> (r: Option<String>)
    ensures
        r is Some <==> best_mount(lines(mounts@), path@) is Some,
        r matches Some(t) ==> t@ == best_mount(lines(mounts@), path@).unwrap().1,
        r is None <==> forall|i: int| 0 <= i < lines(mounts@).len() ==> !#[trigger] covers(lines(mounts@), i, path@),
        r matches Some(t) ==> exists|i: int|
            #[trigger] covers(lines(mounts@), i, path@) && mount_entry(lines(mounts@)[i]).unwrap().1 == t@ && forall|j: int|
                #[trigger] covers(lines(mounts@), j, path@) ==> utf8_len(mount_entry(lines(mounts@)[j]).unwrap().0)
                    <= utf8_len(mount_entry(lines(mounts@)[i]).unwrap().0),
{
    proof {
        lemma_best_mount_is_longest(lines(mounts@), path@);
    }
    let text = chars_of(mounts);
    let ls = lines_of(text.as_slice());
    let ghost all = lines(mounts@);
    let mut best: Option<(Vec<char>, Vec<char>)> = None;
    let mut i: usize = 0;
    while i < ls.len()
        invariant
            i <= ls@.len(),
            all == lines(mounts@),
            ls@.len() == all.len(),
            forall|j: int| 0 <= j < ls@.len() ==> #[trigger] ls@[j]@ == all[j],
            best is Some <==> best_mount(all.take(i as int), path@) is Some,
            best matches Some(b) ==> (b.0@, b.1@) == best_mount(all.take(i as int), path@).unwrap(),
        decreases ls.len() - i,
    {
        assert(all.take(i + 1).drop_last() =~= all.take(i as int));
        assert(all.take(i + 1).last() == all[i as int]);
        let w = words_of(ls[i].as_slice());
        if w.len() >= 3 {
            let mp = string_of(w[1].as_slice());
            if is_path_prefix(mp.as_str(), path) {
                let replace = match &best {
                    Some(b) => !longer_or_equal(b.0.as_slice(), w[1].as_slice()),
                    None => true,
                };
                if replace {
                    best = Some((w[1].clone(), w[2].clone()));
                }
            }
        }
        i = i + 1;
    }
    assert(all.take(all.len() as int) =~= all);
    match best {
        Some(b) => Some(string_of(b.1.as_slice())),
        None => None,
    }
}

/// Whether the UTF-8 encoding of `a` is at least as long as that of `b`.
fn longer_or_equal(a: &[char], b: &[char]) -> (r: bool)
    ensures
        r == (utf8_len(a@) >= utf8_len(b@)),
{
    let la = utf8_len_u64(a);
    let lb = utf8_len_u64(b);
    la >= lb
}

/// The UTF-8 length of `s`.
fn utf8_len_u64(s: &[char]) -> (r: u128)
    ensures
        r as nat == utf8_len(s@),
{
    let mut total: u128 = 0;
    let mut i: usize = 0;
    let n = s.len();
    while i < n
        invariant
            i <= n,
            n == s@.len(),
            total as nat == utf8_len(s@.take(i as int)),
            total <= 4 * i,
        decreases s.len() - i,
    {
        let u = s[i] as u32;
        let w: u128 = if u < 0x80 {
            1
        } else if u < 0x800 {
            2
        } else if u < 0x10000 {
            3
        } else {
            4
        };
        assert(s@.take(i + 1).drop_last() =~= s@.take(i as int));
        total = total + w;
        i = i + 1;
    }
    assert(s@.take(s@.len() as int) =~= s@);
    total
}

} // verus!
