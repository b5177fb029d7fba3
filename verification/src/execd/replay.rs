//! Replay and reorder protection.
//!
//! Every request carries a per-session monotonic `seq` and a random
//! `nonce`. A request is accepted only if its `seq` is strictly greater
//! than the highest `seq` already accepted for its session and its `nonce`
//! is not among the most recent accepted nonces. This defeats replay of a
//! validly signed request, reordering of in-flight requests, and duplicate
//! delivery.
//!
//! State is in memory and per process. The session key changes on every
//! daemon restart, so a fresh process with empty state cannot be fooled by
//! requests signed under an old key: those fail signature checks first.
//!
//! Sessions and nonces are keyed by their 16 bytes read as one big-endian
//! 128-bit number ([`key_of`]), which is injective on 16-byte strings.

use vstd::prelude::*;

use std::collections::{HashMap, HashSet, VecDeque};

use crate::primitives::id::{be_value, key_of, SessionId};

verus! {

broadcast use vstd::std_specs::hash::group_hash_axioms;

/// Why a request was refused by the replay guard.
#[derive(Debug, Clone, Copy, PartialEq, Eq, Structural)]
pub enum ReplayRejection {
    /// `seq` was not strictly greater than the last accepted one.
    NonMonotonicSeq,
    /// `nonce` was seen within the dedupe window.
    DuplicateNonce,
}

/// How many recent nonces are remembered. `seq` monotonicity is the primary
/// control; the nonce window is defense in depth.
pub const NONCE_WINDOW: usize = 4096;

/// The map key of 16 identifier or nonce bytes.
pub open spec fn key16(b: Seq<u8>) -> u128 {
    be_value(b) as u128
}

/// The verdict for a request with session key `k`, sequence number `seq`
/// and nonce key `n`, given the last accepted sequence numbers `last` and
/// the remembered nonces `window`.
pub open spec fn replay_verdict(last: Map<u128, u64>, window: Seq<u128>, k: u128, seq: u64, n: u128) -> Result<(), ReplayRejection> {
    if last.contains_key(k) && seq <= last[k] {
        Err(ReplayRejection::NonMonotonicSeq)
    } else if window.contains(n) {
        Err(ReplayRejection::DuplicateNonce)
    } else {
        Ok(())
    }
}

/// The nonce window after accepting nonce `n`: appended, and the oldest
/// entry evicted once the window would exceed [`NONCE_WINDOW`].
pub open spec fn slide(window: Seq<u128>, n: u128) -> Seq<u128> {
    if window.len() + 1 > NONCE_WINDOW {
        window.push(n).drop_first()
    } else {
        window.push(n)
    }
}

/// Bounded per-session replay state.
#[derive(Debug)]
pub struct ReplayGuard {
    last_seq: HashMap<u128, u64>,
    seen_nonces: HashSet<u128>,
    nonce_order: VecDeque<u128>,
}

impl ReplayGuard {
    /// The highest accepted `seq` of each session, by session key.
    pub closed spec fn last_seqs(&self) -> Map<u128, u64> {
        self.last_seq@
    }

    /// The remembered nonces, oldest first.
    pub closed spec fn window(&self) -> Seq<u128> {
        self.nonce_order@
    }

    /// The remembered nonces are distinct, at most [`NONCE_WINDOW`] of
    /// them, and the lookup set holds exactly them.
    pub closed spec fn wf(&self) -> bool {
        &&& self.seen_nonces@ == self.nonce_order@.to_set()
        &&& self.nonce_order@.no_duplicates()
        &&& self.nonce_order@.len() <= NONCE_WINDOW
    }

    /// A fresh guard with no history.
    pub fn new() -> (r: ReplayGuard)
        ensures
            r.wf(),
            r.last_seqs() == Map::<u128, u64>::empty(),
            r.window() == Seq::<u128>::empty(),
    {
        let r = ReplayGuard {
            last_seq: HashMap::new(),
            seen_nonces: HashSet::new(),
            nonce_order: VecDeque::new(),
        };
        assert(r.nonce_order@.to_set() =~= Set::<u128>::empty());
        r
    }

    /// Checks a request and, when it is fresh, records it.
    ///
    /// A rejected request leaves the state unchanged, so a flood of replays
    /// cannot poison the window.
    pub fn admit_request(&mut self, session: SessionId, seq: u64, nonce: [u8; 16]) -> (r: Result<(), ReplayRejection>)
        requires
            old(self).wf(),
        ensures
            final(self).wf(),
            final(self).window().len() <= NONCE_WINDOW,
            r == replay_verdict(old(self).last_seqs(), old(self).window(), key16(session@), seq, key16(nonce@)),
            r is Err ==> final(self).last_seqs() == old(self).last_seqs() && final(self).window() == old(self).window(),
            r is Ok ==> final(self).last_seqs() == old(self).last_seqs().insert(key16(session@), seq),
            r is Ok ==> final(self).window() == slide(old(self).window(), key16(nonce@)),
    {
        let k = key_of(session.as_bytes());
        let n = key_of(&nonce);
        match self.last_seq.get(&k) {
            Some(last) => {
                if seq <= *last {
                    return Err(ReplayRejection::NonMonotonicSeq);
                }
            },
            None => {},
        }
        if self.seen_nonces.contains(&n) {
            return Err(ReplayRejection::DuplicateNonce);
        }
        proof {
            assert(!self.nonce_order@.contains(n));
        }
        let ghost w = self.nonce_order@;
        self.last_seq.insert(k, seq);
        self.seen_nonces.insert(n);
        self.nonce_order.push_back(n);
        proof {
            let full = w.push(n);
            assert(self.nonce_order@ =~= full);
            assert(full.no_duplicates()) by {
                assert forall|i: int, j: int| 0 <= i < full.len() && 0 <= j < full.len() && i != j implies full[i] != full[j] by {
                    if i == w.len() {
                        assert(w.contains(full[j]));
                    } else if j == w.len() {
                        assert(w.contains(full[i]));
                    }
                }
            }
            assert(self.seen_nonces@ =~= full.to_set()) by {
                assert forall|x: u128| self.seen_nonces@.contains(x) implies full.to_set().contains(x) by {
                    if x == n {
                        assert(full[full.len() - 1] == x);
                    } else {
                        let i = choose|i: int| 0 <= i < w.len() && w[i] == x;
                        assert(full[i] == x);
                    }
                }
                assert forall|x: u128| full.to_set().contains(x) implies self.seen_nonces@.contains(x) by {
                    let i = choose|i: int| 0 <= i < full.len() && full[i] == x;
                    if i < w.len() {
                        assert(w.contains(x));
                    }
                }
            }
        }
        if self.nonce_order.len() > NONCE_WINDOW {
            let evicted = self.nonce_order.pop_front();
            match evicted {
                Some(e) => {
                    self.seen_nonces.remove(&e);
                    proof {
                        let full = w.push(n);
                        let rest = full.drop_first();
                        assert(self.nonce_order@ =~= rest);
                        assert(e == full[0]);
                        assert(rest.no_duplicates());
                        assert(self.seen_nonces@ =~= rest.to_set()) by {
                            assert forall|x: u128| self.seen_nonces@.contains(x) implies rest.to_set().contains(x) by {
                                let i = choose|i: int| 0 <= i < full.len() && full[i] == x;
                                assert(i != 0);
                                assert(rest[i - 1] == x);
                            }
                            assert forall|x: u128| rest.to_set().contains(x) implies self.seen_nonces@.contains(x) by {
                                let i = choose|i: int| 0 <= i < rest.len() && rest[i] == x;
                                assert(full[i + 1] == x);
                                assert(full.to_set().contains(x));
                            }
                        }
                    }
                },
                None => {},
            }
        }
        Ok(())
    }
}

/// Once a request is accepted, the same `seq` (or a lower one) for that
/// session is refused, whatever its nonce.
pub proof fn lemma_accepted_seq_is_not_replayable(
    last: Map<u128, u64>,
    window: Seq<u128>,
    k: u128,
    seq: u64,
    n: u128,
    later_seq: u64,
    later_n: u128,
)
    requires
        replay_verdict(last, window, k, seq, n) is Ok,
        later_seq <= seq,
    ensures
        replay_verdict(last.insert(k, seq), slide(window, n), k, later_seq, later_n) == Err::<(), ReplayRejection>(
            ReplayRejection::NonMonotonicSeq,
        ),
{
}

/// Once a nonce is accepted it is refused again while it is in the window,
/// even with a higher `seq`.
pub proof fn lemma_accepted_nonce_is_not_reusable(
    last: Map<u128, u64>,
    window: Seq<u128>,
    k: u128,
    seq: u64,
    n: u128,
    later_seq: u64,
)
    requires
        replay_verdict(last, window, k, seq, n) is Ok,
        later_seq > seq,
        window.len() < NONCE_WINDOW,
    ensures
        replay_verdict(last.insert(k, seq), slide(window, n), k, later_seq, n) == Err::<(), ReplayRejection>(
            ReplayRejection::DuplicateNonce,
        ),
{
    assert(slide(window, n)[window.len() as int] == n);
}

/// Nonce memory stays bounded: sliding a window of at most
/// [`NONCE_WINDOW`] nonces keeps at most that many, the newest last, and
/// evicts only the oldest.
pub proof fn lemma_window_bounded(window: Seq<u128>, n: u128)
    requires
        window.len() <= NONCE_WINDOW,
    ensures
        slide(window, n).len() <= NONCE_WINDOW,
        slide(window, n).last() == n,
        window.len() < NONCE_WINDOW ==> slide(window, n) == window.push(n),
        window.len() == NONCE_WINDOW ==> slide(window, n) == window.drop_first().push(n),
{
    if window.len() == NONCE_WINDOW {
        assert(window.push(n).drop_first() =~= window.drop_first().push(n));
    }
}

/// Sessions are independent: accepting a request of one session does not
/// change what another session's requests are measured against.
pub proof fn lemma_sessions_independent(
    last: Map<u128, u64>,
    k: u128,
    seq: u64,
    other: u128,
)
    requires
        k != other,
    ensures
        last.insert(k, seq).contains_key(other) == last.contains_key(other),
        last.contains_key(other) ==> last.insert(k, seq)[other] == last[other],
{
}

} // verus!
