//! Blast-rate limiting.
//!
//! The executor is the single mutation point and processes actions
//! serially, so it enforces a host-wide ceiling on how fast actions run.
//! Three independent sliding windows are checked, each fail-closed:
//! total actions per minute, mutating actions per minute, critical actions
//! per hour. An action is admitted only if every applicable window has
//! room; only then is it recorded in each. A limit of `0` admits nothing.
//!
//! Time is a reading of a monotonic clock in milliseconds, supplied by the
//! caller.

use vstd::prelude::*;

use std::collections::VecDeque;

verus! {

/// One minute, in milliseconds.
pub const MINUTE_MS: u64 = 60_000;

/// One hour, in milliseconds.
pub const HOUR_MS: u64 = 3_600_000;

/// Configured blast-rate ceilings.
#[derive(Debug, Clone, Copy, PartialEq, Eq, Structural)]
pub struct RateLimits {
    /// Max actions of any kind per minute.
    pub actions_per_minute: u32,
    /// Max mutating actions per minute.
    pub mutating_actions_per_minute: u32,
    /// Max critical-risk actions per hour.
    pub critical_actions_per_hour: u32,
}

impl Default for RateLimits {
    fn default() -> (r: RateLimits)
        ensures
            r.actions_per_minute == 20,
            r.mutating_actions_per_minute == 5,
            r.critical_actions_per_hour == 2,
    {
        RateLimits { actions_per_minute: 20, mutating_actions_per_minute: 5, critical_actions_per_hour: 2 }
    }
}

/// Classification of the action being admitted; selects which ceilings apply.
#[derive(Debug, Clone, Copy, PartialEq, Eq, Structural)]
pub struct ActionClass {
    /// The bundle is not `read_only`.
    pub mutating: bool,
    /// The bundle's declared risk is `critical`.
    pub critical: bool,
}

/// Which ceiling shed the action.
#[derive(Debug, Clone, Copy, PartialEq, Eq, Structural)]
pub enum RateRejection {
    /// The total actions-per-minute ceiling was hit.
    TotalPerMinute,
    /// The mutating actions-per-minute ceiling was hit.
    MutatingPerMinute,
    /// The critical actions-per-hour ceiling was hit.
    CriticalPerHour,
}

/// Whether an admission at `at` has aged out of a window of `horizon` at `now`.
pub open spec fn expired(at: u64, now: u64, horizon: u64) -> bool {
    (if now >= at { now - at } else { 0 }) >= horizon
}

/// `hits` with its aged-out prefix dropped.
pub open spec fn pruned(hits: Seq<u64>, now: u64, horizon: u64) -> Seq<u64>
    decreases hits.len(),
{
    if hits.len() > 0 && expired(hits[0], now, horizon) {
        pruned(hits.drop_first(), now, horizon)
    } else {
        hits
    }
}

/// Pruning only ever removes a prefix.
pub proof fn lemma_pruned_suffix(hits: Seq<u64>, now: u64, horizon: u64)
    ensures
        pruned(hits, now, horizon).len() <= hits.len(),
        pruned(hits, now, horizon) == hits.skip(hits.len() - pruned(hits, now, horizon).len()),
    decreases hits.len(),
{
    if hits.len() > 0 && expired(hits[0], now, horizon) {
        lemma_pruned_suffix(hits.drop_first(), now, horizon);
        let p = pruned(hits.drop_first(), now, horizon);
        assert(hits.drop_first().skip(hits.drop_first().len() - p.len()) =~= hits.skip(
            hits.len() - p.len(),
        ));
    } else {
        assert(hits.skip(0) =~= hits);
    }
}

/// A single sliding-window counter: at most `max` admissions within `horizon`.
#[derive(Debug)]
struct Window {
    horizon: u64,
    max: usize,
    hits: VecDeque<u64>,
}

impl Window {
    spec fn inv(&self) -> bool {
        self.hits@.len() <= self.max
    }

    fn new(horizon: u64, max: u32) -> (r: Window)
        ensures
            r.horizon == horizon,
            r.max == max as usize,
            r.hits@ == Seq::<u64>::empty(),
            r.inv(),
    {
        Window { horizon, max: max as usize, hits: VecDeque::new() }
    }

    /// Drop admissions that have aged out of the window relative to `now`.
    fn prune(&mut self, now: u64)
        ensures
            final(self).horizon == old(self).horizon,
            final(self).max == old(self).max,
            final(self).hits@ == pruned(old(self).hits@, now, old(self).horizon),
    {
        while self.hits.len() > 0 && now.saturating_sub(self.hits[0]) >= self.horizon
            invariant
                self.horizon == old(self).horizon,
                self.max == old(self).max,
                pruned(old(self).hits@, now, self.horizon) == pruned(self.hits@, now, self.horizon),
            decreases self.hits@.len(),
        {
            let ghost before = self.hits@;
            let _ = self.hits.pop_front();
            assert(self.hits@ =~= before.drop_first());
        }
    }

    /// True if admitting now would exceed `max` (prunes first). `max == 0`
    /// always reports full.
    fn is_full(&mut self, now: u64) -> (r: bool)
        ensures
            final(self).horizon == old(self).horizon,
            final(self).max == old(self).max,
            final(self).hits@ == pruned(old(self).hits@, now, old(self).horizon),
            r == (pruned(old(self).hits@, now, old(self).horizon).len() >= old(self).max),
    {
        self.prune(now);
        self.hits.len() >= self.max
    }

    fn record(&mut self, now: u64)
        ensures
            final(self).horizon == old(self).horizon,
            final(self).max == old(self).max,
            final(self).hits@ == old(self).hits@.push(now),
    {
        self.hits.push_back(now);
    }
}

/// The host-wide blast-rate limiter.
#[derive(Debug)]
pub struct RateLimiter {
    total: Window,
    mutating: Window,
    critical: Window,
}

/// The verdict `try_admit` reaches for live window sizes `t`, `m`, `c`
/// (after pruning) against ceilings `tm`, `mm`, `cm`.
pub open spec fn verdict(t: nat, m: nat, c: nat, tm: nat, mm: nat, cm: nat, class: ActionClass) -> Result<(), RateRejection> {
    if t >= tm {
        Err(RateRejection::TotalPerMinute)
    } else if class.mutating && m >= mm {
        Err(RateRejection::MutatingPerMinute)
    } else if class.critical && c >= cm {
        Err(RateRejection::CriticalPerHour)
    } else {
        Ok(())
    }
}

impl RateLimiter {
    /// Admissions currently recorded in the total window (oldest first).
    pub closed spec fn total_hits(self) -> Seq<u64> {
        self.total.hits@
    }

    /// Admissions currently recorded in the mutating window.
    pub closed spec fn mutating_hits(self) -> Seq<u64> {
        self.mutating.hits@
    }

    /// Admissions currently recorded in the critical window.
    pub closed spec fn critical_hits(self) -> Seq<u64> {
        self.critical.hits@
    }

    /// The ceilings (total per minute, mutating per minute, critical per hour).
    pub closed spec fn ceilings(self) -> (nat, nat, nat) {
        (self.total.max as nat, self.mutating.max as nat, self.critical.max as nat)
    }

    /// Every window holds at most as many admissions as its ceiling.
    pub closed spec fn within_ceilings(self) -> bool {
        self.total.inv() && self.mutating.inv() && self.critical.inv() && self.total.horizon
            == MINUTE_MS && self.mutating.horizon == MINUTE_MS && self.critical.horizon == HOUR_MS
    }

    /// Build a limiter from configured ceilings.
    pub fn new(limits: RateLimits) -> (r: RateLimiter)
        ensures
            r.within_ceilings(),
            r.ceilings() == (
                limits.actions_per_minute as nat,
                limits.mutating_actions_per_minute as nat,
                limits.critical_actions_per_hour as nat,
            ),
            r.total_hits().len() == 0,
            r.mutating_hits().len() == 0,
            r.critical_hits().len() == 0,
    {
        RateLimiter {
            total: Window::new(MINUTE_MS, limits.actions_per_minute),
            mutating: Window::new(MINUTE_MS, limits.mutating_actions_per_minute),
            critical: Window::new(HOUR_MS, limits.critical_actions_per_hour),
        }
    }

    /// Try to admit one action at time `now`. Every applicable window is
    /// checked before any is recorded in, so a rejection consumes no
    /// budget. The first exceeded ceiling (total → mutating → critical) is
    /// reported.
    pub fn try_admit(&mut self, now: u64, class: ActionClass) -> (r: Result<(), RateRejection>)
        requires
            old(self).within_ceilings(),
        ensures
            final(self).within_ceilings(),
            final(self).ceilings() == old(self).ceilings(),
            r == verdict(
                pruned(old(self).total_hits(), now, MINUTE_MS).len(),
                pruned(old(self).mutating_hits(), now, MINUTE_MS).len(),
                pruned(old(self).critical_hits(), now, HOUR_MS).len(),
                old(self).ceilings().0,
                old(self).ceilings().1,
                old(self).ceilings().2,
                class,
            ),
            r == Err::<(), RateRejection>(RateRejection::TotalPerMinute) ==> pruned(old(self).total_hits(), now, MINUTE_MS).len()
                >= old(self).ceilings().0,
            r == Err::<(), RateRejection>(RateRejection::MutatingPerMinute) ==> class.mutating && pruned(
                old(self).mutating_hits(),
                now,
                MINUTE_MS,
            ).len() >= old(self).ceilings().1,
            r == Err::<(), RateRejection>(RateRejection::CriticalPerHour) ==> class.critical && pruned(
                old(self).critical_hits(),
                now,
                HOUR_MS,
            ).len() >= old(self).ceilings().2,
            (pruned(old(self).total_hits(), now, MINUTE_MS).len() < old(self).ceilings().0 && (class.mutating
                ==> pruned(old(self).mutating_hits(), now, MINUTE_MS).len() < old(self).ceilings().1) && (
            class.critical ==> pruned(old(self).critical_hits(), now, HOUR_MS).len() < old(self).ceilings().2))
                ==> r is Ok,
            final(self).total_hits() == if r is Ok {
                pruned(old(self).total_hits(), now, MINUTE_MS).push(now)
            } else {
                pruned(old(self).total_hits(), now, MINUTE_MS)
            },
            r is Err ==> final(self).mutating_hits() == if pruned(old(self).total_hits(), now, MINUTE_MS).len()
                < old(self).ceilings().0 && class.mutating {
                pruned(old(self).mutating_hits(), now, MINUTE_MS)
            } else {
                old(self).mutating_hits()
            },
            r is Err ==> final(self).critical_hits() == if pruned(old(self).total_hits(), now, MINUTE_MS).len()
                < old(self).ceilings().0 && !(class.mutating && pruned(old(self).mutating_hits(), now, MINUTE_MS).len()
                >= old(self).ceilings().1) && class.critical {
                pruned(old(self).critical_hits(), now, HOUR_MS)
            } else {
                old(self).critical_hits()
            },
            r is Ok ==> final(self).mutating_hits() == if class.mutating {
                pruned(old(self).mutating_hits(), now, MINUTE_MS).push(now)
            } else {
                old(self).mutating_hits()
            },
            r is Ok ==> final(self).critical_hits() == if class.critical {
                pruned(old(self).critical_hits(), now, HOUR_MS).push(now)
            } else {
                old(self).critical_hits()
            },
    {
        proof {
            lemma_ceilings_apply_to_their_class(
                pruned(self.total.hits@, now, MINUTE_MS).len(),
                pruned(self.mutating.hits@, now, MINUTE_MS).len(),
                pruned(self.critical.hits@, now, HOUR_MS).len(),
                self.total.max as nat,
                self.mutating.max as nat,
                self.critical.max as nat,
                class,
            );
            lemma_pruned_suffix(self.total.hits@, now, MINUTE_MS);
            lemma_pruned_suffix(self.mutating.hits@, now, MINUTE_MS);
            lemma_pruned_suffix(self.critical.hits@, now, HOUR_MS);
        }
        if self.total.is_full(now) {
            return Err(RateRejection::TotalPerMinute);
        }
        if class.mutating && self.mutating.is_full(now) {
            return Err(RateRejection::MutatingPerMinute);
        }
        if class.critical && self.critical.is_full(now) {
            return Err(RateRejection::CriticalPerHour);
        }
        self.total.record(now);
        if class.mutating {
            self.mutating.record(now);
        }
        if class.critical {
            self.critical.record(now);
        }
        Ok(())
    }
}

/// Pruning drops entries and adds none.
proof fn lemma_pruned_adds_nothing(hits: Seq<u64>, now: u64, horizon: u64, x: u64)
    ensures
        pruned(hits, now, horizon).len() <= hits.len(),
        pruned(hits, now, horizon).contains(x) ==> hits.contains(x),
{
    lemma_pruned_suffix(hits, now, horizon);
    let p = pruned(hits, now, horizon);
    if p.contains(x) {
        let k = choose|k: int| 0 <= k < p.len() && p[k] == x;
        assert(hits[hits.len() - p.len() + k] == x);
    }
}

/// A rejected action consumes no budget: no window gains an admission.
/// After a refusal each window holds its entries as before, less those
/// that aged out (see [`RateLimiter::try_admit`]).
pub proof fn lemma_rejection_consumes_nothing(before: RateLimiter, after: RateLimiter, now: u64)
    requires
        after.total_hits() == pruned(before.total_hits(), now, MINUTE_MS),
        after.mutating_hits() == before.mutating_hits() || after.mutating_hits() == pruned(
            before.mutating_hits(),
            now,
            MINUTE_MS,
        ),
        after.critical_hits() == before.critical_hits() || after.critical_hits() == pruned(
            before.critical_hits(),
            now,
            HOUR_MS,
        ),
    ensures
        after.total_hits().len() <= before.total_hits().len(),
        after.mutating_hits().len() <= before.mutating_hits().len(),
        after.critical_hits().len() <= before.critical_hits().len(),
        !after.total_hits().contains(now) || before.total_hits().contains(now),
        !after.mutating_hits().contains(now) || before.mutating_hits().contains(now),
        !after.critical_hits().contains(now) || before.critical_hits().contains(now),
{
    lemma_pruned_adds_nothing(before.total_hits(), now, MINUTE_MS, now);
    lemma_pruned_adds_nothing(before.mutating_hits(), now, MINUTE_MS, now);
    lemma_pruned_adds_nothing(before.critical_hits(), now, HOUR_MS, now);
}

/// Each ceiling sheds only the actions it applies to, and only when its
/// window is full: a refusal for the mutating ceiling is of a mutating
/// action, one for the critical ceiling of a critical action, each with its
/// window at or over the ceiling; and an action whose every applicable
/// window has room is admitted.
pub proof fn lemma_ceilings_apply_to_their_class(t: nat, m: nat, c: nat, tm: nat, mm: nat, cm: nat, class: ActionClass)
    ensures
        verdict(t, m, c, tm, mm, cm, class) == Err::<(), RateRejection>(RateRejection::TotalPerMinute) ==> t >= tm,
        verdict(t, m, c, tm, mm, cm, class) == Err::<(), RateRejection>(RateRejection::MutatingPerMinute)
            ==> class.mutating && m >= mm,
        verdict(t, m, c, tm, mm, cm, class) == Err::<(), RateRejection>(RateRejection::CriticalPerHour)
            ==> class.critical && c >= cm,
        t < tm && (class.mutating ==> m < mm) && (class.critical ==> c < cm) ==> verdict(
            t,
            m,
            c,
            tm,
            mm,
            cm,
            class,
        ) is Ok,
{
}

/// A ceiling of zero is fail-closed: nothing is ever admitted.
pub proof fn lemma_zero_ceiling_admits_nothing(t: nat, m: nat, c: nat, mm: nat, cm: nat, class: ActionClass)
    ensures
        verdict(t, m, c, 0, mm, cm, class) == Err::<(), RateRejection>(RateRejection::TotalPerMinute),
{
}

/// Admission times in order of the calls, each no later than the next.
pub open spec fn nondecreasing(h: Seq<u64>) -> bool {
    forall|i: int, j: int| 0 <= i <= j < h.len() ==> h[i] <= h[j]
}

/// Whether an admission at `x` counts in a window of `horizon` at `t`: it
/// happened no later than `t` and has not aged out.
pub open spec fn recent(x: u64, t: u64, horizon: u64) -> bool {
    x <= t && !expired(x, t, horizon)
}

/// How many of the admissions `h` fall in the window of `horizon` ending at
/// `t`: those at `x` with `t - horizon < x <= t`.
pub open spec fn count_recent(h: Seq<u64>, t: u64, horizon: u64) -> nat
    decreases h.len(),
{
    if h.len() == 0 {
        0
    } else {
        (if recent(h[0], t, horizon) {
            1nat
        } else {
            0nat
        }) + count_recent(h.drop_first(), t, horizon)
    }
}

/// A window `w` of `horizon` faithfully tracks the admissions `h` recorded
/// into it as of time `tp`: `h` is in call order and no later than `tp`,
/// `w` is a suffix of `h`, and everything before that suffix had aged out
/// by `tp`.
pub open spec fn tracks(w: Seq<u64>, h: Seq<u64>, horizon: u64, tp: u64) -> bool {
    &&& nondecreasing(h)
    &&& forall|i: int| 0 <= i < h.len() ==> #[trigger] h[i] <= tp
    &&& w.len() <= h.len()
    &&& w == h.skip(h.len() - w.len())
    &&& forall|i: int| 0 <= i < h.len() - w.len() ==> expired(#[trigger] h[i], tp, horizon)
}

proof fn lemma_count_concat(a: Seq<u64>, b: Seq<u64>, t: u64, horizon: u64)
    ensures
        count_recent(a + b, t, horizon) == count_recent(a, t, horizon) + count_recent(b, t, horizon),
    decreases a.len(),
{
    if a.len() == 0 {
        assert(a + b =~= b);
    } else {
        assert((a + b).drop_first() =~= a.drop_first() + b);
        assert((a + b)[0] == a[0]);
        lemma_count_concat(a.drop_first(), b, t, horizon);
    }
}

proof fn lemma_count_none(a: Seq<u64>, t: u64, horizon: u64)
    requires
        forall|i: int| 0 <= i < a.len() ==> !recent(#[trigger] a[i], t, horizon),
    ensures
        count_recent(a, t, horizon) == 0,
    decreases a.len(),
{
    if a.len() > 0 {
        assert(!recent(a[0], t, horizon));
        assert forall|i: int| 0 <= i < a.drop_first().len() implies !recent(#[trigger] a.drop_first()[i], t, horizon) by {
            assert(a.drop_first()[i] == a[i + 1]);
        }
        lemma_count_none(a.drop_first(), t, horizon);
    }
}

proof fn lemma_count_all(a: Seq<u64>, t: u64, horizon: u64)
    requires
        forall|i: int| 0 <= i < a.len() ==> recent(#[trigger] a[i], t, horizon),
    ensures
        count_recent(a, t, horizon) == a.len(),
    decreases a.len(),
{
    if a.len() > 0 {
        assert(recent(a[0], t, horizon));
        assert forall|i: int| 0 <= i < a.drop_first().len() implies recent(#[trigger] a.drop_first()[i], t, horizon) by {
            assert(a.drop_first()[i] == a[i + 1]);
        }
        lemma_count_all(a.drop_first(), t, horizon);
    }
}

/// Pruning a window in call order, all of it no later than `t`, keeps
/// exactly the admissions still in the window at `t` and drops only
/// aged-out ones.
proof fn lemma_pruned_is_recent(w: Seq<u64>, t: u64, horizon: u64)
    requires
        nondecreasing(w),
        forall|i: int| 0 <= i < w.len() ==> #[trigger] w[i] <= t,
    ensures
        count_recent(w, t, horizon) == pruned(w, t, horizon).len(),
        forall|i: int| 0 <= i < w.len() - pruned(w, t, horizon).len() ==> expired(#[trigger] w[i], t, horizon),
    decreases w.len(),
{
    lemma_pruned_suffix(w, t, horizon);
    if w.len() > 0 && expired(w[0], t, horizon) {
        let rest = w.drop_first();
        assert forall|i: int| 0 <= i < rest.len() implies #[trigger] rest[i] <= t by {
            assert(rest[i] == w[i + 1]);
        }
        assert forall|i: int, j: int| 0 <= i <= j < rest.len() implies rest[i] <= rest[j] by {
            assert(rest[i] == w[i + 1] && rest[j] == w[j + 1]);
        }
        lemma_pruned_is_recent(rest, t, horizon);
        assert forall|i: int| 0 <= i < w.len() - pruned(w, t, horizon).len() implies expired(#[trigger] w[i], t, horizon) by {
            if i > 0 {
                assert(w[i] == rest[i - 1]);
            }
        }
    } else if w.len() > 0 {
        assert forall|i: int| 0 <= i < w.len() implies recent(#[trigger] w[i], t, horizon) by {
            assert(w[0] <= w[i]);
        }
        lemma_count_all(w, t, horizon);
    }
}

/// A fresh limiter (as [`RateLimiter::new`] makes one) tracks empty
/// histories in all three windows, at any starting time.
pub proof fn lemma_rate_law_start(rl: RateLimiter, t: u64)
    requires
        rl.total_hits().len() == 0,
        rl.mutating_hits().len() == 0,
        rl.critical_hits().len() == 0,
    ensures
        tracks(rl.total_hits(), Seq::empty(), MINUTE_MS, t),
        tracks(rl.mutating_hits(), Seq::empty(), MINUTE_MS, t),
        tracks(rl.critical_hits(), Seq::empty(), HOUR_MS, t),
{
    lemma_tracks_start(MINUTE_MS, t);
    lemma_tracks_start(HOUR_MS, t);
    assert(rl.total_hits() =~= Seq::<u64>::empty());
    assert(rl.mutating_hits() =~= Seq::<u64>::empty());
    assert(rl.critical_hits() =~= Seq::<u64>::empty());
}

/// A fresh window tracks an empty history.
pub proof fn lemma_tracks_start(horizon: u64, t: u64)
    ensures
        tracks(Seq::empty(), Seq::empty(), horizon, t),
{
    assert(Seq::<u64>::empty().skip(0) =~= Seq::<u64>::empty());
}

/// Time passing keeps a window tracking its history.
pub proof fn lemma_tracks_later(w: Seq<u64>, h: Seq<u64>, horizon: u64, tp: u64, t: u64)
    requires
        tracks(w, h, horizon, tp),
        tp <= t,
    ensures
        tracks(w, h, horizon, t),
{
    assert forall|i: int| 0 <= i < h.len() - w.len() implies expired(#[trigger] h[i], t, horizon) by {
        assert(expired(h[i], tp, horizon));
        assert(h[i] <= tp);
    }
}

/// Pruning at `t` keeps a window tracking its history, and the pruned
/// window holds exactly as many admissions as the history has in the
/// window ending at `t`.
pub proof fn lemma_tracks_pruned(w: Seq<u64>, h: Seq<u64>, horizon: u64, tp: u64, t: u64)
    requires
        tracks(w, h, horizon, tp),
        tp <= t,
    ensures
        tracks(pruned(w, t, horizon), h, horizon, t),
        pruned(w, t, horizon).len() == count_recent(h, t, horizon),
{
    lemma_tracks_later(w, h, horizon, tp, t);
    let k = h.len() - w.len();
    assert(h =~= h.take(k) + w);
    assert forall|i: int| 0 <= i < w.len() implies #[trigger] w[i] <= t by {
        assert(w[i] == h[k + i]);
    }
    assert forall|i: int, j: int| 0 <= i <= j < w.len() implies w[i] <= w[j] by {
        assert(w[i] == h[k + i] && w[j] == h[k + j]);
    }
    lemma_pruned_is_recent(w, t, horizon);
    lemma_pruned_suffix(w, t, horizon);
    lemma_count_concat(h.take(k), w, t, horizon);
    assert forall|i: int| 0 <= i < h.take(k).len() implies !recent(#[trigger] h.take(k)[i], t, horizon) by {
        assert(h.take(k)[i] == h[i]);
    }
    lemma_count_none(h.take(k), t, horizon);
    let p = pruned(w, t, horizon);
    assert(p =~= h.skip(h.len() - p.len()));
    assert forall|i: int| 0 <= i < h.len() - p.len() implies expired(#[trigger] h[i], t, horizon) by {
        if i >= k {
            assert(h[i] == w[i - k]);
        }
    }
}

/// Recording an admission at `t` into a window pruned at `t` keeps it
/// tracking the history with `t` appended.
pub proof fn lemma_tracks_record(w: Seq<u64>, h: Seq<u64>, horizon: u64, t: u64)
    requires
        tracks(w, h, horizon, t),
    ensures
        tracks(w.push(t), h.push(t), horizon, t),
{
    let h2 = h.push(t);
    assert forall|i: int, j: int| 0 <= i <= j < h2.len() implies h2[i] <= h2[j] by {
        if j < h.len() {
            assert(h2[i] == h[i] && h2[j] == h[j]);
        } else if i < h.len() {
            assert(h2[i] == h[i]);
        }
    }
    assert forall|i: int| 0 <= i < h2.len() implies #[trigger] h2[i] <= t by {
        if i < h.len() {
            assert(h2[i] == h[i]);
        }
    }
    assert(w.push(t) =~= h2.skip(h2.len() - w.push(t).len()));
    assert forall|i: int| 0 <= i < h2.len() - w.push(t).len() implies expired(#[trigger] h2[i], t, horizon) by {
        assert(h2[i] == h[i]);
    }
}

/// The sliding-window law. When a window of `horizon` and ceiling `max`
/// tracks its admissions `h` and admits at `t` (its pruned size is below
/// `max`, as [`RateLimiter::try_admit`] requires of every window it
/// records in), the admissions in the window ending at `t`, this one
/// included, are at most `max`; and the window goes on tracking.
pub proof fn lemma_window_law(w: Seq<u64>, h: Seq<u64>, horizon: u64, tp: u64, t: u64, max: nat)
    requires
        tracks(w, h, horizon, tp),
        tp <= t,
        pruned(w, t, horizon).len() < max,
    ensures
        count_recent(h.push(t), t, horizon) <= max,
        tracks(pruned(w, t, horizon).push(t), h.push(t), horizon, t),
{
    lemma_tracks_pruned(w, h, horizon, tp, t);
    lemma_tracks_record(pruned(w, t, horizon), h, horizon, t);
    lemma_count_concat(h, seq![t], t, horizon);
    assert(h + seq![t] =~= h.push(t));
    assert(count_recent(seq![t], t, horizon) <= 1) by {
        assert(seq![t].drop_first() =~= Seq::<u64>::empty());
        reveal_with_fuel(count_recent, 2);
    }
}

/// At any later instant the window ending there holds no more of the
/// admissions `h` than the window ending at the last admission did.
pub proof fn lemma_count_later(h: Seq<u64>, t: u64, later: u64, horizon: u64)
    requires
        forall|i: int| 0 <= i < h.len() ==> #[trigger] h[i] <= t,
        t <= later,
    ensures
        count_recent(h, later, horizon) <= count_recent(h, t, horizon),
    decreases h.len(),
{
    if h.len() > 0 {
        assert forall|i: int| 0 <= i < h.drop_first().len() implies #[trigger] h.drop_first()[i] <= t by {
            assert(h.drop_first()[i] == h[i + 1]);
        }
        lemma_count_later(h.drop_first(), t, later, horizon);
        assert(h[0] <= t);
    }
}

/// A window after one call: untouched, pruned, or pruned and extended
/// with `t` when it records (`recorded`), each case tracking.
proof fn lemma_window_step(w: Seq<u64>, h: Seq<u64>, horizon: u64, tp: u64, t: u64, after: Seq<u64>, checked: bool, recorded: bool) -> (h2: Seq<u64>)
    requires
        tracks(w, h, horizon, tp),
        tp <= t,
        recorded ==> after == pruned(w, t, horizon).push(t),
        !recorded && checked ==> after == pruned(w, t, horizon),
        !recorded && !checked ==> after == w,
    ensures
        tracks(after, h2, horizon, t),
        h2 == if recorded { h.push(t) } else { h },
{
    if recorded {
        lemma_tracks_pruned(w, h, horizon, tp, t);
        lemma_tracks_record(pruned(w, t, horizon), h, horizon, t);
        h.push(t)
    } else if checked {
        lemma_tracks_pruned(w, h, horizon, tp, t);
        h
    } else {
        lemma_tracks_later(w, h, horizon, tp, t);
        h
    }
}

/// The blast-rate law over a sequence of calls, one call at a time. Let
/// `ht`, `hm`, `hc` be the admissions recorded so far into the total,
/// mutating and critical windows of `before` (all calls at or before `tp`),
/// which the windows track, and let `after` be the limiter after
/// `try_admit(now, class)` returned `r` (its contract, restated here). Then
/// the windows track the histories extended by this admission, and an
/// admitted call leaves at most the ceiling of admissions in each window
/// it counts in, ending at `now`: `actions_per_minute` in the last minute,
/// `mutating_actions_per_minute` of the mutating ones, and
/// `critical_actions_per_hour` of the critical ones in the last hour.
/// With [`lemma_count_later`] the same bound holds at every later instant.
pub proof fn lemma_rate_law(
    before: RateLimiter,
    after: RateLimiter,
    now: u64,
    class: ActionClass,
    r: Result<(), RateRejection>,
    ht: Seq<u64>,
    hm: Seq<u64>,
    hc: Seq<u64>,
    tp: u64,
) -> (hs: (Seq<u64>, Seq<u64>, Seq<u64>))
    requires
        tracks(before.total_hits(), ht, MINUTE_MS, tp),
        tracks(before.mutating_hits(), hm, MINUTE_MS, tp),
        tracks(before.critical_hits(), hc, HOUR_MS, tp),
        tp <= now,
        r == verdict(
            pruned(before.total_hits(), now, MINUTE_MS).len(),
            pruned(before.mutating_hits(), now, MINUTE_MS).len(),
            pruned(before.critical_hits(), now, HOUR_MS).len(),
            before.ceilings().0,
            before.ceilings().1,
            before.ceilings().2,
            class,
        ),
        after.ceilings() == before.ceilings(),
        after.total_hits() == if r is Ok {
            pruned(before.total_hits(), now, MINUTE_MS).push(now)
        } else {
            pruned(before.total_hits(), now, MINUTE_MS)
        },
        r is Err ==> after.mutating_hits() == if pruned(before.total_hits(), now, MINUTE_MS).len()
            < before.ceilings().0 && class.mutating {
            pruned(before.mutating_hits(), now, MINUTE_MS)
        } else {
            before.mutating_hits()
        },
        r is Err ==> after.critical_hits() == if pruned(before.total_hits(), now, MINUTE_MS).len()
            < before.ceilings().0 && !(class.mutating && pruned(before.mutating_hits(), now, MINUTE_MS).len()
            >= before.ceilings().1) && class.critical {
            pruned(before.critical_hits(), now, HOUR_MS)
        } else {
            before.critical_hits()
        },
        r is Ok ==> after.mutating_hits() == if class.mutating {
            pruned(before.mutating_hits(), now, MINUTE_MS).push(now)
        } else {
            before.mutating_hits()
        },
        r is Ok ==> after.critical_hits() == if class.critical {
            pruned(before.critical_hits(), now, HOUR_MS).push(now)
        } else {
            before.critical_hits()
        },
    ensures
        tracks(after.total_hits(), hs.0, MINUTE_MS, now),
        tracks(after.mutating_hits(), hs.1, MINUTE_MS, now),
        tracks(after.critical_hits(), hs.2, HOUR_MS, now),
        hs.0 == if r is Ok { ht.push(now) } else { ht },
        hs.1 == if r is Ok && class.mutating { hm.push(now) } else { hm },
        hs.2 == if r is Ok && class.critical { hc.push(now) } else { hc },
        r is Ok ==> count_recent(hs.0, now, MINUTE_MS) <= after.ceilings().0,
        r is Ok && class.mutating ==> count_recent(hs.1, now, MINUTE_MS) <= after.ceilings().1,
        r is Ok && class.critical ==> count_recent(hs.2, now, HOUR_MS) <= after.ceilings().2,
{
    let pt = pruned(before.total_hits(), now, MINUTE_MS);
    let pm = pruned(before.mutating_hits(), now, MINUTE_MS);
    let t_ok = pt.len() < before.ceilings().0;
    let m_checked = if r is Ok { class.mutating } else { t_ok && class.mutating };
    let c_checked = if r is Ok {
        class.critical
    } else {
        t_ok && !(class.mutating && pm.len() >= before.ceilings().1) && class.critical
    };
    let t2 = lemma_window_step(before.total_hits(), ht, MINUTE_MS, tp, now, after.total_hits(), true, r is Ok);
    let m2 = lemma_window_step(
        before.mutating_hits(),
        hm,
        MINUTE_MS,
        tp,
        now,
        after.mutating_hits(),
        m_checked,
        r is Ok && class.mutating,
    );
    let c2 = lemma_window_step(
        before.critical_hits(),
        hc,
        HOUR_MS,
        tp,
        now,
        after.critical_hits(),
        c_checked,
        r is Ok && class.critical,
    );
    if r is Ok {
        lemma_window_law(before.total_hits(), ht, MINUTE_MS, tp, now, before.ceilings().0);
        if class.mutating {
            lemma_window_law(before.mutating_hits(), hm, MINUTE_MS, tp, now, before.ceilings().1);
        }
        if class.critical {
            lemma_window_law(before.critical_hits(), hc, HOUR_MS, tp, now, before.ceilings().2);
        }
    }
    (t2, m2, c2)
}

} // verus!
