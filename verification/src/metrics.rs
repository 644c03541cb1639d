//! Lock contention metrics.
//!
//! Each named lock has counters of attempts, contended attempts, the total
//! and the largest wait; a registry keeps the counters of every named lock.
//! Timing a lock and logging the report are done by the caller.

use vstd::prelude::*;

use std::time::Duration;

use crate::dsd::duration_value;

use crate::text::str_eq;

verus! {

/// Counters of one lock's acquisitions.
#[derive(Debug, Clone, Copy, PartialEq, Eq, Structural)]
pub struct LockMetrics {
    total_attempts: u64,
    contentions: u64,
    max_wait_ns: u64,
    total_wait_ns: u64,
}

/// The values of a lock's counters.
#[derive(Debug, Clone, Copy, PartialEq, Eq, Structural)]
pub struct LockCounters {
    /// Total number of lock attempts
    pub total_attempts: u64,
    /// Number of contended attempts
    pub contentions: u64,
    /// Maximum wait time in nanoseconds
    pub max_wait_ns: u64,
    /// Total wait time in nanoseconds
    pub total_wait_ns: u64,
}

/// A snapshot of a lock's counters.
#[derive(Debug, Clone, Copy, PartialEq, Eq, Structural)]
pub struct LockSnapshot {
    /// Total number of lock attempts
    pub total_attempts: u64,
    /// Number of contended attempts
    pub contentions: u64,
    /// Maximum wait time in nanoseconds
    pub max_wait_ns: u64,
    /// Average wait time in nanoseconds (0 when nothing was recorded)
    pub avg_wait_ns: u64,
}

impl LockSnapshot {
    /// Whether more than 5% of the attempts were contended.
    pub fn is_significant_contention(&self) -> (r: bool)
        ensures
            r == (20 * self.contentions > self.total_attempts),
    {
        (self.contentions as u128) * 20 > self.total_attempts as u128
    }

    /// Whether the largest wait exceeds one audio frame of `frame_size`
    /// samples at `sample_rate` (the frame's length in whole nanoseconds).
    pub fn exceeds_frame_duration(&self, sample_rate: u32, frame_size: usize) -> (r: bool)
        requires
            sample_rate > 0,
            frame_size * 1_000_000_000 <= u64::MAX,
        ensures
            r == (self.max_wait_ns > (frame_size * 1_000_000_000) / (sample_rate as int)),
    {
        let frame_duration_ns = ((frame_size as u64) * 1_000_000_000) / (sample_rate as u64);
        self.max_wait_ns > frame_duration_ns
    }

    /// Whether the largest wait exceeds 10 ms.
    pub fn high_p99_latency(&self) -> (r: bool)
        ensures
            r == (self.max_wait_ns > 10_000_000),
    {
        self.max_wait_ns > 10_000_000
    }
}

/// Counters with nothing recorded.
pub open spec fn zero_metrics() -> LockCounters {
    LockCounters { total_attempts: 0, contentions: 0, max_wait_ns: 0, total_wait_ns: 0 }
}

/// The counters after one more attempt (counts wrap around on overflow).
pub open spec fn after_attempt(m: LockCounters, was_contended: bool, wait_ns: u64) -> LockCounters {
    LockCounters {
        total_attempts: m.total_attempts.wrapping_add(1),
        contentions: if was_contended {
            m.contentions.wrapping_add(1)
        } else {
            m.contentions
        },
        max_wait_ns: if wait_ns > m.max_wait_ns {
            wait_ns
        } else {
            m.max_wait_ns
        },
        total_wait_ns: m.total_wait_ns.wrapping_add(wait_ns),
    }
}

/// The counters after a sequence of attempts, starting from nothing.
pub open spec fn after_attempts(attempts: Seq<(bool, u64)>) -> LockCounters
    decreases attempts.len(),
{
    if attempts.len() == 0 {
        zero_metrics()
    } else {
        let last = attempts.last();
        after_attempt(after_attempts(attempts.drop_last()), last.0, last.1)
    }
}

/// The snapshot of a set of counters.
pub open spec fn snapshot_of(m: LockCounters) -> LockSnapshot {
    LockSnapshot {
        total_attempts: m.total_attempts,
        contentions: m.contentions,
        max_wait_ns: m.max_wait_ns,
        avg_wait_ns: if m.total_attempts > 0 {
            m.total_wait_ns / m.total_attempts
        } else {
            0
        },
    }
}

impl LockMetrics {
    /// The counters' values.
    pub closed spec fn view(&self) -> LockCounters {
        LockCounters {
            total_attempts: self.total_attempts,
            contentions: self.contentions,
            max_wait_ns: self.max_wait_ns,
            total_wait_ns: self.total_wait_ns,
        }
    }

    /// Create new lock metrics with nothing recorded.
    pub fn new() -> (r: Self)
        ensures
            r@ == zero_metrics(),
    {
        LockMetrics { total_attempts: 0, contentions: 0, max_wait_ns: 0, total_wait_ns: 0 }
    }

    /// Record a lock attempt: whether it was contended and how long it waited.
    pub fn record_attempt(&mut self, was_contended: bool, wait_ns: u64)
        ensures
            final(self)@ == after_attempt(old(self)@, was_contended, wait_ns),
            old(self)@.total_wait_ns + wait_ns <= u64::MAX ==> final(self)@.total_wait_ns == old(
                self,
            )@.total_wait_ns + wait_ns,
            old(self)@.total_attempts < u64::MAX ==> final(self)@.total_attempts == old(
                self,
            )@.total_attempts + 1,
            old(self)@.contentions < u64::MAX ==> final(self)@.contentions == old(self)@.contentions
                + if was_contended {
                1int
            } else {
                0int
            },
            final(self)@.max_wait_ns == if wait_ns > old(self)@.max_wait_ns {
                wait_ns
            } else {
                old(self)@.max_wait_ns
            },
    {
        self.total_attempts = self.total_attempts.wrapping_add(1);
        self.total_wait_ns = self.total_wait_ns.wrapping_add(wait_ns);
        if was_contended {
            self.contentions = self.contentions.wrapping_add(1);
        }
        if wait_ns > self.max_wait_ns {
            self.max_wait_ns = wait_ns;
        }
    }

    /// A snapshot of the counters.
    pub fn snapshot(&self) -> (r: LockSnapshot)
        ensures
            r == snapshot_of(self@),
    {
        let avg_wait_ns = if self.total_attempts > 0 {
            self.total_wait_ns / self.total_attempts
        } else {
            0
        };
        LockSnapshot {
            total_attempts: self.total_attempts,
            contentions: self.contentions,
            max_wait_ns: self.max_wait_ns,
            avg_wait_ns,
        }
    }

    /// Reset all counters to zero.
    pub fn reset(&mut self)
        ensures
            final(self)@ == zero_metrics(),
    {
        self.total_attempts = 0;
        self.contentions = 0;
        self.max_wait_ns = 0;
        self.total_wait_ns = 0;
    }
}

impl Default for LockMetrics {
    fn default() -> (r: Self)
        ensures
            r@ == zero_metrics(),
    {
        LockMetrics::new()
    }
}

/// After a run of attempts (fewer than `u64::MAX`), the attempt count is the
/// number of attempts, no more attempts were contended than were made, and
/// the largest wait is the largest of the waits recorded.
pub proof fn lemma_counters_track_attempts(attempts: Seq<(bool, u64)>)
    requires
        attempts.len() < u64::MAX,
    ensures
        after_attempts(attempts).total_attempts == attempts.len(),
        after_attempts(attempts).contentions <= after_attempts(attempts).total_attempts,
        forall|i: int| 0 <= i < attempts.len() ==> (#[trigger] attempts[i]).1 <= after_attempts(
            attempts,
        ).max_wait_ns,
        attempts.len() == 0 || exists|i: int|
            0 <= i < attempts.len() && (#[trigger] attempts[i]).1 == after_attempts(
                attempts,
            ).max_wait_ns,
    decreases attempts.len(),
{
    if attempts.len() > 0 {
        let init = attempts.drop_last();
        lemma_counters_track_attempts(init);
        let m = after_attempts(init);
        let last = attempts.last();
        assert(m.total_attempts.wrapping_add(1) == m.total_attempts + 1);
        if last.0 {
            assert(m.contentions.wrapping_add(1) == m.contentions + 1);
        }
        assert forall|i: int| 0 <= i < attempts.len() implies (#[trigger] attempts[i]).1
            <= after_attempts(attempts).max_wait_ns by {
            if i < init.len() {
                assert(attempts[i] == init[i]);
            }
        }
        if init.len() > 0 && last.1 <= m.max_wait_ns {
            let k = choose|k: int| 0 <= k < init.len() && (#[trigger] init[k]).1 == m.max_wait_ns;
            assert(attempts[k] == init[k]);
        }
        assert(attempts[attempts.len() - 1] == last);
    }
}

/// The sum of the waits of a run of attempts, contended or not.
pub open spec fn total_wait(attempts: Seq<(bool, u64)>) -> int
    decreases attempts.len(),
{
    if attempts.len() == 0 {
        0
    } else {
        total_wait(attempts.drop_last()) + attempts.last().1
    }
}

/// The number of contended attempts of a run.
pub open spec fn contended_count(attempts: Seq<(bool, u64)>) -> int
    decreases attempts.len(),
{
    if attempts.len() == 0 {
        0
    } else {
        contended_count(attempts.drop_last()) + if attempts.last().0 {
            1int
        } else {
            0int
        }
    }
}

/// After a run of attempts whose waits add up to at most `u64::MAX` and
/// that holds fewer than `u64::MAX` attempts, the total wait is the sum of
/// every wait recorded, contended or not, the contention count is the
/// number of contended attempts, and the snapshot's average wait is that
/// sum divided by the number of attempts.
pub proof fn lemma_total_wait_is_sum(attempts: Seq<(bool, u64)>)
    requires
        attempts.len() < u64::MAX,
        total_wait(attempts) <= u64::MAX,
    ensures
        after_attempts(attempts).total_wait_ns == total_wait(attempts),
        after_attempts(attempts).contentions == contended_count(attempts),
        attempts.len() > 0 ==> snapshot_of(after_attempts(attempts)).avg_wait_ns == total_wait(
            attempts,
        ) / (attempts.len() as int),
    decreases attempts.len(),
{
    if attempts.len() > 0 {
        let init = attempts.drop_last();
        assert(total_wait(init) <= total_wait(attempts));
        lemma_total_wait_is_sum(init);
        lemma_counters_track_attempts(attempts);
        lemma_contended_at_most(init);
        let m = after_attempts(init);
        assert(m.total_wait_ns.wrapping_add(attempts.last().1) == m.total_wait_ns + attempts.last().1);
        if attempts.last().0 {
            assert(m.contentions.wrapping_add(1) == m.contentions + 1);
        }
    }
}

proof fn lemma_contended_at_most(attempts: Seq<(bool, u64)>)
    ensures
        0 <= contended_count(attempts) <= attempts.len(),
    decreases attempts.len(),
{
    if attempts.len() > 0 {
        lemma_contended_at_most(attempts.drop_last());
    }
}

/// How a lock's report is rated when the registry is logged.
#[derive(Debug, Clone, Copy, PartialEq, Eq, Structural)]
pub enum LockHealth {
    /// Nothing was recorded; the lock is left out of the report
    Unused,
    /// The largest wait exceeded 10 ms
    HighLatency,
    /// More than 5% of attempts were contended
    HighContention,
    /// Neither
    Normal,
}

/// The rating of a snapshot: unused when nothing was recorded, high
/// latency when the largest wait exceeds 10 ms, otherwise high contention
/// when more than 5% of the attempts were contended.
pub open spec fn health_of(s: LockSnapshot) -> LockHealth {
    if s.total_attempts == 0 {
        LockHealth::Unused
    } else if s.max_wait_ns > 10_000_000 {
        LockHealth::HighLatency
    } else if 20 * s.contentions > s.total_attempts {
        LockHealth::HighContention
    } else {
        LockHealth::Normal
    }
}

/// Rate a lock's snapshot for the contention report.
pub fn lock_health(s: &LockSnapshot) -> (r: LockHealth)
    ensures
        r == health_of(*s),
{
    if s.total_attempts == 0 {
        LockHealth::Unused
    } else if s.max_wait_ns > 10_000_000 {
        LockHealth::HighLatency
    } else if s.is_significant_contention() {
        LockHealth::HighContention
    } else {
        LockHealth::Normal
    }
}

/// `Duration::as_nanos`: the whole number of nanoseconds in a duration; for
/// `Duration::new(secs, nanos)` with `nanos` below one second, that is
/// `secs * 1_000_000_000 + nanos`.
#[verifier::external_body]
fn duration_nanos(d: &Duration) -> (r: u128)
    ensures
        forall|secs: u64, nanos: u32|
            nanos < 1_000_000_000 && *d == #[trigger] duration_value(secs, nanos) ==> r == secs
                * 1_000_000_000 + nanos,
{
    d.as_nanos()
}

/// The counters of every named lock, in the order the names were first seen.
///
/// The registry is a vector of (name, counters) entries in which no name
/// occurs twice, in place of a hash map keyed by the name: a lookup compares
/// names in order, the report comes out in a fixed order, and the contracts
/// speak of each entry by its position.
pub struct GlobalLockMetrics {
    locks: Vec<(String, LockMetrics)>,
}

/// The names of a registry's entries.
pub open spec fn entry_names(s: Seq<(String, LockMetrics)>) -> Seq<Seq<char>> {
    Seq::new(s.len(), |i: int| s[i].0@)
}

/// No name occurs twice.
pub open spec fn names_unique(s: Seq<(String, LockMetrics)>) -> bool {
    forall|i: int, j: int| 0 <= i < j < s.len() ==> (#[trigger] s[i]).0@ != (#[trigger] s[j]).0@
}

/// Registry `new` is registry `old` with one uncontended acquisition of the
/// named lock, which waited `wait_ns`, recorded: the named entry (created if
/// needed) has one more attempt, every other entry is unchanged.
pub open spec fn lock_recorded(
    old: Seq<(String, LockMetrics)>,
    new: Seq<(String, LockMetrics)>,
    name: Seq<char>,
    wait_ns: u64,
) -> bool {
    &&& entry_names(new) == if exists|i: int| 0 <= i < old.len() && (#[trigger] old[i]).0@ == name {
        entry_names(old)
    } else {
        entry_names(old).push(name)
    }
    &&& forall|i: int|
        0 <= i < new.len() ==> (#[trigger] new[i]).1@ == (if new[i].0@ == name {
            after_attempt(
                if i < old.len() {
                    old[i].1@
                } else {
                    zero_metrics()
                },
                false,
                wait_ns,
            )
        } else {
            old[i].1@
        })
}

impl GlobalLockMetrics {
    /// The registry's entries, in order.
    pub closed spec fn entries(&self) -> Seq<(String, LockMetrics)> {
        self.locks@
    }

    /// Every name has one entry.
    pub closed spec fn wf(&self) -> bool {
        names_unique(self.locks@)
    }

    /// Create an empty registry.
    pub fn new() -> (r: Self)
        ensures
            r.wf(),
            r.entries().len() == 0,
    {
        GlobalLockMetrics { locks: Vec::new() }
    }

    /// The position of the entry for `name`, creating an entry with nothing
    /// recorded when there is none.
    pub fn get_or_create(&mut self, name: &str) -> (r: usize)
        requires
            old(self).wf(),
        ensures
            final(self).wf(),
            r < final(self).entries().len(),
            final(self).entries()[r as int].0@ == name@,
            (exists|i: int|
                0 <= i < old(self).entries().len() && (#[trigger] old(self).entries()[i]).0@
                    == name@) ==> final(self).entries() == old(self).entries(),
            (forall|i: int|
                0 <= i < old(self).entries().len() ==> (#[trigger] old(self).entries()[i]).0@
                    != name@) ==> final(self).entries().len() == old(self).entries().len() + 1
                && final(self).entries().drop_last() == old(self).entries()
                && final(self).entries().last().1@ == zero_metrics(),
    {
        let mut i: usize = 0;
        while i < self.locks.len()
            invariant
                i <= self.locks.len(),
                self.locks@ == old(self).locks@,
                names_unique(self.locks@),
                forall|j: int| 0 <= j < i ==> (#[trigger] self.locks@[j]).0@ != name@,
            decreases self.locks.len() - i,
        {
            if str_eq(self.locks[i].0.as_str(), name) {
                return i;
            }
            i = i + 1;
        }
        let ghost before = self.locks@;
        self.locks.push((String::from_str(name), LockMetrics::new()));
        proof {
            assert(self.locks@.drop_last() =~= before);
            assert forall|a: int, b: int| 0 <= a < b < self.locks@.len() implies (#[trigger] self.locks@[a]).0@
                != (#[trigger] self.locks@[b]).0@ by {
                if b == self.locks@.len() - 1 {
                    assert(self.locks@[a] == before[a]);
                } else {
                    assert(self.locks@[a] == before[a] && self.locks@[b] == before[b]);
                }
            }
        }
        self.locks.len() - 1
    }

    /// Record an acquisition of the named lock that waited `wait_ns`
    /// nanoseconds (blocking acquisitions are counted as uncontended).
    pub fn record_lock_ns(&mut self, name: &str, wait_ns: u64)
        requires
            old(self).wf(),
        ensures
            final(self).wf(),
            lock_recorded(old(self).entries(), final(self).entries(), name@, wait_ns),
    {
        let k = self.get_or_create(name);
        let ghost mid = self.locks@;
        let ghost prev = old(self).locks@;
        let (n, mut m) = self.locks.remove(k);
        m.record_attempt(false, wait_ns);
        self.locks.insert(k, (n, m));
        proof {
            let new = self.locks@;
            assert(new =~= mid.update(k as int, (mid[k as int].0, m)));
            let existed = exists|i: int| 0 <= i < prev.len() && (#[trigger] prev[i]).0@ == name@;
            if existed {
                assert(mid == prev);
                assert(entry_names(new) =~= entry_names(prev));
                assert forall|i: int| 0 <= i < new.len() implies (#[trigger] new[i]).1@ == (if new[i].0@
                    == name@ {
                    after_attempt(
                        if i < prev.len() {
                            prev[i].1@
                        } else {
                            zero_metrics()
                        },
                        false,
                        wait_ns,
                    )
                } else {
                    prev[i].1@
                }) by {
                    if i != k && new[i].0@ == name@ {
                        assert(mid[i].0@ == mid[k as int].0@);
                    }
                }
            } else {
                assert(mid.drop_last() == prev);
                assert(k as int == prev.len()) by {
                    if (k as int) < prev.len() {
                        assert(mid.drop_last()[k as int] == mid[k as int]);
                    }
                }
                assert(entry_names(new) =~= entry_names(prev).push(name@)) by {
                    assert forall|i: int| 0 <= i < prev.len() implies new[i].0@ == prev[i].0@ by {
                        assert(mid.drop_last()[i] == mid[i]);
                    }
                }
                assert forall|i: int| 0 <= i < new.len() implies (#[trigger] new[i]).1@ == (if new[i].0@
                    == name@ {
                    after_attempt(
                        if i < prev.len() {
                            prev[i].1@
                        } else {
                            zero_metrics()
                        },
                        false,
                        wait_ns,
                    )
                } else {
                    prev[i].1@
                }) by {
                    if i < prev.len() {
                        assert(mid.drop_last()[i] == mid[i]);
                        assert(prev[i].0@ != name@);
                    }
                }
            }
        }
    }

    /// Record an acquisition of the named lock that took `duration`
    /// (counted as uncontended; the wait is its nanoseconds, truncated to
    /// 64 bits).
    pub fn record_lock(&mut self, name: &str, duration: Duration)
        requires
            old(self).wf(),
        ensures
            final(self).wf(),
            exists|wait_ns: u64|
                #[trigger] lock_recorded(old(self).entries(), final(self).entries(), name@, wait_ns),
            forall|secs: u64, nanos: u32|
                nanos < 1_000_000_000 && duration == #[trigger] duration_value(secs, nanos)
                    ==> lock_recorded(
                    old(self).entries(),
                    final(self).entries(),
                    name@,
                    (secs * 1_000_000_000 + nanos) as u64,
                ),
    {
        let nanos = duration_nanos(&duration);
        #[verifier::truncate]
        let wait_ns: u64 = nanos as u64;
        self.record_lock_ns(name, wait_ns);
    }

    /// A snapshot of every lock's counters, in registry order.
    pub fn report_all(&self) -> (r: Vec<(String, LockSnapshot)>)
        ensures
            r@.len() == self.entries().len(),
            forall|i: int|
                0 <= i < r@.len() ==> (#[trigger] r@[i]).0@ == self.entries()[i].0@ && r@[i].1
                    == snapshot_of(self.entries()[i].1@),
    {
        let mut r: Vec<(String, LockSnapshot)> = Vec::new();
        let mut i: usize = 0;
        while i < self.locks.len()
            invariant
                i <= self.locks.len(),
                r@.len() == i,
                forall|j: int|
                    0 <= j < i ==> (#[trigger] r@[j]).0@ == self.locks@[j].0@ && r@[j].1
                        == snapshot_of(self.locks@[j].1@),
            decreases self.locks.len() - i,
        {
            let entry = &self.locks[i];
            r.push((entry.0.clone(), entry.1.snapshot()));
            i = i + 1;
        }
        r
    }

    /// The rating of every lock's snapshot, in registry order, for logging.
    pub fn log_report(&self) -> (r: Vec<(String, LockHealth)>)
        ensures
            r@.len() == self.entries().len(),
            forall|i: int|
                0 <= i < r@.len() ==> (#[trigger] r@[i]).0@ == self.entries()[i].0@ && r@[i].1
                    == health_of(snapshot_of(self.entries()[i].1@)),
    {
        let reports = self.report_all();
        let mut r: Vec<(String, LockHealth)> = Vec::new();
        let mut i: usize = 0;
        while i < reports.len()
            invariant
                i <= reports.len(),
                r@.len() == i,
                forall|j: int|
                    0 <= j < i ==> (#[trigger] r@[j]).0@ == reports@[j].0@ && r@[j].1 == health_of(
                        reports@[j].1,
                    ),
            decreases reports.len() - i,
        {
            let entry = &reports[i];
            r.push((entry.0.clone(), lock_health(&entry.1)));
            i = i + 1;
        }
        r
    }

    /// Reset every lock's counters.
    pub fn reset_all(&mut self)
        requires
            old(self).wf(),
        ensures
            final(self).wf(),
            entry_names(final(self).entries()) == entry_names(old(self).entries()),
            forall|i: int|
                0 <= i < final(self).entries().len() ==> (#[trigger] final(self).entries()[i]).1@
                    == zero_metrics(),
    {
        let n = self.locks.len();
        let mut i: usize = 0;
        while i < n
            invariant
                i <= n,
                n == self.locks@.len(),
                n == old(self).locks@.len(),
                forall|j: int| 0 <= j < n ==> (#[trigger] self.locks@[j]).0 == old(self).locks@[j].0,
                forall|j: int| 0 <= j < i ==> (#[trigger] self.locks@[j]).1@ == zero_metrics(),
            decreases n - i,
        {
            let (name, mut m) = self.locks.remove(i);
            m.reset();
            self.locks.insert(i, (name, m));
            i = i + 1;
        }
        proof {
            assert(entry_names(self.locks@) =~= entry_names(old(self).locks@));
            assert forall|a: int, b: int| 0 <= a < b < self.locks@.len() implies (#[trigger] self.locks@[a]).0@
                != (#[trigger] self.locks@[b]).0@ by {
                assert(old(self).locks@[a].0@ != old(self).locks@[b].0@);
            }
        }
    }
}

} // verus!
