//! Locking out client IPs after repeated failed attempts: five failures lock
//! an IP for fifteen minutes. Instants are microseconds on the lockout's own
//! monotonic clock.

use vstd::prelude::*;
use dashmap::DashMap;
use crate::system::{instant_now, micros_since};

verus! {

/// Failures that lock an IP.
pub const MAX_FAILED_ATTEMPTS: u32 = 5;

/// How long a lock lasts: fifteen minutes, in microseconds.
pub const LOCKOUT_DURATION_MICROS: u64 = 900_000_000;

/// Microseconds in a second.
pub const MICROS_PER_SEC: u64 = 1_000_000;

#[verifier::external_type_specification]
#[verifier::external_body]
#[verifier::reject_recursive_types(K)]
#[verifier::reject_recursive_types(V)]
#[verifier::reject_recursive_types(S)]
pub struct ExDashMap<K, V, S>(dashmap::DashMap<K, V, S>);

/// The failures counted for one IP since its count was last reset.
#[derive(Clone, Copy, Debug)]
pub struct FailedAttempt {
    pub count: u32,
    pub first_attempt: u64,
}

/// What a map of failure counts holds, keyed by the IP's text.
pub uninterp spec fn failed_attempt_entries(m: DashMap<String, FailedAttempt>) -> Map<
    Seq<char>,
    FailedAttempt,
>;

/// What a map of locks holds: the instant each locked IP is locked until.
pub uninterp spec fn locked_ip_entries(m: DashMap<String, u64>) -> Map<Seq<char>, u64>;

/// No failure counts.
pub open spec fn no_failures() -> Map<Seq<char>, FailedAttempt> {
    Map::empty()
}

/// No locks.
pub open spec fn no_locks() -> Map<Seq<char>, u64> {
    Map::empty()
}

/// `DashMap::new` for failure counts: empty.
#[verifier::external_body]
fn failed_map_new() -> (res: DashMap<String, FailedAttempt>)
    ensures
        failed_attempt_entries(res) == no_failures(),
{
    DashMap::new()
}

/// `DashMap::get` for failure counts: the entry of `ip`, copied out.
#[verifier::external_body]
fn failed_map_get(m: &DashMap<String, FailedAttempt>, ip: &str) -> (res: Option<FailedAttempt>)
    ensures
        res == failed_attempt_entries(*m).get(ip@),
{
    m.get(ip).map(|r| *r)
}

/// `DashMap::insert` for failure counts: sets the entry of `ip`.
#[verifier::external_body]
fn failed_map_insert(m: &mut DashMap<String, FailedAttempt>, ip: String, v: FailedAttempt)
    ensures
        failed_attempt_entries(*final(m)) == failed_attempt_entries(*old(m)).insert(ip@, v),
{
    m.insert(ip, v);
}

/// `DashMap::remove` for failure counts: drops the entry of `ip`, if any.
#[verifier::external_body]
fn failed_map_remove(m: &mut DashMap<String, FailedAttempt>, ip: &str)
    ensures
        failed_attempt_entries(*final(m)) == failed_attempt_entries(*old(m)).remove(ip@),
{
    m.remove(ip);
}

/// `DashMap::new` for locks: empty.
#[verifier::external_body]
fn locked_map_new() -> (res: DashMap<String, u64>)
    ensures
        locked_ip_entries(res) == no_locks(),
{
    DashMap::new()
}

/// `DashMap::get` for locks: the instant `ip` is locked until, copied out.
#[verifier::external_body]
fn locked_map_get(m: &DashMap<String, u64>, ip: &str) -> (res: Option<u64>)
    ensures
        res == locked_ip_entries(*m).get(ip@),
{
    m.get(ip).map(|r| *r)
}

/// `DashMap::insert` for locks: sets the entry of `ip`.
#[verifier::external_body]
fn locked_map_insert(m: &mut DashMap<String, u64>, ip: String, until: u64)
    ensures
        locked_ip_entries(*final(m)) == locked_ip_entries(*old(m)).insert(ip@, until),
{
    m.insert(ip, until);
}

/// `DashMap::remove` for locks: drops the entry of `ip`, if any.
#[verifier::external_body]
fn locked_map_remove(m: &mut DashMap<String, u64>, ip: &str)
    ensures
        locked_ip_entries(*final(m)) == locked_ip_entries(*old(m)).remove(ip@),
{
    m.remove(ip);
}

/// The state of a lockout: failure counts and locks, per IP.
pub struct LockoutState {
    pub failures: Map<Seq<char>, FailedAttempt>,
    pub locked_until: Map<Seq<char>, u64>,
}

/// The state with nothing counted and nothing locked.
pub open spec fn empty_lockout() -> LockoutState {
    LockoutState { failures: no_failures(), locked_until: no_locks() }
}

/// Whether `ip` is locked at instant `now`.
pub open spec fn locked_at(s: LockoutState, ip: Seq<char>, now: u64) -> bool {
    s.locked_until.contains_key(ip) && now < s.locked_until[ip]
}

/// The state after asking whether `ip` is locked at `now`: an expired lock is
/// dropped together with the IP's failure count.
pub open spec fn after_check(s: LockoutState, ip: Seq<char>, now: u64) -> LockoutState {
    if s.locked_until.contains_key(ip) && now >= s.locked_until[ip] {
        LockoutState { failures: s.failures.remove(ip), locked_until: s.locked_until.remove(ip) }
    } else {
        s
    }
}

/// The failure count of `ip` (zero when none is kept).
pub open spec fn failure_count(s: LockoutState, ip: Seq<char>) -> nat {
    if s.failures.contains_key(ip) {
        s.failures[ip].count as nat
    } else {
        0
    }
}

/// Whether one more failure of `ip` can be counted without overflowing its count.
pub open spec fn can_record_failure(s: LockoutState, ip: Seq<char>) -> bool {
    failure_count(s, ip) < u32::MAX
}

/// The end of a lock that starts at `now`: fifteen minutes later, or the last
/// instant the clock can hold when that is sooner.
pub open spec fn lock_end(now: u64) -> u64 {
    if now <= u64::MAX - LOCKOUT_DURATION_MICROS {
        (now + LOCKOUT_DURATION_MICROS) as u64
    } else {
        u64::MAX
    }
}

/// The state after a failure of `ip` at `now`: its count goes up by one (a
/// new count starts at `now`), and once it reaches five the IP is locked
/// until `lock_end(now)`.
pub open spec fn after_failure(s: LockoutState, ip: Seq<char>, now: u64) -> LockoutState {
    let first = if s.failures.contains_key(ip) {
        s.failures[ip].first_attempt
    } else {
        now
    };
    let count = failure_count(s, ip) + 1;
    LockoutState {
        failures: s.failures.insert(ip, FailedAttempt { count: count as u32, first_attempt: first }),
        locked_until: if count >= MAX_FAILED_ATTEMPTS {
            s.locked_until.insert(ip, lock_end(now))
        } else {
            s.locked_until
        },
    }
}

/// The state after a success of `ip`: its failure count is forgotten.
pub open spec fn after_success(s: LockoutState, ip: Seq<char>) -> LockoutState {
    LockoutState { failures: s.failures.remove(ip), locked_until: s.locked_until }
}

/// The state after the lock and count of `ip` are cleared.
pub open spec fn after_clear(s: LockoutState, ip: Seq<char>) -> LockoutState {
    LockoutState { failures: s.failures.remove(ip), locked_until: s.locked_until.remove(ip) }
}

/// Whole seconds left at `now` on the lock of `ip` (zero once it has passed),
/// or `None` when no lock is kept for it.
pub open spec fn remaining_lock_secs(s: LockoutState, ip: Seq<char>, now: u64) -> Option<u64> {
    if s.locked_until.contains_key(ip) {
        let until = s.locked_until[ip];
        Some(
            if until > now {
                ((until - now) / (MICROS_PER_SEC as int)) as u64
            } else {
                0
            },
        )
    } else {
        None
    }
}

/// The state after failures of `ip` at each of the instants `ts`, in order.
pub open spec fn after_failures(s: LockoutState, ip: Seq<char>, ts: Seq<u64>) -> LockoutState
    decreases ts.len(),
{
    if ts.len() == 0 {
        s
    } else {
        after_failure(after_failures(s, ip, ts.drop_last()), ip, ts.last())
    }
}

/// Law: from an IP with no failures counted and no lock, `n` failures in a row
/// count `n`, and the IP is locked exactly when `n` reaches five, until
/// fifteen minutes after the last failure; it is then locked at every instant
/// from that failure to the end of the lock.
pub proof fn law_failures_lock_on_the_fifth(s: LockoutState, ip: Seq<char>, ts: Seq<u64>)
    requires
        !s.failures.contains_key(ip),
        !s.locked_until.contains_key(ip),
        ts.len() < u32::MAX,
    ensures
        failure_count(after_failures(s, ip, ts), ip) == ts.len(),
        after_failures(s, ip, ts).locked_until.contains_key(ip) <==> ts.len() >= MAX_FAILED_ATTEMPTS,
        ts.len() >= MAX_FAILED_ATTEMPTS ==> after_failures(s, ip, ts).locked_until[ip] == lock_end(
            ts.last(),
        ),
        ts.len() >= MAX_FAILED_ATTEMPTS ==> forall|t: u64|
            ts.last() <= t < lock_end(ts.last()) ==> #[trigger] locked_at(
                after_failures(s, ip, ts),
                ip,
                t,
            ),
    decreases ts.len(),
{
    if ts.len() > 0 {
        let prefix = ts.drop_last();
        law_failures_lock_on_the_fifth(s, ip, prefix);
        assert(ts.last() == ts[ts.len() - 1]);
    }
}

/// Law: a failure, a success or a check on one IP leaves the counts and locks
/// of every other IP as they were.
pub proof fn law_ips_are_independent(s: LockoutState, ip: Seq<char>, other: Seq<char>, now: u64)
    requires
        ip != other,
    ensures
        after_failure(s, ip, now).failures.get(other) == s.failures.get(other),
        after_failure(s, ip, now).locked_until.get(other) == s.locked_until.get(other),
        after_success(s, ip).failures.get(other) == s.failures.get(other),
        after_check(s, ip, now).failures.get(other) == s.failures.get(other),
        after_check(s, ip, now).locked_until.get(other) == s.locked_until.get(other),
        after_clear(s, ip).failures.get(other) == s.failures.get(other),
        after_clear(s, ip).locked_until.get(other) == s.locked_until.get(other),
{
}

/// Law: a success starts the count of an IP over: the next failure counts one.
pub proof fn law_success_resets_count(s: LockoutState, ip: Seq<char>, now: u64)
    ensures
        failure_count(after_success(s, ip), ip) == 0,
        failure_count(after_failure(after_success(s, ip), ip, now), ip) == 1,
{
}

/// Law: a lock runs out at its end; the check that finds it run out drops it
/// and the IP's count, so the IP starts over with no failures counted.
pub proof fn law_lock_runs_out(s: LockoutState, ip: Seq<char>, now: u64)
    requires
        s.locked_until.contains_key(ip),
        now >= s.locked_until[ip],
    ensures
        !locked_at(s, ip, now),
        !after_check(s, ip, now).locked_until.contains_key(ip),
        failure_count(after_check(s, ip, now), ip) == 0,
{
}

/// Law: a check never changes whether an IP is locked at that instant, and
/// keeps a lock that has not run out.
pub proof fn law_check_keeps_live_lock(s: LockoutState, ip: Seq<char>, now: u64)
    ensures
        locked_at(s, ip, now) ==> after_check(s, ip, now) == s,
{
}

/// Law: once cleared, an IP is not locked at any instant and has no failures counted.
pub proof fn law_clear_unlocks(s: LockoutState, ip: Seq<char>, now: u64)
    ensures
        !locked_at(after_clear(s, ip), ip, now),
        failure_count(after_clear(s, ip), ip) == 0,
{
}

/// Failure counts and locks of client IPs.
pub struct IpLockout {
    origin: std::time::Instant,
    failed_attempts: DashMap<String, FailedAttempt>,
    locked_ips: DashMap<String, u64>,
}

impl View for IpLockout {
    type V = LockoutState;

    closed spec fn view(&self) -> LockoutState {
        LockoutState {
            failures: failed_attempt_entries(self.failed_attempts),
            locked_until: locked_ip_entries(self.locked_ips),
        }
    }
}

impl IpLockout {
    /// A lockout with nothing counted and nothing locked.
    pub fn new() -> (res: Self)
        ensures
            res@ == empty_lockout(),
    {
        IpLockout {
            origin: instant_now(),
            failed_attempts: failed_map_new(),
            locked_ips: locked_map_new(),
        }
    }

    /// The current instant on this lockout's clock.
    pub fn now_micros(&self) -> u64 {
        micros_since(&self.origin)
    }

    /// Whether `ip` is locked at `now`; a lock that has run out is dropped,
    /// together with the IP's failure count.
    pub fn is_locked_at(&mut self, ip: &str, now: u64) -> (res: bool)
        ensures
            res == locked_at(old(self)@, ip@, now),
            final(self)@ == after_check(old(self)@, ip@, now),
    {
        match locked_map_get(&self.locked_ips, ip) {
            Some(until) => {
                if now < until {
                    true
                } else {
                    locked_map_remove(&mut self.locked_ips, ip);
                    failed_map_remove(&mut self.failed_attempts, ip);
                    false
                }
            },
            None => false,
        }
    }

    /// Whether `ip` is locked now.
    pub fn is_locked(&mut self, ip: &str) -> (res: bool)
        ensures
            exists|now: u64|
                res == locked_at(old(self)@, ip@, now) && final(self)@ == #[trigger] after_check(
                    old(self)@,
                    ip@,
                    now,
                ),
    {
        let now = self.now_micros();
        self.is_locked_at(ip, now)
    }

    /// Whole seconds left at `now` on the lock of `ip`, if a lock is kept.
    pub fn get_remaining_lockout_secs_at(&self, ip: &str, now: u64) -> (res: Option<u64>)
        ensures
            res == remaining_lock_secs(self@, ip@, now),
    {
        match locked_map_get(&self.locked_ips, ip) {
            Some(until) => {
                if until > now {
                    Some((until - now) / MICROS_PER_SEC)
                } else {
                    Some(0)
                }
            },
            None => None,
        }
    }

    /// Whole seconds left now on the lock of `ip`, if a lock is kept.
    pub fn get_remaining_lockout_secs(&self, ip: &str) -> (res: Option<u64>)
        ensures
            exists|now: u64| res == #[trigger] remaining_lock_secs(self@, ip@, now),
    {
        let now = self.now_micros();
        self.get_remaining_lockout_secs_at(ip, now)
    }

    /// The failure count kept for `ip`.
    pub fn failure_count(&self, ip: &str) -> (res: u32)
        ensures
            res == failure_count(self@, ip@),
    {
        match failed_map_get(&self.failed_attempts, ip) {
            Some(f) => f.count,
            None => 0,
        }
    }

    /// Counts a failure of `ip` at `now`, locking it on the fifth.
    pub fn record_failure_at(&mut self, ip: &str, now: u64)
        requires
            can_record_failure(old(self)@, ip@),
        ensures
            final(self)@ == after_failure(old(self)@, ip@, now),
    {
        let prev = failed_map_get(&self.failed_attempts, ip);
        let entry = match prev {
            Some(f) => FailedAttempt { count: f.count + 1, first_attempt: f.first_attempt },
            None => FailedAttempt { count: 1, first_attempt: now },
        };
        failed_map_insert(&mut self.failed_attempts, String::from_str(ip), entry);
        if entry.count >= MAX_FAILED_ATTEMPTS {
            let until = if now <= u64::MAX - LOCKOUT_DURATION_MICROS {
                now + LOCKOUT_DURATION_MICROS
            } else {
                u64::MAX
            };
            locked_map_insert(&mut self.locked_ips, String::from_str(ip), until);
        }
    }

    /// Counts a failure of `ip` now, locking it on the fifth. Returns whether
    /// it was counted: only a count that would overflow is left as it is, and
    /// then nothing changes.
    pub fn record_failure(&mut self, ip: &str) -> (res: bool)
        ensures
            res == can_record_failure(old(self)@, ip@),
            res ==> exists|now: u64| final(self)@ == #[trigger] after_failure(old(self)@, ip@, now),
            !res ==> final(self)@ == old(self)@,
    {
        let now = self.now_micros();
        if self.failure_count(ip) < u32::MAX {
            self.record_failure_at(ip, now);
            true
        } else {
            false
        }
    }

    /// Forgets the failure count of `ip` after a success.
    pub fn record_success(&mut self, ip: &str)
        ensures
            final(self)@ == after_success(old(self)@, ip@),
    {
        failed_map_remove(&mut self.failed_attempts, ip);
    }

    /// Clears the failure count and the lock of `ip`.
    pub fn clear_lockout(&mut self, ip: &str)
        ensures
            final(self)@ == after_clear(old(self)@, ip@),
    {
        failed_map_remove(&mut self.failed_attempts, ip);
        locked_map_remove(&mut self.locked_ips, ip);
    }
}

impl Default for IpLockout {
    fn default() -> (res: Self)
        ensures
            res@ == empty_lockout(),
    {
        Self::new()
    }
}

} // verus!
