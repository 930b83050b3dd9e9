//! Fingerprint-based task deduplication.
//!
//! A task is identified by a hash of its type and its parameters. The cache
//! remembers when each fingerprint was last accepted; a second request with
//! the same fingerprint inside the time-to-live window is refused, and one
//! after the window is accepted again.
use vstd::prelude::*;
use vstd::std_specs::hash::DefaultHasherAdditionalSpecFns;

use std::collections::hash_map::DefaultHasher;
use std::hash::Hasher;
use std::time::Instant;

use dashmap::DashMap;

verus! {

#[verifier::external_type_specification]
#[verifier::external_body]
#[verifier::reject_recursive_types(K)]
#[verifier::reject_recursive_types(V)]
#[verifier::reject_recursive_types(S)]
pub struct ExDashMap<K, V, S>(DashMap<K, V, S>);

#[verifier::external_type_specification]
#[verifier::external_body]
pub struct ExInstant(Instant);

/// What a `DashMap` from fingerprints to timestamps holds.
pub uninterp spec fn dashmap_entries(m: DashMap<u64, u128>) -> Map<u64, u128>;

/// `DashMap::new` from dashmap: a map with no entries.
#[verifier::external_body]
fn dashmap_new() -> (m: DashMap<u64, u128>)
    ensures
        dashmap_entries(m) =~= Map::empty(),
{
    DashMap::new()
}

/// `DashMap::get` from dashmap: the value stored under `key`, if any.
#[verifier::external_body]
fn dashmap_get(m: &DashMap<u64, u128>, key: u64) -> (r: Option<u128>)
    ensures
        r == (if dashmap_entries(*m).dom().contains(key) {
            Some(dashmap_entries(*m)[key])
        } else {
            None
        }),
{
    m.get(&key).map(|entry| *entry.value())
}

/// `DashMap::insert` from dashmap: stores `value` under `key`, replacing
/// what was there, and returns the replaced value.
#[verifier::external_body]
fn dashmap_insert(m: &mut DashMap<u64, u128>, key: u64, value: u128) -> (r: Option<u128>)
    ensures
        dashmap_entries(*final(m)) == dashmap_entries(*old(m)).insert(key, value),
        r == (if dashmap_entries(*old(m)).dom().contains(key) {
            Some(dashmap_entries(*old(m))[key])
        } else {
            None
        }),
{
    m.insert(key, value)
}

/// `DashMap::remove` from dashmap: drops the entry under `key` and returns
/// its value, if there was one.
#[verifier::external_body]
fn dashmap_remove(m: &mut DashMap<u64, u128>, key: u64) -> (r: Option<u128>)
    ensures
        dashmap_entries(*final(m)) == dashmap_entries(*old(m)).remove(key),
        r == (if dashmap_entries(*old(m)).dom().contains(key) {
            Some(dashmap_entries(*old(m))[key])
        } else {
            None
        }),
{
    m.remove(&key).map(|pair| pair.1)
}

/// `DashMap::len` from dashmap: the number of entries.
#[verifier::external_body]
fn dashmap_len(m: &DashMap<u64, u128>) -> (r: usize)
    ensures
        r == dashmap_entries(*m).dom().len(),
{
    m.len()
}

/// `Instant::now` from std: the current reading of the monotonic clock.
/// Nothing is stated of its value.
#[verifier::external_body]
fn instant_now() -> Instant {
    Instant::now()
}

/// `Instant::elapsed` from std, in nanoseconds: the time since `origin`,
/// read from the clock. Nothing is stated of its value.
#[verifier::external_body]
fn nanos_since(origin: &Instant) -> u128 {
    origin.elapsed().as_nanos()
}

/// The bytes that `str`'s `Hash` impl feeds a hasher: the UTF-8 encoding
/// followed by the terminator byte `0xff`.
pub open spec fn str_hash_writes(s: Seq<char>) -> Seq<Seq<u8>> {
    seq![vstd::utf8::encode_utf8(s), seq![0xffu8]]
}

/// The fingerprint of a task: std's default hasher fed the type, then the
/// parameters.
pub open spec fn task_fingerprint(task_type: Seq<char>, params: Seq<char>) -> u64 {
    DefaultHasher::spec_finish(str_hash_writes(task_type) + str_hash_writes(params))
}

/// Computes a stable hash for a `(task_type, params)` pair.
pub fn hash_task(task_type: &str, params: &str) -> (r: u64)
    ensures
        r == task_fingerprint(task_type@, params@),
{
    let terminator: [u8; 1] = [0xff];
    let end: &[u8] = vstd::array::array_as_slice(&terminator);
    assert(end@ =~= seq![0xffu8]);
    let mut hasher = DefaultHasher::new();
    hasher.write(task_type.as_bytes());
    hasher.write(end);
    hasher.write(params.as_bytes());
    hasher.write(end);
    let r = hasher.finish();
    assert(hasher@ =~= str_hash_writes(task_type@) + str_hash_writes(params@));
    r
}

/// The time-to-live of `ttl_secs` seconds in nanoseconds.
pub open spec fn ttl_nanos(ttl_secs: u64) -> int {
    ttl_secs * 1_000_000_000
}

/// The time from `then` to `now`, or zero when `now` is earlier.
pub open spec fn elapsed(then: u128, now: u128) -> int {
    if now >= then {
        now - then
    } else {
        0
    }
}

/// Whether a fingerprint recorded at `then` still blocks a request at `now`.
pub open spec fn still_fresh(then: u128, now: u128, ttl_secs: u64) -> bool {
    elapsed(then, now) < ttl_nanos(ttl_secs)
}

/// One deduplication decision: whether fingerprint `fp` is accepted at
/// time `now`, and the entries afterwards.
pub open spec fn dedup_step(entries: Map<u64, u128>, ttl_secs: u64, fp: u64, now: u128) -> (
    bool,
    Map<u64, u128>,
) {
    if entries.dom().contains(fp) && still_fresh(entries[fp], now, ttl_secs) {
        (false, entries)
    } else {
        (true, entries.insert(fp, now))
    }
}

/// Fingerprint-based deduplication cache with TTL eviction.
pub struct FingerprintCache {
    cache: DashMap<u64, u128>,
    ttl_secs: u64,
    origin: Instant,
}

impl FingerprintCache {
    /// The fingerprints held, each with the time (nanoseconds since the
    /// cache was made) it was last accepted.
    pub closed spec fn entries(&self) -> Map<u64, u128> {
        dashmap_entries(self.cache)
    }

    /// The time-to-live in seconds.
    pub closed spec fn ttl(&self) -> u64 {
        self.ttl_secs
    }

    /// The cache holds finitely many entries.
    pub closed spec fn wf(&self) -> bool {
        dashmap_entries(self.cache).dom().finite()
    }

    /// A cache with no entries and the given time-to-live.
    pub fn new(ttl_secs: u64) -> (r: FingerprintCache)
        ensures
            r.wf(),
            r.entries() =~= Map::empty(),
            r.ttl() == ttl_secs,
    {
        FingerprintCache { cache: dashmap_new(), ttl_secs, origin: instant_now() }
    }

    /// Decides for fingerprint `fp` at time `now` (nanoseconds since the
    /// cache was made): refused while a previous acceptance is fresher than
    /// the time-to-live, otherwise accepted and recorded at `now`.
    pub fn check_fingerprint_at(&mut self, fp: u64, now: u128) -> (r: bool)
        requires
            old(self).wf(),
        ensures
            final(self).wf(),
            final(self).ttl() == old(self).ttl(),
            (r, final(self).entries()) == dedup_step(old(self).entries(), old(self).ttl(), fp, now),
    {
        match dashmap_get(&self.cache, fp) {
            Some(then) => {
                let age: u128 = if now >= then {
                    now - then
                } else {
                    0
                };
                let ttl: u128 = self.ttl_secs as u128 * 1_000_000_000u128;
                if age < ttl {
                    return false;
                }
            },
            None => {},
        }
        dashmap_insert(&mut self.cache, fp, now);
        true
    }

    /// The decision for the task `(task_type, params)` at time `now`.
    pub fn check_and_insert_at(&mut self, task_type: &str, params: &str, now: u128) -> (r: bool)
        requires
            old(self).wf(),
        ensures
            final(self).wf(),
            final(self).ttl() == old(self).ttl(),
            (r, final(self).entries()) == dedup_step(
                old(self).entries(),
                old(self).ttl(),
                task_fingerprint(task_type@, params@),
                now,
            ),
    {
        let fp = hash_task(task_type, params);
        self.check_fingerprint_at(fp, now)
    }

    /// Whether a task with the given type and params was not seen recently.
    ///
    /// Returns `true` if the task is new (or the old entry expired), recording
    /// the current time for it. Returns `false`, changing nothing, if a
    /// matching fingerprint is fresher than the time-to-live.
    pub fn check_and_insert(&mut self, task_type: &str, params: &str) -> (r: bool)
        requires
            old(self).wf(),
        ensures
            final(self).wf(),
            final(self).ttl() == old(self).ttl(),
            exists|now: u128|
                (r, final(self).entries()) == #[trigger] dedup_step(
                    old(self).entries(),
                    old(self).ttl(),
                    task_fingerprint(task_type@, params@),
                    now,
                ),
    {
        let now = nanos_since(&self.origin);
        let r = self.check_and_insert_at(task_type, params, now);
        r
    }

    /// Whether the fingerprint `fp` itself was not accepted recently: the
    /// same decision as `check_and_insert`, for a caller that already holds
    /// a fingerprint (such as a work's ID), taken at the current time.
    pub fn check_fingerprint(&mut self, fp: u64) -> (r: bool)
        requires
            old(self).wf(),
        ensures
            final(self).wf(),
            final(self).ttl() == old(self).ttl(),
            exists|now: u128|
                (r, final(self).entries()) == #[trigger] dedup_step(
                    old(self).entries(),
                    old(self).ttl(),
                    fp,
                    now,
                ),
    {
        let now = nanos_since(&self.origin);
        self.check_fingerprint_at(fp, now)
    }

    /// Forgets the fingerprint of `(task_type, params)`.
    pub fn remove(&mut self, task_type: &str, params: &str)
        requires
            old(self).wf(),
        ensures
            final(self).wf(),
            final(self).ttl() == old(self).ttl(),
            final(self).entries() == old(self).entries().remove(
                task_fingerprint(task_type@, params@),
            ),
    {
        let fp = hash_task(task_type, params);
        dashmap_remove(&mut self.cache, fp);
    }

    /// The number of entries held, expired ones included.
    pub fn len(&self) -> (r: usize)
        ensures
            r == self.entries().dom().len(),
    {
        dashmap_len(&self.cache)
    }

    /// Whether no entry is held.
    pub fn is_empty(&self) -> (r: bool)
        ensures
            r == (self.entries().dom().len() == 0),
    {
        dashmap_len(&self.cache) == 0
    }
}

/// A fingerprint never seen before is accepted and recorded at the time of
/// the request.
pub proof fn law_new_fingerprint_accepted(entries: Map<u64, u128>, ttl_secs: u64, fp: u64, now: u128)
    requires
        !entries.dom().contains(fp),
    ensures
        dedup_step(entries, ttl_secs, fp, now) == (true, entries.insert(fp, now)),
{
}

/// Once a request is accepted, the same request is refused, changing
/// nothing, for as long as less than the time-to-live has passed.
pub proof fn law_duplicate_within_ttl_refused(
    entries: Map<u64, u128>,
    ttl_secs: u64,
    fp: u64,
    t1: u128,
    t2: u128,
)
    requires
        dedup_step(entries, ttl_secs, fp, t1).0,
        t1 <= t2,
        t2 - t1 < ttl_nanos(ttl_secs),
    ensures
        dedup_step(dedup_step(entries, ttl_secs, fp, t1).1, ttl_secs, fp, t2) == (
            false,
            dedup_step(entries, ttl_secs, fp, t1).1,
        ),
{
}

/// A fingerprint whose last acceptance is at least the time-to-live old is
/// accepted again and recorded at the new time.
pub proof fn law_expired_fingerprint_accepted(
    entries: Map<u64, u128>,
    ttl_secs: u64,
    fp: u64,
    now: u128,
)
    requires
        entries.dom().contains(fp),
        elapsed(entries[fp], now) >= ttl_nanos(ttl_secs),
    ensures
        dedup_step(entries, ttl_secs, fp, now) == (true, entries.insert(fp, now)),
{
}

/// A decision about one fingerprint leaves every other fingerprint's entry
/// as it was.
pub proof fn law_other_fingerprints_untouched(
    entries: Map<u64, u128>,
    ttl_secs: u64,
    fp: u64,
    other: u64,
    now: u128,
)
    requires
        other != fp,
    ensures
        dedup_step(entries, ttl_secs, fp, now).1.dom().contains(other) == entries.dom().contains(
            other,
        ),
        entries.dom().contains(other) ==> dedup_step(entries, ttl_secs, fp, now).1[other]
            == entries[other],
{
}

/// Removing a fingerprint undoes its acceptance: the next request with it
/// is accepted whatever the time.
pub proof fn law_removed_fingerprint_accepted(
    entries: Map<u64, u128>,
    ttl_secs: u64,
    fp: u64,
    now: u128,
)
    ensures
        dedup_step(entries.remove(fp), ttl_secs, fp, now) == (true, entries.remove(fp).insert(fp, now)),
{
}

} // verus!
