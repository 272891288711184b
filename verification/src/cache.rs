//! The query cache: decoded results kept under a text key, each with the
//! instant at which it was stored, and served while younger than a
//! time-to-live. Expiry is lazy: a stale entry stays until it is overwritten.

use vstd::prelude::*;
use std::time::Duration;
use std::time::Instant;
use crate::clock::{duration_nanos, monotonic_now, nanos_of, nanos_since, time_between};
use crate::text_map::TextMap;

verus! {

/// A cached value and the instant of its creation.
#[derive(Debug, Clone)]
pub struct CacheEntry<T> {
    pub data: T,
    pub timestamp: Instant,
}

/// The entry that holds `data` as of `timestamp`.
pub open spec fn stamped<T>(data: T, timestamp: Instant) -> CacheEntry<T> {
    CacheEntry { data, timestamp }
}

impl<T> CacheEntry<T> {
    /// The entry is stale at `now`: more than `ttl` has passed since it was made.
    pub open spec fn expired_at(&self, now: Instant, ttl: Duration) -> bool {
        nanos_since(self.timestamp, now) > duration_nanos(ttl)
    }

    /// Wraps `data` with the instant `now`.
    pub fn new_at(data: T, now: Instant) -> (e: CacheEntry<T>)
        ensures
            e == stamped(data, now),
    {
        CacheEntry { data, timestamp: now }
    }

    /// Wraps `data` with the current instant.
    pub fn new(data: T) -> (e: CacheEntry<T>)
        ensures
            e.data == data,
    {
        CacheEntry::new_at(data, monotonic_now())
    }

    /// Tells whether the entry is stale at `now`. At the instant of its
    /// creation an entry is fresh, whatever the time-to-live.
    pub fn is_expired_at(&self, now: &Instant, ttl: Duration) -> (r: bool)
        ensures
            r == self.expired_at(*now, ttl),
            *now == self.timestamp ==> !r,
    {
        nanos_of(&time_between(now, &self.timestamp)) > nanos_of(&ttl)
    }

    /// Tells whether the entry is stale by the machine's clock: the answer is
    /// that of `is_expired_at` for the instant that the clock gave.
    pub fn is_expired(&self, ttl: Duration) -> (r: bool)
        ensures
            exists|now: Instant| r == #[trigger] self.expired_at(now, ttl),
    {
        let now = monotonic_now();
        let r = self.is_expired_at(&now, ttl);
        assert(r == self.expired_at(now, ttl));
        r
    }
}

/// What a lookup of `key` at `now` yields from the entries `m`: the stored
/// value if there is one and it is not stale.
pub open spec fn lookup<T>(
    m: Map<Seq<char>, CacheEntry<T>>,
    key: Seq<char>,
    now: Instant,
    ttl: Duration,
) -> Option<T> {
    if m.contains_key(key) && !m[key].expired_at(now, ttl) {
        Some(m[key].data)
    } else {
        None
    }
}

/// A cache of decoded results under text keys.
#[derive(Debug)]
pub struct QueryCache<T> {
    entries: TextMap<CacheEntry<T>>,
}

impl<T> QueryCache<T> {
    /// The entries of the cache, stale ones included.
    pub closed spec fn view(&self) -> Map<Seq<char>, CacheEntry<T>> {
        self.entries@
    }

    /// An empty cache.
    pub fn new() -> (c: QueryCache<T>)
        ensures
            c@ == Map::<Seq<char>, CacheEntry<T>>::empty(),
    {
        QueryCache { entries: TextMap::new() }
    }

    /// The value under `key`, unless it is missing or stale at `now`. A
    /// value is served at the instant at which it was stored.
    pub fn get_at(&self, key: &str, now: &Instant, ttl: Duration) -> (r: Option<&T>)
        ensures
            match r {
                Some(v) => lookup(self@, key@, *now, ttl) == Some(*v),
                None => lookup(self@, key@, *now, ttl) is None,
            },
            self@.contains_key(key@) && self@[key@].timestamp == *now ==> r is Some,
    {
        match self.entries.get(key) {
            Some(entry) => {
                if entry.is_expired_at(now, ttl) {
                    None
                } else {
                    Some(&entry.data)
                }
            },
            None => None,
        }
    }

    /// The value under `key`, unless it is missing or stale by the machine's
    /// clock: the answer is that of `get_at` for the instant the clock gave.
    pub fn get(&self, key: &str, ttl: Duration) -> (r: Option<&T>)
        ensures
            exists|now: Instant|
                match r {
                    Some(v) => #[trigger] lookup(self@, key@, now, ttl) == Some(*v),
                    None => lookup(self@, key@, now, ttl) is None,
                },
    {
        let now = monotonic_now();
        let r = self.get_at(key, &now, ttl);
        assert(match r {
            Some(v) => lookup(self@, key@, now, ttl) == Some(*v),
            None => lookup(self@, key@, now, ttl) is None,
        });
        r
    }

    /// Stores `value` under `key` as of `now`, in place of what was there.
    pub fn put_at(&mut self, key: String, value: T, now: Instant)
        ensures
            final(self)@ == old(self)@.insert(key@, stamped(value, now)),
    {
        self.entries.insert(key, CacheEntry::new_at(value, now));
    }

    /// Stores `value` under `key` as of the current instant.
    pub fn put(&mut self, key: String, value: T)
        ensures
            exists|now: Instant|
                final(self)@ == old(self)@.insert(key@, #[trigger] stamped(value, now)),
    {
        let now = monotonic_now();
        self.put_at(key, value, now);
    }
}

/// A value stored at `t0` is served at every `t1` within the time-to-live,
/// whatever the cache held before.
pub proof fn lemma_fresh_entry_is_served<T>(
    m: Map<Seq<char>, CacheEntry<T>>,
    key: Seq<char>,
    value: T,
    t0: Instant,
    t1: Instant,
    ttl: Duration,
)
    requires
        nanos_since(t0, t1) <= duration_nanos(ttl),
    ensures
        lookup(m.insert(key, stamped(value, t0)), key, t1, ttl) == Some(value),
{
}

/// Storing under one key leaves the lookup of every other key as it was.
pub proof fn lemma_other_keys_untouched<T>(
    m: Map<Seq<char>, CacheEntry<T>>,
    key: Seq<char>,
    other: Seq<char>,
    entry: CacheEntry<T>,
    now: Instant,
    ttl: Duration,
)
    requires
        key != other,
    ensures
        lookup(m.insert(key, entry), other, now, ttl) == lookup(m, other, now, ttl),
{
}

} // verus!
