//! Counters of the adapter's traffic. They only grow, and stay at the largest
//! representable value once they reach it.

use vstd::prelude::*;

verus! {

/// The counters: upstream requests made and failed, cache hits and misses.
#[derive(Debug, Clone, Copy, PartialEq, Eq, Structural)]
pub struct Metrics {
    pub api_requests_total: u64,
    pub api_requests_failed: u64,
    pub cache_hits: u64,
    pub cache_misses: u64,
}

/// One more than `n`, unless `n` is the largest value.
pub open spec fn bumped(n: u64) -> u64 {
    if n < u64::MAX {
        (n + 1) as u64
    } else {
        n
    }
}

fn bump(n: u64) -> (r: u64)
    ensures
        r == bumped(n),
{
    if n < u64::MAX {
        n + 1
    } else {
        n
    }
}

impl Metrics {
    /// All counters at zero.
    pub fn new() -> (m: Metrics)
        ensures
            m == (Metrics {
                api_requests_total: 0,
                api_requests_failed: 0,
                cache_hits: 0,
                cache_misses: 0,
            }),
    {
        Metrics { api_requests_total: 0, api_requests_failed: 0, cache_hits: 0, cache_misses: 0 }
    }

    /// Counts one logical upstream request.
    pub fn increment_api_requests(&mut self)
        ensures
            *final(self) == (Metrics {
                api_requests_total: bumped(old(self).api_requests_total),
                ..*old(self)
            }),
    {
        self.api_requests_total = bump(self.api_requests_total);
    }

    /// Counts one logical upstream request of which every attempt failed.
    pub fn increment_api_failures(&mut self)
        ensures
            *final(self) == (Metrics {
                api_requests_failed: bumped(old(self).api_requests_failed),
                ..*old(self)
            }),
    {
        self.api_requests_failed = bump(self.api_requests_failed);
    }

    /// Counts one query answered from the cache.
    pub fn increment_cache_hits(&mut self)
        ensures
            *final(self) == (Metrics { cache_hits: bumped(old(self).cache_hits), ..*old(self) }),
    {
        self.cache_hits = bump(self.cache_hits);
    }

    /// Counts one query that the cache could not answer.
    pub fn increment_cache_misses(&mut self)
        ensures
            *final(self) == (Metrics { cache_misses: bumped(old(self).cache_misses), ..*old(self) }),
    {
        self.cache_misses = bump(self.cache_misses);
    }
}

} // verus!
