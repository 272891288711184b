//! What the core is configured with: where upstream is, how to retry, and
//! how long answers are kept.

use vstd::prelude::*;
use vstd::string::*;
use std::time::Duration;
use crate::clock::{duration_nanos, seconds};

verus! {

/// How upstream is reached.
#[derive(Debug, Clone)]
pub struct ApiConfig {
    pub base_url: String,
    /// The bearer token, where upstream wants one.
    pub api_key: Option<String>,
    pub timeout_seconds: u64,
    /// The largest number of attempts of one fetch.
    pub max_retries: u32,
    /// The base of the waits between attempts.
    pub retry_delay_ms: u64,
}

/// How answers are kept.
#[derive(Debug, Clone)]
pub struct CacheConfig {
    pub enabled: bool,
    /// The time-to-live of a cached query, in seconds.
    pub ttl_seconds: u64,
    /// The time-to-live of a rendered resource, in seconds.
    pub resource_ttl_seconds: u64,
}

/// The configuration of the core.
#[derive(Debug, Clone)]
pub struct Config {
    pub api: ApiConfig,
    pub cache: CacheConfig,
}

impl Default for Config {
    /// The public upstream without a token, three attempts from a base of
    /// 100 ms, and caching for one minute (resources: five).
    fn default() -> (c: Config)
        ensures
            c.api.base_url@ == "https://gamma-api.polymarket.com"@,
            c.api.api_key is None,
            c.api.timeout_seconds == 30,
            c.api.max_retries == 3,
            c.api.retry_delay_ms == 100,
            c.cache.enabled,
            c.cache.ttl_seconds == 60,
            c.cache.resource_ttl_seconds == 300,
    {
        Config {
            api: ApiConfig {
                base_url: String::from_str("https://gamma-api.polymarket.com"),
                api_key: None,
                timeout_seconds: 30,
                max_retries: 3,
                retry_delay_ms: 100,
            },
            cache: CacheConfig { enabled: true, ttl_seconds: 60, resource_ttl_seconds: 300 },
        }
    }
}

impl Config {
    /// The time-to-live of a cached query.
    pub fn cache_ttl(&self) -> (d: Duration)
        ensures
            duration_nanos(d) == self.cache.ttl_seconds * 1_000_000_000,
    {
        seconds(self.cache.ttl_seconds)
    }

    /// The time-to-live of a rendered resource.
    pub fn resource_cache_ttl(&self) -> (d: Duration)
        ensures
            duration_nanos(d) == self.cache.resource_ttl_seconds * 1_000_000_000,
    {
        seconds(self.cache.resource_ttl_seconds)
    }

    /// The time allowed to one HTTP call.
    pub fn api_timeout(&self) -> (d: Duration)
        ensures
            duration_nanos(d) == self.api.timeout_seconds * 1_000_000_000,
    {
        seconds(self.api.timeout_seconds)
    }
}

} // verus!
