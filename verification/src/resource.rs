//! The resource cache: rendered resource texts under their URI, each with
//! an absolute expiry, and the decision of what a resource read does.

use vstd::prelude::*;
use vstd::string::*;
use crate::clock::unix_now;
use crate::text::{skip_chars, starts_with, text_eq};
use crate::text_map::TextMap;

verus! {

/// A rendered text, the second at which it was stored and the second after
/// which it is stale. Seconds count from the Unix epoch.
#[derive(Debug, Clone)]
pub struct ResourceCache {
    pub data: String,
    pub timestamp: u64,
    pub expires_at: u64,
}

/// `now + ttl`, or the largest value where that does not fit in 64 bits: an
/// entry with such an expiry never goes stale.
pub open spec fn expiry(now: u64, ttl_seconds: u64) -> u64 {
    if now + ttl_seconds <= u64::MAX {
        (now + ttl_seconds) as u64
    } else {
        u64::MAX
    }
}

/// The entry for `data` stored at `now` with a life of `ttl_seconds`.
pub open spec fn stored(data: String, now: u64, ttl_seconds: u64) -> ResourceCache {
    ResourceCache { data, timestamp: now, expires_at: expiry(now, ttl_seconds) }
}

impl ResourceCache {
    /// The entry is stale at `now`.
    pub open spec fn expired_at(&self, now: u64) -> bool {
        now > self.expires_at
    }

    /// An entry stored at `now` that lives for `ttl_seconds`.
    pub fn new_at(data: String, now: u64, ttl_seconds: u64) -> (e: ResourceCache)
        ensures
            e == stored(data, now, ttl_seconds),
    {
        let expires_at = match now.checked_add(ttl_seconds) {
            Some(at) => at,
            None => u64::MAX,
        };
        ResourceCache { data, timestamp: now, expires_at }
    }

    /// An entry stored at the current second that lives for `ttl_seconds`.
    pub fn new(data: String, ttl_seconds: u64) -> (e: ResourceCache)
        ensures
            e == stored(data, e.timestamp, ttl_seconds),
    {
        ResourceCache::new_at(data, unix_now(), ttl_seconds)
    }

    /// Tells whether the entry is stale at `now`.
    pub fn is_expired_at(&self, now: u64) -> (r: bool)
        ensures
            r == self.expired_at(now),
    {
        now > self.expires_at
    }

    /// Tells whether the entry is stale by the machine's clock: the answer
    /// is that of `is_expired_at` for the second that the clock gave.
    pub fn is_expired(&self) -> (r: bool)
        ensures
            exists|now: u64| r == #[trigger] self.expired_at(now),
    {
        let now = unix_now();
        let r = self.is_expired_at(now);
        assert(r == self.expired_at(now));
        r
    }
}

/// What a resource URI names.
#[derive(Debug)]
pub enum ResourceKind {
    /// `markets:active`: the twenty first active markets.
    ActiveMarkets,
    /// `markets:trending`: the ten markets with the highest volume.
    TrendingMarkets,
    /// `market:` and an identifier: that market.
    Market { id: String },
}

/// What a URI names, if it names a resource.
pub open spec fn names_resource(uri: Seq<char>, kind: Option<ResourceKind>) -> bool {
    if uri == "markets:active"@ {
        kind matches Some(ResourceKind::ActiveMarkets)
    } else if uri == "markets:trending"@ {
        kind matches Some(ResourceKind::TrendingMarkets)
    } else if "market:"@.is_prefix_of(uri) {
        kind matches Some(ResourceKind::Market { id }) && id@ == uri.skip(7)
    } else {
        kind is None
    }
}

/// Tells what a URI names.
pub fn classify_resource(uri: &str) -> (kind: Option<ResourceKind>)
    ensures
        names_resource(uri@, kind),
{
    if text_eq(uri, "markets:active") {
        Some(ResourceKind::ActiveMarkets)
    } else if text_eq(uri, "markets:trending") {
        Some(ResourceKind::TrendingMarkets)
    } else if starts_with(uri, "market:") {
        proof {
            reveal_strlit("market:");
        }
        Some(ResourceKind::Market { id: skip_chars(uri, 7) })
    } else {
        None
    }
}

/// What a resource read does.
#[derive(Debug)]
pub enum ResourceRead<'a> {
    /// The cache holds the text.
    Cached(&'a str),
    /// The resource must be rendered.
    Render(ResourceKind),
    /// The URI names no resource.
    Unknown,
}

/// The text that the entries serve for `uri` at `now`.
pub open spec fn fresh_text(entries: Map<Seq<char>, ResourceCache>, uri: Seq<char>, now: u64) -> Option<
    Seq<char>,
> {
    if entries.contains_key(uri) && !entries[uri].expired_at(now) {
        Some(entries[uri].data@)
    } else {
        None
    }
}

/// `read` is what reading `uri` at `now` does with the entries.
pub open spec fn is_read_of(
    read: ResourceRead,
    entries: Map<Seq<char>, ResourceCache>,
    uri: Seq<char>,
    now: u64,
) -> bool {
    match fresh_text(entries, uri, now) {
        Some(text) => read matches ResourceRead::Cached(t) && t@ == text,
        None => match read {
            ResourceRead::Cached(_) => false,
            ResourceRead::Render(kind) => names_resource(uri, Some(kind)),
            ResourceRead::Unknown => names_resource(uri, None),
        },
    }
}

/// The entries after `content` was handed in for `uri` at `now`: kept for
/// `ttl_seconds` where caching is on, dropped where it is off.
pub open spec fn kept(
    entries: Map<Seq<char>, ResourceCache>,
    caching: bool,
    uri: Seq<char>,
    content: String,
    now: u64,
    ttl_seconds: u64,
) -> Map<Seq<char>, ResourceCache> {
    if caching {
        entries.insert(uri, stored(content, now, ttl_seconds))
    } else {
        entries
    }
}

/// The rendered resources.
#[derive(Debug)]
pub struct ResourceStore {
    entries: TextMap<ResourceCache>,
    caching: bool,
    ttl_seconds: u64,
}

impl ResourceStore {
    /// The entries, stale ones included.
    pub closed spec fn view(&self) -> Map<Seq<char>, ResourceCache> {
        self.entries@
    }

    /// Whether rendered texts are kept.
    pub closed spec fn caching(&self) -> bool {
        self.caching
    }

    /// The time-to-live of a rendered text, in seconds.
    pub closed spec fn ttl(&self) -> u64 {
        self.ttl_seconds
    }

    /// An empty store.
    pub fn new(caching: bool, ttl_seconds: u64) -> (s: ResourceStore)
        ensures
            s@ == Map::<Seq<char>, ResourceCache>::empty(),
            s.caching() == caching,
            s.ttl() == ttl_seconds,
    {
        ResourceStore { entries: TextMap::new(), caching, ttl_seconds }
    }

    /// Decides what reading `uri` at `now` does: the cache is asked first,
    /// for every URI; a miss is rendered where the URI names a resource.
    pub fn read_at(&self, uri: &str, now: u64) -> (r: ResourceRead<'_>)
        ensures
            is_read_of(r, self@, uri@, now),
    {
        if let Some(entry) = self.entries.get(uri) {
            if !entry.is_expired_at(now) {
                return ResourceRead::Cached(entry.data.as_str());
            }
        }
        match classify_resource(uri) {
            Some(kind) => ResourceRead::Render(kind),
            None => ResourceRead::Unknown,
        }
    }

    /// Decides what reading `uri` does by the machine's clock: the answer is
    /// that of `read_at` for the second that the clock gave.
    pub fn read(&self, uri: &str) -> (r: ResourceRead<'_>)
        ensures
            exists|now: u64| #[trigger] is_read_of(r, self@, uri@, now),
    {
        let now = unix_now();
        let r = self.read_at(uri, now);
        assert(is_read_of(r, self@, uri@, now));
        r
    }

    /// Keeps a rendered text under `uri` as of `now`; does nothing where
    /// caching is off.
    pub fn store_at(&mut self, uri: &str, content: String, now: u64)
        ensures
            final(self).caching() == old(self).caching(),
            final(self).ttl() == old(self).ttl(),
            final(self)@ == kept(old(self)@, old(self).caching(), uri@, content, now, old(self).ttl()),
    {
        if self.caching {
            let entry = ResourceCache::new_at(content, now, self.ttl_seconds);
            self.entries.insert(String::from_str(uri), entry);
        }
    }

    /// Keeps a rendered text under `uri` as of the current second.
    pub fn store(&mut self, uri: &str, content: String)
        ensures
            final(self).caching() == old(self).caching(),
            final(self).ttl() == old(self).ttl(),
            exists|now: u64|
                final(self)@ == #[trigger] kept(
                    old(self)@,
                    old(self).caching(),
                    uri@,
                    content,
                    now,
                    old(self).ttl(),
                ),
    {
        let now = unix_now();
        self.store_at(uri, content, now);
        assert(self@ == kept(old(self)@, old(self).caching(), uri@, content, now, old(self).ttl()));
    }
}

/// A text that was stored at `t0` is served unchanged at every second up to
/// its expiry, without another render.
pub proof fn lemma_stored_resource_is_served(
    entries: Map<Seq<char>, ResourceCache>,
    uri: Seq<char>,
    t0: u64,
    t1: u64,
    ttl_seconds: u64,
)
    requires
        t1 <= t0 + ttl_seconds,
    ensures
        forall|content: String|
            fresh_text(entries.insert(uri, #[trigger] stored(content, t0, ttl_seconds)), uri, t1)
                == Some(content@),
{
}

} // verus!
