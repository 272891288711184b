//! The market repository: for each query it decides whether the cache
//! answers or upstream must be asked, and with which URL; it takes the
//! fetched answer into the cache and keeps the counters. The caller performs
//! the fetch itself, step by step as `retry::Fetch` directs.

use vstd::prelude::*;
use vstd::string::*;
use std::time::Duration;
use std::time::Instant;
use crate::cache::{lookup, stamped, CacheEntry, QueryCache};
use crate::clock::duration_nanos;
use crate::config::Config;
use crate::error::PolymarketError;
use crate::header::{bearer, bearer_text, header_value_error};
use crate::markets::{
    batch_count,
    batch_range,
    batch_ranges,
    filter_markets,
    is_price_of,
    market_matches,
    market_prices,
    pointees,
    priced,
};
use crate::metrics::{bumped, Metrics};
use crate::models::{Market, MarketPrice};
use crate::query::{
    active_query,
    cache_key_text,
    default_query,
    query_text,
    search_query,
    trending_query,
    MarketsQueryParams,
    QueryView,
};
use crate::retry::{
    delays_fit,
    is_begin_of,
    is_range_error,
    is_record_of,
    AttemptOutcome,
    Fetch,
    FetchStep,
    RetryPolicy,
};

verus! {

/// The answer to a query: the cached value, or the fetch to make.
#[derive(Debug)]
pub enum Lookup<'a, T, K> {
    /// The cache answers.
    Hit(&'a T),
    /// Upstream must be asked at `url`; the answer is stored under
    /// `cache_key`: the query itself for a listing, the identifier for a
    /// market.
    Fetch { url: String, cache_key: K },
}

/// A cached listing: the markets, and the query that they answer.
#[derive(Debug)]
pub struct Listing {
    pub query: MarketsQueryParams,
    pub markets: Vec<Market>,
}

/// The listing that holds `markets` as the answer to `query`.
pub open spec fn listing_for(query: MarketsQueryParams, markets: Vec<Market>) -> Listing {
    Listing { query, markets }
}

/// The markets of a listing, where the listing answers the query `q`.
pub open spec fn answer_to(q: QueryView, listing: Option<Listing>) -> Option<Vec<Market>> {
    match listing {
        Some(l) => if l.query@ == q {
            Some(l.markets)
        } else {
            None
        },
        None => None,
    }
}

/// What the cache serves for `key` at `now`: nothing where caching is off.
pub open spec fn served<T>(
    caching: bool,
    entries: Map<Seq<char>, CacheEntry<T>>,
    key: Seq<char>,
    now: Instant,
    ttl: Duration,
) -> Option<T> {
    if caching {
        lookup(entries, key, now, ttl)
    } else {
        None
    }
}

/// The counters after a query: a hit is counted where the cache answered, a
/// miss where it was asked and did not; nothing where caching is off.
pub open spec fn counted(before: Metrics, caching: bool, hit: bool) -> Metrics {
    if hit {
        Metrics { cache_hits: bumped(before.cache_hits), ..before }
    } else if caching {
        Metrics { cache_misses: bumped(before.cache_misses), ..before }
    } else {
        before
    }
}

/// `r` answers a query of which the cache serves `cached`: with what the
/// cache serves, or else with the fetch of `url`, whose answer belongs under
/// `key`.
pub open spec fn is_lookup_of<T, K: View>(
    r: Lookup<T, K>,
    cached: Option<T>,
    url: Seq<char>,
    key: K::V,
) -> bool {
    match cached {
        Some(data) => r matches Lookup::Hit(v) && *v == data,
        None => r matches Lookup::Fetch { url: u, cache_key: k } && u@ == url && k@ == key,
    }
}

/// The URL of a market listing.
pub open spec fn markets_url(base: Seq<char>, q: QueryView) -> Seq<char> {
    base + "/markets"@ + query_text(q)
}

/// The URL of one market.
pub open spec fn market_url(base: Seq<char>, market_id: Seq<char>) -> Seq<char> {
    base + "/markets/"@ + market_id
}

/// The query that is asked: the given one, or the default one.
pub open spec fn effective_query(params: Option<MarketsQueryParams>) -> QueryView {
    match params {
        Some(p) => p@,
        None => default_query(),
    }
}

/// The header value for the token of a configuration, where it has one.
pub open spec fn bearer_of(api_key: Option<String>) -> Option<Seq<char>> {
    match api_key {
        Some(k) => Some(bearer_text(k@)),
        None => None,
    }
}

/// What makes the token of a configuration unusable, if anything.
pub open spec fn key_error(api_key: Option<String>) -> Option<Seq<char>> {
    match api_key {
        Some(k) => header_value_error(bearer_text(k@)),
        None => None,
    }
}

/// The error for a token that cannot be a header value.
pub open spec fn is_key_error(e: PolymarketError, why: Seq<char>) -> bool {
    e matches PolymarketError::ConfigError { message } && message@ == "Invalid API key: "@ + why
}

/// The state of the repository.
#[derive(Debug)]
pub struct PolymarketClient {
    base_url: String,
    authorization: Option<String>,
    policy: RetryPolicy,
    caching: bool,
    cache_ttl: Duration,
    market_cache: QueryCache<Listing>,
    single_market_cache: QueryCache<Market>,
    metrics: Metrics,
}

impl PolymarketClient {
    /// The address of upstream.
    pub closed spec fn base(&self) -> Seq<char> {
        self.base_url@
    }

    /// The `Authorization` header value, where a token is configured.
    pub closed spec fn bearer(&self) -> Option<Seq<char>> {
        match self.authorization {
            Some(a) => Some(a@),
            None => None,
        }
    }

    /// The retry policy.
    pub closed spec fn retry(&self) -> RetryPolicy {
        self.policy
    }

    /// Whether answers are cached.
    pub closed spec fn caching(&self) -> bool {
        self.caching
    }

    /// The time-to-live of a cached answer.
    pub closed spec fn ttl(&self) -> Duration {
        self.cache_ttl
    }

    /// The cached listings.
    pub closed spec fn listings(&self) -> Map<Seq<char>, CacheEntry<Listing>> {
        self.market_cache@
    }

    /// The cached single markets.
    pub closed spec fn singles(&self) -> Map<Seq<char>, CacheEntry<Market>> {
        self.single_market_cache@
    }

    /// The counters.
    pub closed spec fn counters(&self) -> Metrics {
        self.metrics
    }

    /// The markets that the cache serves for the query `q` at `now`: those
    /// of the fresh listing under the key of `q`, where that listing
    /// answers `q` itself.
    pub open spec fn serves_listings(&self, q: QueryView, now: Instant) -> Option<Vec<Market>> {
        answer_to(q, served(self.caching(), self.listings(), cache_key_text(q), now, self.ttl()))
    }

    /// The market that the cache serves for `key` at `now`.
    pub open spec fn serves_market(&self, key: Seq<char>, now: Instant) -> Option<Market> {
        served(self.caching(), self.singles(), key, now, self.ttl())
    }

    /// `r` answers the listing `q`, asked at `now`: with what the cache
    /// serves, or else with the fetch to make. The query leaves the state
    /// `after`: settings and caches as they were, and a hit or a miss counted.
    pub open spec fn answers_listing(
        &self,
        after: &PolymarketClient,
        q: QueryView,
        now: Instant,
        r: Lookup<Vec<Market>, MarketsQueryParams>,
    ) -> bool {
        let cached = self.serves_listings(q, now);
        &&& after.same_settings(self)
        &&& after.same_caches(self)
        &&& after.counters() == counted(self.counters(), self.caching(), cached is Some)
        &&& is_lookup_of(r, cached, markets_url(self.base(), q), q)
    }

    /// `r` answers the query for the market `market_id`, asked at `now`,
    /// and leaves the state `after`.
    pub open spec fn answers_market(
        &self,
        after: &PolymarketClient,
        market_id: Seq<char>,
        now: Instant,
        r: Lookup<Market, String>,
    ) -> bool {
        let cached = self.serves_market(market_id, now);
        &&& after.same_settings(self)
        &&& after.same_caches(self)
        &&& after.counters() == counted(self.counters(), self.caching(), cached is Some)
        &&& is_lookup_of(r, cached, market_url(self.base(), market_id), market_id)
    }

    /// `r` answers the search for `keyword` in the page `q`, asked at
    /// `now`, and leaves the state `after`.
    pub open spec fn answers_search(
        &self,
        after: &PolymarketClient,
        keyword: Seq<char>,
        q: QueryView,
        now: Instant,
        r: Search,
    ) -> bool {
        let cached = self.serves_listings(q, now);
        &&& after.same_settings(self)
        &&& after.same_caches(self)
        &&& after.counters() == counted(self.counters(), self.caching(), cached is Some)
        &&& is_search_of(r, cached, keyword, markets_url(self.base(), q), q)
    }

    /// `r` answers the query for the prices of the market `market_id`,
    /// asked at `now`, and leaves the state `after`.
    pub open spec fn answers_prices(
        &self,
        after: &PolymarketClient,
        market_id: Seq<char>,
        now: Instant,
        r: Prices,
    ) -> bool {
        let cached = self.serves_market(market_id, now);
        &&& after.same_settings(self)
        &&& after.same_caches(self)
        &&& after.counters() == counted(self.counters(), self.caching(), cached is Some)
        &&& is_prices_of(r, cached, market_id, market_url(self.base(), market_id))
    }

    /// The settings agree with those of `other`.
    pub open spec fn same_settings(&self, other: &PolymarketClient) -> bool {
        &&& self.base() == other.base()
        &&& self.bearer() == other.bearer()
        &&& self.retry() == other.retry()
        &&& self.caching() == other.caching()
        &&& self.ttl() == other.ttl()
    }

    /// The caches agree with those of `other`.
    pub open spec fn same_caches(&self, other: &PolymarketClient) -> bool {
        &&& self.listings() == other.listings()
        &&& self.singles() == other.singles()
    }

    /// A repository with empty caches and counters at zero. A token that
    /// cannot be a header value is refused, and so are retry waits that do
    /// not fit in 64 bits; both as configuration errors, the token first.
    pub fn new_with_config(config: &Config) -> (r: Result<PolymarketClient, PolymarketError>)
        ensures
            match r {
                Ok(c) => is_client_of(c, *config),
                Err(e) => is_refusal_of(e, *config),
            },
    {
        let authorization = match &config.api.api_key {
            Some(key) => match bearer(key.as_str()) {
                Ok(value) => Some(value),
                Err(why) => {
                    let mut m = String::from_str("Invalid API key: ");
                    m.append(why.as_str());
                    return Err(PolymarketError::config_error(m.as_str()));
                },
            },
            None => None,
        };
        let policy = match RetryPolicy::new(config.api.max_retries, config.api.retry_delay_ms) {
            Ok(p) => p,
            Err(e) => {
                return Err(e);
            },
        };
        Ok(
            PolymarketClient {
                base_url: config.api.base_url.clone(),
                authorization,
                policy,
                caching: config.cache.enabled,
                cache_ttl: config.cache_ttl(),
                market_cache: QueryCache::new(),
                single_market_cache: QueryCache::new(),
                metrics: Metrics::new(),
            },
        )
    }

    /// The `Authorization` header value to send with every request, where a
    /// token is configured.
    pub fn authorization(&self) -> (r: Option<&str>)
        ensures
            match r {
                Some(a) => self.bearer() == Some(a@),
                None => self.bearer() is None,
            },
    {
        match &self.authorization {
            Some(a) => Some(a.as_str()),
            None => None,
        }
    }

    /// The counters as they stand.
    pub fn get_metrics(&self) -> (m: Metrics)
        ensures
            m == self.counters(),
    {
        self.metrics
    }

    fn listing(&mut self, params: MarketsQueryParams, now: &Instant) -> (r: Lookup<
        '_,
        Vec<Market>,
        MarketsQueryParams,
    >)
        ensures
            old(self).answers_listing(final(self), params@, *now, r),
    {
        if self.caching {
            let cache_key = params.cache_key();
            if let Some(cached) = self.market_cache.get_at(cache_key.as_str(), now, self.cache_ttl) {
                if cached.query.same_as(&params) {
                    self.metrics.increment_cache_hits();
                    return Lookup::Hit(&cached.markets);
                }
            }
            self.metrics.increment_cache_misses();
        }
        let mut url = self.base_url.clone();
        url.append("/markets");
        url.append(params.to_query_string().as_str());
        Lookup::Fetch { url, cache_key: params }
    }

    /// Answers a market listing from the cache, or says which fetch to make.
    /// With no parameters the default query is asked.
    pub fn get_markets(&mut self, params: Option<MarketsQueryParams>, now: &Instant) -> (r: Lookup<
        '_,
        Vec<Market>,
        MarketsQueryParams,
    >)
        ensures
            old(self).answers_listing(final(self), effective_query(params), *now, r),
    {
        let query = match params {
            Some(p) => p,
            None => MarketsQueryParams::default(),
        };
        self.listing(query, now)
    }

    /// Takes the fetched answer to `query` into the cache, as of `now`,
    /// under the key of the query and together with the query; does nothing
    /// where caching is off.
    pub fn store_markets(&mut self, query: MarketsQueryParams, markets: Vec<Market>, now: Instant)
        ensures
            final(self).same_settings(old(self)),
            final(self).singles() == old(self).singles(),
            final(self).counters() == old(self).counters(),
            final(self).listings() == if old(self).caching() {
                old(self).listings().insert(
                    cache_key_text(query@),
                    stamped(listing_for(query, markets), now),
                )
            } else {
                old(self).listings()
            },
    {
        if self.caching {
            let cache_key = query.cache_key();
            self.market_cache.put_at(cache_key, Listing { query, markets }, now);
        }
    }

    /// Answers a query for one market from the cache, or says which fetch to
    /// make. The market's identifier is its cache key.
    pub fn get_market_by_id(&mut self, market_id: &str, now: &Instant) -> (r: Lookup<
        '_,
        Market,
        String,
    >)
        ensures
            old(self).answers_market(final(self), market_id@, *now, r),
    {
        if self.caching {
            if let Some(data) = self.single_market_cache.get_at(market_id, now, self.cache_ttl) {
                self.metrics.increment_cache_hits();
                return Lookup::Hit(data);
            }
            self.metrics.increment_cache_misses();
        }
        let mut url = self.base_url.clone();
        url.append("/markets/");
        url.append(market_id);
        Lookup::Fetch { url, cache_key: String::from_str(market_id) }
    }

    /// Takes a fetched market into the cache under `cache_key`, as of `now`;
    /// does nothing where caching is off.
    pub fn store_market(&mut self, cache_key: String, market: Market, now: Instant)
        ensures
            final(self).same_settings(old(self)),
            final(self).listings() == old(self).listings(),
            final(self).counters() == old(self).counters(),
            final(self).singles() == if old(self).caching() {
                old(self).singles().insert(cache_key@, stamped(market, now))
            } else {
                old(self).singles()
            },
    {
        if self.caching {
            self.single_market_cache.put_at(cache_key, market, now);
        }
    }

    /// Answers the query for the markets with the highest volume.
    pub fn get_trending_markets(&mut self, limit: Option<u32>, now: &Instant) -> (r: Lookup<
        '_,
        Vec<Market>,
        MarketsQueryParams,
    >)
        ensures
            old(self).answers_listing(final(self), trending_query(limit), *now, r),
    {
        let query = MarketsQueryParams::trending(limit);
        self.listing(query, now)
    }

    /// Answers the query for the active markets.
    pub fn get_active_markets(&mut self, limit: Option<u32>, now: &Instant) -> (r: Lookup<
        '_,
        Vec<Market>,
        MarketsQueryParams,
    >)
        ensures
            old(self).answers_listing(final(self), active_query(limit), *now, r),
    {
        let query = MarketsQueryParams::active(limit);
        self.listing(query, now)
    }

    /// Starts a fetch under the repository's retry policy and counts it.
    pub fn begin_fetch(&mut self) -> (r: (Fetch, FetchStep))
        ensures
            final(self).same_settings(old(self)),
            final(self).same_caches(old(self)),
            is_begin_of(
                old(self).retry(),
                old(self).counters(),
                r.0,
                r.1,
                final(self).counters(),
            ),
    {
        Fetch::begin(self.policy, &mut self.metrics)
    }

    /// Takes note of how an attempt of `fetch` ended, and says what follows.
    pub fn record_attempt(&mut self, fetch: &mut Fetch, outcome: &AttemptOutcome) -> (step:
        FetchStep)
        ensures
            final(self).same_settings(old(self)),
            final(self).same_caches(old(self)),
            is_record_of(
                *old(fetch),
                *outcome,
                old(self).counters(),
                *final(fetch),
                step,
                final(self).counters(),
            ),
    {
        fetch.record(outcome, &mut self.metrics)
    }

    /// Answers a keyword search: the page of markets it looks through comes
    /// from the cache, filtered by the keyword, or must be fetched; the
    /// fetched page is then filtered with `filter_markets`. The cache key is
    /// that of the page, whatever the keyword.
    pub fn search_markets(&mut self, keyword: &str, limit: Option<u32>, now: &Instant) -> (r:
        Search<'_>)
        ensures
            old(self).answers_search(final(self), keyword@, search_query(limit), *now, r),
    {
        let query = MarketsQueryParams::search(limit);
        match self.listing(query, now) {
            Lookup::Hit(page) => Search::Hit(filter_markets(page, keyword)),
            Lookup::Fetch { url, cache_key } => Search::Fetch { url, cache_key },
        }
    }

    /// Answers a query for the prices of a market: computed from the cached
    /// market, or the market must be fetched; the prices of the fetched
    /// market are then computed with `market_prices`.
    pub fn get_market_prices(&mut self, market_id: &str, now: &Instant) -> (r: Prices)
        ensures
            old(self).answers_prices(final(self), market_id@, *now, r),
    {
        match self.get_market_by_id(market_id, now) {
            Lookup::Hit(market) => Prices::Hit(market_prices(market, market_id)),
            Lookup::Fetch { url, cache_key } => Prices::Fetch { url, cache_key },
        }
    }

    /// Plans the fetch of several markets: the positions of `market_ids`
    /// that each batch covers. The fetches of one batch run side by side;
    /// `pause_between` tells whether a pause follows a batch, and
    /// `collect_fetched` gathers what the fetches brought.
    pub fn get_markets_batch(market_ids: &Vec<String>) -> (r: Vec<(usize, usize)>)
        ensures
            r@.len() == batch_count(market_ids@.len()),
            forall|k: int|
                0 <= k < r@.len() ==> (#[trigger] r@[k].0 as nat, r@[k].1 as nat) == batch_range(
                    market_ids@.len(),
                    k as nat,
                ),
    {
        batch_ranges(market_ids.len())
    }
}

/// `c` is the repository that a usable configuration makes: it has the
/// settings of the configuration, empty caches and counters at zero.
pub open spec fn is_client_of(c: PolymarketClient, config: Config) -> bool {
    &&& key_error(config.api.api_key) is None
    &&& delays_fit(config.api.max_retries as nat, config.api.retry_delay_ms as nat)
    &&& c.base() == config.api.base_url@
    &&& c.bearer() == bearer_of(config.api.api_key)
    &&& c.retry().max_attempts() == config.api.max_retries
    &&& c.retry().base_delay() == config.api.retry_delay_ms
    &&& c.caching() == config.cache.enabled
    &&& duration_nanos(c.ttl()) == config.cache.ttl_seconds * 1_000_000_000
    &&& c.listings() == Map::<Seq<char>, CacheEntry<Listing>>::empty()
    &&& c.singles() == Map::<Seq<char>, CacheEntry<Market>>::empty()
    &&& c.counters() == (Metrics {
        api_requests_total: 0,
        api_requests_failed: 0,
        cache_hits: 0,
        cache_misses: 0,
    })
}

/// `e` is the error that an unusable configuration is refused with: that of
/// the token where the token cannot be a header value, else that of the
/// retry waits, which then do not fit in 64 bits.
pub open spec fn is_refusal_of(e: PolymarketError, config: Config) -> bool {
    match key_error(config.api.api_key) {
        Some(why) => is_key_error(e, why),
        None => !delays_fit(config.api.max_retries as nat, config.api.retry_delay_ms as nat)
            && is_range_error(e),
    }
}

/// The answer to a keyword search: the matching markets of the cached page,
/// or the fetch of the page.
#[derive(Debug)]
pub enum Search<'a> {
    Hit(Vec<&'a Market>),
    Fetch { url: String, cache_key: MarketsQueryParams },
}

/// The answer to a query for prices: the prices of the cached market, or the
/// fetch of the market.
#[derive(Debug)]
pub enum Prices {
    Hit(Vec<MarketPrice>),
    Fetch { url: String, cache_key: String },
}

/// `r` answers a search for `keyword` of which the cache serves the page
/// `cached`: with the markets of the page that match, in their order, or
/// else with the fetch of the page.
pub open spec fn is_search_of(
    r: Search,
    cached: Option<Vec<Market>>,
    keyword: Seq<char>,
    url: Seq<char>,
    key: QueryView,
) -> bool {
    match cached {
        Some(page) => r matches Search::Hit(found) && pointees(found@) == page@.filter(
            |m: Market| market_matches(m, keyword),
        ),
        None => r matches Search::Fetch { url: u, cache_key: k } && u@ == url && k@ == key,
    }
}

/// `r` answers a query for the prices of `market_id` of which the cache
/// serves the market `cached`: with the prices of that market, or else with
/// the fetch of the market, which belongs under its identifier.
pub open spec fn is_prices_of(r: Prices, cached: Option<Market>, market_id: Seq<char>, url: Seq<char>) -> bool {
    match cached {
        Some(market) => r matches Prices::Hit(prices) && are_prices_of(prices@, market, market_id),
        None => r matches Prices::Fetch { url: u, cache_key: k } && u@ == url && k@ == market_id,
    }
}

/// `prices` are the prices of `market`, asked for as `market_id`: one entry
/// for each outcome whose price denotes a number, in the order of the outcomes.
pub open spec fn are_prices_of(prices: Seq<MarketPrice>, market: Market, market_id: Seq<char>) -> bool {
    &&& prices.len() == priced(market, market.outcomes@.len() as int).len()
    &&& forall|k: int|
        0 <= k < prices.len() ==> is_price_of(
            #[trigger] prices[k],
            market,
            market_id,
            priced(market, market.outcomes@.len() as int)[k],
        )
}

/// With caching on, a listing that was stored at `t0` answers the same
/// query at every `t1` within the time-to-live: the answer is the stored
/// page, and no upstream call is made. `stored` is the repository after the
/// page was stored, `after` the one that the second query leaves.
pub proof fn lemma_repeated_query_is_served(
    before: PolymarketClient,
    stored: PolymarketClient,
    after: PolymarketClient,
    query: MarketsQueryParams,
    page: Vec<Market>,
    t0: Instant,
    t1: Instant,
    r: Lookup<Vec<Market>, MarketsQueryParams>,
)
    requires
        before.caching(),
        stored.same_settings(&before),
        stored.listings() == before.listings().insert(
            cache_key_text(query@),
            stamped(listing_for(query, page), t0),
        ),
        crate::clock::nanos_since(t0, t1) <= duration_nanos(before.ttl()),
        stored.answers_listing(&after, query@, t1, r),
    ensures
        r matches Lookup::Hit(v) && *v == page,
        after.counters().cache_hits == bumped(stored.counters().cache_hits),
        after.counters().cache_misses == stored.counters().cache_misses,
{
}

/// With caching off, every query is answered with a fetch: each one makes
/// its own upstream call, and neither a hit nor a miss is counted.
pub proof fn lemma_uncached_query_is_fetched(
    client: PolymarketClient,
    after: PolymarketClient,
    q: QueryView,
    now: Instant,
    r: Lookup<Vec<Market>, MarketsQueryParams>,
)
    requires
        !client.caching(),
        client.answers_listing(&after, q, now, r),
    ensures
        r is Fetch,
        after.counters() == client.counters(),
{
}

/// A cached answer is served to the query that it was stored for, and to
/// no other: storing the answer to one query leaves what the cache serves
/// to every different query as it was, whatever the keys of the two are.
/// A query that differs from every stored one makes its own fetch.
pub proof fn lemma_answers_belong_to_their_query(
    before: PolymarketClient,
    stored: PolymarketClient,
    query: MarketsQueryParams,
    page: Vec<Market>,
    t0: Instant,
    other: QueryView,
    t1: Instant,
)
    requires
        stored.same_settings(&before),
        stored.listings() == before.listings().insert(
            cache_key_text(query@),
            stamped(listing_for(query, page), t0),
        ),
        other != query@,
    ensures
        stored.serves_listings(other, t1) is Some ==> stored.serves_listings(other, t1)
            == before.serves_listings(other, t1),
        before.serves_listings(other, t1) is None ==> stored.serves_listings(other, t1) is None,
{
}

/// Among the markets that honour the filters of the active-markets query
/// there is none that is archived, and none that is not active.
pub proof fn lemma_active_listing_excludes_archived(limit: Option<u32>, m: Market)
    requires
        crate::markets::honours_filters(active_query(limit), m),
    ensures
        m.archived != Some(true),
        m.active,
{
}

} // verus!
