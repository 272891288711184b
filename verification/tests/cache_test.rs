use polymarket_mcp::cache::{CacheEntry, QueryCache};
use polymarket_mcp::resource::{classify_resource, ResourceCache, ResourceKind, ResourceRead, ResourceStore};
use polymarket_mcp::text_map::TextMap;
use std::time::{Duration, Instant};

#[test]
fn entry_expires_strictly_after_its_ttl() {
    let t0 = Instant::now();
    let entry = CacheEntry::new_at(7u32, t0);
    let ttl = Duration::from_secs(10);
    assert_eq!(entry.data, 7);
    assert!(!entry.is_expired_at(&t0, ttl));
    assert!(!entry.is_expired_at(&(t0 + Duration::from_secs(10)), ttl));
    assert!(entry.is_expired_at(&(t0 + Duration::from_secs(10) + Duration::from_nanos(1)), ttl));
    assert!(!entry.is_expired_at(&t0, Duration::ZERO));
    assert!(!entry.is_expired_at(&entry.timestamp, Duration::ZERO));
    assert!(entry.is_expired_at(&(t0 + Duration::from_nanos(1)), Duration::ZERO));
    let later = CacheEntry::new_at(7u32, t0 + Duration::from_secs(1));
    assert!(!later.is_expired_at(&t0, Duration::ZERO));
}

#[test]
fn query_cache_serves_fresh_values_only() {
    let mut cache: QueryCache<String> = QueryCache::new();
    let t0 = Instant::now();
    let ttl = Duration::from_secs(60);
    assert!(cache.get_at("k", &t0, ttl).is_none());
    cache.put_at("k".to_string(), "v1".to_string(), t0);
    assert_eq!(cache.get_at("k", &(t0 + Duration::from_secs(60)), ttl), Some(&"v1".to_string()));
    assert!(cache.get_at("k", &(t0 + Duration::from_secs(61)), ttl).is_none());
    assert!(cache.get_at("other", &t0, ttl).is_none());
    cache.put_at("k".to_string(), "v2".to_string(), t0 + Duration::from_secs(61));
    assert_eq!(cache.get_at("k", &(t0 + Duration::from_secs(100)), ttl), Some(&"v2".to_string()));
    cache.put("now".to_string(), "v3".to_string());
    assert_eq!(cache.get("now", ttl), Some(&"v3".to_string()));
    assert!(cache.get("missing", ttl).is_none());
}

#[test]
fn text_map_overwrites_and_keeps_other_keys() {
    let mut map: TextMap<u32> = TextMap::new();
    assert!(map.get("a").is_none());
    map.insert("a".to_string(), 1);
    map.insert("b".to_string(), 2);
    map.insert("a".to_string(), 3);
    assert_eq!(map.get("a"), Some(&3));
    assert_eq!(map.get("b"), Some(&2));
    assert!(map.get("A").is_none());
    assert!(map.get("").is_none());
}

#[test]
fn resource_entry_expires_strictly_after_its_expiry() {
    let entry = ResourceCache::new_at("text".to_string(), 1000, 60);
    assert_eq!(entry.data, "text");
    assert_eq!(entry.timestamp, 1000);
    assert_eq!(entry.expires_at, 1060);
    assert!(!entry.is_expired_at(1000));
    assert!(!entry.is_expired_at(1060));
    assert!(entry.is_expired_at(1061));
    let forever = ResourceCache::new_at("text".to_string(), u64::MAX - 1, 60);
    assert_eq!(forever.expires_at, u64::MAX);
    assert!(!forever.is_expired_at(u64::MAX));
}

#[test]
fn resource_entry_by_the_clock() {
    let entry = ResourceCache::new("text".to_string(), 3600);
    assert_eq!(entry.expires_at, entry.timestamp + 3600);
    assert!(entry.timestamp > 1_600_000_000);
    assert!(!entry.is_expired());
    let stale = ResourceCache::new_at("text".to_string(), 0, 1);
    assert!(stale.is_expired());
}

#[test]
fn resource_uris() {
    assert!(matches!(classify_resource("markets:active"), Some(ResourceKind::ActiveMarkets)));
    assert!(matches!(classify_resource("markets:trending"), Some(ResourceKind::TrendingMarkets)));
    match classify_resource("market:m1") {
        Some(ResourceKind::Market { id }) => assert_eq!(id, "m1"),
        other => panic!("expected a market, got {:?}", other),
    }
    match classify_resource("market:été:1") {
        Some(ResourceKind::Market { id }) => assert_eq!(id, "été:1"),
        other => panic!("expected a market, got {:?}", other),
    }
    match classify_resource("market:") {
        Some(ResourceKind::Market { id }) => assert_eq!(id, ""),
        other => panic!("expected a market, got {:?}", other),
    }
    assert!(classify_resource("markets:closed").is_none());
    assert!(classify_resource("market").is_none());
    assert!(classify_resource("").is_none());
    assert!(classify_resource("Market:m1").is_none());
}

#[test]
fn second_read_within_ttl_is_served_from_the_cache() {
    let mut store = ResourceStore::new(true, 300);
    let mut renders = 0;
    match store.read_at("market:m1", 1000) {
        ResourceRead::Render(ResourceKind::Market { id }) => {
            assert_eq!(id, "m1");
            renders += 1;
        }
        other => panic!("expected a render, got {:?}", other),
    }
    store.store_at("market:m1", "{\"id\":\"m1\"}".to_string(), 1000);
    match store.read_at("market:m1", 1300) {
        ResourceRead::Cached(text) => assert_eq!(text, "{\"id\":\"m1\"}"),
        other => panic!("expected the cached text, got {:?}", other),
    }
    assert_eq!(renders, 1);
    assert!(matches!(store.read_at("market:m1", 1301), ResourceRead::Render(_)));
    assert!(matches!(store.read_at("market:m2", 1000), ResourceRead::Render(_)));
    assert!(matches!(store.read_at("nothing", 1000), ResourceRead::Unknown));
}

#[test]
fn resource_store_without_caching_keeps_nothing() {
    let mut store = ResourceStore::new(false, 300);
    store.store_at("markets:active", "[]".to_string(), 1000);
    assert!(matches!(store.read_at("markets:active", 1000), ResourceRead::Render(ResourceKind::ActiveMarkets)));
    let mut by_clock = ResourceStore::new(true, 300);
    by_clock.store("markets:trending", "[]".to_string());
    assert!(matches!(by_clock.read("markets:trending"), ResourceRead::Cached("[]")));
    assert!(matches!(by_clock.read("markets:active"), ResourceRead::Render(ResourceKind::ActiveMarkets)));
}
