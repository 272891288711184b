use polymarket_mcp::cache::CacheEntry;
use polymarket_mcp::config::Config;
use polymarket_mcp::polymarket_client::PolymarketClient;
use std::time::{Duration, Instant};

fn create_test_config() -> Config {
    let mut config = Config::default();
    config.api.base_url = "http://localhost:3000".to_string();
    config.cache.enabled = false;
    config
}

#[test]
fn test_client_creation() {
    let config = create_test_config();
    let client = PolymarketClient::new_with_config(&config);
    assert!(client.is_ok());
}

#[test]
fn polymarket_client_test_metrics_collection() {
    let config = create_test_config();
    let client = PolymarketClient::new_with_config(&config).unwrap();
    let initial_metrics = client.get_metrics();
    assert_eq!(initial_metrics.api_requests_total, 0);
    assert_eq!(initial_metrics.cache_hits, 0);
}

#[test]
fn test_cache_entry_expiration() {
    let entry = CacheEntry::new("test_data".to_string());

    assert!(!entry.is_expired(Duration::from_secs(1)));

    let start = Instant::now();
    while start.elapsed() < Duration::from_millis(10) {}
    assert!(!entry.is_expired(Duration::from_secs(1)));
    assert!(entry.is_expired(Duration::from_millis(5)));
}
