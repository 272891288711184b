use polymarket_mcp::config::Config;
use polymarket_mcp::markets::{collect_fetched, filter_markets, pause_between};
use polymarket_mcp::models::Market;
use polymarket_mcp::polymarket_client::{Lookup, PolymarketClient, Search};
use polymarket_mcp::retry::{AttemptOutcome, FetchStep};
use std::time::{Duration, Instant};

fn market(id: &str, slug: &str, question: &str, description: &str, prices: [&str; 2]) -> Market {
    Market {
        id: id.to_string(),
        slug: slug.to_string(),
        question: question.to_string(),
        description: Some(description.to_string()),
        active: true,
        closed: false,
        liquidity: "1000".to_string(),
        volume: "2000".to_string(),
        end_date: "2024-12-31T23:59:59Z".to_string(),
        image: None,
        category: Some("Testing".to_string()),
        outcomes: vec!["Yes".to_string(), "No".to_string()],
        outcome_prices: vec![prices[0].to_string(), prices[1].to_string()],
        condition_id: Some("test-condition".to_string()),
        market_type: Some("binary".to_string()),
        twitter_card_image: None,
        icon: None,
        start_date: Some("2024-01-01T00:00:00Z".to_string()),
        volume_24hr: Some("100".to_string()),
        events: None,
        archived: Some(false),
        enable_order_book: Some(true),
        group_item_title: None,
        group_item_slug: None,
    }
}

fn config(base_url: &str, caching: bool) -> Config {
    let mut config = Config::default();
    config.api.base_url = base_url.to_string();
    config.cache.enabled = caching;
    config
}

#[test]
fn test_get_active_markets_success() {
    let mut client = PolymarketClient::new_with_config(&config("http://upstream", false)).unwrap();
    let now = Instant::now();
    let (url, key) = match client.get_active_markets(Some(10), &now) {
        Lookup::Fetch { url, cache_key } => (url, cache_key),
        Lookup::Hit(_) => panic!("nothing was cached"),
    };
    assert_eq!(
        url,
        "http://upstream/markets?limit=10&offset=0&order=liquidity&ascending=false&active=true&archived=false"
    );
    let (mut fetch, step) = client.begin_fetch();
    assert!(matches!(step, FetchStep::Attempt));
    let step = client.record_attempt(&mut fetch, &AttemptOutcome::Decoded);
    assert!(matches!(step, FetchStep::Done));
    let markets = vec![market("test-market-1", "test-market", "Will this test pass?", "A test market", ["0.6", "0.4"])];
    assert_eq!(markets.len(), 1);
    assert_eq!(markets[0].id, "test-market-1");
    assert_eq!(markets[0].question, "Will this test pass?");
    client.store_markets(key, markets, now);
    assert!(matches!(client.get_active_markets(Some(10), &now), Lookup::Fetch { .. }));
}

#[test]
fn test_get_market_by_id_success() {
    let mut client = PolymarketClient::new_with_config(&config("http://upstream", false)).unwrap();
    let now = Instant::now();
    match client.get_market_by_id("test-market-1", &now) {
        Lookup::Fetch { url, cache_key } => {
            assert_eq!(url, "http://upstream/markets/test-market-1");
            assert_eq!(cache_key, "test-market-1");
        }
        Lookup::Hit(_) => panic!("nothing was cached"),
    }
    let market = market("test-market-1", "test-market", "Will this test pass?", "A test market", ["0.6", "0.4"]);
    assert_eq!(market.id, "test-market-1");
    assert_eq!(market.question, "Will this test pass?");
    assert_eq!(market.liquidity.parse::<f64>().unwrap(), 1000.0);
}

#[test]
fn test_api_error_handling() {
    let mut client = PolymarketClient::new_with_config(&config("http://upstream", false)).unwrap();
    let now = Instant::now();
    match client.get_market_by_id("nonexistent", &now) {
        Lookup::Fetch { url, .. } => assert_eq!(url, "http://upstream/markets/nonexistent"),
        Lookup::Hit(_) => panic!("nothing was cached"),
    }
    let (mut fetch, mut step) = client.begin_fetch();
    let mut attempts = 0;
    let result = loop {
        match step {
            FetchStep::Attempt | FetchStep::RetryAfter { .. } => {}
            FetchStep::Done => break Ok(()),
            FetchStep::GiveUp { error } => break Err(error),
        }
        attempts += 1;
        let outcome = AttemptOutcome::Rejected { status: 404, body: "Market not found".to_string() };
        step = client.record_attempt(&mut fetch, &outcome);
    };
    assert!(result.is_err());
    assert_eq!(attempts, 3);
    let text = result.unwrap_err().to_text();
    assert!(text.starts_with("API request failed: HTTP error: Market not found (request_id: "));
    assert_eq!(client.get_metrics().api_requests_failed, 1);
}

#[test]
fn test_search_markets() {
    let mut client = PolymarketClient::new_with_config(&config("http://upstream", false)).unwrap();
    let now = Instant::now();
    match client.search_markets("election", Some(10), &now) {
        Search::Fetch { url, .. } => assert_eq!(
            url,
            "http://upstream/markets?limit=10&offset=0&order=liquidity&ascending=false&active=true&archived=false"
        ),
        Search::Hit(_) => panic!("nothing was cached"),
    }
    let page = vec![market(
        "election-market-1",
        "election-test",
        "Will candidate A win the election?",
        "Election prediction market",
        ["0.55", "0.45"],
    )];
    let markets = filter_markets(&page, "election");
    assert_eq!(markets.len(), 1);
    assert!(markets[0].question.to_lowercase().contains("election"));
}

#[test]
fn test_caching_functionality() {
    let mut config = config("http://upstream", true);
    config.cache.ttl_seconds = 10;
    let mut client = PolymarketClient::new_with_config(&config).unwrap();
    let t0 = Instant::now();
    let mut upstream_calls = 0;
    let key = match client.get_active_markets(Some(50), &t0) {
        Lookup::Fetch { cache_key, .. } => {
            upstream_calls += 1;
            cache_key
        }
        Lookup::Hit(_) => panic!("nothing was cached"),
    };
    let markets1 = vec![market("cached-market-1", "cached-test", "Will caching work?", "A cache test market", ["0.7", "0.3"])];
    client.store_markets(key, markets1.clone(), t0);
    let t1 = t0 + Duration::from_secs(5);
    let markets2 = match client.get_active_markets(Some(50), &t1) {
        Lookup::Hit(cached) => cached.clone(),
        Lookup::Fetch { .. } => {
            upstream_calls += 1;
            Vec::new()
        }
    };
    assert_eq!(upstream_calls, 1);
    assert_eq!(markets1.len(), markets2.len());
    assert_eq!(markets1[0].id, markets2[0].id);
}

#[test]
fn test_batch_requests() {
    let market_ids = vec!["batch-market-1".to_string(), "batch-market-2".to_string()];
    let plan = PolymarketClient::get_markets_batch(&market_ids);
    assert_eq!(plan, vec![(0, 2)]);
    assert!(!pause_between(2, market_ids.len()));
    let results = vec![
        Ok(market("batch-market-1", "batch-1", "Batch test 1?", "First batch market", ["0.6", "0.4"])),
        Ok(market("batch-market-2", "batch-2", "Batch test 2?", "Second batch market", ["0.7", "0.3"])),
    ];
    let markets = collect_fetched(results);
    assert_eq!(markets.len(), 2);
    assert_eq!(markets[0].id, "batch-market-1");
    assert_eq!(markets[1].id, "batch-market-2");
}

#[test]
fn integration_test_test_metrics_collection() {
    let mut client = PolymarketClient::new_with_config(&config("http://upstream", false)).unwrap();
    let now = Instant::now();
    let _ = client.get_active_markets(Some(10), &now);
    let (mut fetch, _) = client.begin_fetch();
    let _ = client.record_attempt(&mut fetch, &AttemptOutcome::Decoded);
    let metrics = client.get_metrics();
    assert!(metrics.api_requests_total > 0);
}
