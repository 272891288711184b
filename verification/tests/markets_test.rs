use polymarket_mcp::error::PolymarketError;
use polymarket_mcp::markets::{
    batch_ranges, collect_fetched, filter_markets, market_prices, pause_between, price_entry, BATCH_PAUSE_MS,
    BATCH_SIZE,
};
use polymarket_mcp::models::Market;

fn plain_market(id: &str, question: &str) -> Market {
    Market {
        id: id.to_string(),
        slug: id.to_string(),
        question: question.to_string(),
        description: None,
        active: true,
        closed: false,
        liquidity: "0".to_string(),
        volume: "0".to_string(),
        end_date: "2025-01-01T00:00:00Z".to_string(),
        image: None,
        category: None,
        outcomes: Vec::new(),
        outcome_prices: Vec::new(),
        condition_id: None,
        market_type: None,
        twitter_card_image: None,
        icon: None,
        start_date: None,
        volume_24hr: None,
        events: None,
        archived: None,
        enable_order_book: None,
        group_item_title: None,
        group_item_slug: None,
    }
}

fn priced_market(outcomes: &[&str], prices: &[&str]) -> Market {
    let mut m = plain_market("m1", "Who wins?");
    m.outcomes = outcomes.iter().map(|s| s.to_string()).collect();
    m.outcome_prices = prices.iter().map(|s| s.to_string()).collect();
    m
}

fn ids(found: &[&Market]) -> Vec<String> {
    found.iter().map(|m| m.id.clone()).collect()
}

#[test]
fn search_is_case_insensitive() {
    let mut with_description = plain_market("b", "Who wins?");
    with_description.description = Some("About the Election of 2024".to_string());
    let mut with_category = plain_market("c", "Rain tomorrow?");
    with_category.category = Some("ELECTIONS".to_string());
    let page = vec![
        plain_market("a", "Will candidate A win the election?"),
        with_description,
        with_category,
        plain_market("d", "Will it snow?"),
    ];
    let upper = filter_markets(&page, "ELECTION");
    let lower = filter_markets(&page, "election");
    let mixed = filter_markets(&page, "eLeCtIoN");
    assert_eq!(ids(&upper), vec!["a", "b", "c"]);
    assert_eq!(ids(&upper), ids(&lower));
    assert_eq!(ids(&upper), ids(&mixed));
}

#[test]
fn search_looks_at_question_description_and_category_only() {
    let mut m = plain_market("slug-has-election", "Rain?");
    m.slug = "election".to_string();
    m.image = Some("election.png".to_string());
    let page = vec![m];
    assert!(filter_markets(&page, "election").is_empty());
    assert_eq!(filter_markets(&page, "").len(), 1);
    assert_eq!(filter_markets(&page, "rain").len(), 1);
    assert!(filter_markets(&Vec::new(), "rain").is_empty());
}

#[test]
fn prices_pair_outcomes_with_their_prices() {
    let m = priced_market(&["Yes", "No"], &["0.6", "0.4"]);
    assert!(m.is_well_formed());
    let prices = market_prices(&m, "m1");
    assert_eq!(prices.len(), 2);
    assert_eq!(prices[0].market_id, "m1");
    assert_eq!(prices[0].outcome_id, "outcome_0");
    assert_eq!(prices[0].price, "0.6");
    assert_eq!(prices[0].price.parse::<f64>().unwrap(), 0.6);
    assert_eq!(prices[1].outcome_id, "outcome_1");
    assert_eq!(prices[1].price, "0.4");
    assert!(chrono::DateTime::parse_from_rfc3339(&prices[0].timestamp).is_ok());
    assert!(prices[0].timestamp.len() >= 25);
    assert!(prices[0].timestamp.ends_with("+00:00"));
}

#[test]
fn unparsable_prices_are_left_out() {
    let m = priced_market(&["A", "B", "C", "D"], &["0.1", "n/a", "", "0.4"]);
    let prices = market_prices(&m, "m1");
    assert_eq!(prices.len(), 2);
    assert_eq!(prices[0].outcome_id, "outcome_0");
    assert_eq!(prices[1].outcome_id, "outcome_3");
    assert_eq!(prices[1].price, "0.4");
}

#[test]
fn price_count_is_bounded_by_outcomes_and_parsable_prices() {
    let more_prices = priced_market(&["A", "B"], &["0.1", "0.2", "0.3"]);
    assert!(!more_prices.is_well_formed());
    assert_eq!(market_prices(&more_prices, "m1").len(), 2);
    let more_outcomes = priced_market(&["A", "B", "C"], &["x", "0.2"]);
    let prices = market_prices(&more_outcomes, "m1");
    assert_eq!(prices.len(), 1);
    assert_eq!(prices[0].outcome_id, "outcome_1");
    assert!(market_prices(&priced_market(&[], &[]), "m1").is_empty());
    assert!(market_prices(&priced_market(&[], &["0.5"]), "m1").is_empty());
}

#[test]
fn outcome_ids_are_decimal() {
    let outcomes: Vec<String> = (0..12).map(|i| format!("o{}", i)).collect();
    let prices: Vec<String> = (0..12).map(|i| format!("0.{}", i)).collect();
    let mut m = plain_market("m1", "Which?");
    m.outcomes = outcomes;
    m.outcome_prices = prices;
    let listed = market_prices(&m, "other-id");
    assert_eq!(listed.len(), 12);
    assert_eq!(listed[9].outcome_id, "outcome_9");
    assert_eq!(listed[10].outcome_id, "outcome_10");
    assert_eq!(listed[11].outcome_id, "outcome_11");
    assert_eq!(listed[11].market_id, "other-id");
    let entry = price_entry("m9", 120, "0.25", "2024-01-01T00:00:00+00:00".to_string());
    assert_eq!(entry.outcome_id, "outcome_120");
    assert_eq!(entry.timestamp, "2024-01-01T00:00:00+00:00");
}

#[test]
fn batches_are_of_ten() {
    assert_eq!(BATCH_SIZE, 10);
    assert_eq!(BATCH_PAUSE_MS, 100);
    assert_eq!(batch_ranges(0), vec![]);
    assert_eq!(batch_ranges(1), vec![(0, 1)]);
    assert_eq!(batch_ranges(10), vec![(0, 10)]);
    assert_eq!(batch_ranges(11), vec![(0, 10), (10, 11)]);
    assert_eq!(batch_ranges(25), vec![(0, 10), (10, 20), (20, 25)]);
    assert_eq!(batch_ranges(30), vec![(0, 10), (10, 20), (20, 30)]);
    assert!(!pause_between(10, 10));
    assert!(pause_between(10, 11));
    assert!(pause_between(10, 25));
    assert!(pause_between(20, 25));
    assert!(!pause_between(25, 25));
    assert!(!pause_between(1, 1));
    for len in [0usize, 1, 9, 10, 11, 20, 25, 30] {
        let ranges = batch_ranges(len);
        let pauses = ranges.iter().filter(|(_, end)| pause_between(*end, len)).count();
        assert_eq!(pauses, ranges.len().saturating_sub(1));
    }
}

#[test]
fn failed_fetches_are_dropped_and_order_is_kept() {
    let results = vec![
        Ok(plain_market("a", "A?")),
        Err(PolymarketError::network_error("down")),
        Ok(plain_market("b", "B?")),
        Err(PolymarketError::api_error("nope", Some(404))),
        Ok(plain_market("c", "C?")),
    ];
    let markets = collect_fetched(results);
    let got: Vec<&str> = markets.iter().map(|m| m.id.as_str()).collect();
    assert_eq!(got, vec!["a", "b", "c"]);
    assert!(collect_fetched(Vec::new()).is_empty());
    assert!(collect_fetched(vec![Err(PolymarketError::network_error("down"))]).is_empty());
}
