use polymarket_mcp::dispatch::{narrow, parse_line, route, route_line, PromptCall, Request, Route, ToolCall};
use polymarket_mcp::resource::ResourceKind;
use polymarket_mcp::server::{
    envelope, finish_prompt, finish_resource, finish_tool, handle_line, plan, queries_of, question_of,
    resource_list, tool_list, unknown_tool, Handling, Job, Plan, Query, Response, ServerError,
    METHOD_NOT_FOUND,
};
use polymarket_mcp::error::PolymarketError;
use polymarket_mcp::config::Config;
use polymarket_mcp::models::{Market, McpPromptContent};
use polymarket_mcp::polymarket_client::{Lookup, PolymarketClient};
use std::time::Instant;

fn market(id: &str) -> Market {
    Market {
        id: id.to_string(),
        slug: id.to_string(),
        question: "Rain?".to_string(),
        description: None,
        active: true,
        closed: false,
        liquidity: "0".to_string(),
        volume: "0".to_string(),
        end_date: "2025-01-01T00:00:00Z".to_string(),
        image: None,
        category: None,
        outcomes: Vec::new(),
        outcome_prices: Vec::new(),
        condition_id: None,
        market_type: None,
        twitter_card_image: None,
        icon: None,
        start_date: None,
        volume_24hr: None,
        events: None,
        archived: None,
        enable_order_book: None,
        group_item_title: None,
        group_item_slug: None,
    }
}

#[test]
fn tool_call_line_is_answered_with_the_rendered_markets() {
    let line = r#"{"method":"tools/call","id":1,"params":{"name":"get_active_markets","arguments":{"limit":5}}}"#;
    match route_line(line) {
        Route::CallTool(ToolCall::ActiveMarkets { limit }) => assert_eq!(limit, Some(5)),
        other => panic!("expected a tool call, got {:?}", other),
    }
    let (id, job) = match handle_line(line) {
        Handling::Work { id, job } => (id, job),
        other => panic!("expected work, got {:?}", other),
    };
    assert_eq!(id, Some(serde_json::Value::from(1)));
    let mut questions = queries_of(&job);
    assert_eq!(questions.len(), 1);
    let question = match questions.pop() {
        Some(Query::Listing(params)) => params,
        other => panic!("expected a listing, got {:?}", other),
    };
    assert_eq!(question.limit, Some(5));
    let mut config = Config::default();
    config.api.base_url = "http://upstream".to_string();
    let mut client = PolymarketClient::new_with_config(&config).unwrap();
    let now = Instant::now();
    let mut upstream_calls = 0;
    let key = match client.get_markets(Some(question), &now) {
        Lookup::Fetch { url, cache_key } => {
            upstream_calls += 1;
            assert_eq!(
                url,
                "http://upstream/markets?limit=5&offset=0&order=liquidity&ascending=false&active=true&archived=false"
            );
            cache_key
        }
        Lookup::Hit(_) => panic!("nothing was cached"),
    };
    assert_eq!(upstream_calls, 1);
    client.store_markets(key, vec![market("m1")], now);
    let list = tool_list(vec![market("m1")], None);
    assert_eq!(list.count, 1);
    assert_eq!(list.markets[0].id, "m1");
    assert!(list.markets[0].active);
    assert!(list.keyword.is_none() && list.last_updated.is_none());
    let mut m1 = serde_json::Map::new();
    m1.insert("id".to_string(), serde_json::Value::from(list.markets[0].id.clone()));
    m1.insert("active".to_string(), serde_json::Value::from(list.markets[0].active));
    let mut blob = serde_json::Map::new();
    blob.insert("markets".to_string(), serde_json::Value::Array(vec![serde_json::Value::Object(m1)]));
    blob.insert("count".to_string(), serde_json::Value::from(list.count));
    let text = serde_json::to_string_pretty(&serde_json::Value::Object(blob)).unwrap();
    let answer = envelope(id, finish_tool(Ok(text.clone())));
    assert_eq!(answer.id, Some(serde_json::Value::from(1)));
    match answer.response {
        Response::Tool(reply) => {
            assert_eq!(reply.text, text);
            assert!(!reply.is_error);
            let shown: serde_json::Value = serde_json::from_str(&reply.text).unwrap();
            assert_eq!(shown["count"].as_u64(), Some(1));
            assert_eq!(shown["markets"][0]["id"].as_str(), Some("m1"));
        }
        other => panic!("expected a tool reply, got {:?}", other),
    }
}

#[test]
fn lists_carry_their_count() {
    let searched = tool_list(vec![market("a"), market("b")], Some("rain".to_string()));
    assert_eq!(searched.count, 2);
    assert_eq!(searched.keyword.as_deref(), Some("rain"));
    assert!(searched.last_updated.is_none());
    let rendered = resource_list(vec![market("a"), market("b"), market("c")]);
    assert_eq!(rendered.count, 3);
    assert!(rendered.keyword.is_none());
    let stamp = rendered.last_updated.unwrap();
    assert!(stamp.ends_with("+00:00"));
    assert!(chrono::DateTime::parse_from_rfc3339(&stamp).is_ok());
    assert_eq!(resource_list(Vec::new()).count, 0);
}

#[test]
fn the_answer_echoes_the_id_of_the_request() {
    match handle_line(r#"{"method":"does/not/exist","id":3}"#) {
        Handling::Reply(answer) => {
            assert_eq!(answer.jsonrpc, "2.0");
            assert_eq!(answer.id, Some(serde_json::Value::from(3)));
            assert!(matches!(answer.response, Response::Error { code: -32601, .. }));
        }
        other => panic!("expected a reply, got {:?}", other),
    }
    match handle_line(r#"{"method":"tools/call","id":"abc","params":{}}"#) {
        Handling::Reply(answer) => {
            assert_eq!(answer.id, Some(serde_json::Value::from("abc")));
            assert!(matches!(answer.response, Response::Tool(reply) if reply.is_error));
        }
        other => panic!("expected a reply, got {:?}", other),
    }
    match handle_line(r#"{"method":"tools/list"}"#) {
        Handling::Reply(answer) => assert!(answer.id.is_none()),
        other => panic!("expected a reply, got {:?}", other),
    }
    match handle_line(r#"{"method":"resources/read","id":[1,{"a":null}],"params":{"uri":"market:m1"}}"#) {
        Handling::Work { id, job: Job::ReadResource { uri } } => {
            assert_eq!(uri, "market:m1");
            let tagged = envelope(id, finish_resource(&uri, Ok("{}".to_string())));
            assert_eq!(serde_json::to_string(&tagged.id).unwrap(), r#"[1,{"a":null}]"#);
            assert_eq!(tagged.jsonrpc, "2.0");
        }
        other => panic!("expected work, got {:?}", other),
    }
    assert!(matches!(handle_line(r#"{"method":"notifications/cancelled","id":9}"#), Handling::Silent));
    assert!(matches!(handle_line("{"), Handling::Silent));
    assert!(matches!(handle_line(r#"{"id":9}"#), Handling::Silent));
}

#[test]
fn unknown_tool_is_answered_as_an_error_text() {
    let line = r#"{"method":"tools/call","id":7,"params":{"name":"unknown_tool"}}"#;
    match plan(route_line(line)) {
        Plan::Reply(Response::Tool(reply)) => {
            assert!(reply.is_error);
            assert_eq!(reply.text, "Unknown tool: unknown_tool");
        }
        other => panic!("expected a reply, got {:?}", other),
    }
    let reply = unknown_tool("x");
    assert_eq!(reply.text, "Unknown tool: x");
    assert!(reply.is_error);
}

#[test]
fn every_tool_is_routed() {
    let details = r#"{"method":"tools/call","params":{"name":"get_market_details","arguments":{"market_id":"m1"}}}"#;
    assert!(matches!(route_line(details), Route::CallTool(ToolCall::MarketDetails { market_id }) if market_id == "m1"));
    let search = r#"{"method":"tools/call","params":{"name":"search_markets","arguments":{"keyword":"rain","limit":3}}}"#;
    assert!(matches!(
        route_line(search),
        Route::CallTool(ToolCall::SearchMarkets { keyword, limit: Some(3) }) if keyword == "rain"
    ));
    let prices = r#"{"method":"tools/call","params":{"name":"get_market_prices","arguments":{"market_id":"m2"}}}"#;
    assert!(matches!(route_line(prices), Route::CallTool(ToolCall::MarketPrices { market_id }) if market_id == "m2"));
    let trending = r#"{"method":"tools/call","params":{"name":"get_trending_markets"}}"#;
    assert!(matches!(route_line(trending), Route::CallTool(ToolCall::TrendingMarkets { limit: None })));
    let active = r#"{"method":"tools/call","params":{"name":"get_active_markets","arguments":{"limit":"5"}}}"#;
    assert!(matches!(route_line(active), Route::CallTool(ToolCall::ActiveMarkets { limit: None })));
}

#[test]
fn lines_that_are_no_request_and_notifications_get_no_answer() {
    assert!(matches!(route_line("not json"), Route::Ignore));
    assert!(matches!(route_line(""), Route::Ignore));
    assert!(matches!(route_line(r#"{"id":1}"#), Route::Ignore));
    assert!(matches!(route_line(r#"{"method":5}"#), Route::Ignore));
    assert!(matches!(route_line(r#"[1,2]"#), Route::Ignore));
    assert!(matches!(route_line(r#"{"method":"notifications/initialized"}"#), Route::Ignore));
    assert!(matches!(route_line(r#"{"method":"notifications/","id":3}"#), Route::Ignore));
    assert!(matches!(plan(Route::Ignore), Plan::Silent));
}

fn tool_error_of(line: &str) -> String {
    match plan(route_line(line)) {
        Plan::Reply(Response::Tool(reply)) => {
            assert!(reply.is_error);
            reply.text
        }
        other => panic!("expected a tool reply, got {:?}", other),
    }
}

#[test]
fn requests_that_lack_what_they_need_are_answered_with_the_failure() {
    assert!(matches!(route_line(r#"{"method":"tools/call","id":4,"params":{}}"#), Route::CallTool(ToolCall::MissingName)));
    assert_eq!(tool_error_of(r#"{"method":"tools/call","id":4,"params":{}}"#), "Error: name argument is required");
    assert_eq!(tool_error_of(r#"{"method":"tools/call"}"#), "Error: name argument is required");
    assert_eq!(tool_error_of(r#"{"method":"tools/call","params":{"name":7}}"#), "Error: name argument is required");
    assert_eq!(
        tool_error_of(r#"{"method":"tools/call","params":{"name":"get_market_details"}}"#),
        "Error: market_id argument is required"
    );
    assert_eq!(
        tool_error_of(r#"{"method":"tools/call","params":{"name":"get_market_prices","arguments":{"market_id":5}}}"#),
        "Error: market_id argument is required"
    );
    assert_eq!(
        tool_error_of(r#"{"method":"tools/call","params":{"name":"search_markets","arguments":{"limit":1}}}"#),
        "Error: keyword argument is required"
    );
    assert!(matches!(route_line(r#"{"method":"resources/read","id":4}"#), Route::MissingUri));
    match plan(route_line(r#"{"method":"resources/read","params":{}}"#)) {
        Plan::Reply(Response::Contents { contents, error }) => {
            assert!(contents.is_empty());
            assert_eq!(error.as_deref(), Some("Error reading resource: uri argument is required"));
        }
        other => panic!("expected a failure, got {:?}", other),
    }
    assert!(matches!(
        route_line(r#"{"method":"prompts/get","params":{}}"#),
        Route::GetPrompt(PromptCall::MissingName)
    ));
    match plan(route_line(r#"{"method":"prompts/get","params":{}}"#)) {
        Plan::Reply(Response::Messages { messages, error }) => {
            assert!(messages.is_empty());
            assert_eq!(error.as_deref(), Some("Error getting prompt: name argument is required"));
        }
        other => panic!("expected a failure, got {:?}", other),
    }
}

#[test]
fn every_line_with_a_method_that_is_no_notification_is_answered() {
    let lines = [
        r#"{"method":"initialize"}"#,
        r#"{"method":"tools/list"}"#,
        r#"{"method":"tools/call"}"#,
        r#"{"method":"tools/call","params":{"name":"get_market_details"}}"#,
        r#"{"method":"tools/call","params":{"name":"nope"}}"#,
        r#"{"method":"resources/list"}"#,
        r#"{"method":"resources/read"}"#,
        r#"{"method":"resources/read","params":{"uri":"x"}}"#,
        r#"{"method":"prompts/list"}"#,
        r#"{"method":"prompts/get"}"#,
        r#"{"method":"prompts/get","params":{"name":"analyze_market"}}"#,
        r#"{"method":"anything/else"}"#,
        r#"{"method":""}"#,
        r#"{"method":"notification"}"#,
    ];
    for line in lines {
        assert!(!matches!(plan(route_line(line)), Plan::Silent), "{}", line);
    }
}

#[test]
fn jobs_put_their_questions_to_the_repository() {
    let listing_limit = |q: &Query| match q {
        Query::Listing(p) => (p.limit, p.order.clone(), p.active, p.archived),
        other => panic!("expected a listing, got {:?}", other),
    };
    let qs = queries_of(&Job::ActiveMarkets { limit: Some(5) });
    assert_eq!(qs.len(), 1);
    assert_eq!(listing_limit(&qs[0]), (Some(5), Some("liquidity".to_string()), Some(true), Some(false)));
    let qs = queries_of(&Job::TrendingMarkets { limit: None });
    assert_eq!(listing_limit(&qs[0]), (Some(10), Some("volume".to_string()), Some(true), Some(false)));
    let qs = queries_of(&Job::MarketSummary { limit: 5 });
    assert_eq!(qs.len(), 2);
    assert_eq!(listing_limit(&qs[0]), (Some(5), Some("volume".to_string()), Some(true), Some(false)));
    assert_eq!(listing_limit(&qs[1]), (Some(5), Some("liquidity".to_string()), Some(true), Some(false)));
    let qs = queries_of(&Job::AnalyzeMarket { market_id: "m1".to_string() });
    assert_eq!(qs.len(), 2);
    assert!(matches!(&qs[0], Query::Market { market_id } if market_id == "m1"));
    assert!(matches!(&qs[1], Query::Prices { market_id } if market_id == "m1"));
    let qs = queries_of(&Job::FindArbitrage { keyword: "rain".to_string(), limit: 10 });
    assert!(matches!(&qs[0], Query::Search { keyword, limit: Some(10) } if keyword == "rain"));
    let qs = queries_of(&Job::SearchMarkets { keyword: "rain".to_string(), limit: None });
    assert!(matches!(&qs[0], Query::Search { keyword, limit: None } if keyword == "rain"));
    assert!(matches!(&queries_of(&Job::MarketDetails { market_id: "m2".to_string() })[0], Query::Market { market_id } if market_id == "m2"));
    assert!(matches!(&queries_of(&Job::MarketPrices { market_id: "m2".to_string() })[0], Query::Prices { market_id } if market_id == "m2"));
    assert!(queries_of(&Job::ReadResource { uri: "markets:active".to_string() }).is_empty());
    assert_eq!(listing_limit(&question_of(&ResourceKind::ActiveMarkets)), (Some(20), Some("liquidity".to_string()), Some(true), Some(false)));
    assert_eq!(listing_limit(&question_of(&ResourceKind::TrendingMarkets)), (Some(10), Some("volume".to_string()), Some(true), Some(false)));
    assert!(matches!(question_of(&ResourceKind::Market { id: "m1".to_string() }), Query::Market { market_id } if market_id == "m1"));
}

#[test]
fn unknown_method_is_a_protocol_error() {
    match plan(route_line(r#"{"method":"does/not/exist","id":3}"#)) {
        Plan::Reply(Response::Error { code, message }) => {
            assert_eq!(code, -32601);
            assert_eq!(code, METHOD_NOT_FOUND);
            assert_eq!(message, "Method not found");
        }
        other => panic!("expected a protocol error, got {:?}", other),
    }
    assert!(matches!(route_line(r#"{"method":"notification/x"}"#), Route::MethodNotFound));
    assert!(matches!(route_line(r#"{"method":"Initialize"}"#), Route::MethodNotFound));
    assert!(matches!(route_line(r#"{"method":""}"#), Route::MethodNotFound));
}

#[test]
fn static_methods_are_answered_at_once() {
    match plan(route_line(r#"{"method":"initialize","id":0}"#)) {
        Plan::Reply(Response::Initialize(info)) => {
            assert_eq!(info.protocol_version, "2024-11-05");
            assert_eq!(info.capabilities, vec!["tools", "resources", "prompts"]);
            assert_eq!(info.name, "polymarket-mcp");
            assert_eq!(info.version, "0.1.0");
        }
        other => panic!("expected the identity, got {:?}", other),
    }
    match plan(route_line(r#"{"method":"tools/list"}"#)) {
        Plan::Reply(Response::Tools(tools)) => assert_eq!(tools.len(), 5),
        other => panic!("expected the tools, got {:?}", other),
    }
    match plan(route_line(r#"{"method":"resources/list"}"#)) {
        Plan::Reply(Response::Resources { resources, error }) => {
            assert_eq!(resources.len(), 2);
            assert!(error.is_none());
        }
        other => panic!("expected the resources, got {:?}", other),
    }
    match plan(route_line(r#"{"method":"prompts/list"}"#)) {
        Plan::Reply(Response::Prompts { prompts, error }) => {
            assert_eq!(prompts.len(), 3);
            assert!(error.is_none());
        }
        other => panic!("expected the prompts, got {:?}", other),
    }
}

#[test]
fn resource_reads_are_planned_and_framed() {
    match plan(route_line(r#"{"method":"resources/read","params":{"uri":"market:m1"}}"#)) {
        Plan::Work(Job::ReadResource { uri }) => assert_eq!(uri, "market:m1"),
        other => panic!("expected work, got {:?}", other),
    }
    match finish_resource("market:m1", Ok("{}".to_string())) {
        Response::Contents { contents, error } => {
            assert!(error.is_none());
            assert_eq!(contents.len(), 1);
            assert_eq!(contents[0].uri, "market:m1");
            assert_eq!(contents[0].mime_type, "application/json");
            assert_eq!(contents[0].text.as_deref(), Some("{}"));
            assert!(contents[0].blob.is_none());
        }
        other => panic!("expected contents, got {:?}", other),
    }
    match finish_resource("x:y", Err(ServerError::UnknownResource { uri: "x:y".to_string() })) {
        Response::Contents { contents, error } => {
            assert!(contents.is_empty());
            assert_eq!(error.as_deref(), Some("Error reading resource: Unknown resource URI: x:y"));
        }
        other => panic!("expected contents, got {:?}", other),
    }
}

#[test]
fn prompts_are_routed_with_their_defaults() {
    let analyze = r#"{"method":"prompts/get","params":{"name":"analyze_market","arguments":{"market_id":"m1"}}}"#;
    assert!(matches!(plan(route_line(analyze)), Plan::Work(Job::AnalyzeMarket { market_id }) if market_id == "m1"));
    let arbitrage = r#"{"method":"prompts/get","params":{"name":"find_arbitrage","arguments":{"keyword":"rain"}}}"#;
    assert!(matches!(
        plan(route_line(arbitrage)),
        Plan::Work(Job::FindArbitrage { keyword, limit: 10 }) if keyword == "rain"
    ));
    let summary = r#"{"method":"prompts/get","params":{"name":"market_summary"}}"#;
    assert!(matches!(plan(route_line(summary)), Plan::Work(Job::MarketSummary { limit: 5 })));
    let limited = r#"{"method":"prompts/get","params":{"name":"market_summary","arguments":{"limit":2}}}"#;
    assert!(matches!(route_line(limited), Route::GetPrompt(PromptCall::MarketSummary { limit: 2 })));
}

#[test]
fn prompt_failures_are_answered_with_their_reason() {
    let cases = [
        (r#"{"method":"prompts/get","params":{"name":"analyze_market"}}"#, "Error getting prompt: market_id argument is required"),
        (r#"{"method":"prompts/get","params":{"name":"find_arbitrage","arguments":{}}}"#, "Error getting prompt: keyword argument is required"),
        (r#"{"method":"prompts/get","params":{"name":"nope"}}"#, "Error getting prompt: Unknown prompt: nope"),
    ];
    for (line, expected) in cases {
        match plan(route_line(line)) {
            Plan::Reply(Response::Messages { messages, error }) => {
                assert!(messages.is_empty());
                assert_eq!(error.as_deref(), Some(expected));
            }
            other => panic!("expected a failure, got {:?}", other),
        }
    }
    match finish_prompt(Ok("Analyze".to_string())) {
        Response::Messages { messages, error } => {
            assert!(error.is_none());
            assert_eq!(messages.len(), 1);
            assert_eq!(messages[0].role, "user");
            assert!(matches!(&messages[0].content, McpPromptContent::Text(t) if t == "Analyze"));
        }
        other => panic!("expected messages, got {:?}", other),
    }
}

#[test]
fn tool_failures_are_error_texts() {
    let failure = ServerError::Upstream(PolymarketError::network_error("down"));
    match finish_tool(Err(failure)) {
        Response::Tool(reply) => {
            assert_eq!(reply.text, "Error: Network error: down");
            assert!(reply.is_error);
        }
        other => panic!("expected a tool reply, got {:?}", other),
    }
    assert_eq!(ServerError::MissingArgument { name: "keyword".to_string() }.to_text(), "keyword argument is required");
    assert_eq!(ServerError::UnknownPrompt { name: "p".to_string() }.to_text(), "Unknown prompt: p");
    assert_eq!(ServerError::Render { detail: "key must be a string".to_string() }.to_text(), "key must be a string");
}

#[test]
fn limits_keep_their_low_32_bits() {
    assert_eq!(narrow(None), None);
    assert_eq!(narrow(Some(5)), Some(5));
    assert_eq!(narrow(Some(4294967295)), Some(4294967295));
    assert_eq!(narrow(Some(4294967296)), Some(0));
    assert_eq!(narrow(Some(4294967301)), Some(5));
    assert_eq!(narrow(Some(u64::MAX)), Some(u32::MAX));
    let line = r#"{"method":"tools/call","params":{"name":"get_trending_markets","arguments":{"limit":4294967298}}}"#;
    assert!(matches!(route_line(line), Route::CallTool(ToolCall::TrendingMarkets { limit: Some(2) })));
    let negative = r#"{"method":"tools/call","params":{"name":"get_trending_markets","arguments":{"limit":-1}}}"#;
    assert!(matches!(route_line(negative), Route::CallTool(ToolCall::TrendingMarkets { limit: None })));
    let fraction = r#"{"method":"tools/call","params":{"name":"get_trending_markets","arguments":{"limit":2.5}}}"#;
    assert!(matches!(route_line(fraction), Route::CallTool(ToolCall::TrendingMarkets { limit: None })));
}

#[test]
fn request_fields_are_read_from_their_places() {
    let line = r#"{"method":"m","id":"x","name":"top","params":{"name":"n","uri":"u","market_id":"wrong","arguments":{"market_id":"id","keyword":"k","limit":9}}}"#;
    let value = parse_line(line).unwrap();
    let request = Request::from_value(&value);
    assert_eq!(request.method.as_deref(), Some("m"));
    assert_eq!(request.name.as_deref(), Some("n"));
    assert_eq!(request.uri.as_deref(), Some("u"));
    assert_eq!(request.market_id.as_deref(), Some("id"));
    assert_eq!(request.keyword.as_deref(), Some("k"));
    assert_eq!(request.limit, Some(9));
    assert!(matches!(route(request), Route::MethodNotFound));
    assert!(parse_line("{").is_none());
    let bare = Request::from_value(&parse_line(r#"{"params":"text"}"#).unwrap());
    assert!(bare.method.is_none() && bare.name.is_none() && bare.limit.is_none());
}
