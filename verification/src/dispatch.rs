//! The protocol dispatcher's decisions: what a request line asks for, and
//! which operation answers it. One request is read per line. A line that is
//! no JSON or has no method is no request, and a notification expects no
//! answer; every other request is answered, also where it lacks what its
//! method needs.

use vstd::prelude::*;
use vstd::string::*;
use serde_json::Value;
use crate::json::{
    as_text,
    as_unsigned,
    copy_of,
    json_member,
    json_parsed,
    json_text,
    json_unsigned,
    member,
    parse,
};
use crate::text::{plain_text, starts_with, text_eq};

verus! {

/// What the dispatcher reads from a request: its id, which the answer
/// echoes, its method, and from its parameters the name, the URI and the
/// arguments that the operations take.
#[derive(Debug)]
pub struct Request {
    pub id: Option<Value>,
    pub method: Option<String>,
    pub name: Option<String>,
    pub uri: Option<String>,
    pub market_id: Option<String>,
    pub keyword: Option<String>,
    pub limit: Option<u64>,
}

/// A request with its texts as character sequences.
pub struct RequestView {
    pub id: Option<Value>,
    pub method: Option<Seq<char>>,
    pub name: Option<Seq<char>>,
    pub uri: Option<Seq<char>>,
    pub market_id: Option<Seq<char>>,
    pub keyword: Option<Seq<char>>,
    pub limit: Option<u64>,
}

impl View for Request {
    type V = RequestView;

    open spec fn view(&self) -> RequestView {
        RequestView {
            id: self.id,
            method: plain_text(self.method),
            name: plain_text(self.name),
            uri: plain_text(self.uri),
            market_id: plain_text(self.market_id),
            keyword: plain_text(self.keyword),
            limit: self.limit,
        }
    }
}

/// The member of an optional object under a key.
pub open spec fn member_of(v: Option<Value>, key: Seq<char>) -> Option<Value> {
    match v {
        Some(x) => json_member(x, key),
        None => None,
    }
}

/// The text of the member of an optional object under a key, where that
/// member is a string.
pub open spec fn text_at(v: Option<Value>, key: Seq<char>) -> Option<Seq<char>> {
    match member_of(v, key) {
        Some(m) => json_text(m),
        None => None,
    }
}

/// The number of the member of an optional object under a key, where that
/// member is an unsigned integer.
pub open spec fn unsigned_at(v: Option<Value>, key: Seq<char>) -> Option<u64> {
    match member_of(v, key) {
        Some(m) => json_unsigned(m),
        None => None,
    }
}

/// What a decoded message says as a request.
pub open spec fn request_of(v: Value) -> RequestView {
    let params = json_member(v, "params"@);
    let arguments = member_of(params, "arguments"@);
    RequestView {
        id: json_member(v, "id"@),
        method: text_at(Some(v), "method"@),
        name: text_at(params, "name"@),
        uri: text_at(params, "uri"@),
        market_id: text_at(arguments, "market_id"@),
        keyword: text_at(arguments, "keyword"@),
        limit: unsigned_at(arguments, "limit"@),
    }
}

fn text_member(v: Option<&Value>, key: &str) -> (r: Option<String>)
    ensures
        plain_text(r) == text_at(
            match v {
                Some(x) => Some(*x),
                None => None,
            },
            key@,
        ),
{
    match v {
        Some(x) => match member(x, key) {
            Some(m) => match as_text(m) {
                Some(t) => Some(String::from_str(t)),
                None => None,
            },
            None => None,
        },
        None => None,
    }
}

fn unsigned_member(v: Option<&Value>, key: &str) -> (r: Option<u64>)
    ensures
        r == unsigned_at(
            match v {
                Some(x) => Some(*x),
                None => None,
            },
            key@,
        ),
{
    match v {
        Some(x) => match member(x, key) {
            Some(m) => as_unsigned(m),
            None => None,
        },
        None => None,
    }
}

/// Decodes a line as a JSON value; a line that is no JSON gives nothing.
pub fn parse_line(line: &str) -> (r: Option<Value>)
    ensures
        r == json_parsed(line@),
{
    parse(line)
}

impl Request {
    /// Reads the request out of a decoded message.
    pub fn from_value(v: &Value) -> (r: Request)
        ensures
            r@ == request_of(*v),
    {
        let params = member(v, "params");
        let arguments = match params {
            Some(p) => member(p, "arguments"),
            None => None,
        };
        let id = match member(v, "id") {
            Some(id) => Some(copy_of(id)),
            None => None,
        };
        Request {
            id,
            method: text_member(Some(v), "method"),
            name: text_member(params, "name"),
            uri: text_member(params, "uri"),
            market_id: text_member(arguments, "market_id"),
            keyword: text_member(arguments, "keyword"),
            limit: unsigned_member(arguments, "limit"),
        }
    }
}

/// A tool call with its arguments, or what it lacks.
#[derive(Debug)]
pub enum ToolCall {
    ActiveMarkets { limit: Option<u32> },
    MarketDetails { market_id: String },
    SearchMarkets { keyword: String, limit: Option<u32> },
    MarketPrices { market_id: String },
    TrendingMarkets { limit: Option<u32> },
    /// The call names no tool.
    MissingName,
    /// The tool needs a market, and none is given.
    MissingMarketId,
    /// The tool needs a keyword, and none is given.
    MissingKeyword,
    /// A name that no tool has.
    Unknown { name: String },
}

/// A prompt request with its arguments, or what it lacks.
#[derive(Debug)]
pub enum PromptCall {
    AnalyzeMarket { market_id: String },
    FindArbitrage { keyword: String, limit: u32 },
    MarketSummary { limit: u32 },
    /// The request names no prompt.
    MissingName,
    /// `analyze_market` without its market.
    MissingMarketId,
    /// `find_arbitrage` without its keyword.
    MissingKeyword,
    /// A name that no prompt has.
    Unknown { name: String },
}

/// Which operation answers a request.
#[derive(Debug)]
pub enum Route {
    /// No answer is given.
    Ignore,
    Initialize,
    ListTools,
    CallTool(ToolCall),
    ListResources,
    ReadResource { uri: String },
    /// A resource read that names no resource.
    MissingUri,
    ListPrompts,
    GetPrompt(PromptCall),
    /// The method is unknown: a protocol error answers.
    MethodNotFound,
}

/// A limit as the operations take it: the low 32 bits of the number given.
pub open spec fn narrowed(limit: Option<u64>) -> Option<u32> {
    match limit {
        Some(l) => Some((l % 0x1_0000_0000) as u32),
        None => None,
    }
}

/// The narrowed limit, or `fallback` where none is given.
pub open spec fn narrowed_or(limit: Option<u64>, fallback: u32) -> u32 {
    match narrowed(limit) {
        Some(l) => l,
        None => fallback,
    }
}

/// `call` is the tool call that the request makes.
pub open spec fn is_tool_call_of(req: RequestView, call: ToolCall) -> bool {
    match req.name {
        None => call is MissingName,
        Some(name) => if name == "get_active_markets"@ {
            call matches ToolCall::ActiveMarkets { limit } && limit == narrowed(req.limit)
        } else if name == "get_market_details"@ {
            match req.market_id {
                Some(id) => call matches ToolCall::MarketDetails { market_id } && market_id@ == id,
                None => call is MissingMarketId,
            }
        } else if name == "search_markets"@ {
            match req.keyword {
                Some(k) => call matches ToolCall::SearchMarkets { keyword, limit } && keyword@ == k
                    && limit == narrowed(req.limit),
                None => call is MissingKeyword,
            }
        } else if name == "get_market_prices"@ {
            match req.market_id {
                Some(id) => call matches ToolCall::MarketPrices { market_id } && market_id@ == id,
                None => call is MissingMarketId,
            }
        } else if name == "get_trending_markets"@ {
            call matches ToolCall::TrendingMarkets { limit } && limit == narrowed(req.limit)
        } else {
            call matches ToolCall::Unknown { name: n } && n@ == name
        },
    }
}

/// `call` is the prompt request that the request makes.
pub open spec fn is_prompt_call_of(req: RequestView, call: PromptCall) -> bool {
    match req.name {
        None => call is MissingName,
        Some(name) => if name == "analyze_market"@ {
            match req.market_id {
                Some(id) => call matches PromptCall::AnalyzeMarket { market_id } && market_id@ == id,
                None => call is MissingMarketId,
            }
        } else if name == "find_arbitrage"@ {
            match req.keyword {
                Some(k) => call matches PromptCall::FindArbitrage { keyword, limit } && keyword@ == k
                    && limit == narrowed_or(req.limit, 10),
                None => call is MissingKeyword,
            }
        } else if name == "market_summary"@ {
            call matches PromptCall::MarketSummary { limit } && limit == narrowed_or(req.limit, 5)
        } else {
            call matches PromptCall::Unknown { name: n } && n@ == name
        },
    }
}

/// The request expects an answer: it has a method, and the method is no
/// notification.
pub open spec fn expects_answer(req: RequestView) -> bool {
    req.method matches Some(method) && !"notifications/"@.is_prefix_of(method)
}

/// `route` is the operation that answers the request.
pub open spec fn is_route_of(req: RequestView, route: Route) -> bool {
    match req.method {
        None => route is Ignore,
        Some(method) => if "notifications/"@.is_prefix_of(method) {
            route is Ignore
        } else if method == "initialize"@ {
            route is Initialize
        } else if method == "tools/list"@ {
            route is ListTools
        } else if method == "tools/call"@ {
            route matches Route::CallTool(call) && is_tool_call_of(req, call)
        } else if method == "resources/list"@ {
            route is ListResources
        } else if method == "resources/read"@ {
            match req.uri {
                Some(u) => route matches Route::ReadResource { uri } && uri@ == u,
                None => route is MissingUri,
            }
        } else if method == "prompts/list"@ {
            route is ListPrompts
        } else if method == "prompts/get"@ {
            route matches Route::GetPrompt(call) && is_prompt_call_of(req, call)
        } else {
            route is MethodNotFound
        },
    }
}

/// The low 32 bits of a limit.
pub fn narrow(limit: Option<u64>) -> (r: Option<u32>)
    ensures
        r == narrowed(limit),
{
    match limit {
        Some(l) => {
            let low: u32 = #[verifier::truncate]
            (l as u32);
            assert(l as u32 == l % 0x1_0000_0000) by (bit_vector);
            Some(low)
        },
        None => None,
    }
}

fn narrow_or(limit: Option<u64>, fallback: u32) -> (r: u32)
    ensures
        r == narrowed_or(limit, fallback),
{
    match narrow(limit) {
        Some(l) => l,
        None => fallback,
    }
}

/// Tells which tool call a request makes.
pub fn tool_call(name: Option<String>, market_id: Option<String>, keyword: Option<String>, limit: Option<u64>) -> (call: ToolCall)
    ensures
        is_tool_call_of(
            RequestView {
                id: None,
                method: None,
                name: plain_text(name),
                uri: None,
                market_id: plain_text(market_id),
                keyword: plain_text(keyword),
                limit,
            },
            call,
        ),
{
    let name = match name {
        Some(n) => n,
        None => {
            return ToolCall::MissingName;
        },
    };
    if text_eq(name.as_str(), "get_active_markets") {
        ToolCall::ActiveMarkets { limit: narrow(limit) }
    } else if text_eq(name.as_str(), "get_market_details") {
        match market_id {
            Some(market_id) => ToolCall::MarketDetails { market_id },
            None => ToolCall::MissingMarketId,
        }
    } else if text_eq(name.as_str(), "search_markets") {
        match keyword {
            Some(keyword) => ToolCall::SearchMarkets { keyword, limit: narrow(limit) },
            None => ToolCall::MissingKeyword,
        }
    } else if text_eq(name.as_str(), "get_market_prices") {
        match market_id {
            Some(market_id) => ToolCall::MarketPrices { market_id },
            None => ToolCall::MissingMarketId,
        }
    } else if text_eq(name.as_str(), "get_trending_markets") {
        ToolCall::TrendingMarkets { limit: narrow(limit) }
    } else {
        ToolCall::Unknown { name }
    }
}

/// Tells which prompt request a request makes.
pub fn prompt_call(name: Option<String>, market_id: Option<String>, keyword: Option<String>, limit: Option<u64>) -> (call: PromptCall)
    ensures
        is_prompt_call_of(
            RequestView {
                id: None,
                method: None,
                name: plain_text(name),
                uri: None,
                market_id: plain_text(market_id),
                keyword: plain_text(keyword),
                limit,
            },
            call,
        ),
{
    let name = match name {
        Some(n) => n,
        None => {
            return PromptCall::MissingName;
        },
    };
    if text_eq(name.as_str(), "analyze_market") {
        match market_id {
            Some(market_id) => PromptCall::AnalyzeMarket { market_id },
            None => PromptCall::MissingMarketId,
        }
    } else if text_eq(name.as_str(), "find_arbitrage") {
        match keyword {
            Some(keyword) => PromptCall::FindArbitrage { keyword, limit: narrow_or(limit, 10) },
            None => PromptCall::MissingKeyword,
        }
    } else if text_eq(name.as_str(), "market_summary") {
        PromptCall::MarketSummary { limit: narrow_or(limit, 5) }
    } else {
        PromptCall::Unknown { name }
    }
}

/// Tells which operation answers a request. A request is ignored exactly
/// where it expects no answer: every request with a method that is no
/// notification is routed to an operation or to an error that answers it.
pub fn route(request: Request) -> (r: Route)
    ensures
        is_route_of(request@, r),
        r is Ignore <==> !expects_answer(request@),
{
    let Request { id: _, method, name, uri, market_id, keyword, limit } = request;
    let method = match method {
        Some(m) => m,
        None => {
            return Route::Ignore;
        },
    };
    let m = method.as_str();
    if starts_with(m, "notifications/") {
        Route::Ignore
    } else if text_eq(m, "initialize") {
        Route::Initialize
    } else if text_eq(m, "tools/list") {
        Route::ListTools
    } else if text_eq(m, "tools/call") {
        Route::CallTool(tool_call(name, market_id, keyword, limit))
    } else if text_eq(m, "resources/list") {
        Route::ListResources
    } else if text_eq(m, "resources/read") {
        match uri {
            Some(uri) => Route::ReadResource { uri },
            None => Route::MissingUri,
        }
    } else if text_eq(m, "prompts/list") {
        Route::ListPrompts
    } else if text_eq(m, "prompts/get") {
        Route::GetPrompt(prompt_call(name, market_id, keyword, limit))
    } else {
        Route::MethodNotFound
    }
}

/// Tells which operation answers a request line: a line that is no JSON
/// gets no answer, any other is routed as the request it holds.
pub fn route_line(line: &str) -> (r: Route)
    ensures
        match json_parsed(line@) {
            Some(v) => is_route_of(request_of(v), r) && (r is Ignore <==> !expects_answer(
                request_of(v),
            )),
            None => r is Ignore,
        },
{
    match parse_line(line) {
        Some(v) => route(Request::from_value(&v)),
        None => Route::Ignore,
    }
}

/// Every request that expects an answer is routed to one: the route of a
/// request is `Ignore` exactly where the request has no method or is a
/// notification, whatever else it holds or lacks.
pub proof fn lemma_every_request_is_answered(req: RequestView, route: Route)
    requires
        is_route_of(req, route),
    ensures
        route is Ignore <==> !expects_answer(req),
{
}

} // verus!
