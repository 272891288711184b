//! The server: it plans the answer to each request, and frames what the
//! operations brought into the response. Answers that need no upstream data
//! are given at once; for the others the plan names the work, and the
//! caller hands its result back.

use vstd::prelude::*;
use vstd::string::*;
use crate::catalog::{
    list_prompts,
    list_resources,
    list_tools,
    prompt_catalog,
    prompt_text,
    resource_catalog,
    resource_text,
    is_identity,
    server_info,
    tool_catalog,
    ServerInfo,
    ToolSpec,
};
use crate::clock::{is_utc_stamp, timestamp_now};
use crate::config::Config;
use crate::dispatch::{
    expects_answer,
    is_route_of,
    parse_line,
    request_of,
    route,
    PromptCall,
    Request,
    RequestView,
    Route,
    ToolCall,
};
use crate::json::json_parsed;
use serde_json::Value;
use crate::error::{error_text, PolymarketError};
use crate::models::{
    Market,
    McpPrompt,
    McpPromptContent,
    McpPromptMessage,
    McpResource,
    McpResourceContent,
};
use crate::polymarket_client::PolymarketClient;
use crate::polymarket_client::{is_client_of, is_refusal_of};
use crate::text::plain_text;
use crate::query::{active_query, trending_query, MarketsQueryParams, QueryView};
use crate::resource::{
    is_read_of,
    kept,
    ResourceCache,
    ResourceKind,
    ResourceRead,
    ResourceStore,
};

verus! {

/// Why an operation of the server failed.
#[derive(Debug)]
pub enum ServerError {
    /// The repository failed.
    Upstream(PolymarketError),
    /// The URI names no resource.
    UnknownResource { uri: String },
    /// The name is that of no prompt.
    UnknownPrompt { name: String },
    /// A required argument is absent.
    MissingArgument { name: String },
    /// The result could not be rendered.
    Render { detail: String },
}

/// The one-line rendering of a server error.
pub open spec fn server_error_text(e: ServerError) -> Seq<char> {
    match e {
        ServerError::Upstream(inner) => error_text(inner),
        ServerError::UnknownResource { uri } => "Unknown resource URI: "@ + uri@,
        ServerError::UnknownPrompt { name } => "Unknown prompt: "@ + name@,
        ServerError::MissingArgument { name } => name@ + " argument is required"@,
        ServerError::Render { detail } => detail@,
    }
}

impl ServerError {
    /// The one-line rendering of this error.
    pub fn to_text(&self) -> (r: String)
        ensures
            r@ == server_error_text(*self),
    {
        match self {
            ServerError::Upstream(inner) => inner.to_text(),
            ServerError::UnknownResource { uri } => {
                let mut s = String::from_str("Unknown resource URI: ");
                s.append(uri.as_str());
                s
            },
            ServerError::UnknownPrompt { name } => {
                let mut s = String::from_str("Unknown prompt: ");
                s.append(name.as_str());
                s
            },
            ServerError::MissingArgument { name } => {
                let mut s = name.clone();
                s.append(" argument is required");
                s
            },
            ServerError::Render { detail } => detail.clone(),
        }
    }
}

/// The text content that answers a tool call. A failed call is an answer
/// too, marked as an error; it is never a protocol error.
#[derive(Debug)]
pub struct ToolReply {
    pub text: String,
    pub is_error: bool,
}

/// The code of the protocol error for an unknown method.
pub const METHOD_NOT_FOUND: i32 = -32601;

/// What a response carries.
#[derive(Debug)]
pub enum Response {
    Initialize(ServerInfo),
    Tools(Vec<ToolSpec>),
    Tool(ToolReply),
    Resources { resources: Vec<McpResource>, error: Option<String> },
    Contents { contents: Vec<McpResourceContent>, error: Option<String> },
    Prompts { prompts: Vec<McpPrompt>, error: Option<String> },
    Messages { messages: Vec<McpPromptMessage>, error: Option<String> },
    /// A protocol error.
    Error { code: i32, message: String },
}

/// The work that an answer waits for.
#[derive(Debug)]
pub enum Job {
    ActiveMarkets { limit: Option<u32> },
    MarketDetails { market_id: String },
    SearchMarkets { keyword: String, limit: Option<u32> },
    MarketPrices { market_id: String },
    TrendingMarkets { limit: Option<u32> },
    ReadResource { uri: String },
    AnalyzeMarket { market_id: String },
    FindArbitrage { keyword: String, limit: u32 },
    MarketSummary { limit: u32 },
}

/// What the server does with a request.
#[derive(Debug)]
pub enum Plan {
    /// No line is written.
    Silent,
    /// The response is written at once.
    Reply(Response),
    /// The work is done, and its result framed into the response.
    Work(Job),
}

/// `reply` says that the tool `name` is unknown.
pub open spec fn is_unknown_tool_reply(reply: ToolReply, name: Seq<char>) -> bool {
    reply.text@ == "Unknown tool: "@ + name && reply.is_error
}

/// `reply` says that a tool call failed, with `reason`.
pub open spec fn is_tool_failure(reply: ToolReply, reason: Seq<char>) -> bool {
    reply.text@ == "Error: "@ + reason && reply.is_error
}

/// `r` answers a prompt request that cannot be served, with `reason`.
pub open spec fn is_prompt_failure(r: Response, reason: Seq<char>) -> bool {
    r matches Response::Messages { messages, error } && messages@.len() == 0 && plain_text(error)
        == Some("Error getting prompt: "@ + reason)
}

/// `r` answers a resource read that failed, with `reason`.
pub open spec fn is_read_failure(r: Response, reason: Seq<char>) -> bool {
    r matches Response::Contents { contents, error } && contents@.len() == 0 && plain_text(error)
        == Some("Error reading resource: "@ + reason)
}

/// `plan` is what the server does with a request that routes to `route`.
pub open spec fn is_plan_of(route: Route, plan: Plan) -> bool {
    match route {
        Route::Ignore => plan is Silent,
        Route::Initialize => plan matches Plan::Reply(Response::Initialize(info)) && is_identity(
            info,
        ),
        Route::ListTools => plan matches Plan::Reply(Response::Tools(tools)) && tools@.map_values(
            |t: ToolSpec| t@,
        ) == tool_catalog(),
        Route::CallTool(call) => match call {
            ToolCall::ActiveMarkets { limit } => plan matches Plan::Work(
                Job::ActiveMarkets { limit: l },
            ) && l == limit,
            ToolCall::MarketDetails { market_id } => plan matches Plan::Work(
                Job::MarketDetails { market_id: id },
            ) && id@ == market_id@,
            ToolCall::SearchMarkets { keyword, limit } => plan matches Plan::Work(
                Job::SearchMarkets { keyword: k, limit: l },
            ) && k@ == keyword@ && l == limit,
            ToolCall::MarketPrices { market_id } => plan matches Plan::Work(
                Job::MarketPrices { market_id: id },
            ) && id@ == market_id@,
            ToolCall::TrendingMarkets { limit } => plan matches Plan::Work(
                Job::TrendingMarkets { limit: l },
            ) && l == limit,
            ToolCall::MissingName => plan matches Plan::Reply(Response::Tool(reply))
                && is_tool_failure(reply, "name argument is required"@),
            ToolCall::MissingMarketId => plan matches Plan::Reply(Response::Tool(reply))
                && is_tool_failure(reply, "market_id argument is required"@),
            ToolCall::MissingKeyword => plan matches Plan::Reply(Response::Tool(reply))
                && is_tool_failure(reply, "keyword argument is required"@),
            ToolCall::Unknown { name } => plan matches Plan::Reply(Response::Tool(reply))
                && is_unknown_tool_reply(reply, name@),
        },
        Route::ListResources => plan matches Plan::Reply(Response::Resources { resources, error })
            && resources@.map_values(|r: McpResource| resource_text(r)) == resource_catalog()
            && error is None,
        Route::ReadResource { uri } => plan matches Plan::Work(Job::ReadResource { uri: u }) && u@
            == uri@,
        Route::MissingUri => plan matches Plan::Reply(r) && is_read_failure(
            r,
            "uri argument is required"@,
        ),
        Route::ListPrompts => plan matches Plan::Reply(Response::Prompts { prompts, error })
            && prompts@.map_values(|p: McpPrompt| prompt_text(p)) == prompt_catalog()
            && error is None,
        Route::GetPrompt(call) => match call {
            PromptCall::AnalyzeMarket { market_id } => plan matches Plan::Work(
                Job::AnalyzeMarket { market_id: id },
            ) && id@ == market_id@,
            PromptCall::FindArbitrage { keyword, limit } => plan matches Plan::Work(
                Job::FindArbitrage { keyword: k, limit: l },
            ) && k@ == keyword@ && l == limit,
            PromptCall::MarketSummary { limit } => plan matches Plan::Work(
                Job::MarketSummary { limit: l },
            ) && l == limit,
            PromptCall::MissingName => plan matches Plan::Reply(r) && is_prompt_failure(
                r,
                "name argument is required"@,
            ),
            PromptCall::MissingMarketId => plan matches Plan::Reply(r) && is_prompt_failure(
                r,
                "market_id argument is required"@,
            ),
            PromptCall::MissingKeyword => plan matches Plan::Reply(r) && is_prompt_failure(
                r,
                "keyword argument is required"@,
            ),
            PromptCall::Unknown { name } => plan matches Plan::Reply(r) && is_prompt_failure(
                r,
                "Unknown prompt: "@ + name@,
            ),
        },
        Route::MethodNotFound => plan matches Plan::Reply(Response::Error { code, message }) && code
            == METHOD_NOT_FOUND && message@ == "Method not found"@,
    }
}

/// The answer to a call of a tool that does not exist.
pub fn unknown_tool(name: &str) -> (reply: ToolReply)
    ensures
        is_unknown_tool_reply(reply, name@),
{
    let mut text = String::from_str("Unknown tool: ");
    text.append(name);
    ToolReply { text, is_error: true }
}

fn tool_failure(reason: &str) -> (reply: ToolReply)
    ensures
        is_tool_failure(reply, reason@),
{
    let mut text = String::from_str("Error: ");
    text.append(reason);
    ToolReply { text, is_error: true }
}

fn read_failure(reason: &str) -> (r: Response)
    ensures
        is_read_failure(r, reason@),
{
    let mut text = String::from_str("Error reading resource: ");
    text.append(reason);
    Response::Contents { contents: Vec::new(), error: Some(text) }
}

/// Frames the outcome of a tool call: the rendered result as it is, a
/// failure as `Error: ` and its rendering, marked as an error.
pub fn finish_tool(outcome: Result<String, ServerError>) -> (r: Response)
    ensures
        match outcome {
            Ok(text) => r matches Response::Tool(reply) && reply.text == text && !reply.is_error,
            Err(e) => r matches Response::Tool(reply) && is_tool_failure(
                reply,
                server_error_text(e),
            ),
        },
{
    match outcome {
        Ok(text) => Response::Tool(ToolReply { text, is_error: false }),
        Err(e) => Response::Tool(tool_failure(e.to_text().as_str())),
    }
}

/// `r` hands out `text` as the JSON content of the resource `uri`.
pub open spec fn is_content_of(r: Response, uri: Seq<char>, text: String) -> bool {
    r matches Response::Contents { contents, error } && error is None && contents@.len() == 1
        && contents@[0].uri@ == uri && contents@[0].mime_type@ == "application/json"@
        && contents@[0].text == Some(text) && contents@[0].blob is None
}

/// Frames the outcome of a resource read: the text as the one content of
/// the resource, a failure as an empty list with the reason.
pub fn finish_resource(uri: &str, outcome: Result<String, ServerError>) -> (r: Response)
    ensures
        match outcome {
            Ok(text) => is_content_of(r, uri@, text),
            Err(e) => is_read_failure(r, server_error_text(e)),
        },
{
    match outcome {
        Ok(text) => {
            let mut contents: Vec<McpResourceContent> = Vec::new();
            contents.push(
                McpResourceContent {
                    uri: String::from_str(uri),
                    mime_type: String::from_str("application/json"),
                    text: Some(text),
                    blob: None,
                },
            );
            Response::Contents { contents, error: None }
        },
        Err(e) => read_failure(e.to_text().as_str()),
    }
}

/// `r` hands out `text` as the one message of a prompt, said by the user.
pub open spec fn is_message_of(r: Response, text: String) -> bool {
    r matches Response::Messages { messages, error } && error is None && messages@.len() == 1
        && messages@[0].role@ == "user"@ && messages@[0].content == McpPromptContent::Text(text)
}

fn prompt_failure(reason: &str) -> (r: Response)
    ensures
        is_prompt_failure(r, reason@),
{
    let mut text = String::from_str("Error getting prompt: ");
    text.append(reason);
    Response::Messages { messages: Vec::new(), error: Some(text) }
}

/// Frames the outcome of a prompt request: the text as the one message of
/// the prompt, a failure as an empty list with the reason.
pub fn finish_prompt(outcome: Result<String, ServerError>) -> (r: Response)
    ensures
        match outcome {
            Ok(text) => is_message_of(r, text),
            Err(e) => is_prompt_failure(r, server_error_text(e)),
        },
{
    match outcome {
        Ok(text) => {
            let mut messages: Vec<McpPromptMessage> = Vec::new();
            messages.push(
                McpPromptMessage {
                    role: String::from_str("user"),
                    content: McpPromptContent::Text(text),
                },
            );
            Response::Messages { messages, error: None }
        },
        Err(e) => prompt_failure(e.to_text().as_str()),
    }
}

/// Plans the answer to a request that routes to `route`. Every request but
/// an ignored one is answered: at once, or when its work is done. A request
/// that lacks what its method needs is answered at once, with the failure
/// of its method that names the missing argument.
pub fn plan(route: Route) -> (p: Plan)
    ensures
        is_plan_of(route, p),
        p is Silent <==> route is Ignore,
{
    match route {
        Route::Ignore => Plan::Silent,
        Route::Initialize => Plan::Reply(Response::Initialize(server_info())),
        Route::ListTools => Plan::Reply(Response::Tools(list_tools())),
        Route::CallTool(call) => match call {
            ToolCall::ActiveMarkets { limit } => Plan::Work(Job::ActiveMarkets { limit }),
            ToolCall::MarketDetails { market_id } => Plan::Work(Job::MarketDetails { market_id }),
            ToolCall::SearchMarkets { keyword, limit } => Plan::Work(
                Job::SearchMarkets { keyword, limit },
            ),
            ToolCall::MarketPrices { market_id } => Plan::Work(Job::MarketPrices { market_id }),
            ToolCall::TrendingMarkets { limit } => Plan::Work(Job::TrendingMarkets { limit }),
            ToolCall::MissingName => Plan::Reply(
                Response::Tool(tool_failure("name argument is required")),
            ),
            ToolCall::MissingMarketId => Plan::Reply(
                Response::Tool(tool_failure("market_id argument is required")),
            ),
            ToolCall::MissingKeyword => Plan::Reply(
                Response::Tool(tool_failure("keyword argument is required")),
            ),
            ToolCall::Unknown { name } => Plan::Reply(Response::Tool(unknown_tool(name.as_str()))),
        },
        Route::ListResources => Plan::Reply(
            Response::Resources { resources: list_resources(), error: None },
        ),
        Route::ReadResource { uri } => Plan::Work(Job::ReadResource { uri }),
        Route::MissingUri => Plan::Reply(read_failure("uri argument is required")),
        Route::ListPrompts => Plan::Reply(
            Response::Prompts { prompts: list_prompts(), error: None },
        ),
        Route::GetPrompt(call) => match call {
            PromptCall::AnalyzeMarket { market_id } => Plan::Work(Job::AnalyzeMarket { market_id }),
            PromptCall::FindArbitrage { keyword, limit } => Plan::Work(
                Job::FindArbitrage { keyword, limit },
            ),
            PromptCall::MarketSummary { limit } => Plan::Work(Job::MarketSummary { limit }),
            PromptCall::MissingName => Plan::Reply(prompt_failure("name argument is required")),
            PromptCall::MissingMarketId => Plan::Reply(
                prompt_failure("market_id argument is required"),
            ),
            PromptCall::MissingKeyword => Plan::Reply(prompt_failure("keyword argument is required")),
            PromptCall::Unknown { name } => {
                let mut reason = String::from_str("Unknown prompt: ");
                reason.append(name.as_str());
                Plan::Reply(prompt_failure(reason.as_str()))
            },
        },
        Route::MethodNotFound => Plan::Reply(
            Response::Error { code: METHOD_NOT_FOUND, message: String::from_str("Method not found") },
        ),
    }
}

/// One response line before it is written: the protocol version, the id of
/// the request, echoed, and what the response carries. A protocol error is
/// written as the line's `error`, anything else as its `result`.
#[derive(Debug)]
pub struct Envelope {
    pub jsonrpc: String,
    pub id: Option<Value>,
    pub response: Response,
}

/// `e` carries `response` to the request with the id `id`.
pub open spec fn is_envelope_of(e: Envelope, id: Option<Value>, response: Response) -> bool {
    e.jsonrpc@ == "2.0"@ && e.id == id && e.response == response
}

/// Frames a response for the request with the id `id`.
pub fn envelope(id: Option<Value>, response: Response) -> (e: Envelope)
    ensures
        is_envelope_of(e, id, response),
{
    Envelope { jsonrpc: String::from_str("2.0"), id, response }
}

/// What is done with a request line.
#[derive(Debug)]
pub enum Handling {
    /// No line is written.
    Silent,
    /// The line is written at once.
    Reply(Envelope),
    /// The work is done, and its result framed for the request with `id`.
    Work { id: Option<Value>, job: Job },
}

/// `h` is what is done with a request that has the id `id` and the plan
/// `plan`: the plan, with the id carried along.
pub open spec fn is_handling_of(plan: Plan, id: Option<Value>, h: Handling) -> bool {
    match plan {
        Plan::Silent => h is Silent,
        Plan::Reply(response) => h matches Handling::Reply(e) && is_envelope_of(e, id, response),
        Plan::Work(job) => h matches Handling::Work { id: i, job: j } && i == id && j == job,
    }
}

/// `h` is what is done with the request `req`: what its plan says, with
/// the id of the request.
pub open spec fn is_handled(req: RequestView, h: Handling) -> bool {
    exists|route: Route, plan: Plan|
        is_route_of(req, route) && #[trigger] is_plan_of(route, plan) && is_handling_of(
            plan,
            req.id,
            h,
        )
}

/// Decides what is done with a request: it is routed and planned, and the
/// answer carries its id. Nothing is written exactly where the request
/// expects no answer.
pub fn handle(request: Request) -> (h: Handling)
    ensures
        is_handled(request@, h),
        h is Silent <==> !expects_answer(request@),
{
    let Request { id, method, name, uri, market_id, keyword, limit } = request;
    let route = route(Request { id: None, method, name, uri, market_id, keyword, limit });
    let ghost routed = route;
    let plan = plan(route);
    let ghost planned = plan;
    let h = match plan {
        Plan::Silent => Handling::Silent,
        Plan::Reply(response) => Handling::Reply(envelope(id, response)),
        Plan::Work(job) => Handling::Work { id, job },
    };
    proof {
        assert(is_route_of(request@, routed));
        assert(is_plan_of(routed, planned));
        assert(is_handling_of(planned, request@.id, h));
    }
    h
}

/// Decides what is done with a request line: a line that is no JSON is
/// dropped, any other is handled as the request it holds.
pub fn handle_line(line: &str) -> (h: Handling)
    ensures
        match json_parsed(line@) {
            Some(v) => is_handled(request_of(v), h) && (h is Silent <==> !expects_answer(
                request_of(v),
            )),
            None => h is Silent,
        },
{
    match parse_line(line) {
        Some(v) => handle(Request::from_value(&v)),
        None => Handling::Silent,
    }
}

/// What a listing is answered with: the markets and their number; for a
/// search also the keyword, for a resource also the time of rendering.
#[derive(Debug)]
pub struct MarketList {
    pub markets: Vec<Market>,
    pub count: usize,
    pub keyword: Option<String>,
    pub last_updated: Option<String>,
}

/// The answer of a tool that lists markets: the markets and their number,
/// and the keyword where the tool searched for one.
pub fn tool_list(markets: Vec<Market>, keyword: Option<String>) -> (list: MarketList)
    ensures
        list.markets == markets,
        list.count == markets@.len(),
        list.keyword == keyword,
        list.last_updated is None,
{
    let count = markets.len();
    MarketList { markets, count, keyword, last_updated: None }
}

/// The content of a resource that lists markets: the markets, their number
/// and the time of rendering, a date and time in UTC.
pub fn resource_list(markets: Vec<Market>) -> (list: MarketList)
    ensures
        list.markets == markets,
        list.count == markets@.len(),
        list.keyword is None,
        list.last_updated matches Some(stamp) && is_utc_stamp(stamp@),
{
    let count = markets.len();
    MarketList { markets, count, keyword: None, last_updated: Some(timestamp_now()) }
}

/// One question that a job puts to the repository.
#[derive(Debug)]
pub enum Query {
    /// A market listing.
    Listing(MarketsQueryParams),
    /// A keyword search in a page of at most `limit` markets.
    Search { keyword: String, limit: Option<u32> },
    /// One market.
    Market { market_id: String },
    /// The prices of one market.
    Prices { market_id: String },
}

/// `q` asks for the listing `v`.
pub open spec fn is_listing(q: Query, v: QueryView) -> bool {
    q matches Query::Listing(p) && p@ == v
}

/// `q` searches for `keyword` in a page of at most `limit` markets.
pub open spec fn is_search(q: Query, keyword: Seq<char>, limit: Option<u32>) -> bool {
    q matches Query::Search { keyword: k, limit: l } && k@ == keyword && l == limit
}

/// `q` asks for the market `market_id`.
pub open spec fn is_market(q: Query, market_id: Seq<char>) -> bool {
    q matches Query::Market { market_id: id } && id@ == market_id
}

/// `q` asks for the prices of the market `market_id`.
pub open spec fn is_prices(q: Query, market_id: Seq<char>) -> bool {
    q matches Query::Prices { market_id: id } && id@ == market_id
}

/// `qs` are the questions that `job` puts to the repository, in the order
/// in which they are put. A tool puts its one question. The analysis of a
/// market asks for the market and for its prices; the search for arbitrage
/// searches with its limit; the summary asks for the trending and for the
/// active markets, each with its limit. A resource read puts none here: what
/// it asks depends on the resource cache, and `question_of` says it.
pub open spec fn is_queries_of(job: Job, qs: Seq<Query>) -> bool {
    match job {
        Job::ActiveMarkets { limit } => qs.len() == 1 && is_listing(qs[0], active_query(limit)),
        Job::MarketDetails { market_id } => qs.len() == 1 && is_market(qs[0], market_id@),
        Job::SearchMarkets { keyword, limit } => qs.len() == 1 && is_search(qs[0], keyword@, limit),
        Job::MarketPrices { market_id } => qs.len() == 1 && is_prices(qs[0], market_id@),
        Job::TrendingMarkets { limit } => qs.len() == 1 && is_listing(
            qs[0],
            trending_query(limit),
        ),
        Job::ReadResource { uri } => qs.len() == 0,
        Job::AnalyzeMarket { market_id } => qs.len() == 2 && is_market(qs[0], market_id@)
            && is_prices(qs[1], market_id@),
        Job::FindArbitrage { keyword, limit } => qs.len() == 1 && is_search(
            qs[0],
            keyword@,
            Some(limit),
        ),
        Job::MarketSummary { limit } => qs.len() == 2 && is_listing(
            qs[0],
            trending_query(Some(limit)),
        ) && is_listing(qs[1], active_query(Some(limit))),
    }
}

fn one_query(q: Query) -> (qs: Vec<Query>)
    ensures
        qs@.len() == 1,
        qs@[0] == q,
{
    let mut qs: Vec<Query> = Vec::new();
    qs.push(q);
    qs
}

fn two_queries(first: Query, second: Query) -> (qs: Vec<Query>)
    ensures
        qs@.len() == 2,
        qs@[0] == first,
        qs@[1] == second,
{
    let mut qs: Vec<Query> = Vec::new();
    qs.push(first);
    qs.push(second);
    qs
}

/// Tells which questions a job puts to the repository.
pub fn queries_of(job: &Job) -> (qs: Vec<Query>)
    ensures
        is_queries_of(*job, qs@),
{
    match job {
        Job::ActiveMarkets { limit } => one_query(Query::Listing(MarketsQueryParams::active(*limit))),
        Job::MarketDetails { market_id } => one_query(Query::Market { market_id: market_id.clone() }),
        Job::SearchMarkets { keyword, limit } => one_query(
            Query::Search { keyword: keyword.clone(), limit: *limit },
        ),
        Job::MarketPrices { market_id } => one_query(Query::Prices { market_id: market_id.clone() }),
        Job::TrendingMarkets { limit } => one_query(
            Query::Listing(MarketsQueryParams::trending(*limit)),
        ),
        Job::ReadResource { uri: _ } => Vec::new(),
        Job::AnalyzeMarket { market_id } => two_queries(
            Query::Market { market_id: market_id.clone() },
            Query::Prices { market_id: market_id.clone() },
        ),
        Job::FindArbitrage { keyword, limit } => one_query(
            Query::Search { keyword: keyword.clone(), limit: Some(*limit) },
        ),
        Job::MarketSummary { limit } => two_queries(
            Query::Listing(MarketsQueryParams::trending(Some(*limit))),
            Query::Listing(MarketsQueryParams::active(Some(*limit))),
        ),
    }
}

/// `question` is what rendering the resource `kind` asks of the
/// repository: the twenty first active markets, the ten markets with the
/// highest volume, or the one market that the resource names.
pub open spec fn is_question_of(kind: ResourceKind, question: Query) -> bool {
    match kind {
        ResourceKind::ActiveMarkets => is_listing(question, active_query(Some(20u32))),
        ResourceKind::TrendingMarkets => is_listing(question, trending_query(Some(10u32))),
        ResourceKind::Market { id } => is_market(question, id@),
    }
}

/// Tells what rendering a resource asks of the repository.
pub fn question_of(kind: &ResourceKind) -> (question: Query)
    ensures
        is_question_of(*kind, question),
{
    match kind {
        ResourceKind::ActiveMarkets => Query::Listing(MarketsQueryParams::active(Some(20))),
        ResourceKind::TrendingMarkets => Query::Listing(MarketsQueryParams::trending(Some(10))),
        ResourceKind::Market { id } => Query::Market { market_id: id.clone() },
    }
}

/// Every request that expects an answer gets one: the plan of a request
/// is silent exactly where the request has no method or is a notification.
/// Any other request is answered at once or when its work is done, also
/// where it lacks the name, the URI or the argument that its method needs.
pub proof fn lemma_every_request_gets_an_answer(req: RequestView, route: Route, plan: Plan)
    requires
        is_route_of(req, route),
        is_plan_of(route, plan),
    ensures
        plan is Silent <==> !expects_answer(req),
{
}

/// The server's state: the market repository and the rendered resources.
#[derive(Debug)]
pub struct PolymarketMcpServer {
    pub client: PolymarketClient,
    pub resources: ResourceStore,
}

impl PolymarketMcpServer {
    /// A server with empty caches. The resource cache is on where caching
    /// is, with its own time-to-live. A configuration that the repository
    /// refuses is refused here, with the repository's error.
    pub fn with_config(config: &Config) -> (r: Result<PolymarketMcpServer, PolymarketError>)
        ensures
            match r {
                Ok(s) => s.resources@ == Map::<Seq<char>, ResourceCache>::empty()
                    && s.resources.caching() == config.cache.enabled && s.resources.ttl()
                    == config.cache.resource_ttl_seconds && is_client_of(s.client, *config),
                Err(e) => is_refusal_of(e, *config),
            },
    {
        match PolymarketClient::new_with_config(config) {
            Ok(client) => Ok(
                PolymarketMcpServer {
                    client,
                    resources: ResourceStore::new(
                        config.cache.enabled,
                        config.cache.resource_ttl_seconds,
                    ),
                },
            ),
            Err(e) => Err(e),
        }
    }

    /// The resources that are listed.
    pub fn list_resources(&self) -> (resources: Vec<McpResource>)
        ensures
            resources@.map_values(|r: McpResource| resource_text(r)) == resource_catalog(),
    {
        list_resources()
    }

    /// The prompts that are listed.
    pub fn list_prompts(&self) -> (prompts: Vec<McpPrompt>)
        ensures
            prompts@.map_values(|p: McpPrompt| prompt_text(p)) == prompt_catalog(),
    {
        list_prompts()
    }

    /// Decides what reading the resource `uri` at the second `now` does:
    /// the cached text is served while it is fresh; else the resource is
    /// rendered, or the URI is unknown.
    pub fn read_resource(&self, uri: &str, now: u64) -> (r: ResourceRead<'_>)
        ensures
            is_read_of(r, self.resources@, uri@, now),
    {
        self.resources.read_at(uri, now)
    }

    /// Keeps the rendered text of the resource `uri` as of the second
    /// `now`; does nothing where caching is off.
    pub fn store_resource(&mut self, uri: &str, content: String, now: u64)
        ensures
            final(self).client == old(self).client,
            final(self).resources.caching() == old(self).resources.caching(),
            final(self).resources.ttl() == old(self).resources.ttl(),
            final(self).resources@ == kept(
                old(self).resources@,
                old(self).resources.caching(),
                uri@,
                content,
                now,
                old(self).resources.ttl(),
            ),
    {
        self.resources.store_at(uri, content, now);
    }
}

} // verus!
