//! The fixed catalogue of the protocol: the server's identity, its tools
//! with their parameters, its resources and its prompts.

use vstd::prelude::*;
use vstd::string::*;
use crate::models::{McpPrompt, McpPromptArgument, McpResource};

verus! {

/// What `initialize` answers with: the protocol version, the kinds of
/// capability that the server offers, and the server's name and version.
#[derive(Debug)]
pub struct ServerInfo {
    pub protocol_version: String,
    pub capabilities: Vec<String>,
    pub name: String,
    pub version: String,
}

/// The kinds of capability that the server offers, in the order in which
/// they are announced.
pub open spec fn capability_names() -> Seq<Seq<char>> {
    seq!["tools"@, "resources"@, "prompts"@]
}

/// `info` is the identity of this server.
pub open spec fn is_identity(info: ServerInfo) -> bool {
    &&& info.protocol_version@ == "2024-11-05"@
    &&& info.capabilities@.map_values(|c: String| c@) == capability_names()
    &&& info.name@ == "polymarket-mcp"@
    &&& info.version@ == "0.1.0"@
}

/// The identity of this server.
pub fn server_info() -> (info: ServerInfo)
    ensures
        is_identity(info),
{
    let mut capabilities: Vec<String> = Vec::new();
    capabilities.push(String::from_str("tools"));
    capabilities.push(String::from_str("resources"));
    capabilities.push(String::from_str("prompts"));
    assert(capabilities@.map_values(|c: String| c@) =~= capability_names());
    ServerInfo {
        protocol_version: String::from_str("2024-11-05"),
        capabilities,
        name: String::from_str("polymarket-mcp"),
        version: String::from_str("0.1.0"),
    }
}

/// One parameter of a tool: its name, its JSON type and what it means.
#[derive(Debug)]
pub struct ToolParam {
    pub name: String,
    pub kind: String,
    pub description: String,
    pub required: bool,
}

/// A tool: its name, what it does and what it takes.
#[derive(Debug)]
pub struct ToolSpec {
    pub name: String,
    pub description: String,
    pub params: Vec<ToolParam>,
}

/// What a parameter says.
pub struct ParamText {
    pub name: Seq<char>,
    pub kind: Seq<char>,
    pub description: Seq<char>,
    pub required: bool,
}

/// What a tool says.
pub struct ToolText {
    pub name: Seq<char>,
    pub description: Seq<char>,
    pub params: Seq<ParamText>,
}

impl View for ToolParam {
    type V = ParamText;

    open spec fn view(&self) -> ParamText {
        ParamText {
            name: self.name@,
            kind: self.kind@,
            description: self.description@,
            required: self.required,
        }
    }
}

impl View for ToolSpec {
    type V = ToolText;

    open spec fn view(&self) -> ToolText {
        ToolText {
            name: self.name@,
            description: self.description@,
            params: self.params@.map_values(|p: ToolParam| p@),
        }
    }
}

/// The optional `limit` of a listing.
pub open spec fn limit_param(description: Seq<char>) -> ParamText {
    ParamText { name: "limit"@, kind: "number"@, description, required: false }
}

/// A required text parameter.
pub open spec fn text_param(name: Seq<char>, description: Seq<char>) -> ParamText {
    ParamText { name, kind: "string"@, description, required: true }
}

/// The tools, in the order in which they are listed.
pub open spec fn tool_catalog() -> Seq<ToolText> {
    seq![
        ToolText {
            name: "get_active_markets"@,
            description: "Get list of active prediction markets"@,
            params: seq![limit_param("Maximum number of markets to return"@)],
        },
        ToolText {
            name: "get_market_details"@,
            description: "Get detailed information about a specific market"@,
            params: seq![text_param("market_id"@, "The ID of the market"@)],
        },
        ToolText {
            name: "search_markets"@,
            description: "Search markets by keyword"@,
            params: seq![
                text_param("keyword"@, "Keyword to search for"@),
                limit_param("Maximum number of results"@),
            ],
        },
        ToolText {
            name: "get_market_prices"@,
            description: "Get current prices for a market"@,
            params: seq![text_param("market_id"@, "The ID of the market"@)],
        },
        ToolText {
            name: "get_trending_markets"@,
            description: "Get trending markets with high volume"@,
            params: seq![limit_param("Maximum number of markets to return"@)],
        },
    ]
}

fn limit_of(description: &str) -> (p: ToolParam)
    ensures
        p@ == limit_param(description@),
{
    ToolParam {
        name: String::from_str("limit"),
        kind: String::from_str("number"),
        description: String::from_str(description),
        required: false,
    }
}

fn text_of(name: &str, description: &str) -> (p: ToolParam)
    ensures
        p@ == text_param(name@, description@),
{
    ToolParam {
        name: String::from_str(name),
        kind: String::from_str("string"),
        description: String::from_str(description),
        required: true,
    }
}

fn tool(name: &str, description: &str, params: Vec<ToolParam>) -> (t: ToolSpec)
    ensures
        t@ == (ToolText {
            name: name@,
            description: description@,
            params: params@.map_values(|p: ToolParam| p@),
        }),
{
    ToolSpec { name: String::from_str(name), description: String::from_str(description), params }
}

fn one(p: ToolParam) -> (v: Vec<ToolParam>)
    ensures
        v@.map_values(|p: ToolParam| p@) == seq![p@],
{
    let mut v: Vec<ToolParam> = Vec::new();
    v.push(p);
    assert(v@.map_values(|p: ToolParam| p@) =~= seq![p@]);
    v
}

fn two(p: ToolParam, q: ToolParam) -> (v: Vec<ToolParam>)
    ensures
        v@.map_values(|p: ToolParam| p@) == seq![p@, q@],
{
    let mut v: Vec<ToolParam> = Vec::new();
    v.push(p);
    v.push(q);
    assert(v@.map_values(|p: ToolParam| p@) =~= seq![p@, q@]);
    v
}

/// The tools of this server.
pub fn list_tools() -> (tools: Vec<ToolSpec>)
    ensures
        tools@.map_values(|t: ToolSpec| t@) == tool_catalog(),
{
    let mut tools: Vec<ToolSpec> = Vec::new();
    tools.push(
        tool(
            "get_active_markets",
            "Get list of active prediction markets",
            one(limit_of("Maximum number of markets to return")),
        ),
    );
    tools.push(
        tool(
            "get_market_details",
            "Get detailed information about a specific market",
            one(text_of("market_id", "The ID of the market")),
        ),
    );
    tools.push(
        tool(
            "search_markets",
            "Search markets by keyword",
            two(
                text_of("keyword", "Keyword to search for"),
                limit_of("Maximum number of results"),
            ),
        ),
    );
    tools.push(
        tool(
            "get_market_prices",
            "Get current prices for a market",
            one(text_of("market_id", "The ID of the market")),
        ),
    );
    tools.push(
        tool(
            "get_trending_markets",
            "Get trending markets with high volume",
            one(limit_of("Maximum number of markets to return")),
        ),
    );
    assert(tools@.map_values(|t: ToolSpec| t@) =~= tool_catalog());
    tools
}

/// What a resource says.
pub struct ResourceText {
    pub uri: Seq<char>,
    pub name: Seq<char>,
    pub description: Seq<char>,
    pub mime_type: Seq<char>,
}

/// What an entry of the resource list says.
pub open spec fn resource_text(r: McpResource) -> ResourceText {
    ResourceText {
        uri: r.uri@,
        name: r.name@,
        description: r.description@,
        mime_type: r.mime_type@,
    }
}

/// The resources that are listed. A single market can be read as
/// `market:` and its identifier, and is not listed.
pub open spec fn resource_catalog() -> Seq<ResourceText> {
    seq![
        ResourceText {
            uri: "markets:active"@,
            name: "Active Markets"@,
            description: "List of currently active prediction markets"@,
            mime_type: "application/json"@,
        },
        ResourceText {
            uri: "markets:trending"@,
            name: "Trending Markets"@,
            description: "Markets with highest trading volume"@,
            mime_type: "application/json"@,
        },
    ]
}

fn resource(uri: &str, name: &str, description: &str) -> (r: McpResource)
    ensures
        resource_text(r) == (ResourceText {
            uri: uri@,
            name: name@,
            description: description@,
            mime_type: "application/json"@,
        }),
{
    McpResource {
        uri: String::from_str(uri),
        name: String::from_str(name),
        description: String::from_str(description),
        mime_type: String::from_str("application/json"),
    }
}

/// The resources of this server.
pub fn list_resources() -> (resources: Vec<McpResource>)
    ensures
        resources@.map_values(|r: McpResource| resource_text(r)) == resource_catalog(),
{
    let mut resources: Vec<McpResource> = Vec::new();
    resources.push(
        resource(
            "markets:active",
            "Active Markets",
            "List of currently active prediction markets",
        ),
    );
    resources.push(
        resource("markets:trending", "Trending Markets", "Markets with highest trading volume"),
    );
    assert(resources@.map_values(|r: McpResource| resource_text(r)) =~= resource_catalog());
    resources
}

/// What an argument of a prompt says.
pub struct ArgumentText {
    pub name: Seq<char>,
    pub description: Seq<char>,
    pub required: bool,
}

/// What a prompt says.
pub struct PromptText {
    pub name: Seq<char>,
    pub description: Seq<char>,
    pub arguments: Seq<ArgumentText>,
}

/// What an argument of a prompt says.
pub open spec fn argument_text(a: McpPromptArgument) -> ArgumentText {
    ArgumentText { name: a.name@, description: a.description@, required: a.required }
}

/// What an entry of the prompt list says.
pub open spec fn prompt_text(p: McpPrompt) -> PromptText {
    PromptText {
        name: p.name@,
        description: p.description@,
        arguments: p.arguments@.map_values(|a: McpPromptArgument| argument_text(a)),
    }
}

/// The prompts, in the order in which they are listed.
pub open spec fn prompt_catalog() -> Seq<PromptText> {
    seq![
        PromptText {
            name: "analyze_market"@,
            description: "Analyze a prediction market and provide insights on trends, liquidity, and potential opportunities"@,
            arguments: seq![
                ArgumentText {
                    name: "market_id"@,
                    description: "The ID of the market to analyze"@,
                    required: true,
                },
            ],
        },
        PromptText {
            name: "find_arbitrage"@,
            description: "Look for arbitrage opportunities across multiple markets with similar outcomes"@,
            arguments: seq![
                ArgumentText {
                    name: "keyword"@,
                    description: "Keyword to search for related markets"@,
                    required: true,
                },
                ArgumentText {
                    name: "limit"@,
                    description: "Maximum number of markets to analyze (default: 10)"@,
                    required: false,
                },
            ],
        },
        PromptText {
            name: "market_summary"@,
            description: "Provide a comprehensive summary of the top prediction markets"@,
            arguments: seq![
                ArgumentText {
                    name: "category"@,
                    description: "Filter by category (optional)"@,
                    required: false,
                },
                ArgumentText {
                    name: "limit"@,
                    description: "Number of markets to include (default: 5)"@,
                    required: false,
                },
            ],
        },
    ]
}

fn argument(name: &str, description: &str, required: bool) -> (a: McpPromptArgument)
    ensures
        argument_text(a) == (ArgumentText { name: name@, description: description@, required }),
{
    McpPromptArgument {
        name: String::from_str(name),
        description: String::from_str(description),
        required,
    }
}

fn prompt(name: &str, description: &str, arguments: Vec<McpPromptArgument>) -> (p: McpPrompt)
    ensures
        prompt_text(p) == (PromptText {
            name: name@,
            description: description@,
            arguments: arguments@.map_values(|a: McpPromptArgument| argument_text(a)),
        }),
{
    McpPrompt { name: String::from_str(name), description: String::from_str(description), arguments }
}

/// The prompts of this server.
pub fn list_prompts() -> (prompts: Vec<McpPrompt>)
    ensures
        prompts@.map_values(|p: McpPrompt| prompt_text(p)) == prompt_catalog(),
{
    let mut analyze: Vec<McpPromptArgument> = Vec::new();
    analyze.push(argument("market_id", "The ID of the market to analyze", true));
    assert(analyze@.map_values(|a: McpPromptArgument| argument_text(a)) =~= seq![
        argument_text(analyze@[0]),
    ]);
    let mut arbitrage: Vec<McpPromptArgument> = Vec::new();
    arbitrage.push(argument("keyword", "Keyword to search for related markets", true));
    arbitrage.push(
        argument("limit", "Maximum number of markets to analyze (default: 10)", false),
    );
    assert(arbitrage@.map_values(|a: McpPromptArgument| argument_text(a)) =~= seq![
        argument_text(arbitrage@[0]),
        argument_text(arbitrage@[1]),
    ]);
    let mut summary: Vec<McpPromptArgument> = Vec::new();
    summary.push(argument("category", "Filter by category (optional)", false));
    summary.push(argument("limit", "Number of markets to include (default: 5)", false));
    assert(summary@.map_values(|a: McpPromptArgument| argument_text(a)) =~= seq![
        argument_text(summary@[0]),
        argument_text(summary@[1]),
    ]);
    let mut prompts: Vec<McpPrompt> = Vec::new();
    prompts.push(
        prompt(
            "analyze_market",
            "Analyze a prediction market and provide insights on trends, liquidity, and potential opportunities",
            analyze,
        ),
    );
    prompts.push(
        prompt(
            "find_arbitrage",
            "Look for arbitrage opportunities across multiple markets with similar outcomes",
            arbitrage,
        ),
    );
    prompts.push(
        prompt(
            "market_summary",
            "Provide a comprehensive summary of the top prediction markets",
            summary,
        ),
    );
    assert(prompts@.map_values(|p: McpPrompt| prompt_text(p)) =~= prompt_catalog());
    prompts
}

} // verus!
