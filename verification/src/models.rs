//! The records of the adapter: markets as upstream describes them, the query
//! a market listing is asked with, and the catalogue entries of the protocol.
//!
//! Upstream amounts (liquidity, volume, prices) are kept as their decimal
//! text; `number::is_number` tells which texts denote a number.

use vstd::prelude::*;

verus! {

/// An event that groups markets.
#[derive(Debug, Clone)]
pub struct Event {
    pub id: String,
    pub ticker: Option<String>,
    pub title: Option<String>,
    pub description: Option<String>,
    pub start_date: Option<String>,
    pub end_date: Option<String>,
    pub image: Option<String>,
    pub active: Option<bool>,
    /// Decimal text of the traded volume.
    pub volume: Option<String>,
    pub slug: Option<String>,
    pub tags: Option<Vec<String>>,
}

/// A prediction market. `outcomes` and `outcome_prices` run in parallel:
/// the price at an index belongs to the outcome at that index.
#[derive(Debug, Clone)]
pub struct Market {
    pub id: String,
    pub slug: String,
    pub question: String,
    pub description: Option<String>,
    pub active: bool,
    pub closed: bool,
    /// Decimal text of the liquidity.
    pub liquidity: String,
    /// Decimal text of the traded volume.
    pub volume: String,
    pub end_date: String,
    pub image: Option<String>,
    pub category: Option<String>,
    pub outcomes: Vec<String>,
    pub outcome_prices: Vec<String>,
    pub condition_id: Option<String>,
    pub market_type: Option<String>,
    pub twitter_card_image: Option<String>,
    pub icon: Option<String>,
    pub start_date: Option<String>,
    /// Decimal text of the volume of the last day.
    pub volume_24hr: Option<String>,
    pub events: Option<Vec<Event>>,
    pub archived: Option<bool>,
    pub enable_order_book: Option<bool>,
    pub group_item_title: Option<String>,
    pub group_item_slug: Option<String>,
}

impl Market {
    /// Every outcome has its price.
    pub open spec fn wf(&self) -> bool {
        self.outcomes@.len() == self.outcome_prices@.len()
    }

    /// Tells whether every outcome has its price.
    pub fn is_well_formed(&self) -> (r: bool)
        ensures
            r == self.wf(),
    {
        self.outcomes.len() == self.outcome_prices.len()
    }
}

/// The price of one outcome of a market at some moment.
#[derive(Debug, Clone)]
pub struct MarketPrice {
    pub market_id: String,
    pub outcome_id: String,
    /// Decimal text of the price.
    pub price: String,
    pub timestamp: String,
}

/// An error body as upstream sends it.
#[derive(Debug, Clone)]
pub struct ApiError {
    pub error: String,
    pub message: String,
    pub status_code: u16,
}

/// A readable resource of the protocol.
#[derive(Debug, Clone)]
pub struct McpResource {
    pub uri: String,
    pub name: String,
    pub description: String,
    pub mime_type: String,
}

/// The content of a resource that was read.
#[derive(Debug, Clone)]
pub struct McpResourceContent {
    pub uri: String,
    pub mime_type: String,
    pub text: Option<String>,
    pub blob: Option<String>,
}

/// One argument of a prompt.
#[derive(Debug, Clone)]
pub struct McpPromptArgument {
    pub name: String,
    pub description: String,
    pub required: bool,
}

/// A prompt of the protocol.
#[derive(Debug, Clone)]
pub struct McpPrompt {
    pub name: String,
    pub description: String,
    pub arguments: Vec<McpPromptArgument>,
}

/// What a prompt message carries.
#[derive(Debug, Clone)]
pub enum McpPromptContent {
    Text(String),
    Image { kind: String, data: String },
}

/// One message of a rendered prompt.
#[derive(Debug, Clone)]
pub struct McpPromptMessage {
    pub role: String,
    pub content: McpPromptContent,
}

} // verus!
