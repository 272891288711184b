//! Core of a read-only adapter that serves a prediction-market REST API as
//! tools, resources and prompts over a line-based request/response protocol.
//!
//! The crate decides and the caller performs: for each request line it says
//! which operation answers; for each query, whether the cache answers or
//! which URL must be fetched; for each failed attempt, whether and when to
//! try again. Network and stream I/O, and the encoding of records, are left
//! to the caller. Every function is verified against its contract; the few
//! calls into other crates and into unspecified parts of `std` stand behind
//! small trusted functions, each marked as such.

pub mod cache;
pub mod catalog;
pub mod clock;
pub mod config;
pub mod dispatch;
pub mod error;
pub mod header;
pub mod json;
pub mod markets;
pub mod metrics;
pub mod models;
pub mod number;
pub mod polymarket_client;
pub mod prompts;
pub mod query;
pub mod resource;
pub mod retry;
pub mod server;
pub mod text;
pub mod text_map;

pub use cache::CacheEntry;
pub use config::Config;
pub use error::{PolymarketError, RequestId, Result};
pub use metrics::Metrics;
pub use models::{
    ApiError, Event, Market, MarketPrice, McpPrompt, McpPromptArgument, McpPromptContent,
    McpPromptMessage, McpResource, McpResourceContent,
};
pub use polymarket_client::PolymarketClient;
pub use query::MarketsQueryParams;
pub use resource::ResourceCache;
pub use server::PolymarketMcpServer;
