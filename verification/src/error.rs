//! The failures of the adapter and the token that tags one logical operation.

use vstd::prelude::*;
use vstd::string::*;

verus! {

/// An opaque token minted once per logical operation. It only labels log and
/// error context.
#[derive(Debug, Clone)]
pub struct RequestId(pub String);

/// Trusted: `uuid::Uuid::new_v4` draws a random identifier and `to_string`
/// writes it in the hyphenated form, which is 36 characters long. The value
/// is random, so only its length is stated.
#[verifier::external_body]
fn fresh_uuid_text() -> (r: String)
    ensures
        r@.len() == 36,
{
    uuid::Uuid::new_v4().to_string()
}

impl RequestId {
    /// Mints a new token.
    pub fn new() -> (r: RequestId)
        ensures
            r.0@.len() == 36,
    {
        RequestId(fresh_uuid_text())
    }

    /// The token's text.
    pub fn as_text(&self) -> (r: &str)
        ensures
            r@ == self.0@,
    {
        self.0.as_str()
    }
}

impl Default for RequestId {
    fn default() -> (r: RequestId)
        ensures
            r.0@.len() == 36,
    {
        RequestId::new()
    }
}

/// What can go wrong between the adapter and its upstream.
#[derive(Debug)]
pub enum PolymarketError {
    /// Upstream answered with a status outside the 2xx range.
    ApiError { message: String, status_code: Option<u16>, request_id: RequestId },
    /// The transport failed, or the body could not be read.
    NetworkError { message: String },
    /// The payload did not have the expected shape.
    DeserializationError { message: String },
    /// The configuration cannot be used.
    ConfigError { message: String },
}

/// The one-line rendering of an error.
pub open spec fn error_text(e: PolymarketError) -> Seq<char> {
    match e {
        PolymarketError::ApiError { message, status_code, request_id } => "API request failed: "@
            + message@ + " (request_id: "@ + request_id.0@ + ")"@,
        PolymarketError::NetworkError { message } => "Network error: "@ + message@,
        PolymarketError::DeserializationError { message } => "Deserialization error: "@ + message@,
        PolymarketError::ConfigError { message } => "Configuration error: "@ + message@,
    }
}

impl PolymarketError {
    /// An upstream failure with the given status, tagged with a fresh token.
    pub fn api_error(message: &str, status_code: Option<u16>) -> (e: PolymarketError)
        ensures
            e matches PolymarketError::ApiError { message: m, status_code: s, request_id: id }
                && m@ == message@ && s == status_code && id.0@.len() == 36,
    {
        PolymarketError::ApiError {
            message: String::from_str(message),
            status_code,
            request_id: RequestId::new(),
        }
    }

    /// A transport failure.
    pub fn network_error(message: &str) -> (e: PolymarketError)
        ensures
            e matches PolymarketError::NetworkError { message: m } && m@ == message@,
    {
        PolymarketError::NetworkError { message: String::from_str(message) }
    }

    /// A payload that did not decode.
    pub fn deserialization_error(message: &str) -> (e: PolymarketError)
        ensures
            e matches PolymarketError::DeserializationError { message: m } && m@ == message@,
    {
        PolymarketError::DeserializationError { message: String::from_str(message) }
    }

    /// An unusable configuration.
    pub fn config_error(message: &str) -> (e: PolymarketError)
        ensures
            e matches PolymarketError::ConfigError { message: m } && m@ == message@,
    {
        PolymarketError::ConfigError { message: String::from_str(message) }
    }

    /// The one-line rendering of this error.
    pub fn to_text(&self) -> (r: String)
        ensures
            r@ == error_text(*self),
    {
        match self {
            PolymarketError::ApiError { message, status_code: _, request_id } => {
                let mut s = String::from_str("API request failed: ");
                s.append(message.as_str());
                s.append(" (request_id: ");
                s.append(request_id.0.as_str());
                s.append(")");
                s
            },
            PolymarketError::NetworkError { message } => {
                let mut s = String::from_str("Network error: ");
                s.append(message.as_str());
                s
            },
            PolymarketError::DeserializationError { message } => {
                let mut s = String::from_str("Deserialization error: ");
                s.append(message.as_str());
                s
            },
            PolymarketError::ConfigError { message } => {
                let mut s = String::from_str("Configuration error: ");
                s.append(message.as_str());
                s
            },
        }
    }
}

/// The result type of every fallible operation of the adapter.
pub type Result<T> = std::result::Result<T, PolymarketError>;

} // verus!
