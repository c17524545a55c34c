//! What is sent to the provider and what comes back.
//!
//! The library sends nothing itself. It describes the request, and it is told
//! what the transport got.
use crate::error::TransportCause;
use vstd::prelude::*;

verus! {

/// The name of the query parameter that selects the provider's function.
pub const FUNCTION_PARAMETER: &'static str = "function";

/// The name of the query parameter that holds the symbol.
pub const SYMBOL_PARAMETER: &'static str = "symbol";

/// The name of the query parameter that holds the API key.
pub const API_KEY_PARAMETER: &'static str = "apikey";

/// The name of the query parameter that holds the start of the series.
pub const START_PARAMETER: &'static str = "start";

/// A query for a historical time series: a GET of `endpoint` with four query
/// parameters.
#[derive(Debug, PartialEq, Eq)]
pub struct Request {
    /// The URL of the provider's query endpoint.
    pub endpoint: String,
    /// The provider's function that is asked for.
    pub function: &'static str,
    /// The provider's symbol for the asset pair.
    pub symbol: String,
    /// The credential.
    pub api_key: String,
    /// The Unix timestamp, in seconds, at which the series is to start.
    pub start: i64,
}

/// The body of a response.
#[derive(Debug, PartialEq, Eq)]
pub enum Body {
    /// The body decoded into rows of binary64 numbers, each given by its bit
    /// pattern.
    Rows(Vec<Vec<u64>>),
    /// The body could not be read or decoded. Carries the decoder's account of
    /// it.
    Undecodable(String),
}

/// What the transport got for a request.
#[derive(Debug, PartialEq, Eq)]
pub enum Reply {
    /// No response: the connection failed or timed out. Carries the
    /// transport's account of it.
    Failed(String),
    /// A response, with its HTTP status and its body.
    Response(u16, Body),
}

/// The status is one of the 2xx codes.
pub open spec fn is_success(status: u16) -> bool {
    200 <= status <= 299
}

/// The rows that a reply delivers, or why it delivers none: no response, a
/// status that is not a success, a body that did not decode, in this order.
pub open spec fn payload_of(reply: Reply) -> Result<Vec<Vec<u64>>, TransportCause> {
    match reply {
        Reply::Failed(account) => Err(TransportCause::NoResponse(account)),
        Reply::Response(status, body) => if !is_success(status) {
            Err(TransportCause::Status(status))
        } else {
            match body {
                Body::Undecodable(account) => Err(TransportCause::Payload(account)),
                Body::Rows(rows) => Ok(rows),
            }
        },
    }
}

/// The rows that a reply delivers, or why it delivers none.
pub fn payload(reply: Reply) -> (rows: Result<Vec<Vec<u64>>, TransportCause>)
    ensures
        rows == payload_of(reply),
{
    match reply {
        Reply::Failed(account) => Err(TransportCause::NoResponse(account)),
        Reply::Response(status, body) => {
            if status < 200 || status > 299 {
                return Err(TransportCause::Status(status));
            }
            match body {
                Body::Undecodable(account) => Err(TransportCause::Payload(account)),
                Body::Rows(rows) => Ok(rows),
            }
        },
    }
}

} // verus!
