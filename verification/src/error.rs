//! How a retrieval fails, and what a caller may do about it.
use crate::asset_pair::AssetPair;
use time::OffsetDateTime;
use vstd::prelude::*;

verus! {

/// Why the provider could not be heard or understood.
#[derive(Debug, PartialEq, Eq)]
pub enum TransportCause {
    /// No response arrived: the connection failed or timed out. Carries the
    /// transport's own account of it.
    NoResponse(String),
    /// The response's HTTP status was not a success.
    Status(u16),
    /// The response's body could not be read or decoded. Carries the decoder's
    /// own account of it.
    Payload(String),
    /// The body decoded, but a row of it does not fit the provider's schema.
    Schema,
}

/// The failures of a price feed.
#[derive(Debug, PartialEq, Eq)]
pub enum PriceFeedError {
    /// The provider has no symbol for the pair. Carries the pair and the
    /// reason.
    UnsupportedPair(AssetPair, &'static str),
    /// The provider could not be heard or understood.
    TransportError(TransportCause),
    /// The provider answered, but what it sent cannot be a source of prices.
    InternalError(&'static str),
    /// The provider has data, but none for the day of the instant asked for.
    PriceNotAvailableError(AssetPair, OffsetDateTime),
}

/// What a caller may do after a failure.
#[derive(Clone, Copy, Debug, PartialEq, Eq, Structural)]
pub enum RetryAdvice {
    /// The same request can never succeed.
    Never,
    /// The failure may pass: ask again, after a pause.
    Retry,
    /// The provider misbehaved: ask again with caution.
    RetryWithCaution,
    /// The same instant will fail again; another instant may succeed.
    OtherInstantOnly,
}

impl PriceFeedError {
    /// What a caller may do after this failure.
    pub open spec fn advice(self) -> RetryAdvice {
        match self {
            PriceFeedError::UnsupportedPair(_, _) => RetryAdvice::Never,
            PriceFeedError::TransportError(_) => RetryAdvice::Retry,
            PriceFeedError::InternalError(_) => RetryAdvice::RetryWithCaution,
            PriceFeedError::PriceNotAvailableError(_, _) => RetryAdvice::OtherInstantOnly,
        }
    }

    /// What a caller may do after this failure.
    pub fn retry_advice(&self) -> (advice: RetryAdvice)
        ensures
            advice == self.advice(),
    {
        match self {
            PriceFeedError::UnsupportedPair(_, _) => RetryAdvice::Never,
            PriceFeedError::TransportError(_) => RetryAdvice::Retry,
            PriceFeedError::InternalError(_) => RetryAdvice::RetryWithCaution,
            PriceFeedError::PriceNotAvailableError(_, _) => RetryAdvice::OtherInstantOnly,
        }
    }
}

} // verus!
