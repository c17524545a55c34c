//! What holds of every retrieval.
//!
//! A transport is known by what it may answer: `transport.ensures((request,),
//! reply)` says that `reply` is a possible answer to `request`. Each statement
//! below takes the result of a retrieval through a transport, as
//! `AlphaAvantage::retrieved` describes it, and says what the result is when
//! the transport answers in a given way.
use crate::alpha_avantage::{unsupported_reason, AlphaAvantage, INVALID_RESPONSE};
use crate::asset_pair::AssetPair;
use crate::binary64::is_non_negative;
use crate::error::PriceFeedError;
use crate::instant::{day_of, unix_seconds};
use crate::price::{lemma_price_is_its_bits, price_bits, Price};
use crate::series::{
    falls_on, is_first_on, lemma_first_is_unique, row_of, series_of, DailyRow, CLOSE_FIELD,
};
use crate::transport::{payload_of, Reply, Request};
use time::OffsetDateTime;
use vstd::prelude::*;

verus! {

/// The UTC day of an instant.
pub open spec fn day_of_instant(instant: OffsetDateTime) -> int {
    day_of(unix_seconds(instant) as int)
}

/// The reply is a successful response whose body decoded into `rows`.
pub open spec fn delivers(reply: Reply, rows: Seq<Seq<u64>>) -> bool {
    payload_of(reply) matches Ok(decoded) && decoded.deep_view() == rows
}

/// Whatever the transport answers, it delivers `rows`.
pub open spec fn always_delivers<T: FnOnce(Request) -> Reply>(
    transport: T,
    rows: Seq<Seq<u64>>,
) -> bool {
    forall|request: Request, reply: Reply| #[trigger]
        transport.ensures((request,), reply) ==> delivers(reply, rows)
}

/// A pair that the feed supports has a symbol that is not empty, and no other
/// pair has the same symbol.
pub proof fn lemma_symbols_are_distinct(feed: AlphaAvantage, pair: AssetPair, other: AssetPair)
    requires
        feed.wf(),
        feed.symbol_of(pair) is Some,
    ensures
        feed.symbol_of(pair).unwrap().len() > 0,
        other != pair ==> feed.symbol_of(other) != feed.symbol_of(pair),
{
}

/// For a pair without a symbol the feed describes no request, so there is
/// nothing that a transport could be given; and whatever a transport might
/// have answered, the retrieval fails with `UnsupportedPair`, the pair and the
/// reason.
pub proof fn lemma_unsupported_pair_sends_nothing<T: FnOnce(Request) -> Reply>(
    feed: AlphaAvantage,
    pair: AssetPair,
    instant: OffsetDateTime,
    transport: T,
    result: Result<Price, PriceFeedError>,
)
    requires
        feed.symbol_of(pair) is None,
        feed.retrieved(pair, instant, transport, result),
    ensures
        feed.request_of(pair, instant) is Err,
        result == Err::<Price, PriceFeedError>(
            PriceFeedError::UnsupportedPair(pair, unsupported_reason(pair)),
        ),
        forall|reply: Reply| #[trigger]
            feed.outcome(pair, instant, reply) == Err::<u64, PriceFeedError>(
                PriceFeedError::UnsupportedPair(pair, unsupported_reason(pair)),
            ),
{
}

/// Through a transport that delivers a series without rows, the retrieval of
/// a supported pair fails with `InternalError`.
pub proof fn lemma_empty_series_is_internal_error<T: FnOnce(Request) -> Reply>(
    feed: AlphaAvantage,
    pair: AssetPair,
    instant: OffsetDateTime,
    transport: T,
    result: Result<Price, PriceFeedError>,
)
    requires
        feed.symbol_of(pair) is Some,
        always_delivers(transport, Seq::<Seq<u64>>::empty()),
        feed.retrieved(pair, instant, transport, result),
    ensures
        result == Err::<Price, PriceFeedError>(PriceFeedError::InternalError(INVALID_RESPONSE)),
{
    assert(series_of(Seq::<Seq<u64>>::empty()) == Some(Seq::<DailyRow>::empty()));
}

/// Through a transport that delivers rows that all fit the schema, the
/// retrieval of a supported pair yields the closing price of the first row
/// that falls on the day of the instant, bit for bit.
pub proof fn lemma_row_of_the_day_gives_its_close<T: FnOnce(Request) -> Reply>(
    feed: AlphaAvantage,
    pair: AssetPair,
    instant: OffsetDateTime,
    transport: T,
    rows: Seq<Seq<u64>>,
    i: int,
    result: Result<Price, PriceFeedError>,
)
    requires
        feed.symbol_of(pair) is Some,
        always_delivers(transport, rows),
        series_of(rows) is Some,
        is_first_on(series_of(rows).unwrap(), day_of_instant(instant), i),
        feed.retrieved(pair, instant, transport, result),
    ensures
        result matches Ok(price) && price@ == rows[i][CLOSE_FIELD as int],
{
    let series = series_of(rows).unwrap();
    lemma_first_is_unique(series, day_of_instant(instant), i);
    assert(series[i] == row_of(rows[i]).unwrap());
}

/// Through a transport that delivers rows that all fit the schema, none of
/// them on the day of the instant, the retrieval of a supported pair fails with
/// `PriceNotAvailableError`, the pair and the instant.
pub proof fn lemma_no_row_of_the_day_is_not_available<T: FnOnce(Request) -> Reply>(
    feed: AlphaAvantage,
    pair: AssetPair,
    instant: OffsetDateTime,
    transport: T,
    rows: Seq<Seq<u64>>,
    result: Result<Price, PriceFeedError>,
)
    requires
        feed.symbol_of(pair) is Some,
        always_delivers(transport, rows),
        rows.len() > 0,
        series_of(rows) is Some,
        forall|i: int|
            0 <= i < rows.len() ==> !falls_on(
                #[trigger] series_of(rows).unwrap()[i],
                day_of_instant(instant),
            ),
        feed.retrieved(pair, instant, transport, result),
    ensures
        result == Err::<Price, PriceFeedError>(
            PriceFeedError::PriceNotAvailableError(pair, instant),
        ),
{
}

/// A price is only ever that of a pair with a symbol, is not below zero, and
/// is the closing price of a row of the reply that falls on the day of the
/// instant.
pub proof fn lemma_price_has_a_source(
    feed: AlphaAvantage,
    pair: AssetPair,
    instant: OffsetDateTime,
    reply: Reply,
    bits: u64,
)
    requires
        feed.outcome(pair, instant, reply) == Ok::<u64, PriceFeedError>(bits),
    ensures
        feed.symbol_of(pair) is Some,
        is_non_negative(bits),
        payload_of(reply) is Ok,
        series_of(payload_of(reply).unwrap().deep_view()) is Some,
        exists|i: int|
            #![trigger series_of(payload_of(reply).unwrap().deep_view()).unwrap()[i]]
            {
                &&& is_first_on(
                    series_of(payload_of(reply).unwrap().deep_view()).unwrap(),
                    day_of_instant(instant),
                    i,
                )
                &&& series_of(payload_of(reply).unwrap().deep_view()).unwrap()[i].close == bits
            },
{
    let raw = payload_of(reply).unwrap().deep_view();
    let series = series_of(raw).unwrap();
    let i = choose|i: int| is_first_on(series, day_of_instant(instant), i);
    assert(series[i] == row_of(raw[i]).unwrap());
    assert(is_first_on(series, day_of_instant(instant), i) && series[i].close == bits);
}

/// Against a transport that answers each request in one way only, a retrieval
/// has one result: two retrievals of the same pair at the same instant agree.
pub proof fn lemma_retrieval_is_deterministic<T: FnOnce(Request) -> Reply>(
    feed: AlphaAvantage,
    pair: AssetPair,
    instant: OffsetDateTime,
    transport: T,
    first: Result<Price, PriceFeedError>,
    second: Result<Price, PriceFeedError>,
)
    requires
        forall|request: Request, a: Reply, b: Reply|
            #[trigger] transport.ensures((request,), a) && #[trigger] transport.ensures(
                (request,),
                b,
            ) ==> a == b,
        feed.retrieved(pair, instant, transport, first),
        feed.retrieved(pair, instant, transport, second),
    ensures
        first == second,
{
    if feed.request_of(pair, instant) is Ok {
        assert(price_bits(first) == price_bits(second));
        if first is Ok {
            lemma_price_is_its_bits(first.unwrap(), second.unwrap());
        }
    }
}

} // verus!
