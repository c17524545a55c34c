//! The Alpha Vantage feed.
//!
//! A retrieval has three steps. The feed translates the asset pair and
//! describes the request. A transport, which is not part of this library,
//! sends it and reports what came back. The feed reads the price out of that
//! reply. The requested day is the UTC day of the instant.
use crate::asset_pair::AssetPair;
use crate::error::{PriceFeedError, TransportCause};
use crate::instant::unix_seconds;
use crate::price::{price_bits, Price};
use crate::series::{closing_price, closing_price_of, SeriesFault};
use crate::transport::{payload, payload_of, Reply, Request};
use time::OffsetDateTime;
use vstd::prelude::*;

verus! {

/// The name of this feed.
pub const ID: &'static str = "alpha_avantage";

/// The provider's query endpoint.
pub const DEFAULT_ENDPOINT: &'static str = "https://www.alphavantage.co/query";

/// The provider's function that returns the daily time series.
pub const TIME_SERIES_DAILY: &'static str = "TIME_SERIES_DAILY";

/// The message of the failure on a response without rows.
pub const INVALID_RESPONSE: &'static str = "invalid response from provider";

/// The provider's symbol for MSTR/USD.
pub const MSTR: &'static str = "MSTR";

/// The symbol that the feed has for a pair when no table says otherwise.
pub open spec fn builtin_symbol(pair: AssetPair) -> Option<Seq<char>> {
    match pair {
        AssetPair::BTCUSD => None,
        AssetPair::BTCUSDT => None,
        AssetPair::MSTRUSD => Some(MSTR@),
    }
}

/// Why the feed has no symbol for a pair.
pub open spec fn unsupported_reason(pair: AssetPair) -> &'static str {
    match pair {
        AssetPair::BTCUSD => "alpha avantage does not support BTCUSD",
        AssetPair::BTCUSDT => "alpha avantage does not support BTCUSDT",
        AssetPair::MSTRUSD => "alpha avantage does not support MSTRUSD",
    }
}

/// The entry at `i` is the first of the table that names the pair.
pub open spec fn is_first_entry(table: Seq<(AssetPair, String)>, pair: AssetPair, i: int) -> bool {
    &&& 0 <= i < table.len()
    &&& table[i].0 == pair
    &&& forall|j: int| 0 <= j < i ==> (#[trigger] table[j]).0 != pair
}

/// The symbol that a table gives a pair: that of the first entry that names
/// the pair, else the built-in one.
pub open spec fn resolved_symbol(table: Seq<(AssetPair, String)>, pair: AssetPair) -> Option<
    Seq<char>,
> {
    if exists|i: int| is_first_entry(table, pair, i) {
        Some(table[choose|i: int| is_first_entry(table, pair, i)].1@)
    } else {
        builtin_symbol(pair)
    }
}

/// The table gives no pair an empty symbol, and no two pairs the same one.
pub open spec fn acceptable(table: Seq<(AssetPair, String)>) -> bool {
    &&& forall|p: AssetPair| (#[trigger] resolved_symbol(table, p)) matches Some(s) ==> s.len() > 0
    &&& forall|p: AssetPair, q: AssetPair|
        p != q && (#[trigger] resolved_symbol(table, p)) is Some ==> resolved_symbol(table, p)
            != #[trigger] resolved_symbol(table, q)
}

/// The text of a symbol, if there is one.
pub open spec fn text_of(symbol: Option<String>) -> Option<Seq<char>> {
    match symbol {
        Some(s) => Some(s@),
        None => None,
    }
}

/// The failure that a fault of the series is reported as.
pub open spec fn fault_error(
    fault: SeriesFault,
    pair: AssetPair,
    instant: OffsetDateTime,
) -> PriceFeedError {
    match fault {
        SeriesFault::Malformed => PriceFeedError::TransportError(TransportCause::Schema),
        SeriesFault::Empty => PriceFeedError::InternalError(INVALID_RESPONSE),
        SeriesFault::NoRowForDay => PriceFeedError::PriceNotAvailableError(pair, instant),
    }
}

/// What a reply yields for a pair that the feed supports: the failure of the
/// transport, else the fault of the series, else the closing price of the
/// first row that falls on the UTC day of the instant.
pub open spec fn reply_outcome(pair: AssetPair, instant: OffsetDateTime, reply: Reply) -> Result<
    u64,
    PriceFeedError,
> {
    match payload_of(reply) {
        Err(cause) => Err(PriceFeedError::TransportError(cause)),
        Ok(rows) => match closing_price_of(rows.deep_view(), unix_seconds(instant) as int) {
            Ok(close) => Ok(close),
            Err(fault) => Err(fault_error(fault, pair, instant)),
        },
    }
}

/// The feed: where the provider is reached, the credential, and the symbol of
/// each pair that the provider is asked about.
#[derive(Debug)]
pub struct AlphaAvantage {
    endpoint: String,
    api_key: String,
    btcusd: Option<String>,
    btcusdt: Option<String>,
    mstrusd: Option<String>,
}

impl AlphaAvantage {
    /// The URL of the provider's query endpoint.
    pub closed spec fn endpoint(&self) -> String {
        self.endpoint
    }

    /// The credential.
    pub closed spec fn api_key(&self) -> String {
        self.api_key
    }

    /// The provider's symbol for the pair, if the feed supports the pair.
    pub closed spec fn symbol(&self, pair: AssetPair) -> Option<String> {
        match pair {
            AssetPair::BTCUSD => self.btcusd,
            AssetPair::BTCUSDT => self.btcusdt,
            AssetPair::MSTRUSD => self.mstrusd,
        }
    }

    /// The text of the provider's symbol for the pair.
    pub open spec fn symbol_of(&self, pair: AssetPair) -> Option<Seq<char>> {
        text_of(self.symbol(pair))
    }

    /// No symbol of the feed is empty, and no two pairs share one.
    #[verifier::type_invariant]
    pub open spec fn wf(&self) -> bool {
        &&& forall|p: AssetPair| (#[trigger] self.symbol_of(p)) matches Some(s) ==> s.len() > 0
        &&& forall|p: AssetPair, q: AssetPair|
            p != q && (#[trigger] self.symbol_of(p)) is Some ==> self.symbol_of(p)
                != #[trigger] self.symbol_of(q)
    }

    /// The request for the price of a pair at an instant, or the failure for a
    /// pair without a symbol.
    pub open spec fn request_of(&self, pair: AssetPair, instant: OffsetDateTime) -> Result<
        Request,
        PriceFeedError,
    > {
        match self.symbol(pair) {
            Some(symbol) => Ok(
                Request {
                    endpoint: self.endpoint(),
                    function: TIME_SERIES_DAILY,
                    symbol,
                    api_key: self.api_key(),
                    start: unix_seconds(instant),
                },
            ),
            None => Err(PriceFeedError::UnsupportedPair(pair, unsupported_reason(pair))),
        }
    }

    /// What a retrieval yields when the transport reports `reply`.
    pub open spec fn outcome(
        &self,
        pair: AssetPair,
        instant: OffsetDateTime,
        reply: Reply,
    ) -> Result<u64, PriceFeedError> {
        match self.request_of(pair, instant) {
            Err(e) => Err(e),
            Ok(_) => reply_outcome(pair, instant, reply),
        }
    }

    /// `result` is what a retrieval through `transport` may yield: the failure
    /// of the translation, or the outcome of a reply that the transport may
    /// give to the request.
    pub open spec fn retrieved<T: FnOnce(Request) -> Reply>(
        &self,
        pair: AssetPair,
        instant: OffsetDateTime,
        transport: T,
        result: Result<Price, PriceFeedError>,
    ) -> bool {
        match self.request_of(pair, instant) {
            Err(e) => result == Err::<Price, PriceFeedError>(e),
            Ok(request) => exists|reply: Reply| #[trigger]
                transport.ensures((request,), reply) && price_bits(result) == self.outcome(
                    pair,
                    instant,
                    reply,
                ),
        }
    }

    /// A feed with the built-in symbols.
    pub fn new(endpoint: String, api_key: String) -> (feed: AlphaAvantage)
        ensures
            feed.endpoint() == endpoint,
            feed.api_key() == api_key,
            forall|pair: AssetPair| feed.symbol_of(pair) == builtin_symbol(pair),
            feed.wf(),
    {
        proof {
            reveal_strlit("MSTR");
        }
        let feed = AlphaAvantage {
            endpoint,
            api_key,
            btcusd: None,
            btcusdt: None,
            mstrusd: Some(MSTR.to_owned()),
        };
        feed
    }

    /// A feed whose symbols come from a table: a pair has the symbol of the
    /// first entry that names it, and its built-in symbol when no entry does.
    /// `None` when that would give a pair an empty symbol, or two pairs the
    /// same one.
    pub fn with_symbol_map(
        endpoint: String,
        api_key: String,
        symbol_map: Vec<(AssetPair, String)>,
    ) -> (feed: Option<AlphaAvantage>)
        ensures
            feed is Some <==> acceptable(symbol_map@),
            feed matches Some(f) ==> {
                &&& f.endpoint() == endpoint
                &&& f.api_key() == api_key
                &&& forall|pair: AssetPair| f.symbol_of(pair) == resolved_symbol(symbol_map@, pair)
                &&& f.wf()
            },
    {
        let btcusd: Option<String> = resolve(&symbol_map, AssetPair::BTCUSD);
        let btcusdt: Option<String> = resolve(&symbol_map, AssetPair::BTCUSDT);
        let mstrusd: Option<String> = resolve(&symbol_map, AssetPair::MSTRUSD);
        if is_empty_symbol(&btcusd) || is_empty_symbol(&btcusdt) || is_empty_symbol(&mstrusd) {
            return None;
        }
        if same_symbol(&btcusd, &btcusdt) || same_symbol(&btcusd, &mstrusd) || same_symbol(
            &btcusdt,
            &mstrusd,
        ) {
            return None;
        }
        let feed = AlphaAvantage { endpoint, api_key, btcusd, btcusdt, mstrusd };
        Some(feed)
    }

    fn stored_symbol(&self, pair: AssetPair) -> (stored: &Option<String>)
        ensures
            *stored == self.symbol(pair),
    {
        match pair {
            AssetPair::BTCUSD => &self.btcusd,
            AssetPair::BTCUSDT => &self.btcusdt,
            AssetPair::MSTRUSD => &self.mstrusd,
        }
    }

    /// The name of this feed.
    pub fn id(&self) -> (id: &'static str)
        ensures
            id == ID,
    {
        ID
    }

    /// The provider's symbol for the pair, or `UnsupportedPair` with the pair
    /// and the reason when the feed has none.
    pub fn translate_asset_pair(&self, asset_pair: AssetPair) -> (symbol: Result<
        &str,
        PriceFeedError,
    >)
        ensures
            match self.symbol_of(asset_pair) {
                Some(text) => symbol matches Ok(s) && s@ == text && text.len() > 0,
                None => symbol == Err::<&str, PriceFeedError>(
                    PriceFeedError::UnsupportedPair(asset_pair, unsupported_reason(asset_pair)),
                ),
            },
    {
        proof {
            use_type_invariant(self);
        }
        match self.stored_symbol(asset_pair) {
            Some(s) => Ok(s.as_str()),
            None => Err(PriceFeedError::UnsupportedPair(asset_pair, reason_unsupported(asset_pair))),
        }
    }

    /// The request for the price of a pair at an instant: a query for the
    /// daily series of the pair's symbol that starts at the instant's Unix
    /// timestamp. Fails with `UnsupportedPair` when the feed has no symbol for
    /// the pair.
    pub fn request(&self, asset_pair: AssetPair, instant: OffsetDateTime) -> (request: Result<
        Request,
        PriceFeedError,
    >)
        ensures
            request == self.request_of(asset_pair, instant),
    {
        match self.stored_symbol(asset_pair) {
            Some(s) => Ok(
                Request {
                    endpoint: self.endpoint.clone(),
                    function: TIME_SERIES_DAILY,
                    symbol: s.clone(),
                    api_key: self.api_key.clone(),
                    start: instant.unix_timestamp(),
                },
            ),
            None => Err(PriceFeedError::UnsupportedPair(asset_pair, reason_unsupported(asset_pair))),
        }
    }

    /// The price that a reply holds for a pair at an instant.
    pub fn price_from_reply(
        &self,
        asset_pair: AssetPair,
        instant: OffsetDateTime,
        reply: Reply,
    ) -> (result: Result<Price, PriceFeedError>)
        ensures
            price_bits(result) == self.outcome(asset_pair, instant, reply),
    {
        match self.translate_asset_pair(asset_pair) {
            Err(e) => {
                return Err(e);
            },
            Ok(_) => {},
        }
        match payload(reply) {
            Err(cause) => Err(PriceFeedError::TransportError(cause)),
            Ok(rows) => match closing_price(&rows, instant.unix_timestamp()) {
                Ok(price) => Ok(price),
                Err(SeriesFault::Malformed) => Err(
                    PriceFeedError::TransportError(TransportCause::Schema),
                ),
                Err(SeriesFault::Empty) => Err(PriceFeedError::InternalError(INVALID_RESPONSE)),
                Err(SeriesFault::NoRowForDay) => Err(
                    PriceFeedError::PriceNotAvailableError(asset_pair, instant),
                ),
            },
        }
    }

    /// Retrieves the price of a pair at an instant through a transport.
    ///
    /// The transport is called once, with the request, if the feed has a
    /// symbol for the pair; it is not called otherwise.
    pub fn retrieve_price<T: FnOnce(Request) -> Reply>(
        &self,
        asset_pair: AssetPair,
        instant: OffsetDateTime,
        transport: T,
    ) -> (result: Result<Price, PriceFeedError>)
        requires
            self.request_of(asset_pair, instant) matches Ok(request) ==> transport.requires(
                (request,),
            ),
        ensures
            self.retrieved(asset_pair, instant, transport, result),
    {
        match self.request(asset_pair, instant) {
            Err(e) => Err(e),
            Ok(request) => {
                let reply: Reply = transport(request);
                self.price_from_reply(asset_pair, instant, reply)
            },
        }
    }
}

/// The table's first entry for a pair is the only first one, so
/// `resolved_symbol` speaks of it.
pub proof fn lemma_first_entry_is_unique(table: Seq<(AssetPair, String)>, pair: AssetPair, i: int)
    requires
        is_first_entry(table, pair, i),
    ensures
        forall|j: int| is_first_entry(table, pair, j) ==> j == i,
        resolved_symbol(table, pair) == Some(table[i].1@),
{
    assert forall|j: int| is_first_entry(table, pair, j) implies j == i by {
        if j < i {
            assert(table[j].0 != pair);
        } else if i < j {
            assert(table[i].0 != pair);
        }
    }
}

/// The symbol that a table gives a pair.
pub fn resolve(table: &Vec<(AssetPair, String)>, pair: AssetPair) -> (symbol: Option<String>)
    ensures
        text_of(symbol) == resolved_symbol(table@, pair),
{
    let mut i: usize = 0;
    while i < table.len()
        invariant
            i <= table.len(),
            forall|j: int| 0 <= j < i ==> (#[trigger] table@[j]).0 != pair,
        decreases table.len() - i,
    {
        if table[i].0 == pair {
            proof {
                lemma_first_entry_is_unique(table@, pair, i as int);
            }
            return Some(table[i].1.clone());
        }
        i += 1;
    }
    match pair {
        AssetPair::BTCUSD => None,
        AssetPair::BTCUSDT => None,
        AssetPair::MSTRUSD => Some(MSTR.to_owned()),
    }
}

/// Whether there is a symbol and it is empty.
fn is_empty_symbol(symbol: &Option<String>) -> (empty: bool)
    ensures
        empty == (text_of(*symbol) matches Some(s) && s.len() == 0),
{
    match symbol {
        Some(s) => s.as_str().is_empty(),
        None => false,
    }
}

/// Whether there are two symbols and they are the same.
fn same_symbol(a: &Option<String>, b: &Option<String>) -> (same: bool)
    ensures
        same == (text_of(*a) is Some && text_of(*a) == text_of(*b)),
{
    match (a, b) {
        (Some(x), Some(y)) => *x == *y,
        _ => false,
    }
}

/// Why the feed has no symbol for a pair.
pub fn reason_unsupported(pair: AssetPair) -> (reason: &'static str)
    ensures
        reason == unsupported_reason(pair),
{
    match pair {
        AssetPair::BTCUSD => "alpha avantage does not support BTCUSD",
        AssetPair::BTCUSDT => "alpha avantage does not support BTCUSDT",
        AssetPair::MSTRUSD => "alpha avantage does not support MSTRUSD",
    }
}

} // verus!
