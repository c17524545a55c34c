use pricefeeds::alpha_avantage::{
    reason_unsupported, resolve, AlphaAvantage, DEFAULT_ENDPOINT, ID, INVALID_RESPONSE,
    TIME_SERIES_DAILY,
};
use pricefeeds::asset_pair::AssetPair;
use pricefeeds::error::{PriceFeedError, RetryAdvice, TransportCause};
use pricefeeds::transport::{
    payload, Body, Reply, Request, API_KEY_PARAMETER, FUNCTION_PARAMETER, START_PARAMETER,
    SYMBOL_PARAMETER,
};
use std::cell::Cell;
use time::{Date, Month, OffsetDateTime, UtcOffset};

const PAIRS: [AssetPair; 3] = [AssetPair::BTCUSD, AssetPair::BTCUSDT, AssetPair::MSTRUSD];

fn feed() -> AlphaAvantage {
    AlphaAvantage::new(DEFAULT_ENDPOINT.to_string(), "demo".to_string())
}

fn at(seconds: i64) -> OffsetDateTime {
    OffsetDateTime::from_unix_timestamp(seconds).unwrap()
}

fn day(timestamp: f64, close: f64) -> Vec<u64> {
    [timestamp, 10.0, 12.0, 9.0, close, 1_000_000.0].iter().map(|value| value.to_bits()).collect()
}

fn series(rows: Vec<Vec<u64>>) -> Reply {
    Reply::Response(200, Body::Rows(rows))
}

#[test]
fn retrieve() {
    let feed = feed();
    let price = feed.retrieve_price(AssetPair::MSTRUSD, OffsetDateTime::now_utc(), |request| {
        series(vec![day(request.start as f64, 342.17)])
    });
    match price {
        Ok(_) => assert!(true),
        Err(_) => assert!(false, "{:#?}", &price),
    }
}

#[test]
fn id_names_the_feed() {
    assert_eq!(feed().id(), "alpha_avantage");
    assert_eq!(ID, "alpha_avantage");
}

#[test]
fn translate_gives_the_symbol_of_a_supported_pair() {
    assert_eq!(feed().translate_asset_pair(AssetPair::MSTRUSD), Ok("MSTR"));
}

#[test]
fn translate_fails_for_an_unsupported_pair() {
    let feed = feed();
    assert_eq!(
        feed.translate_asset_pair(AssetPair::BTCUSD),
        Err(PriceFeedError::UnsupportedPair(
            AssetPair::BTCUSD,
            "alpha avantage does not support BTCUSD"
        ))
    );
    assert_eq!(
        feed.translate_asset_pair(AssetPair::BTCUSDT),
        Err(PriceFeedError::UnsupportedPair(
            AssetPair::BTCUSDT,
            "alpha avantage does not support BTCUSDT"
        ))
    );
    assert_eq!(reason_unsupported(AssetPair::MSTRUSD), "alpha avantage does not support MSTRUSD");
}

#[test]
fn symbols_are_not_empty_and_not_shared() {
    let feeds = [
        feed(),
        AlphaAvantage::with_symbol_map(
            DEFAULT_ENDPOINT.to_string(),
            "demo".to_string(),
            vec![(AssetPair::BTCUSD, "BTC".to_string()), (AssetPair::BTCUSDT, "BTCT".to_string())],
        )
        .unwrap(),
    ];
    for feed in &feeds {
        for pair in PAIRS {
            match feed.translate_asset_pair(pair) {
                Ok(symbol) => {
                    assert!(!symbol.is_empty());
                    for other in PAIRS {
                        if other != pair {
                            assert_ne!(feed.translate_asset_pair(other), Ok(symbol));
                        }
                    }
                }
                Err(e) => assert!(matches!(e, PriceFeedError::UnsupportedPair(p, _) if p == pair)),
            }
        }
    }
}

#[test]
fn symbol_map_overrides_the_built_in_symbols() {
    let feed = AlphaAvantage::with_symbol_map(
        "https://example.test/query".to_string(),
        "demo".to_string(),
        vec![
            (AssetPair::BTCUSD, "BTC".to_string()),
            (AssetPair::MSTRUSD, "MSTR.US".to_string()),
            (AssetPair::BTCUSD, "XBT".to_string()),
        ],
    )
    .unwrap();
    assert_eq!(feed.translate_asset_pair(AssetPair::BTCUSD), Ok("BTC"));
    assert_eq!(feed.translate_asset_pair(AssetPair::MSTRUSD), Ok("MSTR.US"));
    assert!(matches!(
        feed.translate_asset_pair(AssetPair::BTCUSDT),
        Err(PriceFeedError::UnsupportedPair(AssetPair::BTCUSDT, _))
    ));
}

#[test]
fn empty_symbol_map_leaves_the_built_in_symbols() {
    let feed =
        AlphaAvantage::with_symbol_map("e".to_string(), "k".to_string(), Vec::new()).unwrap();
    assert_eq!(feed.translate_asset_pair(AssetPair::MSTRUSD), Ok("MSTR"));
    assert!(feed.translate_asset_pair(AssetPair::BTCUSD).is_err());
    assert!(feed.translate_asset_pair(AssetPair::BTCUSDT).is_err());
}

#[test]
fn symbol_map_with_an_empty_symbol_is_refused() {
    let feed = AlphaAvantage::with_symbol_map(
        "e".to_string(),
        "k".to_string(),
        vec![(AssetPair::BTCUSD, String::new())],
    );
    assert!(feed.is_none());
}

#[test]
fn symbol_map_with_a_shared_symbol_is_refused() {
    let shared_with_built_in = AlphaAvantage::with_symbol_map(
        "e".to_string(),
        "k".to_string(),
        vec![(AssetPair::BTCUSD, "MSTR".to_string())],
    );
    assert!(shared_with_built_in.is_none());
    let shared_in_the_table = AlphaAvantage::with_symbol_map(
        "e".to_string(),
        "k".to_string(),
        vec![(AssetPair::BTCUSD, "BTC".to_string()), (AssetPair::BTCUSDT, "BTC".to_string())],
    );
    assert!(shared_in_the_table.is_none());
    let shadowed = AlphaAvantage::with_symbol_map(
        "e".to_string(),
        "k".to_string(),
        vec![
            (AssetPair::BTCUSD, "BTC".to_string()),
            (AssetPair::BTCUSDT, "BTCT".to_string()),
            (AssetPair::BTCUSDT, "BTC".to_string()),
        ],
    );
    assert!(shadowed.is_some());
}

#[test]
fn resolve_takes_the_first_entry_then_the_built_in_symbol() {
    let table = vec![
        (AssetPair::BTCUSDT, "A".to_string()),
        (AssetPair::BTCUSDT, "B".to_string()),
        (AssetPair::MSTRUSD, String::new()),
    ];
    assert_eq!(resolve(&table, AssetPair::BTCUSDT), Some("A".to_string()));
    assert_eq!(resolve(&table, AssetPair::MSTRUSD), Some(String::new()));
    assert_eq!(resolve(&table, AssetPair::BTCUSD), None);
    assert_eq!(resolve(&Vec::new(), AssetPair::MSTRUSD), Some("MSTR".to_string()));
    assert_eq!(resolve(&Vec::new(), AssetPair::BTCUSDT), None);
}

#[test]
fn request_asks_for_the_daily_series_from_the_instant() {
    let feed = AlphaAvantage::new("https://example.test/query".to_string(), "secret".to_string());
    let request = feed.request(AssetPair::MSTRUSD, at(1_700_000_000)).unwrap();
    assert_eq!(
        request,
        Request {
            endpoint: "https://example.test/query".to_string(),
            function: "TIME_SERIES_DAILY",
            symbol: "MSTR".to_string(),
            api_key: "secret".to_string(),
            start: 1_700_000_000,
        }
    );
    assert_eq!(TIME_SERIES_DAILY, "TIME_SERIES_DAILY");
    assert_eq!(DEFAULT_ENDPOINT, "https://www.alphavantage.co/query");
    assert_eq!(
        [FUNCTION_PARAMETER, SYMBOL_PARAMETER, API_KEY_PARAMETER, START_PARAMETER],
        ["function", "symbol", "apikey", "start"]
    );
}

#[test]
fn request_starts_at_the_unix_timestamp_of_the_instant() {
    let feed = feed();
    let date = Date::from_calendar_date(2023, Month::November, 14).unwrap();
    let utc = date.with_hms(22, 13, 20).unwrap().assume_utc();
    assert_eq!(feed.request(AssetPair::MSTRUSD, utc).unwrap().start, 1_700_000_000);
    let east = date.with_hms(23, 13, 20).unwrap().assume_offset(UtcOffset::from_hms(1, 0, 0).unwrap());
    assert_eq!(feed.request(AssetPair::MSTRUSD, east).unwrap().start, 1_700_000_000);
    let epoch = Date::from_calendar_date(1970, Month::January, 1).unwrap().midnight().assume_utc();
    assert_eq!(feed.request(AssetPair::MSTRUSD, epoch).unwrap().start, 0);
    let before = Date::from_calendar_date(1969, Month::December, 31).unwrap().with_hms(23, 59, 59);
    assert_eq!(feed.request(AssetPair::MSTRUSD, before.unwrap().assume_utc()).unwrap().start, -1);
}

#[test]
fn request_is_the_same_for_the_same_pair_and_instant() {
    let feed = feed();
    let first = feed.request(AssetPair::MSTRUSD, at(1_700_000_000));
    let second = feed.request(AssetPair::MSTRUSD, at(1_700_000_000));
    assert_eq!(first, second);
    assert_ne!(first, feed.request(AssetPair::MSTRUSD, at(1_700_000_001)));
}

#[test]
fn request_fails_for_an_unsupported_pair() {
    assert_eq!(
        feed().request(AssetPair::BTCUSD, at(1_700_000_000)),
        Err(PriceFeedError::UnsupportedPair(
            AssetPair::BTCUSD,
            "alpha avantage does not support BTCUSD"
        ))
    );
}

#[test]
fn unsupported_pair_fails_without_a_call_of_the_transport() {
    let feed = feed();
    let calls = Cell::new(0u32);
    for pair in [AssetPair::BTCUSD, AssetPair::BTCUSDT] {
        let result = feed.retrieve_price(pair, at(1_700_000_000), |_request| {
            calls.set(calls.get() + 1);
            series(vec![day(1_700_000_000.0, 1.0)])
        });
        assert!(matches!(result, Err(PriceFeedError::UnsupportedPair(p, _)) if p == pair));
    }
    assert_eq!(calls.get(), 0);
}

#[test]
fn supported_pair_calls_the_transport_once_with_the_request() {
    let feed = feed();
    let calls = Cell::new(0u32);
    let result = feed.retrieve_price(AssetPair::MSTRUSD, at(1_700_000_000), |request| {
        calls.set(calls.get() + 1);
        assert_eq!(Ok(request), feed.request(AssetPair::MSTRUSD, at(1_700_000_000)));
        series(vec![day(1_700_000_000.0, 1.0)])
    });
    assert!(result.is_ok());
    assert_eq!(calls.get(), 1);
}

#[test]
fn empty_series_is_an_internal_error() {
    let result = feed().retrieve_price(AssetPair::MSTRUSD, at(1_700_000_000), |_request| {
        series(Vec::new())
    });
    assert_eq!(result, Err(PriceFeedError::InternalError("invalid response from provider")));
    assert_eq!(INVALID_RESPONSE, "invalid response from provider");
}

#[test]
fn close_of_the_requested_day_is_returned_bit_for_bit() {
    let close = 342.17f64 / 3.0;
    let result = feed().retrieve_price(AssetPair::MSTRUSD, at(1_700_000_000), |_request| {
        series(vec![
            day(1_700_006_400.0, 1.0),
            day(1_699_920_000.0, close),
            day(1_699_833_600.0, 2.0),
        ])
    });
    let price = result.unwrap();
    assert_eq!(price.to_bits(), close.to_bits());
    assert_eq!(f64::from_bits(price.to_bits()), close);
}

#[test]
fn first_row_of_the_requested_day_wins() {
    let result = feed().retrieve_price(AssetPair::MSTRUSD, at(1_700_000_000), |_request| {
        series(vec![day(1_699_920_000.0, 5.0), day(1_700_000_000.0, 6.0)])
    });
    assert_eq!(result.unwrap().to_bits(), 5.0f64.to_bits());
}

#[test]
fn missing_day_is_price_not_available_with_pair_and_instant() {
    let instant = at(1_700_000_000);
    let result = feed().retrieve_price(AssetPair::MSTRUSD, instant, |_request| {
        series(vec![day(1_700_006_400.0, 1.0), day(1_699_919_999.0, 2.0)])
    });
    assert_eq!(
        result,
        Err(PriceFeedError::PriceNotAvailableError(AssetPair::MSTRUSD, instant))
    );
}

#[test]
fn transport_failures_are_transport_errors() {
    let feed = feed();
    let instant = at(1_700_000_000);
    let unreachable = feed.retrieve_price(AssetPair::MSTRUSD, instant, |_request| {
        Reply::Failed("connection refused".to_string())
    });
    assert_eq!(
        unreachable,
        Err(PriceFeedError::TransportError(TransportCause::NoResponse(
            "connection refused".to_string()
        )))
    );
    let undecodable = feed.retrieve_price(AssetPair::MSTRUSD, instant, |_request| {
        Reply::Response(200, Body::Undecodable("expected value at line 1".to_string()))
    });
    assert_eq!(
        undecodable,
        Err(PriceFeedError::TransportError(TransportCause::Payload(
            "expected value at line 1".to_string()
        )))
    );
    let malformed = feed.retrieve_price(AssetPair::MSTRUSD, instant, |_request| {
        series(vec![day(1_699_920_000.0, 1.0), vec![1.0f64.to_bits()]])
    });
    assert_eq!(malformed, Err(PriceFeedError::TransportError(TransportCause::Schema)));
}

#[test]
fn status_outside_2xx_is_a_transport_error() {
    let feed = feed();
    for status in [0u16, 100, 199, 300, 301, 404, 429, 500, 503, u16::MAX] {
        let result = feed.retrieve_price(AssetPair::MSTRUSD, at(1_700_000_000), |_request| {
            Reply::Response(status, Body::Rows(vec![day(1_700_000_000.0, 1.0)]))
        });
        assert_eq!(result, Err(PriceFeedError::TransportError(TransportCause::Status(status))));
    }
    for status in [200u16, 201, 204, 299] {
        let result = feed.retrieve_price(AssetPair::MSTRUSD, at(1_700_000_000), |_request| {
            Reply::Response(status, Body::Rows(vec![day(1_700_000_000.0, 1.0)]))
        });
        assert_eq!(result.unwrap().to_bits(), 1.0f64.to_bits());
    }
}

#[test]
fn status_is_reported_before_the_body() {
    let result = feed().retrieve_price(AssetPair::MSTRUSD, at(1_700_000_000), |_request| {
        Reply::Response(503, Body::Undecodable("not json".to_string()))
    });
    assert_eq!(result, Err(PriceFeedError::TransportError(TransportCause::Status(503))));
}

#[test]
fn payload_sorts_the_replies() {
    assert_eq!(
        payload(Reply::Failed("timed out".to_string())),
        Err(TransportCause::NoResponse("timed out".to_string()))
    );
    assert_eq!(payload(Reply::Response(404, Body::Rows(Vec::new()))), Err(TransportCause::Status(404)));
    assert_eq!(
        payload(Reply::Response(200, Body::Undecodable("eof".to_string()))),
        Err(TransportCause::Payload("eof".to_string()))
    );
    assert_eq!(payload(Reply::Response(200, Body::Rows(vec![vec![1, 2]]))), Ok(vec![vec![1, 2]]));
}

#[test]
fn price_from_reply_reads_what_the_transport_reported() {
    let feed = feed();
    let instant = at(1_700_000_000);
    let price = feed.price_from_reply(AssetPair::MSTRUSD, instant, series(vec![day(1_700_000_000.0, 8.5)]));
    assert_eq!(price.unwrap().to_bits(), 8.5f64.to_bits());
    let unsupported = feed.price_from_reply(AssetPair::BTCUSD, instant, series(vec![day(1_700_000_000.0, 8.5)]));
    assert!(matches!(unsupported, Err(PriceFeedError::UnsupportedPair(AssetPair::BTCUSD, _))));
}

#[test]
fn same_pair_and_instant_give_the_same_result() {
    let feed = feed();
    let transport = |request: Request| {
        if request.start % 2 == 0 {
            series(vec![day(request.start as f64, 12.5)])
        } else {
            series(vec![day(0.0, 12.5)])
        }
    };
    for seconds in [1_700_000_000i64, 1_700_000_001] {
        let first = feed.retrieve_price(AssetPair::MSTRUSD, at(seconds), transport);
        let second = feed.retrieve_price(AssetPair::MSTRUSD, at(seconds), transport);
        assert_eq!(first, second);
    }
    let first = feed.retrieve_price(AssetPair::BTCUSD, at(1_700_000_000), transport);
    let second = feed.retrieve_price(AssetPair::BTCUSD, at(1_700_000_000), transport);
    assert_eq!(first, second);
}

#[test]
fn interleaved_retrievals_keep_their_own_results() {
    let feed = feed();
    let instants: Vec<OffsetDateTime> = (0..8).map(|n| at(1_700_000_000 + 86_400 * n)).collect();
    let requests: Vec<Request> =
        instants.iter().map(|instant| feed.request(AssetPair::MSTRUSD, *instant).unwrap()).collect();
    let mut results = Vec::new();
    for (n, request) in requests.iter().enumerate().rev() {
        let reply = series(vec![day(request.start as f64, 100.0 + n as f64)]);
        results.push((n, feed.price_from_reply(AssetPair::MSTRUSD, instants[n], reply)));
    }
    for (n, result) in results {
        assert_eq!(result.unwrap().to_bits(), (100.0 + n as f64).to_bits());
    }
}

#[test]
fn retry_advice_follows_the_kind_of_failure() {
    assert_eq!(
        PriceFeedError::UnsupportedPair(AssetPair::BTCUSD, "no").retry_advice(),
        RetryAdvice::Never
    );
    assert_eq!(
        PriceFeedError::TransportError(TransportCause::Status(500)).retry_advice(),
        RetryAdvice::Retry
    );
    assert_eq!(
        PriceFeedError::TransportError(TransportCause::Schema).retry_advice(),
        RetryAdvice::Retry
    );
    assert_eq!(PriceFeedError::InternalError("odd").retry_advice(), RetryAdvice::RetryWithCaution);
    assert_eq!(
        PriceFeedError::PriceNotAvailableError(AssetPair::MSTRUSD, at(0)).retry_advice(),
        RetryAdvice::OtherInstantOnly
    );
}
