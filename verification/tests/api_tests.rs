use candle_cache::api::{
    etag_seconds, health_response, lookup_symbol_candles, symbols_response, CandleLookup,
};
use candle_cache::cache::Cache;
use candle_cache::types::Candle;
use candle_cache::workers::{symbol_discovery_step, DiscoveryEvent};

fn candle(ts: i64, px: &str) -> Candle {
    Candle {
        timestamp: ts,
        open: px.to_string(),
        high: px.to_string(),
        low: px.to_string(),
        close: px.to_string(),
        volume: "1.0".to_string(),
    }
}

#[test]
fn lookup_known_symbol_finds_entry() {
    let mut cache = Cache::new();
    cache.set("BTC".to_string(), vec![candle(1, "10")], 1_000);
    match lookup_symbol_candles(&cache, &"BTC".to_string()) {
        CandleLookup::Found(e) => {
            assert_eq!(e.symbol, "BTC");
            assert_eq!(e.candles, vec![candle(1, "10")]);
        }
        other => panic!("expected a hit, got {:?}", other),
    }
}

#[test]
fn lookup_is_case_insensitive() {
    // The path parameter is uppercase-normalized before the lookup; a
    // lookup that passed the parameter through unchanged would miss.
    let mut cache = Cache::new();
    cache.set("BTC".to_string(), vec![candle(1, "10")], 1_000);
    match lookup_symbol_candles(&cache, &"btc".to_string()) {
        CandleLookup::Found(e) => assert_eq!(e.symbol, "BTC"),
        other => panic!("expected a hit, got {:?}", other),
    }
}

#[test]
fn lookup_known_empty_entry_is_found_not_missing() {
    // A symbol set with zero candles answers with an empty array, not with
    // an unknown-symbol failure.
    let mut cache = Cache::new();
    cache.set("BTC".to_string(), vec![], 1_000);
    match lookup_symbol_candles(&cache, &"BTC".to_string()) {
        CandleLookup::Found(e) => assert!(e.candles.is_empty()),
        other => panic!("expected a hit, got {:?}", other),
    }
}

#[test]
fn lookup_unknown_symbol_reports_not_found() {
    let cache = Cache::new();
    match lookup_symbol_candles(&cache, &"xyz".to_string()) {
        CandleLookup::NotFound => {}
        other => panic!("expected not-found, got {:?}", other),
    }
}

#[test]
fn lookup_empty_symbol_is_a_bad_request() {
    let cache = Cache::new();
    match lookup_symbol_candles(&cache, &String::new()) {
        CandleLookup::BadRequest => {}
        other => panic!("expected bad-request, got {:?}", other),
    }
}

#[test]
fn etag_seconds_floors_milliseconds() {
    assert_eq!(etag_seconds(0), 0);
    assert_eq!(etag_seconds(999), 0);
    assert_eq!(etag_seconds(1_699_999_999_123), 1_699_999_999);
}

#[test]
fn symbols_response_reports_universe_and_count() {
    let mut cache = Cache::new();
    cache.set_symbols(vec!["BTC".to_string(), "ETH".to_string()], 1_000);
    let r = symbols_response(&cache);
    assert_eq!(r.symbols, vec!["BTC".to_string(), "ETH".to_string()]);
    assert_eq!(r.count, 2);
}

#[test]
fn discovery_rejects_empty_universe_before_the_store() {
    // End to end: publish ["BTC", "ETH"], then let discovery see an empty
    // universe; the listing still answers with both symbols.
    let mut cache = Cache::new();
    let mut lkg: Vec<String> = Vec::new();
    symbol_discovery_step(
        &mut cache,
        &mut lkg,
        Ok(vec!["BTC".to_string(), "ETH".to_string()]),
        1_000,
    );
    let ev = symbol_discovery_step(&mut cache, &mut lkg, Ok(vec![]), 2_000);
    assert_eq!(ev, DiscoveryEvent::EmptyIgnored);
    let r = symbols_response(&cache);
    assert_eq!(r.symbols, vec!["BTC".to_string(), "ETH".to_string()]);
    assert_eq!(r.count, 2);
}

#[test]
fn health_reports_counts_and_timestamps() {
    let mut cache = Cache::new();
    let fresh = health_response(&cache);
    assert_eq!(fresh.status, "healthy");
    assert_eq!(fresh.symbol_count, 0);
    assert_eq!(fresh.last_update, None);
    assert_eq!(fresh.symbol_update, None);

    cache.set_symbols(vec!["BTC".to_string()], 3_000);
    cache.set("BTC".to_string(), vec![candle(1, "10")], 4_000);
    let later = health_response(&cache);
    assert_eq!(later.status, "healthy");
    assert_eq!(later.symbol_count, 1);
    assert_eq!(later.last_update, Some(4_000));
    assert_eq!(later.symbol_update, Some(3_000));
}
