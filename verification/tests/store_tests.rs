use candle_cache::cache::Cache;
use candle_cache::types::Candle;

fn candle(ts: i64, px: &str) -> Candle {
    Candle {
        timestamp: ts,
        open: px.to_string(),
        high: px.to_string(),
        low: px.to_string(),
        close: px.to_string(),
        volume: "1.0".to_string(),
    }
}

#[test]
fn new_store_is_empty() {
    let cache = Cache::new();
    assert!(cache.get(&"BTC".to_string()).is_none());
    assert!(cache.get_all().is_empty());
    assert!(cache.get_symbols().is_empty());
    assert_eq!(cache.get_last_update(), None);
    assert_eq!(cache.get_symbol_update(), None);
}

#[test]
fn set_then_get_returns_exact_entry() {
    let mut cache = Cache::new();
    cache.set("BTC".to_string(), vec![candle(1000, "42000.5")], 7_000);
    let entry = cache.get(&"BTC".to_string()).expect("entry must exist");
    assert_eq!(entry.symbol, "BTC");
    assert_eq!(entry.candles, vec![candle(1000, "42000.5")]);
    assert_eq!(entry.last_update, 7_000);
    assert_eq!(cache.get_last_update(), Some(7_000));
}

#[test]
fn set_overwrites_existing_entry() {
    let mut cache = Cache::new();
    cache.set("BTC".to_string(), vec![candle(1000, "1")], 7_000);
    cache.set("BTC".to_string(), vec![candle(2000, "2"), candle(3000, "3")], 8_000);
    let entry = cache.get(&"BTC".to_string()).expect("entry must exist");
    assert_eq!(entry.candles.len(), 2);
    assert_eq!(entry.candles[0].timestamp, 2000);
    assert_eq!(entry.last_update, 8_000);
    assert_eq!(cache.get_all().len(), 1);
    assert_eq!(cache.get_last_update(), Some(8_000));
}

#[test]
fn set_does_not_touch_symbol_universe() {
    let mut cache = Cache::new();
    cache.set_symbols(vec!["BTC".to_string()], 5_000);
    cache.set("BTC".to_string(), vec![candle(1, "9")], 6_000);
    assert_eq!(cache.get_symbols(), vec!["BTC".to_string()]);
    assert_eq!(cache.get_symbol_update(), Some(5_000));
}

#[test]
fn get_all_snapshot_ignores_later_writes() {
    let mut cache = Cache::new();
    cache.set("BTC".to_string(), vec![candle(1, "10")], 1_000);
    let snapshot = cache.get_all();
    cache.set("ETH".to_string(), vec![candle(2, "20")], 2_000);
    cache.set("BTC".to_string(), vec![], 3_000);
    assert_eq!(snapshot.len(), 1);
    assert_eq!(snapshot[0].symbol, "BTC");
    assert_eq!(snapshot[0].candles, vec![candle(1, "10")]);
    assert_eq!(snapshot[0].last_update, 1_000);
    assert_eq!(cache.get_all().len(), 2);
}

#[test]
fn independent_writes_lose_no_update() {
    // Two writes for different symbols, then one snapshot: both entries are
    // there, whichever order the writes were serialized in.
    for order in [false, true] {
        let mut cache = Cache::new();
        if order {
            cache.set("BTC".to_string(), vec![candle(1, "1")], 1_000);
            cache.set("ETH".to_string(), vec![candle(2, "2")], 1_000);
        } else {
            cache.set("ETH".to_string(), vec![candle(2, "2")], 1_000);
            cache.set("BTC".to_string(), vec![candle(1, "1")], 1_000);
        }
        let all = cache.get_all();
        assert_eq!(all.len(), 2);
        let btc = all.iter().find(|e| e.symbol == "BTC").expect("BTC present");
        let eth = all.iter().find(|e| e.symbol == "ETH").expect("ETH present");
        assert_eq!(btc.candles, vec![candle(1, "1")]);
        assert_eq!(eth.candles, vec![candle(2, "2")]);
    }
}

#[test]
fn set_symbols_replaces_universe() {
    let mut cache = Cache::new();
    cache.set_symbols(vec!["BTC".to_string(), "ETH".to_string()], 4_000);
    assert_eq!(cache.get_symbols(), vec!["BTC".to_string(), "ETH".to_string()]);
    assert_eq!(cache.get_symbol_update(), Some(4_000));
    assert_eq!(cache.get_last_update(), None);
    cache.set_symbols(vec!["SOL".to_string()], 5_000);
    assert_eq!(cache.get_symbols(), vec!["SOL".to_string()]);
    assert_eq!(cache.get_symbol_update(), Some(5_000));
}
