//! Data carried through the store and across the upstream boundary.
//!
//! Prices arrive from upstream as decimal strings; the library keeps them in
//! that form and never interprets them, so a candle here is a timestamp plus
//! the five OHLCV fields exactly as the upstream source spelled them.  The
//! unverified shell parses them into numbers only at the serialization edge.

use vstd::prelude::*;

verus! {

/// One OHLCV observation for a symbol at a discrete time bucket.
/// `timestamp` is the bucket's open time in millisecond epoch; the remaining
/// fields hold the upstream decimal text for open, high, low, close, volume.
/// Immutable once constructed.
#[derive(Debug, PartialEq)]
pub struct Candle {
    pub timestamp: i64,
    pub open: String,
    pub high: String,
    pub low: String,
    pub close: String,
    pub volume: String,
}

impl Clone for Candle {
    /// A cloned candle equals the original, field for field.
    fn clone(&self) -> (res: Self)
        ensures
            res == *self,
    {
        Candle {
            timestamp: self.timestamp,
            open: self.open.clone(),
            high: self.high.clone(),
            low: self.low.clone(),
            close: self.close.clone(),
            volume: self.volume.clone(),
        }
    }
}

/// The cached candle series for one symbol, together with the millisecond
/// epoch at which this entry was last written.
#[derive(Debug, PartialEq)]
pub struct CacheEntry {
    pub symbol: String,
    pub candles: Vec<Candle>,
    pub last_update: i64,
}

impl Clone for CacheEntry {
    /// A cloned entry has the same symbol, the same candle sequence and the
    /// same timestamp as the original.
    fn clone(&self) -> (res: Self)
        ensures
            res.symbol@ == self.symbol@,
            res.candles@ == self.candles@,
            res.last_update == self.last_update,
    {
        let candles = self.candles.clone();
        proof {
            assert(candles@ =~= self.candles@);
        }
        CacheEntry { symbol: self.symbol.clone(), candles, last_update: self.last_update }
    }
}

/// Body of the upstream candle-history request.
#[derive(Debug)]
pub struct HyperliquidCandleRequest {
    pub typ: String,
    pub req: HyperliquidCandleRequestData,
}

/// Parameters of the upstream candle-history request: which coin, at which
/// interval granularity, over which closed millisecond-epoch range.
#[derive(Debug)]
pub struct HyperliquidCandleRequestData {
    pub coin: String,
    pub interval: String,
    pub start_time: i64,
    pub end_time: i64,
}

/// Body of the upstream symbol-universe request.
#[derive(Debug)]
pub struct MetaRequest {
    pub typ: String,
}

/// Upstream answer to the symbol-universe request.
#[derive(Debug)]
pub struct MetaResponse {
    pub universe: Vec<MetaUniverseItem>,
}

/// One entry of the upstream universe: a symbol name and whether the
/// upstream source has delisted it.
#[derive(Debug)]
pub struct MetaUniverseItem {
    pub name: String,
    pub is_delisted: bool,
}

/// Payload of the symbol-listing query: the current universe and its size.
#[derive(Debug)]
pub struct SymbolResponse {
    pub symbols: Vec<String>,
    pub count: usize,
}

/// Payload of the liveness probe: entry and universe counts plus the two
/// freshness timestamps, each absent until the first respective write.
#[derive(Debug)]
pub struct HealthResponse {
    pub status: String,
    pub symbol_count: usize,
    pub last_update: Option<i64>,
    pub symbol_update: Option<i64>,
}

} // verus!
