//! Decision logic of the query surface.
//!
//! The HTTP wiring — routing, headers, JSON — lives in the unverified
//! shell; every decision it serves is made here: how a symbol path
//! parameter is normalized and looked up, what each probe payload holds,
//! and which seconds value an entity tag carries.

use crate::cache::{entry_model, Cache};
use crate::types::{CacheEntry, HealthResponse, SymbolResponse};
use vstd::prelude::*;

verus! {

/// The uppercase form of a character sequence, as `str::to_uppercase`
/// computes it.
pub uninterp spec fn upper_of(s: Seq<char>) -> Seq<char>;

/// Relies on str::to_uppercase: the uppercase form depends on the
/// characters alone, and it is empty exactly when the input is empty.
#[verifier::external_body]
fn to_upper(s: &String) -> (r: String)
    ensures
        r@ == upper_of(s@),
        s@.len() == 0 <==> r@.len() == 0,
{
    s.to_uppercase()
}

/// Outcome of the per-symbol candle query: the path parameter was empty, the
/// symbol is unknown, or the entry was found and copied out.
#[derive(Debug)]
pub enum CandleLookup {
    BadRequest,
    NotFound,
    Found(CacheEntry),
}

/// Looks one symbol's entry up, case-insensitively: an empty symbol is a bad
/// request; otherwise the symbol is uppercase-normalized and the entry under
/// that key is copied out, or the symbol reported unknown.  An entry whose
/// candle series is empty is still found — known-empty is an answer, not an
/// absence.
pub fn lookup_symbol_candles(cache: &Cache, symbol: &String) -> (r: CandleLookup)
    requires
        cache.wf(),
    ensures
        r is BadRequest <==> symbol@.len() == 0,
        symbol@.len() > 0 ==> {
            &&& (r is NotFound <==> !cache@.candles.contains_key(upper_of(symbol@)))
            &&& (r matches CandleLookup::Found(e) ==> cache@.candles.contains_key(
                upper_of(symbol@),
            ) && entry_model(e) == cache@.candles[upper_of(symbol@)])
            &&& (cache@.candles.contains_key(upper_of(symbol@)) ==> r is Found)
        },
{
    let upper = to_upper(symbol);
    if upper.as_str().is_empty() {
        return CandleLookup::BadRequest;
    }
    match cache.get(&upper) {
        Some(e) => CandleLookup::Found(e),
        None => CandleLookup::NotFound,
    }
}

/// The seconds value carried in an entity tag: the store's millisecond
/// timestamp floored to whole Unix seconds.
pub fn etag_seconds(ms: i64) -> (s: i64)
    requires
        ms >= 0,
    ensures
        s == ms as int / 1000,
{
    ms / 1000
}

/// Builds the symbol-listing payload: the current universe and its size.
pub fn symbols_response(cache: &Cache) -> (r: SymbolResponse)
    ensures
        r.symbols@ == cache@.symbols,
        r.count == cache@.symbols.len(),
{
    let symbols = cache.get_symbols();
    let count = symbols.len();
    SymbolResponse { symbols, count }
}

/// Builds the liveness payload: the status is always "healthy" — degradation
/// shows up as stale timestamps, not as a failing probe — beside the size of
/// the universe and the two freshness timestamps, each absent until the
/// first respective write.
pub fn health_response(cache: &Cache) -> (r: HealthResponse)
    ensures
        r.status@ == "healthy"@,
        r.symbol_count == cache@.symbols.len(),
        r.last_update == cache@.last_update,
        r.symbol_update == cache@.symbol_update,
{
    let symbols = cache.get_symbols();
    HealthResponse {
        status: "healthy".to_owned(),
        symbol_count: symbols.len(),
        last_update: cache.get_last_update(),
        symbol_update: cache.get_symbol_update(),
    }
}

} // verus!
