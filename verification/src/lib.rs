//! A freshness-bounded read-through cache for market price candles.
//!
//! The crate holds the verified core of a service that discovers a universe
//! of tradable symbols from an upstream market-data source, periodically
//! refreshes recent candle history for each symbol, and answers queries from
//! an in-memory store.  All decision logic — the store's snapshot semantics,
//! the discovery loop's fallback policy, the refresh cycle's batching and
//! retry schedule, and the query layer's lookup rules — is specified and
//! proved here.  Network transport, timers and HTTP serialization live in the
//! unverified shell around the library and hand plain values in and out.

pub mod api;
pub mod cache;
pub mod client;
pub mod types;
pub mod workers;

use vstd::prelude::*;

verus! {

/// Milliseconds in one day, used to turn a configured lookback in days into
/// a millisecond-epoch window.
pub const MILLIS_PER_DAY: i64 = 86400000;

} // verus!
