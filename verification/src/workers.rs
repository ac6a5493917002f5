//! Decision logic of the two background loops.
//!
//! Each loop alternates outside work — a fetch, a sleep — with a decision
//! about the shared store.  The outside work stays in the unverified shell;
//! every decision is a function here, taking the outcome of the outside work
//! as a plain value and applying it to the store under an exact contract.
//! The shell's loops are thin: fetch, take the store's write lock, call one
//! function of this module, sleep, repeat.

use crate::cache::{Cache, EntryModel};
use crate::client::{RetryError, UpstreamError};
use crate::types::Candle;
use crate::MILLIS_PER_DAY;
use vstd::prelude::*;

verus! {

/// What one discovery cycle did with the store, for the shell to log.
#[derive(Debug, PartialEq, Eq, Structural, Clone, Copy)]
pub enum DiscoveryEvent {
    /// A non-empty universe arrived and was published.
    Published,
    /// An empty universe arrived; it is suspicious and was not published.
    EmptyIgnored,
    /// The fetch failed; the last known-good universe was republished,
    /// refreshing the timestamp to signal the system is alive.
    Republished,
    /// The fetch failed and no known-good universe exists; nothing changed.
    SkippedNoFallback,
}

/// One cycle of the symbol-discovery loop, applied to the store.
///
/// A non-empty universe is published and remembered as last known good.  An
/// empty universe is treated as suspicious: the store keeps its previous
/// state for this cycle.  On failure, a remembered universe is republished —
/// same symbols, fresh timestamp — and with nothing remembered the store is
/// left untouched.  Candle entries and their timestamp are never touched,
/// and no failure escapes this function.
pub fn symbol_discovery_step(
    cache: &mut Cache,
    last_known_good: &mut Vec<String>,
    outcome: Result<Vec<String>, UpstreamError>,
    now: i64,
) -> (ev: DiscoveryEvent)
    requires
        old(cache).wf(),
    ensures
        final(cache).wf(),
        final(cache)@.candles == old(cache)@.candles,
        final(cache)@.last_update == old(cache)@.last_update,
        match outcome {
            Ok(syms) => {
                if syms@.len() > 0 {
                    &&& final(cache)@.symbols == syms@
                    &&& final(cache)@.symbol_update == Some(now)
                    &&& final(last_known_good)@ == syms@
                    &&& ev == DiscoveryEvent::Published
                } else {
                    &&& final(cache)@ == old(cache)@
                    &&& final(last_known_good)@ == old(last_known_good)@
                    &&& ev == DiscoveryEvent::EmptyIgnored
                }
            },
            Err(_) => {
                if old(last_known_good)@.len() > 0 {
                    &&& final(cache)@.symbols == old(last_known_good)@
                    &&& final(cache)@.symbol_update == Some(now)
                    &&& final(last_known_good)@ == old(last_known_good)@
                    &&& ev == DiscoveryEvent::Republished
                } else {
                    &&& final(cache)@ == old(cache)@
                    &&& final(last_known_good)@ == old(last_known_good)@
                    &&& ev == DiscoveryEvent::SkippedNoFallback
                }
            },
        },
{
    match outcome {
        Ok(syms) => {
            if syms.len() > 0 {
                let copy = syms.clone();
                proof {
                    assert(copy@ =~= syms@);
                }
                cache.set_symbols(copy, now);
                *last_known_good = syms;
                DiscoveryEvent::Published
            } else {
                DiscoveryEvent::EmptyIgnored
            }
        },
        Err(_) => {
            if last_known_good.len() > 0 {
                let copy = last_known_good.clone();
                proof {
                    assert(copy@ =~= last_known_good@);
                }
                cache.set_symbols(copy, now);
                DiscoveryEvent::Republished
            } else {
                DiscoveryEvent::SkippedNoFallback
            }
        },
    }
}

/// Republish-on-failure keeps the universe and advances its timestamp: when
/// a discovery cycle fails while a non-empty known-good universe exists and
/// matches the store — as it does on every cycle after the first publish —
/// the store's symbol set is unchanged and its symbol-update timestamp
/// advances, `now` being no earlier than any timestamp already written.
pub proof fn lemma_republish_advances_timestamp(
    pre: crate::cache::StoreView,
    post: crate::cache::StoreView,
    last_known_good: Seq<String>,
    now: i64,
)
    requires
        last_known_good.len() > 0,
        pre.symbols == last_known_good,
        match pre.symbol_update {
            Some(t) => t <= now,
            None => true,
        },
        post.symbols == last_known_good,
        post.symbol_update == Some(now),
    ensures
        post.symbols == pre.symbols,
        post.symbol_update is Some,
        match pre.symbol_update {
            Some(t) => post.symbol_update->0 >= t,
            None => true,
        },
{
}

/// The lookback window of one refresh cycle: it ends now and starts the
/// configured number of days earlier, in the same millisecond-epoch unit as
/// candle timestamps.  Computed once per cycle and shared by every symbol in
/// it.
pub fn compute_window(now_ms: i64, candle_days: i64) -> (w: (i64, i64))
    requires
        0 <= candle_days,
        candle_days * MILLIS_PER_DAY <= i64::MAX,
        i64::MIN + candle_days * MILLIS_PER_DAY <= now_ms,
    ensures
        w.0 == now_ms - candle_days * MILLIS_PER_DAY,
        w.1 == now_ms,
        w.0 <= w.1,
{
    let span = candle_days * MILLIS_PER_DAY;
    (now_ms - span, now_ms)
}

/// How many fixed-size batches a symbol list of length `n` partitions into:
/// zero for an empty list, and otherwise the least count whose batches cover
/// all `n` symbols.
pub fn batch_count(n: usize, batch_size: usize) -> (r: usize)
    requires
        batch_size > 0,
    ensures
        n == 0 ==> r == 0,
        n > 0 ==> (r - 1) * batch_size < n <= r * batch_size,
{
    let q = n / batch_size;
    let rem = n % batch_size;
    proof {
        assert(n == batch_size * (n / batch_size) + n % batch_size) by (nonlinear_arith)
            requires
                batch_size > 0,
        ;
    }
    if rem == 0 {
        proof {
            assert(n > 0 ==> (q - 1) * batch_size < n && n <= q * batch_size)
                by (nonlinear_arith)
                requires
                    batch_size > 0,
                    q >= 0,
                    n == batch_size * q + rem,
                    rem == 0,
            ;
        }
        q
    } else {
        proof {
            assert(q < n && q * batch_size < n <= (q + 1) * batch_size) by (nonlinear_arith)
                requires
                    batch_size > 0,
                    q >= 0,
                    n == batch_size * q + rem,
                    0 < rem < batch_size,
            ;
        }
        q + 1
    }
}

/// The half-open index range of one batch: batch `batch_idx` covers the
/// symbols from `batch_idx * batch_size` up to the next multiple of the
/// batch size, or to the end of the list for the final batch.
pub fn batch_bounds(n: usize, batch_size: usize, batch_idx: usize) -> (b: (usize, usize))
    requires
        batch_size > 0,
        batch_idx * batch_size < n,
    ensures
        b.0 == batch_idx * batch_size,
        b.1 == if batch_idx * batch_size + batch_size <= n {
            batch_idx * batch_size + batch_size
        } else {
            n as int
        },
        b.0 < b.1 <= n,
{
    let start = batch_idx * batch_size;
    let end = if n - start < batch_size {
        n
    } else {
        start + batch_size
    };
    (start, end)
}

/// The candles a refresh cycle records for one symbol: the fetched series on
/// success, and the explicit known-empty series once retries are exhausted.
pub open spec fn fetched_candles(outcome: Result<Vec<Candle>, RetryError>) -> Seq<Candle> {
    match outcome {
        Ok(c) => c@,
        Err(_) => Seq::empty(),
    }
}

/// Applies one symbol's fetch outcome to the store.  A success writes the
/// fetched candles; an exhausted retry writes an empty series rather than
/// leaving stale data silently, so the symbol is never absent after an
/// attempt.  Either way the entry is stamped with `now`.  Returns whether
/// the fetch had succeeded.
pub fn apply_fetch_result(
    cache: &mut Cache,
    symbol: String,
    outcome: Result<Vec<Candle>, RetryError>,
    now: i64,
) -> (ok: bool)
    requires
        old(cache).wf(),
    ensures
        final(cache).wf(),
        final(cache)@.candles == old(cache)@.candles.insert(
            symbol@,
            EntryModel { symbol: symbol@, candles: fetched_candles(outcome), last_update: now },
        ),
        final(cache)@.symbols == old(cache)@.symbols,
        final(cache)@.symbol_update == old(cache)@.symbol_update,
        final(cache)@.last_update == Some(now),
        ok == (outcome is Ok),
{
    match outcome {
        Ok(candles) => {
            cache.set(symbol, candles, now);
            true
        },
        Err(_) => {
            cache.set(symbol, Vec::new(), now);
            false
        },
    }
}

/// The symbols form a set: no name occurs twice.
pub open spec fn distinct_symbols(s: Seq<String>) -> bool {
    forall|i: int, j: int| 0 <= i < j < s.len() ==> s[i]@ != s[j]@
}

/// How many of the outcomes are successes.
pub open spec fn count_ok(outcomes: Seq<Result<Vec<Candle>, RetryError>>) -> int
    decreases outcomes.len(),
{
    if outcomes.len() == 0 {
        0
    } else {
        count_ok(outcomes.drop_last()) + if outcomes.last() is Ok {
            1int
        } else {
            0int
        }
    }
}

/// One whole refresh cycle applied to the store, as a function of the
/// per-symbol fetch outcomes: `outcomes[i]` is what fetching `symbols[i]`
/// came to after its retries.  Afterwards every attempted symbol has an
/// entry — the fetched candles on success, a known-empty series on failure —
/// stamped with this cycle's `now`; entries of other symbols are exactly as
/// before; the universe and its timestamp are untouched; and the count of
/// successes is returned for the cycle summary.  One symbol's failure is
/// thereby isolated: it cannot disturb any other symbol's entry.
pub fn run_refresh_cycle(
    cache: &mut Cache,
    symbols: &Vec<String>,
    outcomes: &Vec<Result<Vec<Candle>, RetryError>>,
    now: i64,
) -> (successes: usize)
    requires
        old(cache).wf(),
        symbols@.len() == outcomes@.len(),
        distinct_symbols(symbols@),
    ensures
        final(cache).wf(),
        final(cache)@.symbols == old(cache)@.symbols,
        final(cache)@.symbol_update == old(cache)@.symbol_update,
        symbols@.len() == 0 ==> final(cache)@ == old(cache)@,
        symbols@.len() > 0 ==> final(cache)@.last_update == Some(now),
        forall|i: int| #![trigger symbols@[i]]
            0 <= i < symbols@.len() ==> {
                &&& final(cache)@.candles.contains_key(symbols@[i]@)
                &&& final(cache)@.candles[symbols@[i]@] == EntryModel {
                    symbol: symbols@[i]@,
                    candles: fetched_candles(outcomes@[i]),
                    last_update: now,
                }
            },
        forall|k: Seq<char>|
            !(exists|i: int| 0 <= i < symbols@.len() && symbols@[i]@ == k) ==> {
                &&& (#[trigger] final(cache)@.candles.contains_key(k) <==> old(
                    cache,
                )@.candles.contains_key(k))
                &&& (old(cache)@.candles.contains_key(k) ==> final(cache)@.candles[k] == old(
                    cache,
                )@.candles[k])
            },
        successes == count_ok(outcomes@),
{
    let n = symbols.len();
    let mut successes: usize = 0;
    let mut i: usize = 0;
    while i < n
        invariant
            cache.wf(),
            n == symbols@.len(),
            symbols@.len() == outcomes@.len(),
            distinct_symbols(symbols@),
            i <= n,
            cache@.symbols == old(cache)@.symbols,
            cache@.symbol_update == old(cache)@.symbol_update,
            i == 0 ==> cache@ == old(cache)@,
            i > 0 ==> cache@.last_update == Some(now),
            forall|j: int| #![trigger symbols@[j]]
                0 <= j < i ==> {
                    &&& cache@.candles.contains_key(symbols@[j]@)
                    &&& cache@.candles[symbols@[j]@] == EntryModel {
                        symbol: symbols@[j]@,
                        candles: fetched_candles(outcomes@[j]),
                        last_update: now,
                    }
                },
            forall|k: Seq<char>|
                !(exists|j: int| 0 <= j < i && symbols@[j]@ == k) ==> {
                    &&& (#[trigger] cache@.candles.contains_key(k) <==> old(
                        cache,
                    )@.candles.contains_key(k))
                    &&& (old(cache)@.candles.contains_key(k) ==> cache@.candles[k] == old(
                        cache,
                    )@.candles[k])
                },
            successes <= i,
            successes == count_ok(outcomes@.take(i as int)),
        decreases n - i,
    {
        proof {
            assert(outcomes@.take(i + 1).drop_last() =~= outcomes@.take(i as int));
            assert(outcomes@.take(i + 1).last() == outcomes@[i as int]);
        }
        let symbol = symbols[i].clone();
        let ok = match &outcomes[i] {
            Ok(c) => {
                let cc = c.clone();
                proof {
                    assert(cc@ =~= c@);
                }
                cache.set(symbol, cc, now);
                true
            },
            Err(_) => {
                cache.set(symbol, Vec::new(), now);
                false
            },
        };
        proof {
            assert forall|k: Seq<char>|
                !(exists|j: int| 0 <= j < i + 1 && symbols@[j]@ == k) implies {
                &&& (cache@.candles.contains_key(k) <==> old(cache)@.candles.contains_key(k))
                &&& (old(cache)@.candles.contains_key(k) ==> cache@.candles[k] == old(
                    cache,
                )@.candles[k])
            } by {
                assert forall|j: int| 0 <= j < i + 1 implies symbols@[j]@ != k by {
                    if symbols@[j]@ == k {
                        assert(0 <= j < i + 1 && symbols@[j]@ == k);
                    }
                }
                assert(!(exists|j: int| 0 <= j < i && symbols@[j]@ == k));
            }
        }
        if ok {
            successes += 1;
        }
        i += 1;
    }
    proof {
        assert(outcomes@.take(n as int) =~= outcomes@);
    }
    successes
}

} // verus!
