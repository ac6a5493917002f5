//! Upstream-client logic: the request bodies the client sends, the filtering
//! of the universe it receives, its failure taxonomy, and the bounded-retry
//! policy with exponential backoff that wraps the candle fetch.
//!
//! The transport itself — sending a request and waiting on the wire — lives
//! in the unverified shell.  The shell hands every response or failure back
//! here as a plain value, and each decision about it is made by a verified
//! function.

use crate::types::{
    Candle, HyperliquidCandleRequest, HyperliquidCandleRequestData, MetaRequest, MetaResponse,
    MetaUniverseItem,
};
use vstd::arithmetic::power2::{lemma2_to64, pow2};
use vstd::bits::{lemma_u64_pow2_no_overflow, lemma_u64_shl_is_mul};
use vstd::prelude::*;

verus! {

/// One failure of an upstream request: a transport fault (network or
/// timeout), a non-success status with the body the upstream returned, or a
/// malformed response body.  Each carries a human-readable cause.
#[derive(Debug, PartialEq)]
pub enum UpstreamError {
    Transport(String),
    Status(u16, String),
    Decode(String),
}

impl Clone for UpstreamError {
    /// A cloned failure equals the original.
    fn clone(&self) -> (res: Self)
        ensures
            res == *self,
    {
        match self {
            UpstreamError::Transport(s) => UpstreamError::Transport(s.clone()),
            UpstreamError::Status(code, body) => UpstreamError::Status(*code, body.clone()),
            UpstreamError::Decode(s) => UpstreamError::Decode(s.clone()),
        }
    }
}

/// The failure returned once the retry budget is exhausted: how many
/// attempts were made, and the error the final attempt ended with.
#[derive(Debug, PartialEq)]
pub struct RetryError {
    pub retries: u32,
    pub last: UpstreamError,
}

/// Builds the body of the symbol-universe request.
pub fn meta_request() -> (r: MetaRequest)
    ensures
        r.typ@ == "meta"@,
{
    MetaRequest { typ: "meta".to_owned() }
}

/// Builds the body of the candle-history request for one symbol over a
/// millisecond-epoch time range at the given interval granularity.
pub fn candle_request(symbol: &String, interval: &String, start_time: i64, end_time: i64) -> (r:
    HyperliquidCandleRequest)
    ensures
        r.typ@ == "candleSnapshot"@,
        r.req.coin@ == symbol@,
        r.req.interval@ == interval@,
        r.req.start_time == start_time,
        r.req.end_time == end_time,
{
    HyperliquidCandleRequest {
        typ: "candleSnapshot".to_owned(),
        req: HyperliquidCandleRequestData {
            coin: symbol.clone(),
            interval: interval.clone(),
            start_time,
            end_time,
        },
    }
}

/// An item of the upstream universe counts as tradable when its name is
/// non-empty and the upstream source has not delisted it.
pub open spec fn is_tradable(item: MetaUniverseItem) -> bool {
    item.name@.len() > 0 && !item.is_delisted
}

/// The names of the tradable items, in the order the upstream listed them.
pub open spec fn tradable_names(universe: Seq<MetaUniverseItem>) -> Seq<String>
    decreases universe.len(),
{
    if universe.len() == 0 {
        Seq::empty()
    } else {
        tradable_names(universe.drop_last()) + if is_tradable(universe.last()) {
            seq![universe.last().name]
        } else {
            Seq::empty()
        }
    }
}

/// Filters the universe response down to the tradable symbol names,
/// keeping the upstream's order.
pub fn tradable_symbols(resp: &MetaResponse) -> (r: Vec<String>)
    ensures
        r@ == tradable_names(resp.universe@),
{
    let n = resp.universe.len();
    let mut r: Vec<String> = Vec::new();
    let mut i: usize = 0;
    while i < n
        invariant
            n == resp.universe@.len(),
            i <= n,
            r@ == tradable_names(resp.universe@.take(i as int)),
        decreases n - i,
    {
        proof {
            assert(resp.universe@.take(i + 1).drop_last() =~= resp.universe@.take(i as int));
            assert(resp.universe@.take(i + 1).last() == resp.universe@[i as int]);
        }
        let item = &resp.universe[i];
        if !item.name.as_str().is_empty() && !item.is_delisted {
            r.push(item.name.clone());
        }
        proof {
            assert(r@ =~= tradable_names(resp.universe@.take(i + 1)));
        }
        i += 1;
    }
    proof {
        assert(resp.universe@.take(n as int) =~= resp.universe@);
    }
    r
}

/// What the retry policy does with the outcome of one attempt: hand the
/// candles through, wait and try again, or give up with the final error.
#[derive(Debug, PartialEq)]
pub enum RetryDecision {
    Success(Vec<Candle>),
    Backoff(u64),
    Exhausted(RetryError),
}

/// One decision of the bounded-retry policy.  `attempt` is zero-based.  A
/// success is final.  A failure before the last attempt asks for a backoff
/// wait of 2^attempt time units before the next try; a failure on the last
/// attempt gives up, reporting the full retry budget and the final error.
pub fn retry_step(attempt: u32, max_retries: u32, outcome: Result<Vec<Candle>, UpstreamError>)
    -> (d: RetryDecision)
    requires
        attempt < max_retries,
        max_retries <= 63,
    ensures
        match outcome {
            Ok(c) => d == RetryDecision::Success(c),
            Err(e) => {
                if attempt + 1 < max_retries {
                    d matches RetryDecision::Backoff(w) && w as nat == pow2(attempt as nat)
                } else {
                    d == RetryDecision::Exhausted(RetryError { retries: max_retries, last: e })
                }
            },
        },
{
    match outcome {
        Ok(c) => RetryDecision::Success(c),
        Err(e) => {
            if attempt + 1 < max_retries {
                let shift: u64 = attempt as u64;
                proof {
                    lemma_u64_pow2_no_overflow(shift as nat);
                    lemma_u64_shl_is_mul(1u64, shift);
                }
                RetryDecision::Backoff(1u64 << shift)
            } else {
                RetryDecision::Exhausted(RetryError { retries: max_retries, last: e })
            }
        },
    }
}

/// How a finished retry run relates to the attempt outcomes it consumed.
/// Attempts are made in order; every attempt before the last one made
/// failed; between attempts the policy waits 2^k time units after the k-th
/// (zero-based) failure and never after the final attempt.  The run succeeds
/// exactly when its last attempt did, with that attempt's candles; it fails
/// only with the whole budget spent, reporting the budget and the final
/// attempt's error.
pub open spec fn retry_run_matches(
    run: RetryRun,
    outcomes: Seq<Result<Vec<Candle>, UpstreamError>>,
    max_retries: int,
) -> bool {
    &&& 1 <= run.attempts <= max_retries
    &&& (forall|i: int| 0 <= i < run.attempts - 1 ==> outcomes[i] is Err)
    &&& run.waits@.len() == run.attempts - 1
    &&& (forall|k: int| 0 <= k < run.waits@.len() ==> #[trigger] (run.waits@[k] as nat) == pow2(
        k as nat,
    ))
    &&& (run.result is Ok <==> outcomes[run.attempts - 1] is Ok)
    &&& (run.result matches Ok(c) ==> c@ == outcomes[run.attempts - 1]->Ok_0@)
    &&& (run.result matches Err(re) ==> {
        &&& run.attempts == max_retries
        &&& re.retries == max_retries
        &&& re.last == outcomes[max_retries - 1]->Err_0
    })
}

/// A finished retry run: the result handed to the caller, how many attempts
/// were made, and the backoff waits that were taken between them.
#[derive(Debug)]
pub struct RetryRun {
    pub result: Result<Vec<Candle>, RetryError>,
    pub attempts: usize,
    pub waits: Vec<u64>,
}

/// The whole bounded-retry policy as a function of the attempt outcomes:
/// attempt k consumes `outcomes[k]`.  Only the first `max_retries` outcomes
/// can be consumed, and fewer when an attempt succeeds.
pub fn run_retry(outcomes: &Vec<Result<Vec<Candle>, UpstreamError>>, max_retries: u32) -> (run:
    RetryRun)
    requires
        1 <= max_retries <= 63,
        outcomes@.len() >= max_retries,
    ensures
        retry_run_matches(run, outcomes@, max_retries as int),
{
    let mut waits: Vec<u64> = Vec::new();
    let mut attempt: u32 = 0;
    loop
        invariant
            1 <= max_retries <= 63,
            outcomes@.len() >= max_retries,
            attempt < max_retries,
            forall|i: int| 0 <= i < attempt ==> outcomes@[i] is Err,
            waits@.len() == attempt,
            forall|k: int| 0 <= k < waits@.len() ==> #[trigger] (waits@[k] as nat) == pow2(
                k as nat,
            ),
        decreases max_retries - attempt,
    {
        match &outcomes[attempt as usize] {
            Ok(c) => {
                let cc = c.clone();
                proof {
                    assert(cc@ =~= c@);
                }
                return RetryRun { result: Ok(cc), attempts: attempt as usize + 1, waits };
            },
            Err(e) => {
                if attempt + 1 < max_retries {
                    let shift: u64 = attempt as u64;
                    proof {
                        lemma_u64_pow2_no_overflow(shift as nat);
                        lemma_u64_shl_is_mul(1u64, shift);
                    }
                    waits.push(1u64 << shift);
                    attempt += 1;
                } else {
                    let err = e.clone();
                    return RetryRun {
                        result: Err(RetryError { retries: max_retries, last: err }),
                        attempts: max_retries as usize,
                        waits,
                    };
                }
            },
        }
    }
}

/// Retry exhaustion: with a retry budget of three and every attempt failing,
/// exactly three attempts are made, the two waits between them are 1 and 2
/// time units — 2^0 after the first failure, 2^1 after the second, none
/// after the final attempt — and the failure reports the budget of three.
pub proof fn lemma_retry_exhaustion(run: RetryRun, outcomes: Seq<Result<Vec<Candle>, UpstreamError>>)
    requires
        outcomes.len() >= 3,
        forall|i: int| 0 <= i < 3 ==> outcomes[i] is Err,
        retry_run_matches(run, outcomes, 3),
    ensures
        run.attempts == 3,
        run.waits@.len() == 2,
        run.waits@[0] == 1,
        run.waits@[1] == 2,
        run.result matches Err(re) && re.retries == 3,
{
    lemma2_to64();
    if run.result is Ok {
        assert(outcomes[run.attempts - 1] is Err);
    }
    assert((run.waits@[0] as nat) == pow2(0));
    assert((run.waits@[1] as nat) == pow2(1));
}

} // verus!
