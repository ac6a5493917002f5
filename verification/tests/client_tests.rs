use candle_cache::client::{
    candle_request, meta_request, retry_step, run_retry, tradable_symbols, RetryDecision,
    UpstreamError,
};
use candle_cache::types::{Candle, MetaResponse, MetaUniverseItem};

fn candle(ts: i64, px: &str) -> Candle {
    Candle {
        timestamp: ts,
        open: px.to_string(),
        high: px.to_string(),
        low: px.to_string(),
        close: px.to_string(),
        volume: "1.0".to_string(),
    }
}

fn fail(msg: &str) -> Result<Vec<Candle>, UpstreamError> {
    Err(UpstreamError::Transport(msg.to_string()))
}

#[test]
fn meta_request_has_meta_type() {
    assert_eq!(meta_request().typ, "meta");
}

#[test]
fn candle_request_carries_all_parameters() {
    let r = candle_request(&"BTC".to_string(), &"1h".to_string(), 100, 900);
    assert_eq!(r.typ, "candleSnapshot");
    assert_eq!(r.req.coin, "BTC");
    assert_eq!(r.req.interval, "1h");
    assert_eq!(r.req.start_time, 100);
    assert_eq!(r.req.end_time, 900);
}

fn item(name: &str, delisted: bool) -> MetaUniverseItem {
    MetaUniverseItem { name: name.to_string(), is_delisted: delisted }
}

#[test]
fn tradable_symbols_filters_empty_and_delisted() {
    let resp = MetaResponse {
        universe: vec![
            item("BTC", false),
            item("", false),
            item("OLD", true),
            item("ETH", false),
        ],
    };
    assert_eq!(tradable_symbols(&resp), vec!["BTC".to_string(), "ETH".to_string()]);
}

#[test]
fn tradable_symbols_of_empty_universe_is_empty() {
    let resp = MetaResponse { universe: vec![] };
    assert!(tradable_symbols(&resp).is_empty());
}

#[test]
fn retry_step_success_is_final() {
    let d = retry_step(0, 3, Ok(vec![candle(1, "5")]));
    assert_eq!(d, RetryDecision::Success(vec![candle(1, "5")]));
}

#[test]
fn retry_step_backs_off_exponentially() {
    assert_eq!(retry_step(0, 3, fail("boom")), RetryDecision::Backoff(1));
    assert_eq!(retry_step(1, 3, fail("boom")), RetryDecision::Backoff(2));
}

#[test]
fn retry_step_gives_up_on_last_attempt() {
    match retry_step(2, 3, fail("boom")) {
        RetryDecision::Exhausted(re) => {
            assert_eq!(re.retries, 3);
            assert_eq!(re.last, UpstreamError::Transport("boom".to_string()));
        }
        other => panic!("expected exhaustion, got {:?}", other),
    }
}

#[test]
fn retry_exhaustion_makes_three_attempts_with_two_waits() {
    // A client that always fails, with a budget of three: three attempts,
    // waits of 1 then 2 time units between them, none after the last, and a
    // failure that reports the budget.
    let outcomes = vec![fail("a"), fail("b"), fail("c")];
    let run = run_retry(&outcomes, 3);
    assert_eq!(run.attempts, 3);
    assert_eq!(run.waits, vec![1, 2]);
    match run.result {
        Err(re) => {
            assert_eq!(re.retries, 3);
            assert_eq!(re.last, UpstreamError::Transport("c".to_string()));
            let message = format!("Failed after {} retries", re.retries);
            assert!(message.contains("3"));
        }
        Ok(_) => panic!("an always-failing client cannot succeed"),
    }
}

#[test]
fn retry_succeeds_immediately_without_waiting() {
    let outcomes = vec![Ok(vec![candle(1, "7")]), fail("later")];
    let run = run_retry(&outcomes, 2);
    assert_eq!(run.attempts, 1);
    assert!(run.waits.is_empty());
    assert_eq!(run.result.unwrap(), vec![candle(1, "7")]);
}

#[test]
fn retry_recovers_after_failures() {
    let outcomes = vec![fail("once"), fail("twice"), Ok(vec![candle(9, "3")])];
    let run = run_retry(&outcomes, 3);
    assert_eq!(run.attempts, 3);
    assert_eq!(run.waits, vec![1, 2]);
    assert_eq!(run.result.unwrap(), vec![candle(9, "3")]);
}
