use request_core::classify::{classify, Cause, ClassifiedError, RawOutcome};
use request_core::engine::{Action, EngineState, Execution, RequestError, RetryPolicy};
use request_core::query::{Request, Timestamp};
use request_core::rate::{Api, RateLimiter};

fn built_request() -> Request {
    let mut r = Request::new();
    r.with_arrival_time(Timestamp { secs: 0 });
    r.build();
    r
}

fn clean_body() -> String {
    String::from("{\"snappedPoints\":[{\"location\":{\"latitude\":60.0,\"longitude\":24.0}}]}")
}

#[test]
fn unbuilt_query_fails_without_any_attempt() {
    let r = Request::new();
    let started = Execution::start(&r, RetryPolicy::new_default());
    match started {
        Err(RequestError::QueryNotBuilt) => {}
        _ => panic!("expected the contract-violation error"),
    }
}

#[test]
fn mutation_after_build_requires_rebuild() {
    let mut r = built_request();
    assert!(r.query.is_some());
    r.with_departure_time(Timestamp { secs: 9 });
    assert!(r.query.is_none());
}

#[test]
fn arrival_time_takes_precedence_over_departure() {
    let mut r = Request::new();
    r.with_departure_time(Timestamp { secs: 1546300800 });
    r.with_arrival_time(Timestamp { secs: 1546300800 });
    r.build();
    assert_eq!(r.query.as_deref(), Some("arrival_time=1546300800"));
    // The same conflict set in the other order resolves the same way.
    let mut swapped = Request::new();
    swapped.with_arrival_time(Timestamp { secs: 1546300800 });
    swapped.with_departure_time(Timestamp { secs: 7 });
    swapped.build();
    assert_eq!(swapped.query.as_deref(), Some("arrival_time=1546300800"));
}

#[test]
fn build_is_idempotent() {
    let mut r = Request::new();
    r.with_departure_time(Timestamp { secs: 42 });
    r.build();
    let first = r.query.clone();
    r.build();
    assert_eq!(first, r.query);
    assert_eq!(r.query.as_deref(), Some("departure_time=42"));
}

#[test]
fn empty_query_is_built_but_empty() {
    let mut r = Request::new();
    r.build();
    assert_eq!(r.query.as_deref(), Some(""));
}

#[test]
fn decimal_rendering_handles_extremes() {
    let mut r = Request::new();
    r.with_arrival_time(Timestamp { secs: u64::MAX });
    r.build();
    assert_eq!(r.query.as_deref(), Some("arrival_time=18446744073709551615"));
}

#[test]
fn url_is_service_base_plus_query() {
    let r = built_request();
    let ex = Execution::start(&r, RetryPolicy::new_default()).unwrap();
    assert_eq!(ex.url, "https://roads.googleapis.com/v1/nearestRoads/?arrival_time=0");
}

#[test]
fn server_errors_and_rate_limit_are_transient() {
    for status in [500u16, 503, 599, 429] {
        let c = classify(RawOutcome::HttpFailure { status, retry_after_ms: None });
        assert_eq!(
            c,
            Err(ClassifiedError::Transient {
                cause: Cause::HttpStatus { status },
                retry_after_ms: None
            })
        );
    }
}

#[test]
fn other_client_errors_are_permanent() {
    for status in [400u16, 403, 404, 418, 499] {
        let c = classify(RawOutcome::HttpFailure { status, retry_after_ms: None });
        assert_eq!(c, Err(ClassifiedError::Permanent { cause: Cause::HttpStatus { status } }));
    }
}

#[test]
fn connection_failure_is_transient() {
    let c = classify(RawOutcome::ConnectionFailure { detail: String::from("connection reset") });
    assert_eq!(
        c,
        Err(ClassifiedError::Transient {
            cause: Cause::Connection { detail: String::from("connection reset") },
            retry_after_ms: None
        })
    );
}

#[test]
fn embedded_service_error_is_permanent_with_message_preserved() {
    let body = String::from(
        "{\"error\":{\"code\":400,\"message\":\"Invalid request. Missing the 'points' parameter.\",\"status\":\"INVALID_ARGUMENT\"},\"snappedPoints\":[]}",
    );
    let c = classify(RawOutcome::Success { body });
    assert_eq!(
        c,
        Err(ClassifiedError::Permanent {
            cause: Cause::Service {
                status: String::from("INVALID_ARGUMENT"),
                message: String::from("Invalid request. Missing the 'points' parameter."),
            }
        })
    );
}

#[test]
fn malformed_body_is_permanent() {
    let c = classify(RawOutcome::Success { body: String::from("<html>oops</html>") });
    assert_eq!(c, Err(ClassifiedError::Permanent { cause: Cause::MalformedPayload }));
}

#[test]
fn clean_body_is_success_with_payload_unchanged() {
    let c = classify(RawOutcome::Success { body: clean_body() });
    assert_eq!(c, Ok(clean_body()));
}

#[test]
fn three_server_errors_then_success_takes_exactly_four_attempts() {
    let r = built_request();
    let mut ex = Execution::start(&r, RetryPolicy::new_default()).unwrap();
    for _ in 0..3 {
        let a = ex.on_outcome(RawOutcome::HttpFailure { status: 500, retry_after_ms: None }, 0);
        assert!(matches!(a, Action::Sleep { .. }));
        let a = ex.on_backoff_elapsed();
        assert_eq!(a, Action::Attempt);
    }
    let a = ex.on_outcome(RawOutcome::Success { body: clean_body() }, 0);
    assert_eq!(a, Action::Finish);
    assert_eq!(ex.attempts_made(), 4);
    assert_eq!(ex.into_result(), Ok(clean_body()));
}

#[test]
fn single_client_error_fails_after_exactly_one_attempt() {
    let r = built_request();
    let mut ex = Execution::start(&r, RetryPolicy::new_default()).unwrap();
    let a = ex.on_outcome(RawOutcome::HttpFailure { status: 400, retry_after_ms: None }, 0);
    assert_eq!(a, Action::Finish);
    assert_eq!(ex.attempts_made(), 1);
    assert_eq!(
        ex.into_result(),
        Err(RequestError::Terminal { cause: Cause::HttpStatus { status: 400 } })
    );
}

#[test]
fn transient_failures_stop_at_the_attempt_budget() {
    let r = built_request();
    let policy = RetryPolicy { max_attempts: 2, base_delay_ms: 500, max_delay_ms: 60000 };
    let mut ex = Execution::start(&r, policy).unwrap();
    let a = ex.on_outcome(RawOutcome::HttpFailure { status: 503, retry_after_ms: None }, 0);
    assert!(matches!(a, Action::Sleep { .. }));
    assert_eq!(ex.on_backoff_elapsed(), Action::Attempt);
    let a = ex.on_outcome(RawOutcome::HttpFailure { status: 503, retry_after_ms: None }, 0);
    assert_eq!(a, Action::Finish);
    assert_eq!(ex.attempts_made(), 2);
    assert_eq!(
        ex.into_result(),
        Err(RequestError::Terminal { cause: Cause::HttpStatus { status: 503 } })
    );
}

#[test]
fn backoff_delays_follow_the_documented_formula() {
    let r = built_request();
    let mut ex = Execution::start(&r, RetryPolicy::new_default()).unwrap();
    // First retry: nominal 500 ms, jitter 0 picks the lower edge, 250 ms.
    let a = ex.on_outcome(RawOutcome::HttpFailure { status: 500, retry_after_ms: None }, 0);
    assert_eq!(a, Action::Sleep { delay_ms: 250 });
    ex.on_backoff_elapsed();
    // Second retry: nominal 1000 ms; jitter 500 picks the upper edge.
    let a = ex.on_outcome(RawOutcome::HttpFailure { status: 500, retry_after_ms: None }, 500);
    assert_eq!(a, Action::Sleep { delay_ms: 1000 });
    ex.on_backoff_elapsed();
    // Third retry: nominal 2000 ms; jitter wraps modulo 1001.
    let a = ex.on_outcome(RawOutcome::HttpFailure { status: 500, retry_after_ms: None }, 1001);
    assert_eq!(a, Action::Sleep { delay_ms: 1000 });
}

#[test]
fn suggested_retry_after_wins_and_is_capped() {
    let r = built_request();
    let mut ex = Execution::start(&r, RetryPolicy::new_default()).unwrap();
    let a = ex.on_outcome(RawOutcome::HttpFailure { status: 429, retry_after_ms: Some(100) }, 77);
    assert_eq!(a, Action::Sleep { delay_ms: 100 });
    ex.on_backoff_elapsed();
    let a = ex.on_outcome(
        RawOutcome::HttpFailure { status: 429, retry_after_ms: Some(10_000_000) },
        77,
    );
    assert_eq!(a, Action::Sleep { delay_ms: 60000 });
}

#[test]
fn rate_limiter_grants_at_most_the_budget_without_refill() {
    let mut limiter = RateLimiter::new(vec![2; 8]);
    let cats = vec![Api::All, Api::Roads];
    assert!(limiter.try_acquire(&cats));
    assert!(limiter.try_acquire(&cats));
    assert!(!limiter.try_acquire(&cats));
    limiter.refill();
    assert!(limiter.try_acquire(&cats));
}

#[test]
fn rate_limiter_throttles_categories_independently() {
    // Roads alone is down to one call per window; Directions is not.
    let mut limiter = RateLimiter::new(vec![10, 10, 10, 10, 10, 10, 1, 10]);
    assert!(limiter.try_acquire(&vec![Api::All, Api::Roads]));
    assert!(!limiter.try_acquire(&vec![Api::All, Api::Roads]));
    assert!(limiter.try_acquire(&vec![Api::All, Api::Directions]));
}

#[test]
fn cancel_in_backoff_stops_attempts_and_releases_the_debit() {
    let r = built_request();
    let mut ex = Execution::start(&r, RetryPolicy::new_default()).unwrap();
    let a = ex.on_outcome(RawOutcome::HttpFailure { status: 503, retry_after_ms: None }, 0);
    assert!(matches!(a, Action::Sleep { .. }));

    // The owner had already debited the budget for the next attempt.
    let mut limiter = RateLimiter::new(vec![1; 8]);
    let cats = vec![Api::All, Api::Roads];
    assert!(limiter.try_acquire(&cats));
    assert!(!limiter.try_acquire(&cats));

    // Cancellation while suspended in backoff: no further attempt, and the
    // engine tells the owner to give the debit back.
    let a = ex.cancel();
    assert_eq!(a, Action::ReleaseBudget);
    assert_eq!(ex.state, EngineState::Cancelled { made: 1 });
    limiter.release(&cats);

    // A subsequent acquisition by another request sees the budget restored.
    assert!(limiter.try_acquire(&cats));
    assert_eq!(ex.into_result(), Err(RequestError::Cancelled));
}
