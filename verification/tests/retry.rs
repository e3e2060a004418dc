use latke::errors::IBroadcastError;
use latke::executor::{backoff, drive_request, retry_step, RequestEvent, RetryStep};
use latke::{MAX_RETRIES, RETRY_DELAY_SECS};

fn fail(detail: &str) -> RequestEvent {
    RequestEvent::TransportFailed(detail.to_string())
}

fn resp(status: u16, body: &str) -> RequestEvent {
    RequestEvent::HttpResponse(status, body.to_string())
}

#[test]
fn two_failures_then_success_returns_body() {
    let events = vec![fail("timeout"), fail("timeout"), resp(200, "{\"status\":\"ok\"}")];
    let out = drive_request(MAX_RETRIES, RETRY_DELAY_SECS, events);
    match out.outcome {
        Some(Ok(body)) => assert_eq!(body, "{\"status\":\"ok\"}"),
        other => panic!("expected success, got {:?}", other.is_some()),
    }
    // Linear backoff: one base delay, then two.
    assert_eq!(out.total_wait, (RETRY_DELAY_SECS + 2 * RETRY_DELAY_SECS) as u128);
}

#[test]
fn all_transport_failures_return_network() {
    let mut events = Vec::new();
    for _ in 0..(MAX_RETRIES + 1) {
        events.push(fail("connection refused"));
    }
    let out = drive_request(MAX_RETRIES, RETRY_DELAY_SECS, events);
    match out.outcome {
        Some(Err(IBroadcastError::Network(detail))) => {
            assert_eq!(detail, "connection refused");
        },
        _ => panic!("expected a network error"),
    }
}

#[test]
fn persistent_429_returns_rate_limit_exceeded() {
    let mut events = Vec::new();
    for _ in 0..(MAX_RETRIES + 1) {
        events.push(resp(429, ""));
    }
    let out = drive_request(MAX_RETRIES, RETRY_DELAY_SECS, events);
    assert!(matches!(out.outcome, Some(Err(IBroadcastError::RateLimitExceeded))));
    // Every retry waited: 1 + 2 + 3 base delays with the default budget.
    assert_eq!(out.total_wait, (RETRY_DELAY_SECS * 6) as u128);
}

#[test]
fn http_500_returns_api_error_without_retry() {
    let events = vec![
        resp(500, "{\"status\":\"error\",\"message\":\"boom\"}"),
        resp(200, "never reached"),
    ];
    let out = drive_request(MAX_RETRIES, RETRY_DELAY_SECS, events);
    match out.outcome {
        Some(Err(IBroadcastError::Api(message))) => assert_eq!(message, "boom"),
        _ => panic!("expected an api error"),
    }
    assert_eq!(out.total_wait, 0);
}

#[test]
fn unparseable_error_body_reports_unknown_error() {
    let events = vec![resp(500, "not json at all")];
    let out = drive_request(MAX_RETRIES, RETRY_DELAY_SECS, events);
    match out.outcome {
        Some(Err(IBroadcastError::Api(message))) => assert_eq!(message, "Unknown error"),
        _ => panic!("expected an api error"),
    }
}

#[test]
fn error_body_with_wrong_shape_reports_unknown_error() {
    // Well-formed JSON, but not the structured error shape.
    let events = vec![resp(404, "{\"message\":42}")];
    let out = drive_request(MAX_RETRIES, RETRY_DELAY_SECS, events);
    match out.outcome {
        Some(Err(IBroadcastError::Api(message))) => assert_eq!(message, "Unknown error"),
        _ => panic!("expected an api error"),
    }
}

#[test]
fn events_exhausted_mid_retry_yield_no_outcome() {
    let events = vec![fail("timeout")];
    let out = drive_request(MAX_RETRIES, RETRY_DELAY_SECS, events);
    assert!(out.outcome.is_none());
    assert_eq!(out.total_wait, RETRY_DELAY_SECS as u128);
}

#[test]
fn retry_step_counts_attempts() {
    let mut retries: u32 = 0;
    let step = retry_step(&mut retries, MAX_RETRIES, RETRY_DELAY_SECS, fail("down"));
    assert!(matches!(step, RetryStep::Resend(w) if w == RETRY_DELAY_SECS));
    assert_eq!(retries, 1);
    let step = retry_step(&mut retries, MAX_RETRIES, RETRY_DELAY_SECS, resp(429, ""));
    assert!(matches!(step, RetryStep::Resend(w) if w == 2 * RETRY_DELAY_SECS));
    assert_eq!(retries, 2);
    let step = retry_step(&mut retries, MAX_RETRIES, RETRY_DELAY_SECS, resp(204, ""));
    assert!(matches!(step, RetryStep::Finished(Ok(_))));
    assert_eq!(retries, 2);
}

#[test]
fn backoff_saturates() {
    assert_eq!(backoff(2, 3), 6);
    assert_eq!(backoff(u64::MAX, 2), u64::MAX);
}
