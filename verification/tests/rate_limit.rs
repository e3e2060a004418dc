use latke::client::IBroadcastClient;
use latke::errors::IBroadcastError;
use latke::rate::RateWindow;
use latke::{MAX_REQUESTS_PER_WINDOW, RATE_LIMIT_WINDOW_SECS};

#[test]
fn quota_admissions_all_succeed() {
    let mut c = IBroadcastClient::new(1_000);
    for _ in 0..MAX_REQUESTS_PER_WINDOW {
        assert!(c.check_rate_limit(1_000).is_ok());
    }
}

#[test]
fn admission_over_quota_fails() {
    let mut c = IBroadcastClient::new(1_000);
    for _ in 0..MAX_REQUESTS_PER_WINDOW {
        assert!(c.check_rate_limit(1_010).is_ok());
    }
    let r = c.check_rate_limit(1_020);
    assert!(matches!(r, Err(IBroadcastError::RateLimitExceeded)));
}

#[test]
fn window_reset_readmits() {
    let mut c = IBroadcastClient::new(1_000);
    for _ in 0..MAX_REQUESTS_PER_WINDOW {
        assert!(c.check_rate_limit(1_000).is_ok());
    }
    assert!(c.check_rate_limit(1_000).is_err());
    // Strictly more than the window must elapse past its start.
    let after = 1_000 + RATE_LIMIT_WINDOW_SECS + 1;
    assert!(c.check_rate_limit(after).is_ok());
    assert_eq!(c.window.window_start, after);
    assert_eq!(c.window.count, 1);
}

#[test]
fn elapsed_exactly_window_does_not_reset() {
    let mut w = RateWindow::new(500);
    // Fill a tiny quota, then try again at the window's very edge.
    assert!(w.acquire(500, 1, 60).is_ok());
    let r = w.acquire(560, 1, 60);
    assert!(matches!(r, Err(IBroadcastError::RateLimitExceeded)));
    // One second past the edge, the window restarts.
    assert!(w.acquire(561, 1, 60).is_ok());
}

#[test]
fn clock_running_backwards_stays_in_window() {
    let mut w = RateWindow::new(500);
    assert!(w.acquire(400, 2, 60).is_ok());
    assert!(w.acquire(10, 2, 60).is_ok());
    assert!(w.acquire(450, 2, 60).is_err());
    assert_eq!(w.window_start, 500);
}
