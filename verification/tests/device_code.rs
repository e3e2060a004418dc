use latke::client::{complete_device_code, IBroadcastClient};
use latke::errors::IBroadcastError;

#[test]
fn issuance_request_is_a_bootstrap_call() {
    let c = IBroadcastClient::new(0);
    let ps = c.get_device_code_request();
    assert_eq!(ps.len(), 5);
    assert_eq!(ps[0], ("mode".to_string(), "getdevicecode".to_string()));
    assert!(ps.iter().all(|p| p.0 != "token"));
}

#[test]
fn issuance_response_reports_code_and_validity() {
    let body = "{\"message\":\"ok\",\"result\":true,\"device_code\":\"DC\",\"expires_in\":600}";
    let resp = complete_device_code(body).unwrap();
    assert_eq!(resp.device_code.as_deref(), Some("DC"));
    assert_eq!(resp.expires_in, Some(600));
    assert!(!resp.authenticated);
}

#[test]
fn issuance_does_not_touch_session() {
    let mut c = IBroadcastClient::new(0);
    let body = "{\"message\":\"ok\",\"result\":true,\"device_code\":\"DC\"}";
    let resp = c.complete_poll_device_code(body).unwrap();
    assert!(!resp.authenticated);
    assert!(c.session.token.is_none());
}

#[test]
fn malformed_issuance_body_is_invalid_response() {
    assert!(matches!(complete_device_code("{}"), Err(IBroadcastError::InvalidResponse(_))));
}

#[test]
fn poll_request_carries_the_code() {
    let c = IBroadcastClient::new(0);
    let ps = c.poll_device_code_request("DC");
    assert_eq!(ps.len(), 6);
    assert_eq!(ps[0], ("mode".to_string(), "polldevicecode".to_string()));
    assert_eq!(ps[1], ("device_code".to_string(), "DC".to_string()));
}

#[test]
fn session_populated_only_on_the_successful_poll() {
    let mut c = IBroadcastClient::new(0);
    let pending = "{\"message\":\"waiting\",\"result\":true,\"authenticated\":false}";
    for _ in 0..4 {
        let resp = c.complete_poll_device_code(pending).unwrap();
        assert!(!resp.authenticated);
        assert!(c.session.token.is_none());
        assert!(c.session.user_id.is_none());
    }
    let done = "{\"message\":\"ok\",\"result\":true,\"authenticated\":true,\"token\":\"T2\",\"user\":{\"id\":\"7\"}}";
    let resp = c.complete_poll_device_code(done).unwrap();
    assert!(resp.authenticated && resp.result);
    assert_eq!(c.session.token.as_deref(), Some("T2"));
    assert_eq!(c.session.user_id.as_deref(), Some("7"));
    assert!(c.session.token_expires.is_none());
}

#[test]
fn malformed_poll_body_leaves_session_untouched() {
    let mut c = IBroadcastClient::new(0);
    let r = c.complete_poll_device_code("not json");
    assert!(matches!(r, Err(IBroadcastError::InvalidResponse(_))));
    assert!(c.session.token.is_none());
}

#[test]
fn poll_body_without_result_is_invalid_response() {
    let mut c = IBroadcastClient::new(0);
    let r = c.complete_poll_device_code("{\"message\":\"ok\",\"authenticated\":true}");
    assert!(matches!(r, Err(IBroadcastError::InvalidResponse(_))));
}

#[test]
fn successful_poll_without_user_clears_user_id() {
    let mut c = IBroadcastClient::new(0);
    let done = "{\"message\":\"ok\",\"result\":true,\"authenticated\":true,\"token\":\"T9\"}";
    let resp = c.complete_poll_device_code(done).unwrap();
    assert!(resp.authenticated);
    assert_eq!(c.session.token.as_deref(), Some("T9"));
    assert!(c.session.user_id.is_none());
}
