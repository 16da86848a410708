use synapse::admin::{
    api_error, backoff_delay_ms, error_for_status, error_message, is_error_response,
    owned_query, retry_step, AdminClient, ErrorBody, RetryState, RetryStep,
};
use synapse::error::{status_text, SynapseError};

fn client(key: &str) -> AdminClient {
    AdminClient::new(
        reqwest::Client::new(),
        "http://127.0.0.1:8080".to_string(),
        key.to_string(),
        3,
        100,
    )
}

fn network_error() -> reqwest::Error {
    reqwest::Client::new().get("not a url").build().unwrap_err()
}

#[test]
fn network_errors_are_transient() {
    assert!(SynapseError::Network(network_error()).is_transient());
}

#[test]
fn server_errors_are_transient() {
    assert!(SynapseError::Api { status: 500, message: "boom".to_string() }.is_transient());
    assert!(SynapseError::Api { status: 503, message: String::new() }.is_transient());
    assert!(SynapseError::Http { status: 502, body: "bad gateway".to_string() }.is_transient());
}

#[test]
fn client_errors_are_permanent() {
    assert!(!SynapseError::Api { status: 400, message: "bad".to_string() }.is_transient());
    assert!(!SynapseError::Api { status: 401, message: "Unauthorized".to_string() }.is_transient());
    assert!(!SynapseError::Api { status: 499, message: String::new() }.is_transient());
    assert!(!SynapseError::Http { status: 404, body: String::new() }.is_transient());
}

#[test]
fn other_errors_are_permanent() {
    assert!(!SynapseError::NotFound("tx".to_string()).is_transient());
    assert!(!SynapseError::InvalidCursor("c".to_string()).is_transient());
    assert!(!SynapseError::Decode("eof".to_string()).is_transient());
}

#[test]
fn new_keeps_its_settings() {
    let c = client("admin-secret");
    assert_eq!(c.base_url, "http://127.0.0.1:8080");
    assert_eq!(c.admin_key, "admin-secret");
    assert_eq!(c.max_attempts, 3);
    assert_eq!(c.base_delay_ms, 100);
}

#[test]
fn admin_request_carries_bearer_token() {
    let c = client("admin-secret");
    let req = c.get_request("/admin/status");
    assert_eq!(req.url, "http://127.0.0.1:8080/admin/status");
    assert_eq!(req.authorization, "Bearer admin-secret");
    assert!(req.query.is_empty());
}

#[test]
fn admin_request_uses_admin_key_not_public_key() {
    let c = client("wrong-key");
    assert_eq!(c.authorization(), "Bearer wrong-key");
    assert_eq!(c.url_for("/admin/secret"), "http://127.0.0.1:8080/admin/secret");
}

#[test]
fn query_request_keeps_pairs_in_order() {
    let c = client("k");
    let req = c.get_query_request("/admin/transactions", &[("status", "pending"), ("limit", "5")]);
    assert_eq!(req.url, "http://127.0.0.1:8080/admin/transactions");
    assert_eq!(req.authorization, "Bearer k");
    assert_eq!(
        req.query,
        vec![
            ("status".to_string(), "pending".to_string()),
            ("limit".to_string(), "5".to_string())
        ]
    );
}

#[test]
fn owned_query_of_nothing_is_empty() {
    assert!(owned_query(&[]).is_empty());
}

#[test]
fn status_401_is_an_api_error_with_the_body() {
    match error_for_status(401, "Unauthorized".to_string(), None) {
        Some(SynapseError::Api { status, message }) => {
            assert_eq!(status, 401);
            assert_eq!(message, "Unauthorized");
        }
        other => panic!("expected Api(401), got: {:?}", other),
    }
}

#[test]
fn parsed_message_replaces_the_body() {
    match error_for_status(503, "{\"error\":\"down\"}".to_string(), Some("down".to_string())) {
        Some(SynapseError::Api { status, message }) => {
            assert_eq!(status, 503);
            assert_eq!(message, "down");
        }
        other => panic!("expected Api(503), got: {:?}", other),
    }
}

#[test]
fn success_and_redirect_statuses_are_no_error() {
    assert!(error_for_status(200, "{\"ok\":true}".to_string(), None).is_none());
    assert!(error_for_status(204, String::new(), Some("x".to_string())).is_none());
    assert!(error_for_status(399, String::new(), None).is_none());
    assert!(error_for_status(400, String::new(), None).is_some());
}

#[test]
fn error_messages() {
    assert_eq!(status_text(0), "0");
    assert_eq!(status_text(7), "7");
    assert_eq!(status_text(401), "401");
    assert_eq!(status_text(65535), "65535");
    assert_eq!(
        SynapseError::Api { status: 401, message: "Unauthorized".to_string() }.message(),
        "API error 401: Unauthorized"
    );
    assert_eq!(SynapseError::NotFound("tx-1".to_string()).message(), "not found: tx-1");
    assert_eq!(SynapseError::InvalidCursor("abc".to_string()).message(), "invalid cursor: abc");
    assert_eq!(SynapseError::Decode("eof".to_string()).message(), "decode error: eof");
    assert_eq!(
        SynapseError::Http { status: 503, body: "busy".to_string() }.message(),
        "HTTP 503: busy"
    );
    let e = network_error();
    let text = e.to_string();
    assert_eq!(SynapseError::Network(e).message(), format!("network error: {}", text));
}

#[test]
fn transient_errors_are_retried_with_backoff() {
    let e = SynapseError::Api { status: 503, message: String::new() };
    assert!(matches!(retry_step(1, 3, 100, &e), RetryStep::Retry { delay_ms: 100 }));
    assert!(matches!(retry_step(2, 3, 100, &e), RetryStep::Retry { delay_ms: 200 }));
    assert!(matches!(retry_step(3, 3, 100, &e), RetryStep::GiveUp));
    assert!(matches!(retry_step(1, 1, 100, &e), RetryStep::GiveUp));
    assert!(matches!(retry_step(1, 0, 100, &e), RetryStep::GiveUp));
    assert!(matches!(
        retry_step(1, 2, 5, &SynapseError::Network(network_error())),
        RetryStep::Retry { delay_ms: 5 }
    ));
}

#[test]
fn permanent_errors_are_not_retried() {
    let e = SynapseError::Api { status: 401, message: "Unauthorized".to_string() };
    assert!(matches!(retry_step(1, 5, 100, &e), RetryStep::GiveUp));
    let e = SynapseError::Http { status: 404, body: String::new() };
    assert!(matches!(retry_step(1, 5, 100, &e), RetryStep::GiveUp));
    let e = SynapseError::Decode("bad json".to_string());
    assert!(matches!(retry_step(1, 5, 100, &e), RetryStep::GiveUp));
}

#[test]
fn backoff_doubles_and_saturates() {
    assert_eq!(backoff_delay_ms(100, 0), 100);
    assert_eq!(backoff_delay_ms(100, 1), 100);
    assert_eq!(backoff_delay_ms(100, 2), 200);
    assert_eq!(backoff_delay_ms(100, 4), 800);
    assert_eq!(backoff_delay_ms(0, 10), 0);
    assert_eq!(backoff_delay_ms(u64::MAX / 2 + 1, 2), u64::MAX);
    assert_eq!(backoff_delay_ms(1, 70), u64::MAX);
}

#[test]
fn error_body_message_prefers_error_field() {
    assert_eq!(error_message(None), None);
    assert_eq!(error_message(Some(ErrorBody { error: None, message: None })), None);
    assert_eq!(
        error_message(Some(ErrorBody { error: Some("denied".to_string()), message: Some("m".to_string()) })),
        Some("denied".to_string())
    );
    assert_eq!(
        error_message(Some(ErrorBody { error: None, message: Some("m".to_string()) })),
        Some("m".to_string())
    );
}

#[test]
fn api_error_and_error_statuses() {
    assert!(is_error_response(400));
    assert!(is_error_response(500));
    assert!(!is_error_response(200));
    assert!(!is_error_response(399));
    match api_error(401, "Unauthorized".to_string(), None) {
        SynapseError::Api { status, message } => {
            assert_eq!(status, 401);
            assert_eq!(message, "Unauthorized");
        }
        other => panic!("expected Api(401), got: {:?}", other),
    }
    match api_error(500, "{}".to_string(), Some("down".to_string())) {
        SynapseError::Api { status, message } => {
            assert_eq!(status, 500);
            assert_eq!(message, "down");
        }
        other => panic!("expected Api(500), got: {:?}", other),
    }
}

#[test]
fn retry_state_counts_attempts_up_to_the_limit() {
    let transient = SynapseError::Api { status: 502, message: String::new() };
    let mut s = RetryState::new(3, 10);
    assert_eq!(s.attempt, 1);
    assert!(matches!(s.after_failure(&transient), RetryStep::Retry { delay_ms: 10 }));
    assert_eq!(s.attempt, 2);
    assert!(matches!(s.after_failure(&transient), RetryStep::Retry { delay_ms: 20 }));
    assert_eq!(s.attempt, 3);
    assert!(matches!(s.after_failure(&transient), RetryStep::GiveUp));
    assert_eq!(s.attempt, 3);
}

#[test]
fn retry_state_gives_up_on_permanent_errors_and_zero_limit() {
    let mut s = RetryState::new(5, 10);
    assert!(matches!(
        s.after_failure(&SynapseError::NotFound("x".to_string())),
        RetryStep::GiveUp
    ));
    assert_eq!(s.attempt, 1);
    let mut z = RetryState::new(0, 10);
    assert!(matches!(z.after_failure(&SynapseError::Network(network_error())), RetryStep::GiveUp));
}

#[test]
fn reqwest_errors_convert_to_network_errors() {
    let e: SynapseError = network_error().into();
    assert!(matches!(e, SynapseError::Network(_)));
    assert!(e.is_transient());
}
