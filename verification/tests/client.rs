use concur_api::client::{
    bearer_value, error_from_response, headers_with_correlation_id, is_no_content, is_retryable, is_success,
    request_headers, ClientConfig, HttpMethod, RetryState, RetryStep,
};
use concur_api::error::{ConcurApiError, ConcurError};
use reqwest::StatusCode;
use std::time::Duration;

fn pairs(v: &[(&str, &str)]) -> Vec<(String, String)> {
    v.iter().map(|(k, v)| (k.to_string(), v.to_string())).collect()
}

fn api_error(msg: Option<&str>, desc: Option<&str>, err: Option<&str>) -> ConcurApiError {
    ConcurApiError {
        error: err.map(String::from),
        error_description: desc.map(String::from),
        code: None,
        timestamp: None,
        error_message: msg.map(String::from),
        error_id: None,
        path: None,
    }
}

#[test]
fn retryable_status_codes() {
    assert!(is_retryable(StatusCode::REQUEST_TIMEOUT.as_u16()));
    assert!(is_retryable(StatusCode::TOO_MANY_REQUESTS.as_u16()));
    assert!(is_retryable(StatusCode::INTERNAL_SERVER_ERROR.as_u16()));
    assert!(!is_retryable(StatusCode::BAD_REQUEST.as_u16()));
    assert!(!is_retryable(StatusCode::NOT_FOUND.as_u16()));
}

#[test]
fn retryable_set_is_exact() {
    let retryable: Vec<u16> = (0..=999).filter(|s| is_retryable(*s)).collect();
    let mut expected = vec![408, 429];
    expected.extend(500..=599);
    assert_eq!(retryable, expected);
    assert!(is_retryable(501));
    assert!(is_retryable(505));
    assert!(is_retryable(599));
    assert!(!is_retryable(600));
    assert!(!is_retryable(499));
}

#[test]
fn success_and_no_content() {
    assert!(is_success(200));
    assert!(is_success(204));
    assert!(is_success(299));
    assert!(!is_success(199));
    assert!(!is_success(300));
    assert!(is_no_content(204));
    assert!(!is_no_content(200));
}

#[test]
fn default_config() {
    let c = ClientConfig::default();
    assert_eq!(c.base_url, "https://us.api.concursolutions.com");
    assert_eq!(c.timeout, Duration::from_secs(60));
    assert_eq!(c.max_retries, 3);
    assert_eq!(c.retry_backoff, Duration::from_millis(500));
    assert_eq!(c.idempotency_key, None);
    assert_eq!(c.accept_language, None);
}

#[test]
fn retry_loop_doubles_backoff_and_stops_after_budget() {
    let config = ClientConfig { retry_backoff: Duration::from_millis(10), ..ClientConfig::default() };
    let mut state = RetryState::new(&config);
    let mut waits = Vec::new();
    loop {
        state.begin_attempt();
        match state.on_response(config.max_retries, 503) {
            RetryStep::Wait(d) => {
                waits.push(d);
                state.after_wait();
            }
            RetryStep::Fail => break,
            RetryStep::Return => panic!("a 503 is not a success"),
        }
    }
    assert_eq!(state.attempts, 4);
    assert_eq!(
        waits,
        vec![Duration::from_millis(10), Duration::from_millis(20), Duration::from_millis(40)]
    );
}

#[test]
fn retry_loop_returns_success_and_fails_fast_on_permanent_error() {
    let config = ClientConfig::default();
    let mut state = RetryState::new(&config);
    state.begin_attempt();
    assert!(matches!(state.on_response(3, 500), RetryStep::Wait(d) if d == Duration::from_millis(500)));
    state.after_wait();
    state.begin_attempt();
    assert!(matches!(state.on_response(3, 200), RetryStep::Return));
    let mut state = RetryState::new(&config);
    state.begin_attempt();
    assert!(matches!(state.on_response(3, 404), RetryStep::Fail));
    let mut state = RetryState::new(&config);
    state.begin_attempt();
    assert!(matches!(state.on_response(0, 429), RetryStep::Fail));
}

#[test]
fn headers_in_order() {
    let h = headers_with_correlation_id(
        "cid".to_string(),
        HttpMethod::Post,
        &Some("fr-FR".to_string()),
        &Some("key-1".to_string()),
        &Some("tok".to_string()),
    );
    assert_eq!(
        h,
        pairs(&[
            ("accept", "application/json"),
            ("concur-correlationid", "cid"),
            ("accept-language", "fr-FR"),
            ("idempotency-key", "key-1"),
            ("authorization", "Bearer tok"),
        ])
    );
    let h = headers_with_correlation_id("cid".to_string(), HttpMethod::Get, &None, &None, &None);
    assert_eq!(h, pairs(&[("accept", "application/json"), ("concur-correlationid", "cid")]));
    let h = headers_with_correlation_id(
        "cid".to_string(),
        HttpMethod::Get,
        &Some("fr-FR".to_string()),
        &Some("key-1".to_string()),
        &Some("tok".to_string()),
    );
    assert_eq!(
        h,
        pairs(&[
            ("accept", "application/json"),
            ("concur-correlationid", "cid"),
            ("accept-language", "fr-FR"),
            ("authorization", "Bearer tok"),
        ])
    );
}

#[test]
fn request_headers_carry_a_random_uuid() {
    let config = ClientConfig::default();
    let a = request_headers(&config, HttpMethod::Get, &Some("test-token".to_string()));
    let b = request_headers(&config, HttpMethod::Get, &None);
    assert_eq!(a.len(), 3);
    assert_eq!(a[0], ("accept".to_string(), "application/json".to_string()));
    assert_eq!(a[1].0, "concur-correlationid");
    assert_eq!(a[2], ("authorization".to_string(), "Bearer test-token".to_string()));
    let id = &a[1].1;
    assert_eq!(id.len(), 36);
    assert_eq!(&id[14..15], "4");
    for (i, c) in id.chars().enumerate() {
        if [8, 13, 18, 23].contains(&i) {
            assert_eq!(c, '-');
        } else {
            assert!(c.is_ascii_hexdigit() && !c.is_ascii_uppercase());
        }
    }
    assert_eq!(b.len(), 2);
    assert_ne!(a[1].1, b[1].1);
}

#[test]
fn error_from_response_prefers_parsed_message() {
    let e = error_from_response(
        404,
        Some("corr".to_string()),
        Ok("{...}".to_string()),
        Some(api_error(Some("msg"), Some("desc"), Some("err"))),
    );
    match e {
        ConcurError::Api { status, message, correlation_id } => {
            assert_eq!(status, 404);
            assert_eq!(message, "msg");
            assert_eq!(correlation_id, Some("corr".to_string()));
        }
        other => panic!("unexpected {:?}", other),
    }
    let e = error_from_response(500, None, Ok("raw body".to_string()), None);
    match e {
        ConcurError::Api { status, message, correlation_id } => {
            assert_eq!(status, 500);
            assert_eq!(message, "raw body");
            assert_eq!(correlation_id, None);
        }
        other => panic!("unexpected {:?}", other),
    }
}

#[test]
fn error_from_response_falls_back_to_debug_rendering() {
    let parsed = api_error(None, None, None);
    let expected = format!("{:?}", parsed);
    let e = error_from_response(400, None, Ok("{\"code\":7}".to_string()), Some(parsed));
    match e {
        ConcurError::Api { status, message, correlation_id } => {
            assert_eq!(status, 400);
            assert_eq!(message, expected);
            assert_eq!(correlation_id, None);
        }
        other => panic!("unexpected {:?}", other),
    }
}

#[test]
fn error_from_unreadable_body_is_transport_error() {
    let err = reqwest::Client::new().get("not a url").build().unwrap_err();
    let e = error_from_response(502, Some("corr".to_string()), Err(err), None);
    assert!(matches!(e, ConcurError::Http(_)));
}

#[test]
fn endpoint_urls() {
    let u = concur_api::client::endpoint_url("https://us.api.concursolutions.com", "/api/v4.1/users").unwrap();
    assert_eq!(u, "https://us.api.concursolutions.com/api/v4.1/users");
    let u = concur_api::client::endpoint_url("https://h.example/base/", "x?y=1").unwrap();
    assert_eq!(u, "https://h.example/base/x?y=1");
    let u = concur_api::client::endpoint_url("https://h.example/base/", "/abs").unwrap();
    assert_eq!(u, "https://h.example/abs");
    let u = concur_api::client::endpoint_url("https://h.example", "").unwrap();
    assert_eq!(u, "https://h.example/");
    let e = concur_api::client::endpoint_url("not a url", "/x").unwrap_err();
    assert!(matches!(e, ConcurError::Url(_)));
}

#[test]
fn configured_idempotency_key_is_sent() {
    let config = ClientConfig { idempotency_key: Some("idem-42".to_string()), ..ClientConfig::default() };
    for method in [HttpMethod::Post, HttpMethod::Put, HttpMethod::Patch, HttpMethod::Delete] {
        let h = request_headers(&config, method, &None);
        assert_eq!(h.len(), 3);
        assert_eq!(h[2], ("idempotency-key".to_string(), "idem-42".to_string()));
    }
    for method in [HttpMethod::Get, HttpMethod::Other] {
        let h = request_headers(&config, method, &None);
        assert!(h.iter().all(|(k, _)| k != "idempotency-key"));
    }
    let h = request_headers(&ClientConfig::default(), HttpMethod::Post, &None);
    assert!(h.iter().all(|(k, _)| k != "idempotency-key"));
}

#[test]
fn bearer_header_value() {
    assert_eq!(bearer_value("abc"), "Bearer abc");
    assert_eq!(bearer_value(""), "Bearer ");
}

#[test]
fn write_methods() {
    assert!(HttpMethod::Post.is_write());
    assert!(HttpMethod::Put.is_write());
    assert!(HttpMethod::Patch.is_write());
    assert!(HttpMethod::Delete.is_write());
    assert!(!HttpMethod::Get.is_write());
    assert!(!HttpMethod::Other.is_write());
}

#[test]
fn unclonable_request_error_text() {
    match ConcurError::request_not_clonable() {
        ConcurError::Other(m) => assert_eq!(m, "Request body cannot be cloned for retry"),
        other => panic!("unexpected error: {:?}", other),
    }
}
