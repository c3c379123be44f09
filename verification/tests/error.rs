use concur_api::error::{ConcurApiError, ConcurError};

fn api_error(msg: Option<&str>, desc: Option<&str>, err: Option<&str>) -> ConcurApiError {
    ConcurApiError {
        error: err.map(String::from),
        error_description: desc.map(String::from),
        code: Some(7),
        timestamp: None,
        error_message: msg.map(String::from),
        error_id: None,
        path: None,
    }
}

#[test]
fn message_precedence() {
    assert_eq!(api_error(Some("m"), Some("d"), Some("e")).message(), "m");
    assert_eq!(api_error(None, Some("d"), Some("e")).message(), "d");
    assert_eq!(api_error(None, None, Some("e")).message(), "e");
    let all_absent = api_error(None, None, None);
    assert_eq!(all_absent.message(), format!("{:?}", all_absent));
}

#[test]
fn api_constructor() {
    match ConcurError::api(401, "denied".to_string()) {
        ConcurError::Api { status, message, correlation_id } => {
            assert_eq!(status, 401);
            assert_eq!(message, "denied");
            assert_eq!(correlation_id, None);
        }
        other => panic!("unexpected {:?}", other),
    }
}

#[test]
fn correlation_id_only_on_api_errors_and_last_wins() {
    let e = ConcurError::api(500, "x".to_string())
        .with_correlation_id("a".to_string())
        .with_correlation_id("b".to_string());
    match e {
        ConcurError::Api { correlation_id, .. } => assert_eq!(correlation_id, Some("b".to_string())),
        other => panic!("unexpected {:?}", other),
    }
    let e = ConcurError::Auth("no".to_string()).with_correlation_id("a".to_string());
    assert!(matches!(e, ConcurError::Auth(ref m) if m == "no"));
    let e = ConcurError::RetryExhausted { attempts: 4 }.with_correlation_id("a".to_string());
    assert!(matches!(e, ConcurError::RetryExhausted { attempts: 4 }));
}
