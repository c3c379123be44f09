use concur_api::auth::{
    expired_after, revoke_failed, revoke_url, token_form_params, token_request_failed, Grant,
    StaticToken, Token, TokenState,
};
use concur_api::error::ConcurError;
use std::time::{Duration, Instant};

fn token(obtained_at: Option<Instant>) -> Token {
    Token {
        access_token: "abc".to_string(),
        token_type: "Bearer".to_string(),
        expires_in: 300,
        refresh_token: None,
        scope: None,
        geolocation: None,
        id_token: None,
        obtained_at,
    }
}

fn pairs(v: &[(&str, &str)]) -> Vec<(String, String)> {
    v.iter().map(|(k, v)| (k.to_string(), v.to_string())).collect()
}

#[test]
fn token_expiry_with_buffer() {
    let mut token = token(Some(Instant::now() - Duration::from_secs(200)));

    assert!(!token.is_expired(Duration::from_secs(60)));

    token.obtained_at = Some(Instant::now() - Duration::from_secs(245));
    assert!(token.is_expired(Duration::from_secs(60)));
}

#[test]
fn token_expired_when_no_obtained_at() {
    let token = token(None);

    assert!(token.is_expired(Duration::from_secs(60)));
}

#[test]
fn static_token_returns_value() {
    let manager = StaticToken::new("test-token");
    assert_eq!(manager.access_token(), "test-token");
    assert_eq!(manager.access_token(), "test-token");
}

#[test]
fn buffer_as_long_as_lifetime_expires_fresh_token() {
    let token = token(Some(Instant::now()));
    assert!(token.is_expired(Duration::from_secs(300)));
    assert!(!token.is_expired(Duration::from_secs(0)));
}

#[test]
fn expired_after_boundaries() {
    // 300 s lifetime: expired exactly when elapsed + buffer reaches 300 s.
    assert!(!expired_after(239_999_999_999, 60_000_000_000, 300));
    assert!(expired_after(240_000_000_000, 60_000_000_000, 300));
    assert!(expired_after(400_000_000_000, 0, 300));
    assert!(expired_after(0, 0, 0));
    assert!(!expired_after(0, 0, 1));
    assert!(expired_after(u128::MAX, u128::MAX, u64::MAX));
}

#[test]
fn expiry_monotone_on_values() {
    // A wider margin keeps an expired token expired.
    assert!(expired_after(250_000_000_000, 60_000_000_000, 300));
    assert!(expired_after(250_000_000_000, 120_000_000_000, 300));
    assert!(expired_after(260_000_000_000, 60_000_000_000, 300));
}

#[test]
fn form_for_client_credentials() {
    let g = Grant::ClientCredentials { scope: Some("expense.report.read".to_string()) };
    assert_eq!(
        token_form_params("id", "secret", &g),
        pairs(&[
            ("client_id", "id"),
            ("client_secret", "secret"),
            ("grant_type", "client_credentials"),
            ("scope", "expense.report.read"),
        ])
    );
    let g = Grant::ClientCredentials { scope: None };
    assert_eq!(
        token_form_params("id", "secret", &g),
        pairs(&[("client_id", "id"), ("client_secret", "secret"), ("grant_type", "client_credentials")])
    );
}

#[test]
fn form_for_password() {
    let g = Grant::Password {
        username: "u".to_string(),
        password: "p".to_string(),
        credtype: Some("authtoken".to_string()),
        scope: Some("s".to_string()),
    };
    assert_eq!(
        token_form_params("id", "secret", &g),
        pairs(&[
            ("client_id", "id"),
            ("client_secret", "secret"),
            ("grant_type", "password"),
            ("username", "u"),
            ("password", "p"),
            ("credtype", "authtoken"),
            ("scope", "s"),
        ])
    );
    let g = Grant::Password { username: "u".to_string(), password: "p".to_string(), credtype: None, scope: None };
    assert_eq!(
        token_form_params("id", "secret", &g),
        pairs(&[
            ("client_id", "id"),
            ("client_secret", "secret"),
            ("grant_type", "password"),
            ("username", "u"),
            ("password", "p"),
        ])
    );
}

#[test]
fn form_for_refresh_token() {
    let g = Grant::RefreshToken { refresh_token: "r".to_string(), scope: None };
    assert_eq!(
        token_form_params("id", "secret", &g),
        pairs(&[
            ("client_id", "id"),
            ("client_secret", "secret"),
            ("grant_type", "refresh_token"),
            ("refresh_token", "r"),
        ])
    );
}

#[test]
fn token_state_caches_fresh_token() {
    let mut state = TokenState::new();
    assert_eq!(state.valid_access_token(), None);
    let mut t = token(Some(Instant::now()));
    t.access_token = "fresh".to_string();
    assert_eq!(state.store(t), "fresh");
    assert_eq!(state.valid_access_token(), Some("fresh".to_string()));
}

#[test]
fn token_state_refreshes_within_margin() {
    let mut state = TokenState::new();
    let mut t = token(Some(Instant::now() - Duration::from_secs(250)));
    t.access_token = "old".to_string();
    state.store(t);
    assert_eq!(state.valid_access_token(), None);
    state.store(token(None));
    assert_eq!(state.valid_access_token(), None);
    let mut short = token(Some(Instant::now()));
    short.expires_in = 60;
    state.store(short);
    assert_eq!(state.valid_access_token(), None);
}

#[test]
fn revoke_url_trims_trailing_slashes() {
    assert_eq!(revoke_url("https://x.example//"), "https://x.example/app-mgmt/v0/connections");
    assert_eq!(revoke_url("https://x.example"), "https://x.example/app-mgmt/v0/connections");
    assert_eq!(revoke_url(""), "/app-mgmt/v0/connections");
    assert_eq!(revoke_url("///"), "/app-mgmt/v0/connections");
}

#[test]
fn auth_failure_messages() {
    match token_request_failed("bad creds") {
        ConcurError::Auth(m) => assert_eq!(m, "Token request failed: bad creds"),
        other => panic!("unexpected {:?}", other),
    }
    match revoke_failed("nope") {
        ConcurError::Auth(m) => assert_eq!(m, "Revoke failed: nope"),
        other => panic!("unexpected {:?}", other),
    }
}

#[test]
fn obtained_now_stamps_time_and_keeps_fields() {
    let t = token(None);
    assert!(t.is_expired(Duration::from_secs(0)));
    let t = t.obtained_now();
    assert!(t.obtained_at.is_some());
    assert_eq!(t.access_token, "abc");
    assert_eq!(t.expires_in, 300);
    assert!(!t.is_expired(Duration::from_secs(60)));
}

#[test]
fn expired_at_is_exact() {
    let t = token(Some(Instant::now()));
    assert!(!t.expired_at(239_999_999_999, 60_000_000_000));
    assert!(t.expired_at(240_000_000_000, 60_000_000_000));
    let never_issued = token(None);
    assert!(never_issued.expired_at(0, 0));
}

#[test]
fn cache_answer_after_elapsed_time() {
    let mut state = TokenState::new();
    assert_eq!(state.answer_after(0), None);
    let mut t = token(Some(Instant::now()));
    t.access_token = "cached".to_string();
    state.store(t);
    // 300 s lifetime, 60 s margin: served until 240 s have passed.
    assert_eq!(state.answer_after(0), Some("cached".to_string()));
    assert_eq!(state.answer_after(239_999_999_999), Some("cached".to_string()));
    assert_eq!(state.answer_after(240_000_000_000), None);
    assert_eq!(state.answer_after(u128::MAX), None);
    state.store(token(None));
    assert_eq!(state.answer_after(0), None);
}
