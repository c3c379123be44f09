//! OAuth2 tokens: expiry, caching, the form of a token request, revocation.

use crate::error::ConcurError;
use crate::text::{
    opt_pair, opt_pair_holds_its_value, pairs_view, present, push_opt, push_pair, trim_end_char,
    trim_end_char_str,
};
use crate::time::{as_nanos, elapsed, from_secs, nanos_of, now};
use std::time::{Duration, Instant};
use vstd::prelude::*;
use vstd::string::*;

verus! {

/// OAuth2 token response from SAP Concur.
#[derive(Debug, Clone)]
pub struct Token {
    pub access_token: String,
    pub token_type: String,
    pub expires_in: u64,
    pub refresh_token: Option<String>,
    pub scope: Option<String>,
    pub geolocation: Option<String>,
    pub id_token: Option<String>,
    /// When the token was obtained; not part of the response body.
    pub obtained_at: Option<Instant>,
}

/// A token that lives `expires_in` seconds, `elapsed` nanoseconds after it was obtained,
/// is expired or about to expire within a margin of `buffer` nanoseconds.
pub open spec fn expiry_reached(elapsed: nat, buffer: nat, expires_in: nat) -> bool {
    elapsed + buffer >= expires_in * 1_000_000_000
}

/// Whether a token that lives `expires_in` seconds has expired, or will within the
/// margin, `elapsed_nanos` nanoseconds after it was obtained.
pub fn expired_after(elapsed_nanos: u128, buffer_nanos: u128, expires_in: u64) -> (r: bool)
    ensures
        r == expiry_reached(elapsed_nanos as nat, buffer_nanos as nat, expires_in as nat),
{
    let lifetime: u128 = (expires_in as u128) * 1_000_000_000;
    elapsed_nanos >= lifetime || buffer_nanos >= lifetime - elapsed_nanos
}

/// A longer wait or a wider margin never turns an expired token back into a valid one.
pub proof fn expiry_is_monotone(e1: nat, e2: nat, b1: nat, b2: nat, expires_in: nat)
    requires
        e1 <= e2,
        b1 <= b2,
        expiry_reached(e1, b1, expires_in),
    ensures
        expiry_reached(e2, b2, expires_in),
{
}

/// Whether `t` is expired, or will be within a margin of `buffer` nanoseconds, `elapsed`
/// nanoseconds after it was obtained; a token with no time of issue always is.
pub open spec fn token_expired(t: Token, elapsed: nat, buffer: nat) -> bool {
    t.obtained_at is None || expiry_reached(elapsed, buffer, t.expires_in as nat)
}

impl Token {
    /// The token as just obtained: the same fields, with the current time as the time it
    /// was obtained.
    pub fn obtained_now(self) -> (r: Token)
        ensures
            r.obtained_at is Some,
            r.access_token == self.access_token,
            r.token_type == self.token_type,
            r.expires_in == self.expires_in,
            r.refresh_token == self.refresh_token,
            r.scope == self.scope,
            r.geolocation == self.geolocation,
            r.id_token == self.id_token,
    {
        Token { obtained_at: Some(now()), ..self }
    }

    /// Whether the token is expired, or will be within `buffer_nanos` nanoseconds,
    /// `elapsed_nanos` nanoseconds after it was obtained. A token with no time of issue
    /// counts as expired.
    pub fn expired_at(&self, elapsed_nanos: u128, buffer_nanos: u128) -> (r: bool)
        ensures
            r == token_expired(*self, elapsed_nanos as nat, buffer_nanos as nat),
    {
        match &self.obtained_at {
            Some(_) => expired_after(elapsed_nanos, buffer_nanos, self.expires_in),
            None => true,
        }
    }

    /// Returns true if the access token is expired or about to expire within the buffer.
    /// A token with no time of issue counts as expired. The answer depends on the clock:
    /// it is `expired_at` for the time that has passed since the token was obtained,
    /// read once.
    pub fn is_expired(&self, buffer: Duration) -> (r: bool)
        ensures
            self.obtained_at is None ==> r,
            nanos_of(buffer) >= self.expires_in * 1_000_000_000 ==> r,
            self.obtained_at is Some ==> exists|d: Duration|
                r == (#[trigger] nanos_of(d) + nanos_of(buffer) >= self.expires_in * 1_000_000_000),
    {
        match &self.obtained_at {
            Some(t) => {
                let d = elapsed(t);
                let e = as_nanos(d);
                let r = self.expired_at(e, as_nanos(buffer));
                assert(r == (nanos_of(d) + nanos_of(buffer) >= self.expires_in * 1_000_000_000));
                r
            },
            None => true,
        }
    }
}

/// Static token manager that always returns the same token.
pub struct StaticToken {
    token: String,
}

impl View for StaticToken {
    type V = Seq<char>;

    closed spec fn view(&self) -> Seq<char> {
        self.token@
    }
}

impl StaticToken {
    pub fn new(token: &str) -> (r: Self)
        ensures
            r@ == token@,
    {
        StaticToken { token: String::from_str(token) }
    }

    /// The token it was made with, every time.
    pub fn access_token(&self) -> (r: String)
        ensures
            r@ == self@,
    {
        self.token.clone()
    }
}

/// An OAuth2 grant.
#[derive(Debug, Clone)]
pub enum Grant {
    /// Client credentials grant (company / application token).
    ClientCredentials { scope: Option<String> },
    /// Password grant.
    Password { username: String, password: String, credtype: Option<String>, scope: Option<String> },
    /// Refresh token grant.
    RefreshToken { refresh_token: String, scope: Option<String> },
}

/// The form fields that a grant adds after the client's credentials, in order.
pub open spec fn grant_fields(g: Grant) -> Seq<(Seq<char>, Seq<char>)> {
    match g {
        Grant::ClientCredentials { scope } => seq![("grant_type"@, "client_credentials"@)]
            + opt_pair("scope"@, scope),
        Grant::Password { username, password, credtype, scope } => seq![
            ("grant_type"@, "password"@),
            ("username"@, username@),
            ("password"@, password@),
        ] + opt_pair("credtype"@, credtype) + opt_pair("scope"@, scope),
        Grant::RefreshToken { refresh_token, scope } => seq![
            ("grant_type"@, "refresh_token"@),
            ("refresh_token"@, refresh_token@),
        ] + opt_pair("scope"@, scope),
    }
}

/// The whole form of a token request, in order.
pub open spec fn token_form(
    client_id: Seq<char>,
    client_secret: Seq<char>,
    g: Grant,
) -> Seq<(Seq<char>, Seq<char>)> {
    seq![("client_id"@, client_id), ("client_secret"@, client_secret)] + grant_fields(g)
}

/// What a token request sends: the client id and secret first, then the grant type of
/// the grant, then the grant's own fields (the user name and password of a password grant,
/// the refresh token of a refresh grant), the credential type of a password grant when it
/// is set, and the requested scope, when set, last. Nothing else is sent.
pub proof fn token_form_carries_every_field(client_id: Seq<char>, client_secret: Seq<char>, g: Grant)
    ensures
        ({
            let f = token_form(client_id, client_secret, g);
            &&& f[0] == ("client_id"@, client_id)
            &&& f[1] == ("client_secret"@, client_secret)
            &&& g matches Grant::ClientCredentials { scope } ==> {
                &&& f[2] == ("grant_type"@, "client_credentials"@)
                &&& f.len() == 3 + present(scope)
                &&& scope matches Some(s) ==> f.last() == ("scope"@, s@)
            }
            &&& g matches Grant::Password { username, password, credtype, scope } ==> {
                &&& f[2] == ("grant_type"@, "password"@)
                &&& f[3] == ("username"@, username@)
                &&& f[4] == ("password"@, password@)
                &&& f.len() == 5 + present(credtype) + present(scope)
                &&& credtype matches Some(c) ==> f[5] == ("credtype"@, c@)
                &&& scope matches Some(s) ==> f.last() == ("scope"@, s@)
            }
            &&& g matches Grant::RefreshToken { refresh_token, scope } ==> {
                &&& f[2] == ("grant_type"@, "refresh_token"@)
                &&& f[3] == ("refresh_token"@, refresh_token@)
                &&& f.len() == 4 + present(scope)
                &&& scope matches Some(s) ==> f.last() == ("scope"@, s@)
            }
        }),
{
    match g {
        Grant::ClientCredentials { scope } => {
            opt_pair_holds_its_value("scope"@, scope);
        },
        Grant::Password { username, password, credtype, scope } => {
            opt_pair_holds_its_value("credtype"@, credtype);
            opt_pair_holds_its_value("scope"@, scope);
        },
        Grant::RefreshToken { refresh_token, scope } => {
            opt_pair_holds_its_value("scope"@, scope);
        },
    }
}

/// The `application/x-www-form-urlencoded` fields of a token request: the client's
/// credentials, then the grant type and the grant's own fields, optional ones only when
/// present.
pub fn token_form_params(client_id: &str, client_secret: &str, grant: &Grant) -> (r: Vec<
    (String, String),
>)
    ensures
        pairs_view(r@) == token_form(client_id@, client_secret@, *grant),
{
    let mut params: Vec<(String, String)> = Vec::new();
    push_pair(&mut params, "client_id", String::from_str(client_id));
    push_pair(&mut params, "client_secret", String::from_str(client_secret));
    let ghost base = pairs_view(params@);
    assert(base =~= seq![("client_id"@, client_id@), ("client_secret"@, client_secret@)]);
    match grant {
        Grant::ClientCredentials { scope } => {
            push_pair(&mut params, "grant_type", String::from_str("client_credentials"));
            push_opt(&mut params, "scope", scope);
        },
        Grant::Password { username, password, credtype, scope } => {
            push_pair(&mut params, "grant_type", String::from_str("password"));
            push_pair(&mut params, "username", username.clone());
            push_pair(&mut params, "password", password.clone());
            push_opt(&mut params, "credtype", credtype);
            push_opt(&mut params, "scope", scope);
        },
        Grant::RefreshToken { refresh_token, scope } => {
            push_pair(&mut params, "grant_type", String::from_str("refresh_token"));
            push_pair(&mut params, "refresh_token", refresh_token.clone());
            push_opt(&mut params, "scope", scope);
        },
    }
    assert(pairs_view(params@) =~= token_form(client_id@, client_secret@, *grant));
    params
}

/// How long before expiry a cached token is refreshed, in seconds.
pub const REFRESH_MARGIN_SECS: u64 = 60;

/// An optional text.
pub open spec fn opt_text(o: Option<String>) -> Option<Seq<char>> {
    match o {
        Some(s) => Some(s@),
        None => None,
    }
}

/// What the cache answers when it holds `token` and `elapsed` nanoseconds have passed
/// since the token was obtained: the held access token, unless there is no token, it has
/// no time of issue, or it is within `REFRESH_MARGIN_SECS` of expiring.
pub open spec fn cache_answer_at(token: Option<Token>, elapsed: nat) -> Option<Seq<char>> {
    match token {
        None => None,
        Some(t) => if token_expired(t, elapsed, REFRESH_MARGIN_SECS as nat * 1_000_000_000) {
            None
        } else {
            Some(t.access_token@)
        },
    }
}

/// What is read back after a write: a stored token is served again while it is more than
/// `REFRESH_MARGIN_SECS` (60 s) from expiring, and never once it is within that margin; once the
/// cache asks for a new token, it keeps asking as time passes.
pub proof fn cache_serves_stored_token_until_margin(t: Token, e1: nat, e2: nat)
    requires
        t.obtained_at is Some,
    ensures
        e1 + 60_000_000_000 < t.expires_in * 1_000_000_000 ==> cache_answer_at(
            Some(t),
            e1,
        ) == Some(t.access_token@),
        e1 + 60_000_000_000 >= t.expires_in * 1_000_000_000
            ==> cache_answer_at(Some(t), e1) is None,
        e1 <= e2 && cache_answer_at(Some(t), e1) is None ==> cache_answer_at(Some(t), e2) is None,
        cache_answer_at(None, e1) is None,
{
}

/// The token a token manager holds between requests.
pub struct TokenState {
    pub token: Option<Token>,
}

impl TokenState {
    /// No token yet.
    pub fn new() -> (r: Self)
        ensures
            r.token is None,
    {
        TokenState { token: None }
    }

    /// The answer of the cache `elapsed_nanos` nanoseconds after the held token was
    /// obtained: its access token, or `None` when a new token must be fetched.
    pub fn answer_after(&self, elapsed_nanos: u128) -> (r: Option<String>)
        ensures
            opt_text(r) == cache_answer_at(self.token, elapsed_nanos as nat),
    {
        match &self.token {
            Some(token) => {
                if token.expired_at(elapsed_nanos, as_nanos(from_secs(REFRESH_MARGIN_SECS))) {
                    None
                } else {
                    Some(token.access_token.clone())
                }
            },
            None => None,
        }
    }

    /// The cached access token when there is one that is not expired and will not expire
    /// within `REFRESH_MARGIN_SECS`; `None` when a new token must be fetched. It reads the
    /// clock once, the `Duration` passed since the token was obtained, and answers as
    /// `answer_after` does for the whole length of that duration: a token is served only
    /// while that length plus the margin is below its lifetime.
    pub fn valid_access_token(&self) -> (r: Option<String>)
        ensures
            self.token is None ==> r is None,
            self.token matches Some(t) && t.obtained_at is None ==> r is None,
            self.token matches Some(t) && t.expires_in <= 60 ==> r is None,
            r matches Some(a) ==> self.token matches Some(t) && a@ == t.access_token@,
            self.token matches Some(t) && t.obtained_at is Some ==> exists|d: Duration|
                opt_text(r) == cache_answer_at(self.token, #[trigger] nanos_of(d) as nat),
            r is Some ==> (self.token matches Some(t) && exists|d: Duration|
                #[trigger] nanos_of(d) + 60_000_000_000 < t.expires_in
                    * 1_000_000_000),
    {
        match &self.token {
            Some(token) => match &token.obtained_at {
                Some(issued) => {
                    let d = elapsed(issued);
                    let e = as_nanos(d);
                    let r = self.answer_after(e);
                    proof {
                        cache_serves_stored_token_until_margin(*token, nanos_of(d) as nat, nanos_of(d) as nat);
                        assert(opt_text(r) == cache_answer_at(self.token, nanos_of(d) as nat));
                    }
                    r
                },
                None => None,
            },
            None => None,
        }
    }

    /// Keeps a freshly fetched token and returns its access token.
    pub fn store(&mut self, token: Token) -> (r: String)
        ensures
            final(self).token == Some(token),
            r@ == token.access_token@,
    {
        let access = token.access_token.clone();
        self.token = Some(token);
        access
    }
}

/// The error for a token request that the server refused, with the body it sent.
pub fn token_request_failed(body: &str) -> (r: ConcurError)
    ensures
        r matches ConcurError::Auth(m) && m@ == "Token request failed: "@ + body@,
{
    let mut m = String::from_str("Token request failed: ");
    m.append(body);
    ConcurError::Auth(m)
}

/// The endpoint that revokes all refresh tokens: `base_url` without trailing slashes,
/// then `/app-mgmt/v0/connections`.
pub fn revoke_url(base_url: &str) -> (r: String)
    ensures
        r@ == trim_end_char(base_url@, '/') + "/app-mgmt/v0/connections"@,
{
    let mut url = String::from_str(trim_end_char_str(base_url, '/'));
    url.append("/app-mgmt/v0/connections");
    url
}

/// The error for a revocation that the server refused, with the body it sent.
pub fn revoke_failed(body: &str) -> (r: ConcurError)
    ensures
        r matches ConcurError::Auth(m) && m@ == "Revoke failed: "@ + body@,
{
    let mut m = String::from_str("Revoke failed: ");
    m.append(body);
    ConcurError::Auth(m)
}

} // verus!
