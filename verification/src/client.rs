//! Client configuration, request headers, the retry policy, and error responses.

use crate::error::{api_error_text, debug_rendering, ConcurApiError, ConcurError};
use crate::text::{opt_pair, opt_pair_holds_its_value, pairs_view, present, push_opt, push_pair};
use vstd::seq_lib::lemma_seq_concat_contains_all_elements;
use crate::time::{from_millis, from_secs, max_duration_nanos, nanos_of, times};
use std::time::Duration;
use url::Url;
use vstd::arithmetic::power2::pow2;
use vstd::prelude::*;
use vstd::string::*;

verus! {

/// Default HTTP timeout for API calls, in seconds.
pub const DEFAULT_TIMEOUT_SECS: u64 = 60;

/// Default initial retry backoff, in milliseconds.
pub const DEFAULT_RETRY_BACKOFF_MILLIS: u64 = 500;

/// Default number of retries for transient failures.
pub const DEFAULT_MAX_RETRIES: u32 = 3;

/// Configuration for the SAP Concur client.
#[derive(Debug, Clone)]
pub struct ClientConfig {
    /// Base URL for the data center (e.g. `https://us.api.concursolutions.com`).
    pub base_url: String,
    /// HTTP request timeout.
    pub timeout: Duration,
    /// Maximum number of retries for transient failures.
    pub max_retries: u32,
    /// Initial retry backoff.
    pub retry_backoff: Duration,
    /// Optional idempotency key, sent as the `idempotency-key` header of every request
    /// (a write sent again by a retry carries the same key).
    pub idempotency_key: Option<String>,
    /// Default `Accept-Language` header value.
    pub accept_language: Option<String>,
}

impl Default for ClientConfig {
    /// The US data center, a 60 s timeout, 3 retries starting at 500 ms, no idempotency
    /// key and no `Accept-Language`.
    fn default() -> (r: Self)
        ensures
            r.base_url@ == "https://us.api.concursolutions.com"@,
            nanos_of(r.timeout) == 60_000_000_000,
            r.max_retries == 3,
            nanos_of(r.retry_backoff) == 500_000_000,
            r.idempotency_key is None,
            r.accept_language is None,
    {
        ClientConfig {
            base_url: String::from_str("https://us.api.concursolutions.com"),
            timeout: from_secs(DEFAULT_TIMEOUT_SECS),
            max_retries: DEFAULT_MAX_RETRIES,
            retry_backoff: from_millis(DEFAULT_RETRY_BACKOFF_MILLIS),
            idempotency_key: None,
            accept_language: None,
        }
    }
}

/// What `url::Url::join` gives for `path` resolved against the base URL `base` (the base
/// read with `url::Url::parse`): the text of the resolved URL, or `None` when the base or
/// the path does not parse.
pub uninterp spec fn url_join(base: Seq<char>, path: Seq<char>) -> Option<Seq<char>>;

/// `url::Url::join`, with its base read from text by `url::Url::parse` and its result
/// rendered as text (`String::from(Url)`, the URL's serialization). The result depends
/// on the two texts alone, which the name `url_join` stands for; the rules are those of
/// the WHATWG URL standard and are left unsaid.
#[verifier::external_body]
fn join_url(base: &str, path: &str) -> (r: Result<String, url::ParseError>)
    ensures
        match r {
            Ok(href) => url_join(base@, path@) == Some(href@),
            Err(_) => url_join(base@, path@) is None,
        },
{
    Url::parse(base).and_then(|b| b.join(path)).map(String::from)
}

/// The URL of an endpoint, as text: `path` resolved against the configured base URL. A
/// base URL that does not parse, or a path that does not resolve, gives a URL error.
pub fn endpoint_url(base_url: &str, path: &str) -> (r: Result<String, ConcurError>)
    ensures
        match r {
            Ok(href) => url_join(base_url@, path@) == Some(href@),
            Err(e) => url_join(base_url@, path@) is None && e is Url,
        },
{
    match join_url(base_url, path) {
        Ok(href) => Ok(href),
        Err(e) => Err(ConcurError::Url(e)),
    }
}

/// HTTP statuses that are transient and worth retrying: 408 (request timeout), 429 (too
/// many requests) and every 5xx server error.
pub open spec fn retryable_status(status: u16) -> bool {
    status == 408 || status == 429 || (500 <= status && status <= 599)
}

/// Whether a response with this HTTP status may succeed when sent again: a request
/// timeout, a rate limit, or any server error.
pub fn is_retryable(status: u16) -> (r: bool)
    ensures
        r == retryable_status(status),
{
    status == 408 || status == 429 || (500 <= status && status <= 599)
}

/// A successful HTTP status: 200 to 299.
pub open spec fn success_status(status: u16) -> bool {
    200 <= status <= 299
}

/// Whether the HTTP status is a success (2xx).
pub fn is_success(status: u16) -> (r: bool)
    ensures
        r == success_status(status),
{
    200 <= status && status <= 299
}

/// Whether the response is `204 No Content`, which has no body to read.
pub fn is_no_content(status: u16) -> (r: bool)
    ensures
        r == (status == 204),
{
    status == 204
}

/// What to do after a response arrives.
pub enum RetryStep {
    /// Hand the response to the caller.
    Return,
    /// Stop and turn the response into an error.
    Fail,
    /// Sleep this long, then send the request again.
    Wait(Duration),
}

/// The kind of step, without the duration of a wait.
pub enum RetryKind {
    Return,
    Fail,
    Wait,
}

/// The retry policy: a success is returned; a failure is final when the retry budget
/// (`max_retries` retries, so `max_retries + 1` attempts) is spent or the status is not
/// retryable; otherwise the request is sent again after a wait.
pub open spec fn retry_kind(max_retries: u32, attempts: u32, status: u16) -> RetryKind {
    if success_status(status) {
        RetryKind::Return
    } else if attempts > max_retries || !retryable_status(status) {
        RetryKind::Fail
    } else {
        RetryKind::Wait
    }
}

/// The state of the retry loop of one request.
pub struct RetryState {
    /// Attempts made so far.
    pub attempts: u32,
    /// The wait before the next retry.
    pub backoff: Duration,
}

impl RetryState {
    /// Before the first attempt: no attempt made, the configured initial backoff.
    pub fn new(config: &ClientConfig) -> (r: Self)
        ensures
            r.attempts == 0,
            r.backoff == config.retry_backoff,
    {
        RetryState { attempts: 0, backoff: config.retry_backoff }
    }

    /// Counts one more attempt.
    pub fn begin_attempt(&mut self)
        requires
            old(self).attempts < u32::MAX,
        ensures
            final(self).attempts == old(self).attempts + 1,
            final(self).backoff == old(self).backoff,
    {
        self.attempts = self.attempts + 1;
    }

    /// The step after a response with this status to the latest attempt; a wait lasts
    /// the current backoff.
    pub fn on_response(&self, max_retries: u32, status: u16) -> (r: RetryStep)
        ensures
            match retry_kind(max_retries, self.attempts, status) {
                RetryKind::Return => r is Return,
                RetryKind::Fail => r is Fail,
                RetryKind::Wait => r matches RetryStep::Wait(d) && d == self.backoff,
            },
    {
        if is_success(status) {
            RetryStep::Return
        } else if self.attempts > max_retries || !is_retryable(status) {
            RetryStep::Fail
        } else {
            RetryStep::Wait(self.backoff)
        }
    }

    /// After a wait the backoff doubles. std panics when the doubled duration does not
    /// fit in a `Duration`; the precondition leaves that out.
    pub fn after_wait(&mut self)
        requires
            nanos_of(old(self).backoff) * 2 <= max_duration_nanos(),
        ensures
            final(self).attempts == old(self).attempts,
            nanos_of(final(self).backoff) == nanos_of(old(self).backoff) * 2,
    {
        self.backoff = times(self.backoff, 2);
    }
}

/// The schedule of the retry loop while it runs: at least one attempt made, no more than
/// `max_retries + 1`, and a backoff of `initial * 2^(attempts - 1)` nanoseconds.
pub open spec fn on_schedule(max_retries: nat, initial: nat, attempts: nat, backoff: nat) -> bool {
    &&& 1 <= attempts <= max_retries + 1
    &&& backoff == initial * pow2((attempts - 1) as nat)
}

/// The first attempt is on schedule.
pub proof fn retry_schedule_starts(max_retries: nat, initial: nat)
    ensures
        on_schedule(max_retries, initial, 1, initial),
{
    vstd::arithmetic::power2::lemma2_to64();
    assert(pow2(0) == 1);
    assert(initial * 1 == initial);
}

/// A wait happens only while the budget lasts, so the attempt that follows it is on
/// schedule again: attempts never exceed `max_retries + 1`, and the k-th retry waits
/// `initial * 2^(k-1)`.
pub proof fn retry_schedule_continues(
    max_retries: u32,
    initial: nat,
    attempts: u32,
    backoff: nat,
    status: u16,
)
    requires
        on_schedule(max_retries as nat, initial, attempts as nat, backoff),
        retry_kind(max_retries, attempts, status) is Wait,
    ensures
        attempts < max_retries + 1,
        on_schedule(max_retries as nat, initial, attempts as nat + 1, backoff * 2),
{
    let k = (attempts - 1) as nat;
    vstd::arithmetic::power2::lemma_pow2_unfold(k + 1);
    assert(pow2(k + 1) == 2 * pow2(k));
    vstd::arithmetic::mul::lemma_mul_is_associative(initial as int, pow2(k) as int, 2);
    vstd::arithmetic::mul::lemma_mul_is_commutative(pow2(k) as int, 2);
    assert(((attempts as nat + 1) - 1) as nat == k + 1);
}

/// A success is handed back whatever the attempt, and a status that is not retryable
/// ends the loop at once, even on the first attempt.
pub proof fn retry_never_repeats_success_or_permanent_failure(
    max_retries: u32,
    attempts: u32,
    status: u16,
)
    ensures
        success_status(status) ==> retry_kind(max_retries, attempts, status) is Return,
        !success_status(status) && !retryable_status(status) ==> retry_kind(
            max_retries,
            attempts,
            status,
        ) is Fail,
{
}

/// A request that ends in a request timeout (408), a rate limit (429) or any server error
/// (5xx) is sent again, after the current backoff, as long as no more than `max_retries`
/// retries have been spent; once they are, every failure is final. A success is always
/// handed back, and any other failure is final at once.
pub proof fn transient_failures_are_retried_while_budget_lasts(
    max_retries: u32,
    attempts: u32,
    status: u16,
)
    ensures
        (status == 408 || status == 429 || (500 <= status && status <= 599)) && attempts
            <= max_retries ==> retry_kind(max_retries, attempts, status) is Wait,
        !(200 <= status && status <= 299) && attempts > max_retries ==> retry_kind(
            max_retries,
            attempts,
            status,
        ) is Fail,
        200 <= status && status <= 299 ==> retry_kind(max_retries, attempts, status) is Return,
        !(200 <= status && status <= 299) && status != 408 && status != 429 && !(500 <= status
            && status <= 599) ==> retry_kind(max_retries, attempts, status) is Fail,
{
}

/// A lower-case hexadecimal digit.
pub open spec fn is_lower_hex(c: char) -> bool {
    ('0' <= c && c <= '9') || ('a' <= c && c <= 'f')
}

/// The hyphenated lower-case text of a random (version 4, RFC 4122 variant) UUID.
pub open spec fn is_uuid_v4_text(s: Seq<char>) -> bool {
    &&& s.len() == 36
    &&& forall|i: int|
        0 <= i < 36 ==> if i == 8 || i == 13 || i == 18 || i == 23 {
            #[trigger] s[i] == '-'
        } else {
            is_lower_hex(s[i])
        }
    &&& s[14] == '4'
    &&& (s[19] == '8' || s[19] == '9' || s[19] == 'a' || s[19] == 'b')
}

/// `uuid::Uuid::new_v4` rendered with `to_string`: a random UUID, version 4 with the
/// RFC 4122 variant, in its hyphenated lower-case form. Which UUID is left unsaid.
#[verifier::external_body]
pub fn new_correlation_id() -> (r: String)
    ensures
        is_uuid_v4_text(r@),
{
    uuid::Uuid::new_v4().to_string()
}

/// The value of an `authorization` header for a bearer token: `Bearer <token>`.
pub fn bearer_value(token: &str) -> (r: String)
    ensures
        r@ == "Bearer "@ + token@,
{
    let mut value = String::from_str("Bearer ");
    value.append(token);
    value
}

/// The HTTP method of a request, as far as the headers depend on it.
#[derive(Debug, Clone, Copy, PartialEq, Eq, Structural)]
pub enum HttpMethod {
    Get,
    Post,
    Put,
    Patch,
    Delete,
    /// Any other method (`HEAD`, `OPTIONS`, ...).
    Other,
}

/// Whether a request with method `m` is a write operation: `POST`, `PUT`, `PATCH` or
/// `DELETE`.
pub open spec fn method_is_write(m: HttpMethod) -> bool {
    m is Post || m is Put || m is Patch || m is Delete
}

impl HttpMethod {
    /// Whether a request with this method is a write operation.
    pub fn is_write(&self) -> (r: bool)
        ensures
            r == method_is_write(*self),
    {
        match self {
            HttpMethod::Post | HttpMethod::Put | HttpMethod::Patch | HttpMethod::Delete => true,
            _ => false,
        }
    }
}

/// The headers of an authenticated request, in order: `accept: application/json`, the
/// correlation id, `accept-language` when configured, `idempotency-key` when a key is
/// configured and the request is a write (so that the server can recognise a write sent
/// again by a retry), and `authorization: Bearer <token>` when there is a token.
pub open spec fn request_header_list(
    correlation_id: Seq<char>,
    method: HttpMethod,
    accept_language: Option<String>,
    idempotency_key: Option<String>,
    token: Option<String>,
) -> Seq<(Seq<char>, Seq<char>)> {
    seq![("accept"@, "application/json"@), ("concur-correlationid"@, correlation_id)]
        + opt_pair("accept-language"@, accept_language) + (if method_is_write(method) {
        opt_pair("idempotency-key"@, idempotency_key)
    } else {
        seq![]
    }) + match token {
        Some(t) => seq![("authorization"@, "Bearer "@ + t@)],
        None => seq![],
    }
}

/// What every request carries, whatever its method: `accept: application/json` first,
/// the correlation id second, the configured language third when set, and, when there is
/// a token, `authorization: Bearer <token>` last. The idempotency key is sent on
/// `POST`, `PUT`, `PATCH` and `DELETE` when one is configured, never on other methods;
/// without a key the headers do not depend on the method at all. Nothing else is sent.
pub proof fn request_headers_law(
    correlation_id: Seq<char>,
    method: HttpMethod,
    other_method: HttpMethod,
    accept_language: Option<String>,
    idempotency_key: Option<String>,
    token: Option<String>,
)
    ensures
        ({
            let h = request_header_list(
                correlation_id,
                method,
                accept_language,
                idempotency_key,
                token,
            );
            let writes = method is Post || method is Put || method is Patch || method is Delete;
            &&& h.len() == 2 + present(accept_language) + (if writes {
                present(idempotency_key)
            } else {
                0
            }) + present(token)
            &&& h[0] == ("accept"@, "application/json"@)
            &&& h[1] == ("concur-correlationid"@, correlation_id)
            &&& accept_language matches Some(l) ==> h[2] == ("accept-language"@, l@)
            &&& token matches Some(t) ==> h.last() == ("authorization"@, "Bearer "@ + t@)
            &&& writes ==> (idempotency_key matches Some(k) ==> h.contains(
                ("idempotency-key"@, k@),
            ))
            &&& !writes ==> h == request_header_list(
                correlation_id,
                method,
                accept_language,
                None,
                token,
            )
        }),
        request_header_list(correlation_id, method, accept_language, None, token)
            == request_header_list(correlation_id, other_method, accept_language, None, token),
{
    broadcast use lemma_seq_concat_contains_all_elements;

    opt_pair_holds_its_value("accept-language"@, accept_language);
    opt_pair_holds_its_value("idempotency-key"@, idempotency_key);
    assert(opt_pair("idempotency-key"@, None) =~= Seq::<(Seq<char>, Seq<char>)>::empty());
    let h = request_header_list(correlation_id, method, accept_language, idempotency_key, token);
    let base = seq![("accept"@, "application/json"@), ("concur-correlationid"@, correlation_id)]
        + opt_pair("accept-language"@, accept_language);
    assert(h[0] == base[0]);
    assert(h[1] == base[1]);
    if accept_language is Some {
        assert(h[2] == base[2]);
    }
    assert(request_header_list(correlation_id, method, accept_language, None, token)
        =~= request_header_list(correlation_id, other_method, accept_language, None, token));
    if !method_is_write(method) {
        assert(h =~= request_header_list(correlation_id, method, accept_language, None, token));
    }
}

/// The headers of a request with the given correlation id and method.
pub fn headers_with_correlation_id(
    correlation_id: String,
    method: HttpMethod,
    accept_language: &Option<String>,
    idempotency_key: &Option<String>,
    token: &Option<String>,
) -> (r: Vec<(String, String)>)
    ensures
        pairs_view(r@) == request_header_list(
            correlation_id@,
            method,
            *accept_language,
            *idempotency_key,
            *token,
        ),
{
    let mut headers: Vec<(String, String)> = Vec::new();
    push_pair(&mut headers, "accept", String::from_str("application/json"));
    push_pair(&mut headers, "concur-correlationid", correlation_id);
    push_opt(&mut headers, "accept-language", accept_language);
    if method.is_write() {
        push_opt(&mut headers, "idempotency-key", idempotency_key);
    }
    match token {
        Some(t) => {
            push_pair(&mut headers, "authorization", bearer_value(t.as_str()));
        },
        None => {},
    }
    assert(pairs_view(headers@) =~= request_header_list(
        correlation_id@,
        method,
        *accept_language,
        *idempotency_key,
        *token,
    ));
    headers
}

/// The headers of a new request under `config` with method `method`, with a fresh random
/// correlation id: the configured `accept-language` when set, the configured idempotency
/// key when set and the request is a write, and the bearer token when there is one.
pub fn request_headers(config: &ClientConfig, method: HttpMethod, token: &Option<String>) -> (r: Vec<(String, String)>)
    ensures
        exists|id: Seq<char>|
            is_uuid_v4_text(id) && pairs_view(r@) == #[trigger] request_header_list(
                id,
                method,
                config.accept_language,
                config.idempotency_key,
                *token,
            ),
{
    let id = new_correlation_id();
    let ghost idv = id@;
    let r = headers_with_correlation_id(id, method, &config.accept_language, &config.idempotency_key, token);
    assert(pairs_view(r@) == request_header_list(
        idv,
        method,
        config.accept_language,
        config.idempotency_key,
        *token,
    ));
    r
}

/// The error for a response that failed for good. When its body could not be read, the
/// transport error; else an API error with the response's status and correlation id and,
/// as message, the message of the parsed error body (its text, or its `Debug` rendering
/// when it has none), else the raw body.
/// `parsed` is the body read as the standard error object, when it is one; `status` is
/// the response's HTTP status code.
pub fn error_from_response(
    status: u16,
    correlation_id: Option<String>,
    body: Result<String, reqwest::Error>,
    parsed: Option<ConcurApiError>,
) -> (r: ConcurError)
    requires
        100 <= status <= 999,
    ensures
        match body {
            Err(e) => r == ConcurError::Http(e),
            Ok(text) => r matches ConcurError::Api { status: s, message: m, correlation_id: c }
                && s == status && c == correlation_id && match parsed {
                None => m@ == text@,
                Some(p) => match api_error_text(p) {
                    Some(t) => m@ == t,
                    None => m@ == debug_rendering(p),
                },
            },
        },
{
    match body {
        Err(e) => {
            let id = match correlation_id {
                Some(c) => c,
                None => String::new(),
            };
            ConcurError::Http(e).with_correlation_id(id)
        },
        Ok(text) => {
            let message = match parsed {
                Some(p) => p.message(),
                None => text,
            };
            ConcurError::Api { status, message, correlation_id }
        },
    }
}

} // verus!
