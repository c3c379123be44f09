//! Errors of the client, and the standard error body of the SAP Concur APIs.

use vstd::prelude::*;
use vstd::string::*;

verus! {

/// `reqwest::Error`, a transport error, carried through as an opaque value.
#[verifier::external_type_specification]
#[verifier::external_body]
pub struct ExReqwestError(reqwest::Error);

/// `serde_json::Error`, a JSON error, carried through as an opaque value.
#[verifier::external_type_specification]
#[verifier::external_body]
pub struct ExJsonError(serde_json::Error);

/// `url::ParseError`, a URL parsing error, carried through as an opaque value.
#[verifier::external_type_specification]
#[verifier::external_body]
pub struct ExUrlParseError(url::ParseError);

/// Errors returned by the SAP Concur API client.
#[derive(Debug)]
pub enum ConcurError {
    /// HTTP transport error.
    Http(reqwest::Error),
    /// JSON serialization / deserialization error.
    Json(serde_json::Error),
    /// URL parsing error.
    Url(url::ParseError),
    /// An error returned by the SAP Concur API, with its HTTP status code (100 to 999).
    Api { status: u16, message: String, correlation_id: Option<String> },
    /// Authentication error.
    Auth(String),
    /// Retry budget exhausted.
    RetryExhausted { attempts: u32 },
    /// A required field or parameter was missing.
    MissingParameter(String),
    /// Generic error message.
    Other(String),
}

/// `e` with its correlation id set to `id` when it is an API error, else `e` itself.
pub open spec fn spec_with_correlation_id(e: ConcurError, id: String) -> ConcurError {
    match e {
        ConcurError::Api { status, message, correlation_id: _ } => ConcurError::Api {
            status,
            message,
            correlation_id: Some(id),
        },
        other => other,
    }
}

impl ConcurError {
    /// An API error with the given HTTP status code and message and no correlation id.
    pub fn api(status: u16, message: String) -> (r: Self)
        requires
            100 <= status <= 999,
        ensures
            r == (ConcurError::Api { status, message, correlation_id: None }),
    {
        ConcurError::Api { status, message, correlation_id: None }
    }

    /// The error for a request that cannot be sent again by a retry, because its body
    /// cannot be cloned.
    pub fn request_not_clonable() -> (r: Self)
        ensures
            r matches ConcurError::Other(m) && m@ == "Request body cannot be cloned for retry"@,
    {
        ConcurError::Other(String::from_str("Request body cannot be cloned for retry"))
    }

    /// Attaches a correlation id; only API errors carry one, other errors come back unchanged.
    pub fn with_correlation_id(self, id: String) -> (r: Self)
        ensures
            r == spec_with_correlation_id(self, id),
    {
        match self {
            ConcurError::Api { status, message, correlation_id: _ } => ConcurError::Api {
                status,
                message,
                correlation_id: Some(id),
            },
            other => other,
        }
    }
}

/// Standard SAP Concur error response body.
#[derive(Debug, Clone)]
pub struct ConcurApiError {
    pub error: Option<String>,
    pub error_description: Option<String>,
    pub code: Option<i32>,
    pub timestamp: Option<String>,
    pub error_message: Option<String>,
    pub error_id: Option<String>,
    pub path: Option<String>,
}

/// The text that describes an error body: its `error_message`, else its
/// `error_description`, else its `error`; `None` when all three are absent.
pub open spec fn api_error_text(e: ConcurApiError) -> Option<Seq<char>> {
    if e.error_message is Some {
        Some(e.error_message->0@)
    } else if e.error_description is Some {
        Some(e.error_description->0@)
    } else if e.error is Some {
        Some(e.error->0@)
    } else {
        None
    }
}

/// The `Debug` rendering of an error body, the text that `format!("{:?}", e)` writes
/// through the derived `Debug` impl. It depends on the value alone; what its characters
/// are is left to that derived impl.
pub uninterp spec fn debug_rendering(e: ConcurApiError) -> Seq<char>;

/// `format!("{:?}", e)` over the derived `Debug` impl of the error body: its result is
/// the `debug_rendering` of `e`, and nothing more is claimed of its text.
#[verifier::external_body]
fn debug_text(e: &ConcurApiError) -> (r: String)
    ensures
        r@ == debug_rendering(*e),
{
    format!("{:?}", e)
}

impl ConcurApiError {
    /// The human-readable message of the error body: the first present of
    /// `error_message`, `error_description` and `error`; when none is present,
    /// the `Debug` rendering of the whole body.
    pub fn message(&self) -> (r: String)
        ensures
            api_error_text(*self) matches Some(t) ==> r@ == t,
            api_error_text(*self) is None ==> r@ == debug_rendering(*self),
    {
        if let Some(msg) = &self.error_message {
            msg.clone()
        } else if let Some(desc) = &self.error_description {
            desc.clone()
        } else if let Some(err) = &self.error {
            err.clone()
        } else {
            debug_text(self)
        }
    }
}

/// Which text describes an error body: an `error_message` always wins; an
/// `error_description` wins when there is no message; an `error` is used only when both
/// are absent; and a body without any of the three has no text.
pub proof fn error_text_precedence(e: ConcurApiError, t: String)
    ensures
        api_error_text(ConcurApiError { error_message: Some(t), ..e }) == Some(t@),
        e.error_message is None ==> api_error_text(
            ConcurApiError { error_description: Some(t), ..e },
        ) == Some(t@),
        e.error_message is None && e.error_description is None ==> api_error_text(
            ConcurApiError { error: Some(t), ..e },
        ) == Some(t@),
        api_error_text(e) is None <==> (e.error_message is None && e.error_description is None
            && e.error is None),
{
}

/// Setting a correlation id twice keeps only the second one, and an error that is not an
/// API error never gains one.
pub proof fn correlation_id_last_wins(e: ConcurError, first: String, second: String)
    ensures
        spec_with_correlation_id(spec_with_correlation_id(e, first), second)
            == spec_with_correlation_id(e, second),
        !(e is Api) ==> spec_with_correlation_id(e, first) == e,
{
}

} // verus!
