//! Unified error taxonomy and the classification of transport outcomes.
//!
//! Every failure the library reports is exactly one [`Error`] value.  A
//! failed HTTP exchange is handed to [`classify_transport_failure`] as plain
//! values (status code, failure code, correlation id, retry hint), which
//! places it in the fixed table of categories and decides retryability.

use vstd::prelude::*;

verus! {

/// Structured HTTP error context.
#[derive(Debug, Clone, PartialEq, Eq)]
pub struct HttpError {
    /// HTTP status code.
    pub status: u16,
    /// Optional short message from upstream/client.
    pub message: Option<String>,
    /// Optional request identifier from upstream.
    pub request_id: Option<String>,
    /// Optional redacted response body snippet.
    pub body_snippet: Option<String>,
}

/// Structured transport error context.
#[derive(Debug, Clone, PartialEq, Eq)]
pub struct TransportError {
    /// Optional HTTP status code if available.
    pub status: Option<u16>,
    /// Optional short message from client/runtime.
    pub message: Option<String>,
    /// Optional request identifier from upstream.
    pub request_id: Option<String>,
    /// Optional redacted response body snippet.
    pub body_snippet: Option<String>,
    /// Optional retry-after hint from upstream, in milliseconds.
    pub retry_after_millis: Option<u64>,
    /// Whether the error is likely retryable.
    pub retryable: bool,
}

/// Stable high-level error category.
#[derive(Debug, Clone, Copy, PartialEq, Eq, Structural)]
#[non_exhaustive]
pub enum ErrorKind {
    /// Authentication and authorization errors.
    Auth,
    /// Resource not found.
    NotFound,
    /// Resource conflict or precondition conflict.
    Conflict,
    /// Request rate-limited.
    RateLimited,
    /// Vendor API business error (`errcode != 0`).
    Api,
    /// Transport-level client/network error.
    Transport,
    /// Serialization or deserialization error.
    Serialization,
    /// Timestamp generation failure.
    Timestamp,
    /// Signature generation failure.
    Signature,
    /// Invalid SDK configuration.
    InvalidConfig,
}

/// Unified SDK error type.
#[derive(Debug, Clone, PartialEq, Eq)]
#[non_exhaustive]
pub enum Error {
    /// API business error returned by the vendor.
    Api {
        /// Vendor error code.
        code: i64,
        /// Vendor error message.
        message: String,
        /// Optional request identifier.
        request_id: Option<String>,
        /// Optional redacted response body snippet.
        body_snippet: Option<String>,
    },
    /// Authentication/authorization HTTP error.
    Auth(HttpError),
    /// Not-found HTTP error.
    NotFound(HttpError),
    /// Conflict HTTP error.
    Conflict(HttpError),
    /// Rate limit error with optional retry hint.
    RateLimited {
        /// Underlying HTTP error.
        error: HttpError,
        /// Retry-after hint in milliseconds, parsed from response headers.
        retry_after_millis: Option<u64>,
    },
    /// Transport error from the HTTP runtime/client.
    Transport(TransportError),
    /// JSON serialization/deserialization error.
    Serialization {
        /// Human-readable reason.
        message: String,
    },
    /// System timestamp retrieval error (clock before the epoch).
    Timestamp,
    /// Signature generation error.
    Signature,
    /// Invalid runtime configuration.
    InvalidConfig {
        /// Human-readable reason.
        message: String,
    },
}

/// SDK result type.
pub type Result<T> = core::result::Result<T, Error>;

impl Error {
    /// Returns a stable high-level error category.
    pub fn kind(&self) -> (k: ErrorKind)
        ensures
            k == self.spec_kind(),
    {
        match self {
            Self::Auth(_) => ErrorKind::Auth,
            Self::NotFound(_) => ErrorKind::NotFound,
            Self::Conflict(_) => ErrorKind::Conflict,
            Self::RateLimited { .. } => ErrorKind::RateLimited,
            Self::Api { .. } => ErrorKind::Api,
            Self::Transport(_) => ErrorKind::Transport,
            Self::Serialization { .. } => ErrorKind::Serialization,
            Self::Timestamp => ErrorKind::Timestamp,
            Self::Signature => ErrorKind::Signature,
            Self::InvalidConfig { .. } => ErrorKind::InvalidConfig,
        }
    }

    /// The category an error value belongs to; each value has exactly one.
    pub open spec fn spec_kind(&self) -> ErrorKind {
        match self {
            Self::Auth(_) => ErrorKind::Auth,
            Self::NotFound(_) => ErrorKind::NotFound,
            Self::Conflict(_) => ErrorKind::Conflict,
            Self::RateLimited { .. } => ErrorKind::RateLimited,
            Self::Api { .. } => ErrorKind::Api,
            Self::Transport(_) => ErrorKind::Transport,
            Self::Serialization { .. } => ErrorKind::Serialization,
            Self::Timestamp => ErrorKind::Timestamp,
            Self::Signature => ErrorKind::Signature,
            Self::InvalidConfig { .. } => ErrorKind::InvalidConfig,
        }
    }

    /// The HTTP status carried by an error value, when one applies.
    pub open spec fn spec_status(&self) -> Option<u16> {
        match self {
            Self::Auth(error) | Self::NotFound(error) | Self::Conflict(error) => Some(
                error.status,
            ),
            Self::RateLimited { error, .. } => Some(error.status),
            Self::Transport(error) => error.status,
            _ => None,
        }
    }

    /// Returns the HTTP status code when present.
    pub fn status(&self) -> (s: Option<u16>)
        ensures
            s == self.spec_status(),
    {
        match self {
            Self::Auth(error) | Self::NotFound(error) | Self::Conflict(error) => Some(
                error.status,
            ),
            Self::RateLimited { error, .. } => Some(error.status),
            Self::Transport(error) => error.status,
            _ => None,
        }
    }

    /// The request identifier carried by an error value, when one applies.
    pub open spec fn spec_request_id(&self) -> Option<Seq<char>> {
        match self {
            Self::Api { request_id, .. } => match request_id {
                Some(id) => Some(id@),
                None => None,
            },
            Self::Auth(error) | Self::NotFound(error) | Self::Conflict(error) => match &error
                .request_id {
                Some(id) => Some(id@),
                None => None,
            },
            Self::RateLimited { error, .. } => match &error.request_id {
                Some(id) => Some(id@),
                None => None,
            },
            Self::Transport(error) => match &error.request_id {
                Some(id) => Some(id@),
                None => None,
            },
            _ => None,
        }
    }

    /// Returns the vendor or transport correlation id when present.
    pub fn request_id(&self) -> (r: Option<&str>)
        ensures
            r.deep_view() == self.spec_request_id(),
    {
        match self {
            Self::Api { request_id, .. } => match request_id {
                Some(id) => Some(id.as_str()),
                None => None,
            },
            Self::Auth(error) | Self::NotFound(error) | Self::Conflict(error) => {
                match &error.request_id {
                    Some(id) => Some(id.as_str()),
                    None => None,
                }
            },
            Self::RateLimited { error, .. } => match &error.request_id {
                Some(id) => Some(id.as_str()),
                None => None,
            },
            Self::Transport(error) => match &error.request_id {
                Some(id) => Some(id.as_str()),
                None => None,
            },
            _ => None,
        }
    }

    /// The redacted body snippet retained by an error value, when one applies.
    pub open spec fn spec_body_snippet(&self) -> Option<Seq<char>> {
        match self {
            Self::Api { body_snippet, .. } => match body_snippet {
                Some(s) => Some(s@),
                None => None,
            },
            Self::Auth(error) | Self::NotFound(error) | Self::Conflict(error) => match &error
                .body_snippet {
                Some(s) => Some(s@),
                None => None,
            },
            Self::RateLimited { error, .. } => match &error.body_snippet {
                Some(s) => Some(s@),
                None => None,
            },
            Self::Transport(error) => match &error.body_snippet {
                Some(s) => Some(s@),
                None => None,
            },
            _ => None,
        }
    }

    /// Returns the redacted body snippet when the SDK retained one.
    pub fn body_snippet(&self) -> (r: Option<&str>)
        ensures
            r.deep_view() == self.spec_body_snippet(),
    {
        match self {
            Self::Api { body_snippet, .. } => match body_snippet {
                Some(s) => Some(s.as_str()),
                None => None,
            },
            Self::Auth(error) | Self::NotFound(error) | Self::Conflict(error) => {
                match &error.body_snippet {
                    Some(s) => Some(s.as_str()),
                    None => None,
                }
            },
            Self::RateLimited { error, .. } => match &error.body_snippet {
                Some(s) => Some(s.as_str()),
                None => None,
            },
            Self::Transport(error) => match &error.body_snippet {
                Some(s) => Some(s.as_str()),
                None => None,
            },
            _ => None,
        }
    }

    /// Returns `true` if the error is an auth/authz failure.
    pub fn is_auth_error(&self) -> (r: bool)
        ensures
            r == (self.spec_kind() == ErrorKind::Auth),
    {
        match self {
            Self::Auth(_) => true,
            _ => false,
        }
    }

    /// Whether an error value is transient and safe to retry: rate limits
    /// always are, transport failures carry an explicit flag, and business
    /// errors only for the fixed allow-list of transient vendor codes.
    pub open spec fn spec_is_retryable(&self) -> bool {
        match self {
            Self::RateLimited { .. } => true,
            Self::Transport(error) => error.retryable,
            Self::Api { code, .. } => *code == 130101 || *code == 130102,
            _ => false,
        }
    }

    /// Returns `true` if the error is likely transient and safe to retry.
    pub fn is_retryable(&self) -> (r: bool)
        ensures
            r == self.spec_is_retryable(),
    {
        match self {
            Self::RateLimited { .. } => true,
            Self::Transport(error) => error.retryable,
            Self::Api { code, .. } => *code == 130101 || *code == 130102,
            _ => false,
        }
    }

    /// The retry-after hint carried by an error value, when one applies.
    pub open spec fn spec_retry_after(&self) -> Option<u64> {
        match self {
            Self::RateLimited { retry_after_millis, .. } => *retry_after_millis,
            Self::Transport(error) => error.retry_after_millis,
            _ => None,
        }
    }

    /// Returns the retry-after hint in milliseconds when the upstream
    /// provided one.
    pub fn retry_after(&self) -> (r: Option<u64>)
        ensures
            r == self.spec_retry_after(),
    {
        match self {
            Self::RateLimited { retry_after_millis, .. } => *retry_after_millis,
            Self::Transport(error) => error.retry_after_millis,
            _ => None,
        }
    }
}

/// The condition a failed HTTP exchange reported, as the transport
/// collaborator's own failure code.  It mirrors the collaborator's closed
/// code set as far as classification distinguishes it; every remaining code
/// maps to `Other`.
#[derive(Debug, Clone, Copy, PartialEq, Eq, Structural)]
pub enum TransportFailureCode {
    /// A phase timeout elapsed.
    Timeout,
    /// The overall request deadline elapsed.
    DeadlineExceeded,
    /// The transport layer failed before a response was received.
    Transport,
    /// Retry budget enforcement rejected another attempt.
    RetryBudgetExhausted,
    /// The circuit breaker rejected the request.
    CircuitOpen,
    /// The response status failed the active status policy.
    HttpStatus,
    /// Any other failure condition.
    Other,
}

/// Whether a transport failure with the given code and status is transient:
/// timeouts, deadlines, generic transport faults, exhausted retry budgets and
/// open circuits always are; status-policy failures are for 429 and the 5xx
/// range; nothing else is.
pub open spec fn spec_transport_retryable(
    code: TransportFailureCode,
    status: Option<u16>,
) -> bool {
    match code {
        TransportFailureCode::Timeout
        | TransportFailureCode::DeadlineExceeded
        | TransportFailureCode::Transport
        | TransportFailureCode::RetryBudgetExhausted
        | TransportFailureCode::CircuitOpen => true,
        TransportFailureCode::HttpStatus => match status {
            Some(s) => s == 429 || (500 <= s && s <= 599),
            None => false,
        },
        TransportFailureCode::Other => false,
    }
}

/// The HTTP error record attached to status-classified failures holds the
/// raw status and correlation id, with no message and no snippet.
pub open spec fn spec_http_error_matches(
    h: HttpError,
    status: u16,
    request_id: Option<Seq<char>>,
) -> bool {
    &&& h.status == status
    &&& h.message is None
    &&& h.request_id.deep_view() == request_id
    &&& h.body_snippet is None
}

/// The transport-category record keeps the raw status, the collaborator's
/// message, the correlation id and the retry hint, and carries the
/// retryability decision.
pub open spec fn spec_transport_error_matches(
    t: TransportError,
    code: TransportFailureCode,
    status: Option<u16>,
    message: Option<Seq<char>>,
    request_id: Option<Seq<char>>,
    retry_after_millis: Option<u64>,
) -> bool {
    &&& t.status == status
    &&& t.message.deep_view() == message
    &&& t.request_id.deep_view() == request_id
    &&& t.body_snippet is None
    &&& t.retry_after_millis == retry_after_millis
    &&& t.retryable == spec_transport_retryable(code, status)
}

/// The category a failed exchange falls in, by the fixed status table:
/// 401/403 are auth failures, 404 not-found, 409/412 conflicts, 429 rate
/// limits; everything else, and any outcome without a status, is a
/// transport error.
pub open spec fn spec_classify_transport_failure(
    code: TransportFailureCode,
    status: Option<u16>,
    message: Option<Seq<char>>,
    request_id: Option<Seq<char>>,
    retry_after_millis: Option<u64>,
    e: Error,
) -> bool {
    match status {
        Some(s) => {
            if s == 401 || s == 403 {
                e matches Error::Auth(h) && spec_http_error_matches(h, s, request_id)
            } else if s == 404 {
                e matches Error::NotFound(h) && spec_http_error_matches(h, s, request_id)
            } else if s == 409 || s == 412 {
                e matches Error::Conflict(h) && spec_http_error_matches(h, s, request_id)
            } else if s == 429 {
                e matches Error::RateLimited { error, retry_after_millis: hint }
                    && spec_http_error_matches(error, s, request_id) && hint
                    == retry_after_millis
            } else {
                e matches Error::Transport(t) && spec_transport_error_matches(
                    t,
                    code,
                    status,
                    message,
                    request_id,
                    retry_after_millis,
                )
            }
        },
        None => e matches Error::Transport(t) && spec_transport_error_matches(
            t,
            code,
            status,
            message,
            request_id,
            retry_after_millis,
        ),
    }
}

/// Classifies a failed HTTP exchange, reported by the transport collaborator
/// as plain values, into exactly one error value of the taxonomy.
pub fn classify_transport_failure(
    code: TransportFailureCode,
    status: Option<u16>,
    message: Option<String>,
    request_id: Option<String>,
    retry_after_millis: Option<u64>,
) -> (e: Error)
    ensures
        spec_classify_transport_failure(
            code,
            status,
            message.deep_view(),
            request_id.deep_view(),
            retry_after_millis,
            e,
        ),
{
    let retryable = transport_retryable(code, status);
    if let Some(s) = status {
        let error = HttpError { status: s, message: None, request_id, body_snippet: None };
        if s == 401 || s == 403 {
            Error::Auth(error)
        } else if s == 404 {
            Error::NotFound(error)
        } else if s == 409 || s == 412 {
            Error::Conflict(error)
        } else if s == 429 {
            Error::RateLimited { error, retry_after_millis }
        } else {
            Error::Transport(
                TransportError {
                    status: Some(s),
                    message,
                    request_id: error.request_id,
                    body_snippet: None,
                    retry_after_millis,
                    retryable,
                },
            )
        }
    } else {
        Error::Transport(
            TransportError {
                status: None,
                message,
                request_id,
                body_snippet: None,
                retry_after_millis,
                retryable,
            },
        )
    }
}

/// Decides retryability of a transport failure from its code and status.
pub fn transport_retryable(code: TransportFailureCode, status: Option<u16>) -> (r: bool)
    ensures
        r == spec_transport_retryable(code, status),
{
    match code {
        TransportFailureCode::Timeout
        | TransportFailureCode::DeadlineExceeded
        | TransportFailureCode::Transport
        | TransportFailureCode::RetryBudgetExhausted
        | TransportFailureCode::CircuitOpen => true,
        TransportFailureCode::HttpStatus => match status {
            Some(s) => s == 429 || (500 <= s && s <= 599),
            None => false,
        },
        TransportFailureCode::Other => false,
    }
}

} // verus!
