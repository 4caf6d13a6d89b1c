//! Unified application error model: a status that is either a transport
//! (HTTP) code or an application-defined numeric status, together with a
//! machine-readable error code and a human-readable message, and the pure
//! projection of such an error to a transport response.

use vstd::prelude::*;

verus! {

/// Transport code for "bad request".
pub const HTTP_BAD_REQUEST: u16 = 400;

/// Transport code for "unauthorized".
pub const HTTP_UNAUTHORIZED: u16 = 401;

/// Transport code for "not found".
pub const HTTP_NOT_FOUND: u16 = 404;

/// Transport code for "conflict".
pub const HTTP_CONFLICT: u16 = 409;

/// Transport code for "internal server error"; also the default mapping for
/// application-defined statuses.
pub const HTTP_INTERNAL_SERVER_ERROR: u16 = 500;

/// Extensible status kind: either a real HTTP status code or an application
/// numeric status meaningful only within the application.
#[derive(Clone, Copy, Debug, PartialEq, Eq, Structural)]
pub enum StatusKind {
    Http(u16),
    App(u16),
}

impl StatusKind {
    /// The transport code an adapter should use for this status: an HTTP
    /// status is kept as it is, an application status defaults to the
    /// internal-server-error code.
    pub open spec fn to_http_status_spec(self) -> u16 {
        match self {
            StatusKind::Http(c) => c,
            StatusKind::App(_) => HTTP_INTERNAL_SERVER_ERROR,
        }
    }

    /// Map to an HTTP status code for transport adapters. Application numeric
    /// statuses default to 500 (internal server error) unless adapters
    /// provide a different mapping.
    pub fn to_http_status(&self) -> (r: u16)
        ensures
            r == self.to_http_status_spec(),
    {
        match self {
            StatusKind::Http(c) => *c,
            StatusKind::App(_) => HTTP_INTERNAL_SERVER_ERROR,
        }
    }
}

/// Every application-defined status, whatever its number, maps to the
/// internal-server-error transport code.
pub proof fn lemma_app_status_defaults_to_internal_error(n: u16)
    ensures
        StatusKind::App(n).to_http_status_spec() == HTTP_INTERNAL_SERVER_ERROR,
{
}

impl From<u16> for StatusKind {
    /// A bare number is taken as an application-defined status.
    fn from(n: u16) -> (r: Self) {
        StatusKind::App(n)
    }
}

impl vstd::std_specs::convert::FromSpecImpl<u16> for StatusKind {
    open spec fn obeys_from_spec() -> bool {
        true
    }

    open spec fn from_spec(n: u16) -> Self {
        StatusKind::App(n)
    }
}

/// The categories the logging-and-construct convenience operation accepts:
/// an application numeric status, a raw transport status, or one of the
/// named error kinds.
#[derive(Debug, Clone, Copy, PartialEq, Eq, Structural)]
pub enum ErrorCategory {
    AppStatus(u16),
    HttpStatus(u16),
    BadRequest,
    NotFound,
    Unauthorized,
    Conflict,
    InternalServerError,
}

/// The level a log entry about an error is emitted at.
#[derive(Debug, Clone, Copy, PartialEq, Eq, Structural)]
pub enum LogSeverity {
    Warning,
    Error,
}

/// The level the logging sink is handed for a category: error level for an
/// internal server error, warning level for every other category.
pub fn log_severity(category: &ErrorCategory) -> (r: LogSeverity)
    ensures
        r == (if category is InternalServerError {
            LogSeverity::Error
        } else {
            LogSeverity::Warning
        }),
{
    match category {
        ErrorCategory::InternalServerError => LogSeverity::Error,
        _ => LogSeverity::Warning,
    }
}

/// The wire shape of an error: the status is conveyed by the transport
/// envelope, so the body repeats only the code and the message.
#[derive(Debug)]
pub struct ErrorResponse {
    pub error: String,
    pub message: String,
}

/// An application error: a status kind, a short machine-readable error code,
/// and a human-readable message.
#[derive(Debug)]
pub struct AppError {
    pub status: StatusKind,
    pub error: String,
    pub message: String,
}

impl AppError {
    /// Pure construction; any error code and message are accepted, including
    /// empty ones.
    pub fn new(status: StatusKind, error: String, message: String) -> (r: Self)
        ensures
            r.status == status,
            r.error == error,
            r.message == message,
    {
        Self { status, error, message }
    }

    /// An internal-server-error with the fixed code `"INTERNAL_SERVER_ERROR"`.
    pub fn internal_server_error(message: String) -> (r: Self)
        ensures
            r.status == StatusKind::Http(HTTP_INTERNAL_SERVER_ERROR),
            r.status.to_http_status_spec() == HTTP_INTERNAL_SERVER_ERROR,
            r.error@ == "INTERNAL_SERVER_ERROR"@,
            r.message == message,
    {
        Self::new(
            StatusKind::Http(HTTP_INTERNAL_SERVER_ERROR),
            String::from_str("INTERNAL_SERVER_ERROR"),
            message,
        )
    }

    /// A not-found error with the caller's code and message.
    pub fn not_found(error: String, message: String) -> (r: Self)
        ensures
            r.status == StatusKind::Http(HTTP_NOT_FOUND),
            r.status.to_http_status_spec() == HTTP_NOT_FOUND,
            r.error == error,
            r.message == message,
    {
        Self::new(StatusKind::Http(HTTP_NOT_FOUND), error, message)
    }

    /// A bad-request error with the caller's code and message.
    pub fn bad_request(error: String, message: String) -> (r: Self)
        ensures
            r.status == StatusKind::Http(HTTP_BAD_REQUEST),
            r.status.to_http_status_spec() == HTTP_BAD_REQUEST,
            r.error == error,
            r.message == message,
    {
        Self::new(StatusKind::Http(HTTP_BAD_REQUEST), error, message)
    }

    /// An unauthorized error with the fixed code `"UNAUTHORIZED"`.
    pub fn unauthorized(message: String) -> (r: Self)
        ensures
            r.status == StatusKind::Http(HTTP_UNAUTHORIZED),
            r.status.to_http_status_spec() == HTTP_UNAUTHORIZED,
            r.error@ == "UNAUTHORIZED"@,
            r.message == message,
    {
        Self::new(
            StatusKind::Http(HTTP_UNAUTHORIZED),
            String::from_str("UNAUTHORIZED"),
            message,
        )
    }

    /// A conflict error with the caller's code and message.
    pub fn conflict(error: String, message: String) -> (r: Self)
        ensures
            r.status == StatusKind::Http(HTTP_CONFLICT),
            r.status.to_http_status_spec() == HTTP_CONFLICT,
            r.error == error,
            r.message == message,
    {
        Self::new(StatusKind::Http(HTTP_CONFLICT), error, message)
    }

    /// The error an [`ErrorCategory`] stands for: the two open categories
    /// carry their status number, the named ones fix the transport code, and
    /// `Unauthorized` and `InternalServerError` also fix the error code,
    /// ignoring the one supplied.
    pub fn from_category(category: &ErrorCategory, error: String, message: String) -> (r: Self)
        ensures
            match category {
                ErrorCategory::AppStatus(n) => r.status == StatusKind::App(*n) && r.error == error
                    && r.message == message,
                ErrorCategory::HttpStatus(c) => r.status == StatusKind::Http(*c) && r.error
                    == error && r.message == message,
                ErrorCategory::BadRequest => r.status == StatusKind::Http(HTTP_BAD_REQUEST)
                    && r.error == error && r.message == message,
                ErrorCategory::NotFound => r.status == StatusKind::Http(HTTP_NOT_FOUND) && r.error
                    == error && r.message == message,
                ErrorCategory::Unauthorized => r.status == StatusKind::Http(HTTP_UNAUTHORIZED)
                    && r.error@ == "UNAUTHORIZED"@ && r.message == message,
                ErrorCategory::Conflict => r.status == StatusKind::Http(HTTP_CONFLICT) && r.error
                    == error && r.message == message,
                ErrorCategory::InternalServerError => r.status == StatusKind::Http(
                    HTTP_INTERNAL_SERVER_ERROR,
                ) && r.error@ == "INTERNAL_SERVER_ERROR"@ && r.message == message,
            },
    {
        match category {
            ErrorCategory::AppStatus(n) => Self::new(StatusKind::App(*n), error, message),
            ErrorCategory::HttpStatus(c) => Self::new(StatusKind::Http(*c), error, message),
            ErrorCategory::BadRequest => Self::bad_request(error, message),
            ErrorCategory::NotFound => Self::not_found(error, message),
            ErrorCategory::Unauthorized => Self::unauthorized(message),
            ErrorCategory::Conflict => Self::conflict(error, message),
            ErrorCategory::InternalServerError => Self::internal_server_error(message),
        }
    }

    /// The pure projection to a transport response: the status line's code
    /// and the body, which repeats only the error code and the message.
    pub fn to_response(self) -> (r: (u16, ErrorResponse))
        ensures
            r.0 == self.status.to_http_status_spec(),
            r.1.error == self.error,
            r.1.message == self.message,
    {
        let code = self.status.to_http_status();
        (code, ErrorResponse { error: self.error, message: self.message })
    }
}

} // verus!
