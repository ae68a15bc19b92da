//! The application's error type, its messages and the responses it maps to.

use vstd::prelude::*;
use crate::text::{concat, concat3, dec, u64_string};

pub mod validation;

verus! {

/// The errors the application reports to its clients.
#[derive(Clone, Debug)]
pub enum AppError {
    /// An unexpected internal failure, with its description.
    Internal(String),
    /// A malformed request.
    BadRequest(String),
    /// A missing resource.
    NotFound(String),
    /// A request that conflicts with the server's state.
    Conflict(String),
    /// A temporarily unavailable service.
    ServiceUnavailable(String),
    /// A database failure.
    Database(String),
    /// Invalid user input.
    InvalidInput(String),
    /// A failure while scanning.
    Scanner(String),
    /// A request without valid credentials.
    Unauthorized(String),
    /// Too many requests; retry after the given number of seconds.
    RateLimited {
        /// Seconds until the client may retry.
        retry_after_seconds: u64,
    },
    /// A request field that failed validation.
    ValidationError {
        /// The field's name.
        field: String,
        /// What is wrong with it.
        message: String,
    },
    /// An I/O failure.
    IoError(String),
}

/// The human-readable text of an error.
pub open spec fn app_error_text(e: AppError) -> Seq<char> {
    match e {
        AppError::Internal(m) => "Internal error: "@ + m@,
        AppError::BadRequest(m) => "Bad request: "@ + m@,
        AppError::NotFound(m) => "Not found: "@ + m@,
        AppError::Conflict(m) => "Conflict: "@ + m@,
        AppError::ServiceUnavailable(m) => "Service unavailable: "@ + m@,
        AppError::Database(m) => "Database error: "@ + m@,
        AppError::InvalidInput(m) => "Invalid input: "@ + m@,
        AppError::Scanner(m) => "Scanner error: "@ + m@,
        AppError::Unauthorized(m) => "Unauthorized: "@ + m@,
        AppError::RateLimited { retry_after_seconds } => "Rate limited. Retry after "@ + dec(
            retry_after_seconds as nat,
        ) + " seconds"@,
        AppError::ValidationError { field, message } => "Validation error on field '"@ + field@
            + "': "@ + message@,
        AppError::IoError(m) => "I/O error: "@ + m@,
    }
}

/// Extra data carried in an error response.
#[derive(Clone, Debug)]
pub enum ErrorDetails {
    /// No extra data.
    Nothing,
    /// The identifier under which an internal error was logged.
    ErrorId(String),
    /// The underlying failure's text.
    Details(String),
    /// Seconds until the client may retry.
    RetryAfter(u64),
    /// The field that failed validation and why.
    Field {
        /// The field's name.
        field: String,
        /// What is wrong with it.
        message: String,
    },
}

/// The parts of an error response: HTTP status, machine-readable code,
/// client-facing message and extra data.
#[derive(Clone, Debug)]
pub struct ErrorBody {
    /// The HTTP status code.
    pub status: u16,
    /// The machine-readable error code.
    pub code: String,
    /// The message shown to the client.
    pub message: String,
    /// Extra data.
    pub details: ErrorDetails,
}

/// The HTTP status of each error.
pub open spec fn error_status(e: AppError) -> u16 {
    match e {
        AppError::Internal(_) => 500,
        AppError::BadRequest(_) => 400,
        AppError::NotFound(_) => 404,
        AppError::Conflict(_) => 409,
        AppError::ServiceUnavailable(_) => 503,
        AppError::Database(_) => 500,
        AppError::InvalidInput(_) => 400,
        AppError::Scanner(_) => 500,
        AppError::Unauthorized(_) => 401,
        AppError::RateLimited { .. } => 429,
        AppError::ValidationError { .. } => 400,
        AppError::IoError(_) => 500,
    }
}

/// The machine-readable code of each error.
pub open spec fn error_code(e: AppError) -> Seq<char> {
    match e {
        AppError::Internal(_) => "INTERNAL_ERROR"@,
        AppError::BadRequest(_) => "BAD_REQUEST"@,
        AppError::NotFound(_) => "NOT_FOUND"@,
        AppError::Conflict(_) => "CONFLICT"@,
        AppError::ServiceUnavailable(_) => "SERVICE_UNAVAILABLE"@,
        AppError::Database(_) => "DATABASE_ERROR"@,
        AppError::InvalidInput(_) => "INVALID_INPUT"@,
        AppError::Scanner(_) => "SCANNER_ERROR"@,
        AppError::Unauthorized(_) => "UNAUTHORIZED"@,
        AppError::RateLimited { .. } => "RATE_LIMITED"@,
        AppError::ValidationError { .. } => "VALIDATION_ERROR"@,
        AppError::IoError(_) => "IO_ERROR"@,
    }
}

/// The client-facing message of each error: internal, database and I/O
/// failures are reported generically, their text going to the details.
pub open spec fn error_message(e: AppError) -> Seq<char> {
    match e {
        AppError::Internal(_) => "An internal server error occurred"@,
        AppError::BadRequest(m) => m@,
        AppError::NotFound(m) => m@,
        AppError::Conflict(m) => m@,
        AppError::ServiceUnavailable(m) => m@,
        AppError::Database(_) => "A database error occurred"@,
        AppError::InvalidInput(m) => m@,
        AppError::Scanner(m) => m@,
        AppError::Unauthorized(m) => m@,
        AppError::RateLimited { retry_after_seconds } => "Too many requests. Please retry after "@
            + dec(retry_after_seconds as nat) + " seconds"@,
        AppError::ValidationError { field, .. } => "Validation failed for field '"@ + field@
            + "'"@,
        AppError::IoError(_) => "An I/O error occurred"@,
    }
}

/// Whether the details of a response fit the error: an error id for internal
/// errors, the underlying text for database and I/O errors, the delay for
/// rate limiting, the field and reason for validation errors, nothing else.
pub open spec fn details_fit(e: AppError, d: ErrorDetails) -> bool {
    match e {
        AppError::Internal(_) => d matches ErrorDetails::ErrorId(id) && id@.len() == 36,
        AppError::Database(m) => d matches ErrorDetails::Details(x) && x@ == m@,
        AppError::IoError(m) => d matches ErrorDetails::Details(x) && x@ == m@,
        AppError::RateLimited { retry_after_seconds } => d == ErrorDetails::RetryAfter(
            retry_after_seconds,
        ),
        AppError::ValidationError { field, message } => d matches ErrorDetails::Field {
            field: f,
            message: m,
        } && f@ == field@ && m@ == message@,
        _ => d is Nothing,
    }
}

/// Draws a fresh identifier for an internal error (`uuid::Uuid::new_v4`,
/// in its hyphenated text form). Trusted: the identifier is random; only its
/// length of 36 characters is promised.
#[verifier::external_body]
fn new_error_id() -> (r: String)
    ensures
        r@.len() == 36,
{
    uuid::Uuid::new_v4().to_string()
}

fn clone_string(s: &String) -> (r: String)
    ensures
        r@ == s@,
{
    s.clone()
}

impl AppError {
    /// The error's human-readable text.
    pub fn message(&self) -> (r: String)
        ensures
            r@ == app_error_text(*self),
    {
        match self {
            AppError::Internal(m) => concat("Internal error: ", m.as_str()),
            AppError::BadRequest(m) => concat("Bad request: ", m.as_str()),
            AppError::NotFound(m) => concat("Not found: ", m.as_str()),
            AppError::Conflict(m) => concat("Conflict: ", m.as_str()),
            AppError::ServiceUnavailable(m) => concat("Service unavailable: ", m.as_str()),
            AppError::Database(m) => concat("Database error: ", m.as_str()),
            AppError::InvalidInput(m) => concat("Invalid input: ", m.as_str()),
            AppError::Scanner(m) => concat("Scanner error: ", m.as_str()),
            AppError::Unauthorized(m) => concat("Unauthorized: ", m.as_str()),
            AppError::RateLimited { retry_after_seconds } => {
                let n = u64_string(*retry_after_seconds);
                concat3("Rate limited. Retry after ", n.as_str(), " seconds")
            },
            AppError::ValidationError { field, message } => {
                let head = concat3("Validation error on field '", field.as_str(), "': ");
                concat(head.as_str(), message.as_str())
            },
            AppError::IoError(m) => concat("I/O error: ", m.as_str()),
        }
    }

    /// The response an error is answered with.
    pub fn response_body(&self) -> (r: ErrorBody)
        ensures
            r.status == error_status(*self),
            r.code@ == error_code(*self),
            r.message@ == error_message(*self),
            details_fit(*self, r.details),
    {
        match self {
            AppError::Internal(_) => ErrorBody {
                status: 500,
                code: String::from_str("INTERNAL_ERROR"),
                message: String::from_str("An internal server error occurred"),
                details: ErrorDetails::ErrorId(new_error_id()),
            },
            AppError::BadRequest(m) => ErrorBody {
                status: 400,
                code: String::from_str("BAD_REQUEST"),
                message: clone_string(m),
                details: ErrorDetails::Nothing,
            },
            AppError::NotFound(m) => ErrorBody {
                status: 404,
                code: String::from_str("NOT_FOUND"),
                message: clone_string(m),
                details: ErrorDetails::Nothing,
            },
            AppError::Conflict(m) => ErrorBody {
                status: 409,
                code: String::from_str("CONFLICT"),
                message: clone_string(m),
                details: ErrorDetails::Nothing,
            },
            AppError::ServiceUnavailable(m) => ErrorBody {
                status: 503,
                code: String::from_str("SERVICE_UNAVAILABLE"),
                message: clone_string(m),
                details: ErrorDetails::Nothing,
            },
            AppError::Database(m) => ErrorBody {
                status: 500,
                code: String::from_str("DATABASE_ERROR"),
                message: String::from_str("A database error occurred"),
                details: ErrorDetails::Details(clone_string(m)),
            },
            AppError::InvalidInput(m) => ErrorBody {
                status: 400,
                code: String::from_str("INVALID_INPUT"),
                message: clone_string(m),
                details: ErrorDetails::Nothing,
            },
            AppError::Scanner(m) => ErrorBody {
                status: 500,
                code: String::from_str("SCANNER_ERROR"),
                message: clone_string(m),
                details: ErrorDetails::Nothing,
            },
            AppError::Unauthorized(m) => ErrorBody {
                status: 401,
                code: String::from_str("UNAUTHORIZED"),
                message: clone_string(m),
                details: ErrorDetails::Nothing,
            },
            AppError::RateLimited { retry_after_seconds } => {
                let n = u64_string(*retry_after_seconds);
                ErrorBody {
                    status: 429,
                    code: String::from_str("RATE_LIMITED"),
                    message: concat3(
                        "Too many requests. Please retry after ",
                        n.as_str(),
                        " seconds",
                    ),
                    details: ErrorDetails::RetryAfter(*retry_after_seconds),
                }
            },
            AppError::ValidationError { field, message } => ErrorBody {
                status: 400,
                code: String::from_str("VALIDATION_ERROR"),
                message: concat3("Validation failed for field '", field.as_str(), "'"),
                details: ErrorDetails::Field { field: clone_string(field), message: clone_string(message) },
            },
            AppError::IoError(m) => ErrorBody {
                status: 500,
                code: String::from_str("IO_ERROR"),
                message: String::from_str("An I/O error occurred"),
                details: ErrorDetails::Details(clone_string(m)),
            },
        }
    }

    /// The error for an I/O failure of the given kind (its name, such as
    /// `NotFound`) and description: `<kind>: <description>`.
    pub fn from_io_error(kind: &str, description: &str) -> (r: AppError)
        ensures
            r matches AppError::IoError(m) && m@ == kind@ + ": "@ + description@,
    {
        AppError::IoError(concat3(kind, ": ", description))
    }

    /// The error for an invalid glob pattern whose explanation is `detail`:
    /// an invalid input reading `Invalid glob pattern: <detail>`.
    pub fn glob_pattern_error(detail: &str) -> (r: AppError)
        ensures
            r matches AppError::InvalidInput(m) && m@ == "Invalid glob pattern: "@ + detail@,
    {
        AppError::InvalidInput(concat("Invalid glob pattern: ", detail))
    }

    /// The error for an invalid glob pattern: an invalid input reading
    /// `Invalid glob pattern: ` followed by the glob library's explanation
    /// (its `Display` text, which is not empty), as `glob_pattern_error`
    /// builds it.
    pub fn from_glob_error(e: &globset::Error) -> (r: AppError)
        ensures
            r matches AppError::InvalidInput(m) && exists|t: Seq<char>|
                t.len() > 0 && m@ == "Invalid glob pattern: "@ + t,
    {
        let detail = crate::scanner::globs::glob_error_text(e);
        AppError::glob_pattern_error(detail.as_str())
    }

    /// The error for a database failure.
    pub fn from_db_failure(f: &DbFailure) -> (r: AppError)
        ensures
            db_failure_maps_to(*f, r),
    {
        match f {
            DbFailure::RowNotFound => AppError::NotFound(String::from_str("Record not found")),
            DbFailure::Database(m) => AppError::Database(concat("Database error: ", m.as_str())),
            DbFailure::PoolTimedOut => AppError::ServiceUnavailable(
                String::from_str("Database connection pool timed out"),
            ),
            DbFailure::Other(m) => AppError::Database(concat("Database error: ", m.as_str())),
        }
    }
}

/// A database failure, as the data layer reports it.
#[derive(Clone, Debug)]
pub enum DbFailure {
    /// A query that expected a row found none.
    RowNotFound,
    /// The database refused a statement, with its message.
    Database(String),
    /// No connection became free in time.
    PoolTimedOut,
    /// Any other failure, with its text.
    Other(String),
}

/// Whether `e` is the error a database failure maps to: a missing row is
/// "Record not found", a pool timeout makes the service unavailable, and
/// other failures are database errors carrying their text.
pub open spec fn db_failure_maps_to(f: DbFailure, e: AppError) -> bool {
    match f {
        DbFailure::RowNotFound => e matches AppError::NotFound(m) && m@ == "Record not found"@,
        DbFailure::Database(t) => e matches AppError::Database(m) && m@ == "Database error: "@
            + t@,
        DbFailure::PoolTimedOut => e matches AppError::ServiceUnavailable(m) && m@
            == "Database connection pool timed out"@,
        DbFailure::Other(t) => e matches AppError::Database(m) && m@ == "Database error: "@ + t@,
    }
}

/// Turns a missing value into a `NotFound` error naming what was missing.
pub trait OptionExt<T>: Sized {
    /// The value when present, else `NotFound("<entity> not found")`.
    fn ok_or_not_found(self, entity: &str) -> Result<T, AppError>;
}

#[verifier::external_type_specification]
#[verifier::external_body]
pub struct ExIoError(std::io::Error);

/// The name of an I/O error's kind as `ErrorKind`'s `Debug` form writes it
/// (such as `NotFound`), from `io::Error::kind`. Trusted: the name is not
/// empty (every kind is a named variant); which name it is is not stated.
#[verifier::external_body]
fn io_error_kind_name(e: &std::io::Error) -> (r: String)
    ensures
        r@.len() > 0,
{
    format!("{:?}", e.kind())
}

/// The text of an I/O error (its `Display` form). Nothing is stated of the
/// text: for an error from the operating system it is the system's message.
#[verifier::external_body]
fn io_error_text(e: &std::io::Error) -> String {
    e.to_string()
}

impl From<std::io::Error> for AppError {
    /// An I/O error becomes `IoError("<kind name>: <error text>")`, as
    /// `from_io_error` builds it from the kind's name and the error's text.
    fn from(e: std::io::Error) -> (r: AppError)
        ensures
            r matches AppError::IoError(m) && exists|k: Seq<char>, t: Seq<char>|
                k.len() > 0 && m@ == k + ": "@ + t,
    {
        let kind = io_error_kind_name(&e);
        let text = io_error_text(&e);
        AppError::from_io_error(kind.as_str(), text.as_str())
    }
}

/// The conversion's result is not a function of the error's spec value (its
/// text comes from the system), so no `from_spec` is claimed; what `from`
/// returns is stated in its own `ensures`.
impl vstd::std_specs::convert::FromSpecImpl<std::io::Error> for AppError {
    open spec fn obeys_from_spec() -> bool {
        false
    }

    open spec fn from_spec(v: std::io::Error) -> AppError {
        vstd::pervasive::arbitrary()
    }
}

impl From<globset::Error> for AppError {
    /// A glob error becomes `InvalidInput("Invalid glob pattern: <text>")`,
    /// as `from_glob_error` builds it.
    fn from(e: globset::Error) -> (r: AppError)
        ensures
            r matches AppError::InvalidInput(m) && exists|t: Seq<char>|
                t.len() > 0 && m@ == "Invalid glob pattern: "@ + t,
    {
        AppError::from_glob_error(&e)
    }
}

/// The message is the error's text, which `globset::Error` gives no spec
/// value for, so no `from_spec` is claimed; what `from` returns is stated in
/// its own `ensures`.
impl vstd::std_specs::convert::FromSpecImpl<globset::Error> for AppError {
    open spec fn obeys_from_spec() -> bool {
        false
    }

    open spec fn from_spec(v: globset::Error) -> AppError {
        vstd::pervasive::arbitrary()
    }
}

impl<T> OptionExt<T> for Option<T> {
    fn ok_or_not_found(self, entity: &str) -> (r: Result<T, AppError>)
        ensures
            match self {
                Some(v) => r == Ok::<T, AppError>(v),
                None => r matches Err(AppError::NotFound(m)) && m@ == entity@ + " not found"@,
            },
    {
        match self {
            Some(v) => Ok(v),
            None => Err(AppError::NotFound(concat(entity, " not found"))),
        }
    }
}

} // verus!
