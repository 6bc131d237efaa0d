//! The error that a request ends with: a response status and a message.

use vstd::prelude::*;
use crate::config::Level;
use crate::text::{decimal_text, push_decimal};

verus! {

/// The response statuses that the service answers with.
#[allow(non_camel_case_types)]
#[derive(Debug, Clone, Copy, PartialEq, Eq, Structural)]
pub enum StatusCode {
    OK,
    CREATED,
    BAD_REQUEST,
    UNAUTHORIZED,
    NOT_FOUND,
    TOO_MANY_REQUESTS,
    INTERNAL_SERVER_ERROR,
    INSUFFICIENT_STORAGE,
}

/// How loudly a response is logged.
#[derive(Debug, Clone, Copy, PartialEq, Eq, Structural)]
pub enum Severity {
    /// Not logged on its own.
    Quiet,
    /// A client fault worth a look: every one but "not found".
    Warning,
    /// A fault of the server, its configuration or its storage.
    Error,
}

impl StatusCode {
    /// The numeric code.
    pub open spec fn code(self) -> nat {
        match self {
            StatusCode::OK => 200,
            StatusCode::CREATED => 201,
            StatusCode::BAD_REQUEST => 400,
            StatusCode::UNAUTHORIZED => 401,
            StatusCode::NOT_FOUND => 404,
            StatusCode::TOO_MANY_REQUESTS => 429,
            StatusCode::INTERNAL_SERVER_ERROR => 500,
            StatusCode::INSUFFICIENT_STORAGE => 507,
        }
    }

    /// The standard reason phrase.
    pub open spec fn reason(self) -> Seq<char> {
        match self {
            StatusCode::OK => "OK"@,
            StatusCode::CREATED => "Created"@,
            StatusCode::BAD_REQUEST => "Bad Request"@,
            StatusCode::UNAUTHORIZED => "Unauthorized"@,
            StatusCode::NOT_FOUND => "Not Found"@,
            StatusCode::TOO_MANY_REQUESTS => "Too Many Requests"@,
            StatusCode::INTERNAL_SERVER_ERROR => "Internal Server Error"@,
            StatusCode::INSUFFICIENT_STORAGE => "Insufficient Storage"@,
        }
    }

    /// The status as it is printed: the code, a space, the reason phrase.
    pub open spec fn text(self) -> Seq<char> {
        decimal_text(self.code()) + seq![' '] + self.reason()
    }

    /// Whether the code lies in 400..=499.
    pub open spec fn client_error(self) -> bool {
        400 <= self.code() <= 499
    }

    /// Whether the code lies in 500..=599.
    pub open spec fn server_error(self) -> bool {
        500 <= self.code() <= 599
    }

    /// The numeric code.
    pub fn as_u16(&self) -> (n: u16)
        ensures
            n == self.code(),
    {
        match self {
            StatusCode::OK => 200,
            StatusCode::CREATED => 201,
            StatusCode::BAD_REQUEST => 400,
            StatusCode::UNAUTHORIZED => 401,
            StatusCode::NOT_FOUND => 404,
            StatusCode::TOO_MANY_REQUESTS => 429,
            StatusCode::INTERNAL_SERVER_ERROR => 500,
            StatusCode::INSUFFICIENT_STORAGE => 507,
        }
    }

    /// The standard reason phrase.
    pub fn canonical_reason(&self) -> (r: &'static str)
        ensures
            r@ == self.reason(),
    {
        match self {
            StatusCode::OK => "OK",
            StatusCode::CREATED => "Created",
            StatusCode::BAD_REQUEST => "Bad Request",
            StatusCode::UNAUTHORIZED => "Unauthorized",
            StatusCode::NOT_FOUND => "Not Found",
            StatusCode::TOO_MANY_REQUESTS => "Too Many Requests",
            StatusCode::INTERNAL_SERVER_ERROR => "Internal Server Error",
            StatusCode::INSUFFICIENT_STORAGE => "Insufficient Storage",
        }
    }

    /// Whether the status blames the client.
    pub fn is_client_error(&self) -> (b: bool)
        ensures
            b == self.client_error(),
    {
        let n: u16 = self.as_u16();
        400 <= n && n <= 499
    }

    /// Whether the status blames the server.
    pub fn is_server_error(&self) -> (b: bool)
        ensures
            b == self.server_error(),
    {
        let n: u16 = self.as_u16();
        500 <= n && n <= 599
    }

    /// The status as it is printed.
    pub fn to_string(&self) -> (s: String)
        ensures
            s@ == self.text(),
    {
        let mut out = String::new();
        push_decimal(&mut out, self.as_u16() as u64);
        out.push(' ');
        out.append(self.canonical_reason());
        assert(out@ =~= self.text());
        out
    }
}

/// An error that a handler returns: the status to answer with and a message
/// for the client.
#[derive(Debug)]
pub struct AppError {
    pub status_code: StatusCode,
    pub message: String,
}

impl View for AppError {
    type V = (StatusCode, Seq<char>);

    /// The status and the message.
    open spec fn view(&self) -> (StatusCode, Seq<char>) {
        (self.status_code, self.message@)
    }
}

impl AppError {
    /// Whether the fault lies with the client: every status of the client
    /// class, and storage exhaustion, which answers an upload beyond the quota.
    pub open spec fn client_fault(status: StatusCode) -> bool {
        status.client_error() || status == StatusCode::INSUFFICIENT_STORAGE
    }

    /// How the error is logged: client faults as warnings unless the status
    /// is "not found", every other server error as an error.
    pub open spec fn severity_of(status: StatusCode) -> Severity {
        if AppError::client_fault(status) {
            if status == StatusCode::NOT_FOUND {
                Severity::Quiet
            } else {
                Severity::Warning
            }
        } else if status.server_error() {
            Severity::Error
        } else {
            Severity::Quiet
        }
    }

    /// The body of the response: the printed status, a colon and a space, the message.
    pub open spec fn response_text(self) -> Seq<char> {
        self.status_code.text() + seq![':', ' '] + self.message@
    }

    /// Create a new `Err` with the given status and message.
    ///
    /// Useful for quickly returning a custom error in any of the request handlers.
    pub fn err<T>(status_code: StatusCode, message: &str) -> (r: Result<T, AppError>)
        ensures
            r is Err,
            r->Err_0.status_code == status_code,
            r->Err_0.message@ == message@,
    {
        Err(AppError { status_code, message: message.to_owned() })
    }

    /// Create a new error with the given status and message.
    pub fn new(status_code: StatusCode, message: &str) -> (e: AppError)
        ensures
            e.status_code == status_code,
            e.message@ == message@,
    {
        AppError { status_code, message: message.to_owned() }
    }

    /// Create a new error with the given message and the status 500.
    pub fn new500(message: &str) -> (e: AppError)
        ensures
            e.status_code == StatusCode::INTERNAL_SERVER_ERROR,
            e.message@ == message@,
    {
        AppError::new(StatusCode::INTERNAL_SERVER_ERROR, message)
    }

    /// Create a new error with the status 500 whose message is `context`
    /// followed by `detail`.
    pub fn new500_with(context: &str, detail: &str) -> (e: AppError)
        ensures
            e.status_code == StatusCode::INTERNAL_SERVER_ERROR,
            e.message@ == context@ + detail@,
    {
        let mut message = context.to_owned();
        message.append(detail);
        AppError { status_code: StatusCode::INTERNAL_SERVER_ERROR, message }
    }

    /// How the error is to be logged.
    pub fn severity(&self) -> (s: Severity)
        ensures
            s == AppError::severity_of(self.status_code),
    {
        if self.is_client_fault() {
            if self.status_code == StatusCode::NOT_FOUND {
                Severity::Quiet
            } else {
                Severity::Warning
            }
        } else if self.status_code.is_server_error() {
            Severity::Error
        } else {
            Severity::Quiet
        }
    }

    /// Whether the fault lies with the client.
    pub fn is_client_fault(&self) -> (b: bool)
        ensures
            b == AppError::client_fault(self.status_code),
    {
        self.status_code.is_client_error() || self.status_code == StatusCode::INSUFFICIENT_STORAGE
    }

    /// The body of the response that reports the error.
    pub fn response_body(&self) -> (s: String)
        ensures
            s@ == self.response_text(),
    {
        let mut out = self.status_code.to_string();
        out.append(": ");
        out.append(self.message.as_str());
        proof {
            reveal_strlit(": ");
            assert(": "@ =~= seq![':', ' ']);
            assert(out@ =~= self.response_text());
        }
        out
    }
}

/// A request that failed after storage was touched: the error to answer
/// with, and the name of a blob that was left on disk without a record.
#[derive(Debug)]
pub struct StorageFailure {
    pub error: AppError,
    pub orphaned_blob: Option<String>,
}

/// A line for the log: how grave it is, and what it says.
#[derive(Debug)]
pub struct LogRecord {
    pub level: Level,
    pub message: String,
}

impl View for LogRecord {
    type V = (Level, Seq<char>);

    /// The level and the message.
    open spec fn view(&self) -> (Level, Seq<char>) {
        (self.level, self.message@)
    }
}

impl LogRecord {
    /// A line whose message is `context` followed by `detail`.
    pub fn new(level: Level, context: &str, detail: &str) -> (r: LogRecord)
        ensures
            r@ == (level, context@ + detail@),
    {
        let mut message = context.to_owned();
        message.append(detail);
        LogRecord { level, message }
    }
}

} // verus!
