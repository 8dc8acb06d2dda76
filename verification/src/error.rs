//! The failures of the service, with the status and the text that each is
//! answered with.

use vstd::prelude::*;
use vstd::string::StringExecFns;

verus! {

/// A failure of one of the layers under the service, with the text that the
/// failing layer reported.
#[derive(Debug)]
pub enum AppError {
    /// The data store refused or failed a query.
    DbError(String),
    /// Reading or writing a file or socket failed.
    IoError(String),
    /// A JSON document could not be written or read.
    SerdeError(String),
    /// The web layer produced an error response of its own, with this status.
    ActixError { status: u16, message: String },
    /// A token could not be signed or checked.
    JsonWebTokenError(String),
}

/// Status reported for failures of the service itself.
pub const INTERNAL_SERVER_ERROR: u16 = 500;

/// Status reported for input that could not be read or is not acceptable.
pub const BAD_REQUEST: u16 = 400;

/// Status reported for a request without a valid token.
pub const UNAUTHORIZED: u16 = 401;

/// Status reported for something that is not there.
pub const NOT_FOUND: u16 = 404;

/// Status reported for something that is there already.
pub const CONFLICT: u16 = 409;

impl AppError {
    /// The HTTP status that stands for this failure.
    pub open spec fn status(&self) -> u16 {
        match self {
            AppError::DbError(_) => INTERNAL_SERVER_ERROR,
            AppError::IoError(_) => INTERNAL_SERVER_ERROR,
            AppError::JsonWebTokenError(_) => INTERNAL_SERVER_ERROR,
            AppError::ActixError { status, .. } => *status,
            AppError::SerdeError(_) => BAD_REQUEST,
        }
    }

    /// The text shown for this failure.
    pub open spec fn text(&self) -> Seq<char> {
        match self {
            AppError::DbError(m) => "Database Error: "@ + m@,
            AppError::IoError(m) => "Io Error: "@ + m@,
            AppError::SerdeError(m) => "Error while serializing or deserializing JSON: "@ + m@,
            AppError::ActixError { message, .. } => message@,
            AppError::JsonWebTokenError(m) => m@,
        }
    }

    /// This is an error response of the web layer with this status and text.
    pub open spec fn is_response(&self, status: u16, text: Seq<char>) -> bool {
        &&& *self matches AppError::ActixError { status: s, message: m }
        &&& s == status
        &&& m@ == text
    }

    /// The error response of the web layer with status 400 and this text.
    pub fn bad_request(message: &str) -> (e: AppError)
        ensures
            e.is_response(BAD_REQUEST, message@),
    {
        AppError::ActixError { status: BAD_REQUEST, message: message.to_owned() }
    }

    /// The error response of the web layer with status 409 and this text.
    pub fn conflict(message: &str) -> (e: AppError)
        ensures
            e.is_response(CONFLICT, message@),
    {
        AppError::ActixError { status: CONFLICT, message: message.to_owned() }
    }

    /// The error response of the web layer with status 404 and this text.
    pub fn not_found(message: &str) -> (e: AppError)
        ensures
            e.is_response(NOT_FOUND, message@),
    {
        AppError::ActixError { status: NOT_FOUND, message: message.to_owned() }
    }

    /// The error response of the web layer with status 401 and this text.
    pub fn unauthorized(message: &str) -> (e: AppError)
        ensures
            e.is_response(UNAUTHORIZED, message@),
    {
        AppError::ActixError { status: UNAUTHORIZED, message: message.to_owned() }
    }

    /// The HTTP status that this failure is answered with.
    pub fn status_code(&self) -> (code: u16)
        ensures
            code == self.status(),
    {
        match self {
            AppError::DbError(_) | AppError::IoError(_) | AppError::JsonWebTokenError(_) => {
                INTERNAL_SERVER_ERROR
            },
            AppError::ActixError { status, .. } => *status,
            AppError::SerdeError(_) => BAD_REQUEST,
        }
    }

    /// Renders the failure as one line of text.
    pub fn message(&self) -> (text: String)
        ensures
            text@ == self.text(),
    {
        match self {
            AppError::DbError(m) => String::from_str("Database Error: ").concat(m.as_str()),
            AppError::IoError(m) => String::from_str("Io Error: ").concat(m.as_str()),
            AppError::SerdeError(m) => String::from_str(
                "Error while serializing or deserializing JSON: ",
            ).concat(m.as_str()),
            AppError::ActixError { message, .. } => message.clone(),
            AppError::JsonWebTokenError(m) => m.clone(),
        }
    }
}

} // verus!
