//! The errors that the service answers with, and the HTTP status and
//! message that each is reported with.

use vstd::prelude::*;
use vstd::string::*;

verus! {

/// Every error the service can produce.
pub enum AppError {
    /// 404: resource not found.
    NotFound(String),
    /// 400: the client sent bad data.
    Validation(String),
    /// 409: for example a duplicate email.
    Conflict(String),
    /// 500: the database failed; holds the database error's text.
    Database(String),
    /// 500: anything else; holds the error's text.
    Internal(String),
}

/// Statuses that the errors map to.
pub const STATUS_BAD_REQUEST: u16 = 400;
pub const STATUS_NOT_FOUND: u16 = 404;
pub const STATUS_CONFLICT: u16 = 409;
pub const STATUS_INTERNAL_SERVER_ERROR: u16 = 500;

impl AppError {
    pub open spec fn spec_status(&self) -> u16 {
        match self {
            AppError::NotFound(_) => STATUS_NOT_FOUND,
            AppError::Validation(_) => STATUS_BAD_REQUEST,
            AppError::Conflict(_) => STATUS_CONFLICT,
            AppError::Database(_) => STATUS_INTERNAL_SERVER_ERROR,
            AppError::Internal(_) => STATUS_INTERNAL_SERVER_ERROR,
        }
    }

    /// The message that a client is shown: the detail of a client error, a
    /// fixed sentence for a server error, whose detail stays inside.
    pub open spec fn spec_public_message(&self) -> Seq<char> {
        match self {
            AppError::NotFound(m) => m@,
            AppError::Validation(m) => m@,
            AppError::Conflict(m) => m@,
            AppError::Database(_) => "A database error occurred"@,
            AppError::Internal(_) => "An internal error occurred"@,
        }
    }

    /// The error's full text, with its kind in front.
    pub open spec fn spec_describe(&self) -> Seq<char> {
        match self {
            AppError::NotFound(m) => "Resource not found: "@ + m@,
            AppError::Validation(m) => "Validation error: "@ + m@,
            AppError::Conflict(m) => "Conflict: "@ + m@,
            AppError::Database(m) => "Database error: "@ + m@,
            AppError::Internal(m) => "Internal error: "@ + m@,
        }
    }

    /// The HTTP status of the response to this error.
    pub fn status_code(&self) -> (s: u16)
        ensures
            s == self.spec_status(),
    {
        match self {
            AppError::NotFound(_) => STATUS_NOT_FOUND,
            AppError::Validation(_) => STATUS_BAD_REQUEST,
            AppError::Conflict(_) => STATUS_CONFLICT,
            AppError::Database(_) => STATUS_INTERNAL_SERVER_ERROR,
            AppError::Internal(_) => STATUS_INTERNAL_SERVER_ERROR,
        }
    }

    /// The message in the body of the response to this error.
    pub fn public_message(&self) -> (s: String)
        ensures
            s@ == self.spec_public_message(),
    {
        match self {
            AppError::NotFound(m) => m.clone(),
            AppError::Validation(m) => m.clone(),
            AppError::Conflict(m) => m.clone(),
            AppError::Database(_) => String::from_str("A database error occurred"),
            AppError::Internal(_) => String::from_str("An internal error occurred"),
        }
    }

    /// The status and the message of the response to this error.
    pub fn into_response_parts(self) -> (r: (u16, String))
        ensures
            r.0 == self.spec_status(),
            r.1@ == self.spec_public_message(),
    {
        let status = self.status_code();
        let message = self.public_message();
        (status, message)
    }

    /// The error's full text, as it is logged.
    pub fn describe(&self) -> (s: String)
        ensures
            s@ == self.spec_describe(),
    {
        match self {
            AppError::NotFound(m) => String::from_str("Resource not found: ").concat(m.as_str()),
            AppError::Validation(m) => String::from_str("Validation error: ").concat(m.as_str()),
            AppError::Conflict(m) => String::from_str("Conflict: ").concat(m.as_str()),
            AppError::Database(m) => String::from_str("Database error: ").concat(m.as_str()),
            AppError::Internal(m) => String::from_str("Internal error: ").concat(m.as_str()),
        }
    }
}


/// A server error never shows its detail to the client: its status is 500
/// and its message one of two fixed sentences; a client error shows its
/// own message.
pub proof fn law_server_errors_hide_details(e: AppError)
    ensures
        e.spec_status() == STATUS_INTERNAL_SERVER_ERROR <==> (e is Database || e is Internal),
        e is Database ==> e.spec_public_message() == "A database error occurred"@,
        e is Internal ==> e.spec_public_message() == "An internal error occurred"@,
        e matches AppError::NotFound(m) ==> e.spec_public_message() == m@,
        e matches AppError::Validation(m) ==> e.spec_public_message() == m@,
        e matches AppError::Conflict(m) ==> e.spec_public_message() == m@,
{
}

} // verus!
