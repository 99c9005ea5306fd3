//! Error taxonomy of the service and its mapping to HTTP responses.
//!
//! `NotFound` answers a request for an absent catalog record,
//! `ValidationError` a malformed client input, and
//! `InternalServerError` a server-side fault (unreadable or malformed
//! backing file). The mapping keeps internal detail out of the reply:
//! the caller of an `InternalServerError` sees only a generic message.

use vstd::prelude::*;

verus! {

#[derive(Debug, Clone, PartialEq, Eq)]
pub enum AppError {
    NotFound,
    InternalServerError(String),
    ValidationError(String),
}

impl AppError {
    /// HTTP status code that this error maps to.
    pub open spec fn status_spec(&self) -> u16 {
        match self {
            AppError::NotFound => 404,
            AppError::InternalServerError(_) => 500,
            AppError::ValidationError(_) => 400,
        }
    }

    /// User-facing message of this error. The detail carried by an
    /// internal error is never exposed, only a generic message.
    pub open spec fn message_spec(&self) -> Seq<char> {
        match self {
            AppError::NotFound => "Resource not found"@,
            AppError::InternalServerError(_) => "Internal server error"@,
            AppError::ValidationError(m) => m@,
        }
    }

    /// Status code and message body of the HTTP error response.
    pub fn into_response(self) -> (r: (u16, String))
        ensures
            r.0 == self.status_spec(),
            r.1@ == self.message_spec(),
    {
        match self {
            AppError::NotFound => (404, String::from_str("Resource not found")),
            AppError::InternalServerError(_) => (500, String::from_str("Internal server error")),
            AppError::ValidationError(m) => (400, m),
        }
    }
}

} // verus!
