//! Application-level error type shared by every service: a machine-readable
//! code together with a human-readable message.

use vstd::prelude::*;

verus! {

/// Error codes for application-level errors.
#[derive(Debug, Clone, Copy, PartialEq, Eq, Structural)]
pub enum ErrorCode {
    InternalError,
    ValidationError,
    DatabaseError,
    ResourceAlreadyExists,
    ResourceNotFound,
    InvalidCredentials,
}

/// Application-level error type (for business logic).
#[derive(Debug)]
pub struct Error {
    pub code: ErrorCode,
    pub message: String,
}

/// The default message attached to each error code.
pub open spec fn default_message(code: ErrorCode) -> Seq<char> {
    match code {
        ErrorCode::InternalError => "Internal server error"@,
        ErrorCode::ValidationError => "Validation error"@,
        ErrorCode::DatabaseError => "Database error"@,
        ErrorCode::ResourceAlreadyExists => "Resource already exists"@,
        ErrorCode::ResourceNotFound => "Resource not found"@,
        ErrorCode::InvalidCredentials => "Invalid credentials"@,
    }
}

impl Error {
    pub fn new(code: ErrorCode) -> (r: Error)
        ensures
            r.code == code,
            r.message@ == default_message(code),
    {
        let message = match code {
            ErrorCode::InternalError => "Internal server error",
            ErrorCode::ValidationError => "Validation error",
            ErrorCode::DatabaseError => "Database error",
            ErrorCode::ResourceAlreadyExists => "Resource already exists",
            ErrorCode::ResourceNotFound => "Resource not found",
            ErrorCode::InvalidCredentials => "Invalid credentials",
        }.to_owned();
        Error { code, message }
    }

    pub fn with_message(code: ErrorCode, message: String) -> (r: Error)
        ensures
            r.code == code,
            r.message == message,
    {
        Error { code, message }
    }
}

} // verus!
