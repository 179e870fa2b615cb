//! The closed classification of call failures.

use vstd::prelude::*;

verus! {

/// A classified failure cause.  HTTP-derived codes map well-known status
/// values; every other status is carried verbatim in `Other`.
#[derive(Debug, Clone, Copy, PartialEq, Eq, Structural)]
pub enum ErrorCode {
    InvalidAuthentication,
    NotSupported,
    RateLimited,
    ServerError,
    ServiceUnavailable,
    Other(u16),
}

/// The total mapping from an HTTP status to its error code.
pub open spec fn code_of_status(status: u16) -> ErrorCode {
    if status == 401 {
        ErrorCode::InvalidAuthentication
    } else if status == 403 {
        ErrorCode::NotSupported
    } else if status == 429 {
        ErrorCode::RateLimited
    } else if status == 500 {
        ErrorCode::ServerError
    } else if status == 503 {
        ErrorCode::ServiceUnavailable
    } else {
        ErrorCode::Other(status)
    }
}

impl ErrorCode {
    /// Classifies an HTTP status; total over the whole status range.
    pub fn from_http_status(status: u16) -> (r: ErrorCode)
        ensures
            r == code_of_status(status),
    {
        if status == 401 {
            ErrorCode::InvalidAuthentication
        } else if status == 403 {
            ErrorCode::NotSupported
        } else if status == 429 {
            ErrorCode::RateLimited
        } else if status == 500 {
            ErrorCode::ServerError
        } else if status == 503 {
            ErrorCode::ServiceUnavailable
        } else {
            ErrorCode::Other(status)
        }
    }
}

} // verus!
