use vstd::prelude::*;

verus! {

/// How a call to a payment provider failed, with a description of the cause.
#[derive(Debug, Clone)]
pub enum ApiError {
    Unauthorized(String),
    NotFound(String),
    BadRequest(String),
    Conflict(String),
    InternalServerError(String),
    Timeout(String),
    Unexpected(String),
}

/// The description an API error carries.
pub open spec fn api_error_cause(e: ApiError) -> Seq<char> {
    match e {
        ApiError::Unauthorized(m) => m@,
        ApiError::NotFound(m) => m@,
        ApiError::BadRequest(m) => m@,
        ApiError::Conflict(m) => m@,
        ApiError::InternalServerError(m) => m@,
        ApiError::Timeout(m) => m@,
        ApiError::Unexpected(m) => m@,
    }
}

} // verus!
