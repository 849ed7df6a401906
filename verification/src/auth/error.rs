use vstd::prelude::*;

verus! {

/// How authenticating a request failed, with a description of the cause.
#[derive(Debug, Clone)]
pub enum AuthError {
    Unauthorized(String),
    Unexpected(String),
}

/// The HTTP status an authentication failure answers with.
pub open spec fn auth_error_status(e: AuthError) -> u16 {
    match e {
        AuthError::Unauthorized(_) => 401,
        AuthError::Unexpected(_) => 500,
    }
}

impl AuthError {
    /// 401 for an unauthorized request, 500 for an unexpected failure.
    pub fn status_code(&self) -> (s: u16)
        ensures
            s == auth_error_status(*self),
    {
        match self {
            AuthError::Unauthorized(_) => 401,
            AuthError::Unexpected(_) => 500,
        }
    }
}

} // verus!
