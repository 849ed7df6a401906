use vstd::prelude::*;
use crate::api_error::ApiError;
use crate::text::owned;

verus! {

/// The body a successful login answers with.
#[derive(Debug, Clone)]
pub struct LoginResponse {
    pub token: String,
}

/// What a login answers, given whether the email and password matched a
/// user and, if so, the token issued for that user (`None` when issuing it
/// failed).
pub fn login(user_found: bool, token: Option<String>) -> (r: Result<LoginResponse, ApiError>)
    ensures
        !user_found ==> (r matches Err(e) && e.status_code == 401 && e.message@ == "Invalid user"@),
        user_found ==> match token {
            None => r matches Err(e) && e.status_code == 401 && e.message@ == "Invalid credentials"@,
            Some(t) => r matches Ok(body) && body.token == t,
        },
{
    if !user_found {
        return Err(ApiError::new(401, owned("Invalid user")));
    }
    match token {
        None => Err(ApiError::new(401, owned("Invalid credentials"))),
        Some(t) => Ok(LoginResponse { token: t }),
    }
}

/// Logging out is not offered: every request is answered 500.
pub fn logout() -> (r: Result<(), ApiError>)
    ensures
        r matches Err(e) && e.status_code == 500 && e.message@ == "Not implemented"@,
{
    Err(ApiError::new(500, owned("Not implemented")))
}

} // verus!
