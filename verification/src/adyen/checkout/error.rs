use vstd::prelude::*;
use crate::error::api_error::{ApiError, api_error_cause};
use crate::foreign::{serde_error_text, serde_error_text_of};

verus! {

/// How a checkout with the payment provider failed.
#[derive(Debug, Clone)]
pub enum CheckoutError {
    UnauthorizedCheckoutAttempt(String),
    DuplicateCheckoutError(String),
    UnexpectedCheckoutError(String),
}

/// The checkout failure an API failure stands for: an unauthorized call is an
/// unauthorized checkout attempt, a conflict a duplicate checkout, and every
/// other failure an unexpected one; the description is kept.
pub open spec fn checkout_error_for(e: ApiError) -> CheckoutError {
    match e {
        ApiError::Unauthorized(m) => CheckoutError::UnauthorizedCheckoutAttempt(m),
        ApiError::NotFound(m) => CheckoutError::UnexpectedCheckoutError(m),
        ApiError::BadRequest(m) => CheckoutError::UnexpectedCheckoutError(m),
        ApiError::Conflict(m) => CheckoutError::DuplicateCheckoutError(m),
        ApiError::InternalServerError(m) => CheckoutError::UnexpectedCheckoutError(m),
        ApiError::Timeout(m) => CheckoutError::UnexpectedCheckoutError(m),
        ApiError::Unexpected(m) => CheckoutError::UnexpectedCheckoutError(m),
    }
}

impl From<ApiError> for CheckoutError {
    fn from(value: ApiError) -> (e: CheckoutError) {
        match value {
            ApiError::Unauthorized(m) => CheckoutError::UnauthorizedCheckoutAttempt(m),
            ApiError::NotFound(m) => CheckoutError::UnexpectedCheckoutError(m),
            ApiError::BadRequest(m) => CheckoutError::UnexpectedCheckoutError(m),
            ApiError::Conflict(m) => CheckoutError::DuplicateCheckoutError(m),
            ApiError::InternalServerError(m) => CheckoutError::UnexpectedCheckoutError(m),
            ApiError::Timeout(m) => CheckoutError::UnexpectedCheckoutError(m),
            ApiError::Unexpected(m) => CheckoutError::UnexpectedCheckoutError(m),
        }
    }
}

impl vstd::std_specs::convert::FromSpecImpl<ApiError> for CheckoutError {
    open spec fn obeys_from_spec() -> bool {
        true
    }

    open spec fn from_spec(v: ApiError) -> CheckoutError {
        checkout_error_for(v)
    }
}

/// The description a checkout error carries.
pub open spec fn checkout_error_cause(e: CheckoutError) -> Seq<char> {
    match e {
        CheckoutError::UnauthorizedCheckoutAttempt(m) => m@,
        CheckoutError::DuplicateCheckoutError(m) => m@,
        CheckoutError::UnexpectedCheckoutError(m) => m@,
    }
}

/// Converting an API failure keeps its description.
pub proof fn lemma_checkout_error_keeps_cause(e: ApiError)
    ensures
        checkout_error_cause(checkout_error_for(e)) == api_error_cause(e),
{
}

impl From<serde_json::Error> for CheckoutError {
    /// A failure to read or write JSON is an unexpected checkout failure,
    /// described by the failure's text.
    fn from(value: serde_json::Error) -> (e: CheckoutError)
        ensures
            e matches CheckoutError::UnexpectedCheckoutError(m) && m@ == serde_error_text_of(value),
    {
        CheckoutError::UnexpectedCheckoutError(serde_error_text(&value))
    }
}

impl vstd::std_specs::convert::FromSpecImpl<serde_json::Error> for CheckoutError {
    open spec fn obeys_from_spec() -> bool {
        false
    }

    open spec fn from_spec(v: serde_json::Error) -> CheckoutError {
        arbitrary()
    }
}

} // verus!
