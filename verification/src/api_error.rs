use vstd::prelude::*;
use crate::charge_engine::error::Error as ChargeEngineError;
use crate::data_error::DataError;
use crate::error_type::error_type_status;
use crate::ledger::error::LedgerError;
use crate::service_error::ServiceError;
use crate::foreign::{serde_error_text, serde_error_text_of};
use crate::text::{concat, owned};

verus! {

/// A failure answered to an HTTP client: its status and message.
#[derive(Debug, Clone)]
pub struct ApiError {
    pub status_code: u16,
    pub message: String,
}

/// Whether a number is a status code the HTTP layer accepts.
pub open spec fn is_valid_status(code: u16) -> bool {
    100 <= code < 1000
}

/// The status a failure is answered with: its own when valid, 500 otherwise.
pub open spec fn response_status(code: u16) -> u16 {
    if is_valid_status(code) {
        code
    } else {
        500
    }
}

/// The message a failure is answered with: its own below 500, a generic one
/// from 500 on, so that server-side detail is not shown to clients.
pub open spec fn response_message(code: u16, message: Seq<char>) -> Seq<char> {
    if response_status(code) < 500 {
        message
    } else {
        "Internal server error"@
    }
}

/// `StatusCode::from_u16` of the HTTP layer, read back with `as_u16`: the
/// code is accepted exactly when it lies in 100..1000, and then stands for
/// itself.
#[verifier::external_body]
fn http_status(code: u16) -> (r: Option<u16>)
    ensures
        r == (if is_valid_status(code) { Some(code) } else { None::<u16> }),
{
    match actix_web::http::StatusCode::from_u16(code) {
        Ok(status) => Some(status.as_u16()),
        Err(_) => None,
    }
}

impl ApiError {
    pub fn new(status_code: u16, message: String) -> (e: ApiError)
        ensures
            e.status_code == status_code,
            e.message == message,
    {
        ApiError { status_code, message }
    }

    /// The text this error is displayed as: its message.
    pub fn to_string(&self) -> (s: String)
        ensures
            s@ == self.message@,
    {
        self.message.clone()
    }

    /// The status and message the client is answered with; the body is the
    /// message under the key "message".
    pub fn error_response(&self) -> (r: (u16, String))
        ensures
            r.0 == response_status(self.status_code),
            r.1@ == response_message(self.status_code, self.message@),
    {
        let status = match http_status(self.status_code) {
            Some(s) => s,
            None => 500,
        };
        let message = if status < 500 {
            self.message.clone()
        } else {
            owned("Internal server error")
        };
        (status, message)
    }
}

/// A failure answered from 500 on never shows its own message.
pub proof fn lemma_server_errors_are_hidden(code: u16, message: Seq<char>)
    ensures
        response_status(code) >= 500 ==> response_message(code, message) == "Internal server error"@,
        is_valid_status(code) && code < 500 ==> response_message(code, message) == message,
        response_status(code) >= 100,
{
}

impl From<ChargeEngineError> for ApiError {
    /// A failure of the charge engine is a service error with status 500.
    fn from(value: ChargeEngineError) -> (e: ApiError)
        ensures
            e.status_code == 500,
            e.message@ == "Service error"@,
    {
        ApiError::new(500, owned("Service error"))
    }
}

impl vstd::std_specs::convert::FromSpecImpl<ChargeEngineError> for ApiError {
    open spec fn obeys_from_spec() -> bool {
        false
    }

    open spec fn from_spec(v: ChargeEngineError) -> ApiError {
        arbitrary()
    }
}

impl From<LedgerError> for ApiError {
    /// A failure of the ledger is a service error with status 500.
    fn from(value: LedgerError) -> (e: ApiError)
        ensures
            e.status_code == 500,
            e.message@ == "Service error"@,
    {
        ApiError::new(500, owned("Service error"))
    }
}

impl vstd::std_specs::convert::FromSpecImpl<LedgerError> for ApiError {
    open spec fn obeys_from_spec() -> bool {
        false
    }

    open spec fn from_spec(v: LedgerError) -> ApiError {
        arbitrary()
    }
}

impl From<DataError> for ApiError {
    fn from(value: DataError) -> (e: ApiError) {
        ApiError::new(value.error_type.status_code(), value.message)
    }
}

impl vstd::std_specs::convert::FromSpecImpl<DataError> for ApiError {
    open spec fn obeys_from_spec() -> bool {
        true
    }

    /// A data failure is answered with the status its kind is named after and
    /// its own message.
    open spec fn from_spec(v: DataError) -> ApiError {
        ApiError { status_code: error_type_status(v.error_type), message: v.message }
    }
}

impl From<ServiceError> for ApiError {
    fn from(value: ServiceError) -> (e: ApiError) {
        ApiError::new(value.status_code, value.message)
    }
}

impl vstd::std_specs::convert::FromSpecImpl<ServiceError> for ApiError {
    open spec fn obeys_from_spec() -> bool {
        true
    }

    /// A service failure keeps its status and message.
    open spec fn from_spec(v: ServiceError) -> ApiError {
        ApiError { status_code: v.status_code, message: v.message }
    }
}

impl From<serde_json::Error> for ApiError {
    /// A failure to read or write JSON is answered 500, with a message that
    /// begins "Serde Error error: " and goes on with the failure's text.
    fn from(error: serde_json::Error) -> (e: ApiError)
        ensures
            e.status_code == 500,
            e.message@ == "Serde Error error: "@ + serde_error_text_of(error),
    {
        let text = serde_error_text(&error);
        let message = concat("Serde Error error: ", text.as_str());
        ApiError::new(500, message)
    }
}

impl vstd::std_specs::convert::FromSpecImpl<serde_json::Error> for ApiError {
    open spec fn obeys_from_spec() -> bool {
        false
    }

    open spec fn from_spec(v: serde_json::Error) -> ApiError {
        arbitrary()
    }
}

impl From<r2d2::Error> for ApiError {
    /// A failure of the connection pool is answered 500.
    fn from(_error: r2d2::Error) -> (e: ApiError)
        ensures
            e.status_code == 500,
            e.message@ == "R2D2 error"@,
    {
        ApiError::new(500, owned("R2D2 error"))
    }
}

impl vstd::std_specs::convert::FromSpecImpl<r2d2::Error> for ApiError {
    open spec fn obeys_from_spec() -> bool {
        false
    }

    open spec fn from_spec(v: r2d2::Error) -> ApiError {
        arbitrary()
    }
}

} // verus!
