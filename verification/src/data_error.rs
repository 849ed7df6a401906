use vstd::prelude::*;
use crate::error_type::ErrorType;
use crate::foreign::{diesel_failure, diesel_failure_of, serde_error_text, serde_error_text_of};
use crate::text::{concat, owned};

verus! {

/// A failure of a data access: its kind and message.
#[derive(Debug, Clone)]
pub struct DataError {
    pub error_type: ErrorType,
    pub message: String,
}

impl DataError {
    pub fn new(error_type: ErrorType, message: &str) -> (e: DataError)
        ensures
            e.error_type == error_type,
            e.message@ == message@,
    {
        DataError { error_type, message: owned(message) }
    }

    /// The text this error is displayed as: its message.
    pub fn to_string(&self) -> (s: String)
        ensures
            s@ == self.message@,
    {
        self.message.clone()
    }
}

/// What a failure of the database layer is, as far as the service tells it
/// apart: one the database reported, with its message; no row found; or any
/// other, with its description.
#[derive(Debug, Clone)]
pub enum DieselFailure {
    Database(String),
    NotFound,
    Other(String),
}

/// The kind of data failure a failure of the database layer is: every
/// failure the database reports is taken for a conflict, a missing row is
/// not found, and anything else is internal.
pub open spec fn diesel_failure_type(f: DieselFailure) -> ErrorType {
    match f {
        DieselFailure::Database(_) => ErrorType::Conflict,
        DieselFailure::NotFound => ErrorType::NotFound,
        DieselFailure::Other(_) => ErrorType::InternalServerError,
    }
}

/// The message of the data failure a failure of the database layer becomes.
pub open spec fn diesel_failure_message(f: DieselFailure) -> Seq<char> {
    match f {
        DieselFailure::Database(m) => m@,
        DieselFailure::NotFound => "Record not found"@,
        DieselFailure::Other(m) => "Diesel error: "@ + m@,
    }
}

impl DataError {
    /// The data failure a failure of the database layer becomes.
    pub fn from_diesel_failure(f: DieselFailure) -> (e: DataError)
        ensures
            e.error_type == diesel_failure_type(f),
            e.message@ == diesel_failure_message(f),
    {
        match f {
            DieselFailure::Database(m) => DataError::new(ErrorType::Conflict, m.as_str()),
            DieselFailure::NotFound => DataError::new(ErrorType::NotFound, "Record not found"),
            DieselFailure::Other(m) => {
                let message = concat("Diesel error: ", m.as_str());
                DataError::new(ErrorType::InternalServerError, message.as_str())
            },
        }
    }
}

impl From<diesel::result::Error> for DataError {
    fn from(error: diesel::result::Error) -> (e: DataError)
        ensures
            e.error_type == diesel_failure_type(diesel_failure_of(error)),
            e.message@ == diesel_failure_message(diesel_failure_of(error)),
    {
        DataError::from_diesel_failure(diesel_failure(error))
    }
}

impl vstd::std_specs::convert::FromSpecImpl<diesel::result::Error> for DataError {
    open spec fn obeys_from_spec() -> bool {
        false
    }

    open spec fn from_spec(v: diesel::result::Error) -> DataError {
        arbitrary()
    }
}

impl From<r2d2::Error> for DataError {
    fn from(_error: r2d2::Error) -> (e: DataError)
        ensures
            e.error_type == ErrorType::InternalServerError,
            e.message@ == "R2D2 error"@,
    {
        DataError::new(ErrorType::InternalServerError, "R2D2 error")
    }
}

impl vstd::std_specs::convert::FromSpecImpl<r2d2::Error> for DataError {
    open spec fn obeys_from_spec() -> bool {
        false
    }

    open spec fn from_spec(v: r2d2::Error) -> DataError {
        arbitrary()
    }
}

impl From<serde_json::Error> for DataError {
    fn from(error: serde_json::Error) -> (e: DataError)
        ensures
            e.error_type == ErrorType::InternalServerError,
            e.message@ == "Serde Error error: "@ + serde_error_text_of(error),
    {
        let text = serde_error_text(&error);
        let message = concat("Serde Error error: ", text.as_str());
        DataError::new(ErrorType::InternalServerError, message.as_str())
    }
}

impl vstd::std_specs::convert::FromSpecImpl<serde_json::Error> for DataError {
    open spec fn obeys_from_spec() -> bool {
        false
    }

    open spec fn from_spec(v: serde_json::Error) -> DataError {
        arbitrary()
    }
}

impl From<bb8::RunError<diesel_async::pooled_connection::PoolError>> for DataError {
    fn from(_error: bb8::RunError<diesel_async::pooled_connection::PoolError>) -> (e: DataError)
        ensures
            e.error_type == ErrorType::InternalServerError,
            e.message@ == "BB8 error"@,
    {
        DataError::new(ErrorType::InternalServerError, "BB8 error")
    }
}

impl vstd::std_specs::convert::FromSpecImpl<bb8::RunError<diesel_async::pooled_connection::PoolError>> for DataError {
    open spec fn obeys_from_spec() -> bool {
        false
    }

    open spec fn from_spec(v: bb8::RunError<diesel_async::pooled_connection::PoolError>) -> DataError {
        arbitrary()
    }
}

impl From<std::num::ParseIntError> for DataError {
    fn from(_error: std::num::ParseIntError) -> (e: DataError)
        ensures
            e.error_type == ErrorType::InternalServerError,
            e.message@ == "Parse error"@,
    {
        DataError::new(ErrorType::InternalServerError, "Parse error")
    }
}


impl vstd::std_specs::convert::FromSpecImpl<std::num::ParseIntError> for DataError {
    open spec fn obeys_from_spec() -> bool {
        false
    }

    open spec fn from_spec(v: std::num::ParseIntError) -> DataError {
        arbitrary()
    }
}

} // verus!
