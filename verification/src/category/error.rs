use vstd::prelude::*;
use crate::error::data_error::{data_error_cause, DataError};

verus! {

/// How a category lookup failed, with a description of the cause.
#[derive(Debug, Clone)]
pub enum CategoryError {
    Unexpected(String),
}

/// Every data failure is unexpected to a category lookup, and keeps its
/// description.
pub open spec fn category_error_of(v: DataError) -> CategoryError {
    match v {
        DataError::Conflict(e) => CategoryError::Unexpected(e),
        DataError::NotFound(e) => CategoryError::Unexpected(e),
        DataError::Format(e) => CategoryError::Unexpected(e),
        DataError::Unexpected(e) => CategoryError::Unexpected(e),
    }
}

impl From<DataError> for CategoryError {
    fn from(value: DataError) -> (r: CategoryError) {
        match value {
            DataError::Conflict(e) => CategoryError::Unexpected(e),
            DataError::NotFound(e) => CategoryError::Unexpected(e),
            DataError::Format(e) => CategoryError::Unexpected(e),
            DataError::Unexpected(e) => CategoryError::Unexpected(e),
        }
    }
}

impl vstd::std_specs::convert::FromSpecImpl<DataError> for CategoryError {
    open spec fn obeys_from_spec() -> bool {
        true
    }

    open spec fn from_spec(v: DataError) -> CategoryError {
        category_error_of(v)
    }
}

/// The description a category error carries.
pub open spec fn category_error_cause(e: CategoryError) -> Seq<char> {
    match e {
        CategoryError::Unexpected(m) => m@,
    }
}

/// Whatever data failure a category lookup meets, it answers it as
/// unexpected, with the same description.
pub proof fn lemma_category_error_keeps_cause(e: DataError)
    ensures
        category_error_of(e) is Unexpected,
        category_error_cause(category_error_of(e)) == data_error_cause(e),
{
}

} // verus!
