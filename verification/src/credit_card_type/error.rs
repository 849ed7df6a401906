use vstd::prelude::*;
use crate::error::data_error::{data_error_cause, DataError};

verus! {

/// How a credit card lookup failed, with a description of the cause.
#[derive(Debug, Clone)]
pub enum CreditCardTypeError {
    Unexpected(String),
}

/// Every data failure is unexpected to a credit card lookup, and keeps its
/// description.
pub open spec fn credit_card_type_error_of(v: DataError) -> CreditCardTypeError {
    match v {
        DataError::Conflict(e) => CreditCardTypeError::Unexpected(e),
        DataError::NotFound(e) => CreditCardTypeError::Unexpected(e),
        DataError::Format(e) => CreditCardTypeError::Unexpected(e),
        DataError::Unexpected(e) => CreditCardTypeError::Unexpected(e),
    }
}

/// The description a credit card error carries.
pub open spec fn credit_card_type_error_cause(e: CreditCardTypeError) -> Seq<char> {
    match e {
        CreditCardTypeError::Unexpected(m) => m@,
    }
}

impl CreditCardTypeError {
    /// Every credit card failure answers 500.
    pub fn status_code(&self) -> (s: u16)
        ensures
            s == 500,
    {
        match self {
            CreditCardTypeError::Unexpected(_) => 500,
        }
    }
}

impl From<DataError> for CreditCardTypeError {
    fn from(value: DataError) -> (r: CreditCardTypeError) {
        match value {
            DataError::Conflict(e) => CreditCardTypeError::Unexpected(e),
            DataError::NotFound(e) => CreditCardTypeError::Unexpected(e),
            DataError::Format(e) => CreditCardTypeError::Unexpected(e),
            DataError::Unexpected(e) => CreditCardTypeError::Unexpected(e),
        }
    }
}

impl vstd::std_specs::convert::FromSpecImpl<DataError> for CreditCardTypeError {
    open spec fn obeys_from_spec() -> bool {
        true
    }

    open spec fn from_spec(v: DataError) -> CreditCardTypeError {
        credit_card_type_error_of(v)
    }
}

/// Whatever data failure a credit card lookup meets, it answers it as
/// unexpected, with the same description.
pub proof fn lemma_credit_card_error_keeps_cause(e: DataError)
    ensures
        credit_card_type_error_cause(credit_card_type_error_of(e)) == data_error_cause(e),
{
}

/// Two credit card errors are equal when they are of the same kind; their
/// descriptions are not compared.
impl PartialEq for CreditCardTypeError {
    fn eq(&self, other: &Self) -> (r: bool) {
        match (self, other) {
            (CreditCardTypeError::Unexpected(_), CreditCardTypeError::Unexpected(_)) => true,
        }
    }
}

impl vstd::std_specs::cmp::PartialEqSpecImpl for CreditCardTypeError {
    open spec fn obeys_eq_spec() -> bool {
        true
    }

    open spec fn eq_spec(&self, other: &CreditCardTypeError) -> bool {
        self is Unexpected && other is Unexpected
    }
}

} // verus!
