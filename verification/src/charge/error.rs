use vstd::prelude::*;
use crate::error::data_error::{data_error_cause, DataError};
use crate::ledger::error::LedgerError;

verus! {

/// How charging a card transaction failed.
#[derive(Debug, Clone)]
pub enum ChargeError {
    /// The request names no card, or a card without a token.
    NoCardInRequest,
    /// Anything else, with a description of the cause.
    Unexpected(String),
}

impl From<LedgerError> for ChargeError {
    fn from(value: LedgerError) -> (e: ChargeError) {
        match value {
            LedgerError::UnexpectedLedgerError(m) => ChargeError::Unexpected(m),
            LedgerError::DuplicateTransaction(m) => ChargeError::Unexpected(m),
        }
    }
}

impl vstd::std_specs::convert::FromSpecImpl<LedgerError> for ChargeError {
    open spec fn obeys_from_spec() -> bool {
        true
    }

    /// Every ledger failure is an unexpected charge failure that keeps the
    /// ledger's description.
    open spec fn from_spec(v: LedgerError) -> ChargeError {
        match v {
            LedgerError::UnexpectedLedgerError(m) => ChargeError::Unexpected(m),
            LedgerError::DuplicateTransaction(m) => ChargeError::Unexpected(m),
        }
    }
}

impl ChargeError {
    /// A failed database transaction of the charge flow is an unexpected
    /// charge failure that keeps the failure's description.
    pub fn from_data_error(e: DataError) -> (r: ChargeError)
        ensures
            r matches ChargeError::Unexpected(m) && m@ == data_error_cause(e),
    {
        ChargeError::Unexpected(e.cause())
    }
}

} // verus!
