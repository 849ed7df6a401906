use vstd::prelude::*;

verus! {

/// How a ledger entry failed.
#[derive(Debug, Clone)]
pub enum LedgerError {
    UnexpectedLedgerError(String),
    DuplicateTransaction(String),
}

/// The description a ledger error carries.
pub open spec fn ledger_error_cause(e: LedgerError) -> Seq<char> {
    match e {
        LedgerError::UnexpectedLedgerError(m) => m@,
        LedgerError::DuplicateTransaction(m) => m@,
    }
}

} // verus!
