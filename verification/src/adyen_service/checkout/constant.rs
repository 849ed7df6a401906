use vstd::prelude::*;

verus! {

/// Where a payment authorization stands.
#[derive(Clone, Copy, Debug, PartialEq, Eq, Structural)]
pub enum AuthorizationStatus {
    AUTHORISED,
    PENDING,
    DENIED,
}

} // verus!
