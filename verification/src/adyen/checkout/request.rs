use vstd::prelude::*;
use uuid::Uuid;

verus! {

/// The card details a customer adds a card with.
#[derive(Debug, Clone)]
pub struct AddCardRequest {
    pub number: String,
    pub expiry_month: String,
    pub expiry_year: String,
    pub cvc: String,
    pub holder_name: String,
    /// The customer's public id.
    pub public_id: String,
}

/// A charge of a stored card, borrowing its parts from the caller.
#[derive(Debug)]
pub struct ChargeCardRequest<'a> {
    pub amount_cents: i32,
    pub mcc: &'a str,
    pub payment_method_id: &'a str,
    pub customer_public_id: &'a Uuid,
    pub idempotency_key: &'a Uuid,
    pub reference: &'a str,
    pub statement: &'a str,
}

} // verus!
