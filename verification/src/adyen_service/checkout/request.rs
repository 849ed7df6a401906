use vstd::prelude::*;
use uuid::Uuid;

verus! {

/// The card details a customer adds a card with.
#[derive(Debug, Clone)]
pub struct AddCardRequest {
    pub number: String,
    pub expiry_month: String,
    pub expiry_year: String,
    pub cvc: String,
    pub holder_name: String,
    /// The customer's public id.
    pub public_id: String,
}

/// A charge of a stored card.
#[derive(Debug, Clone)]
pub struct ChargeCardRequest {
    pub amount_cents: i32,
    pub mcc: String,
    pub payment_method_id: String,
    pub customer_public_id: Uuid,
    pub idempotency_key: String,
    pub reference: String,
    pub statement: String,
}

} // verus!
