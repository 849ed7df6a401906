use vstd::prelude::*;
use uuid::Uuid;

verus! {

/// A payment sent through the card-data proxy to the payment provider.
#[derive(Clone, Debug)]
pub struct ChargeThroughProxyRequest {
    pub amount_cents: i32,
    pub mcc: String,
    pub payment_method_id: String,
    pub customer_public_id: Uuid,
    pub footprint_vault_id: Uuid,
    pub idempotency_key: Uuid,
    pub reference: Uuid,
    pub statement: String,
}

} // verus!
