use vstd::prelude::*;
use uuid::Uuid;

verus! {

/// A credit card as the listing answers it.
#[derive(Debug, Clone)]
pub struct CardTypeResponse {
    pub public_id: Uuid,
    pub card_name: String,
    pub issuer_name: String,
    pub card_type: String,
    pub card_image_url: String,
}

} // verus!
