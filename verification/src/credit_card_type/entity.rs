use vstd::prelude::*;
use chrono::NaiveDateTime;
use uuid::Uuid;

verus! {

/// A stored credit card product.
#[derive(Clone, Debug)]
pub struct CreditCard {
    pub id: i32,
    pub public_id: Uuid,
    pub name: String,
    pub credit_card_type_id: i32,
    pub credit_card_issuer_id: i32,
    pub card_image_url: String,
    pub created_at: NaiveDateTime,
    pub updated_at: NaiveDateTime,
}

/// A stored kind of credit card.
#[derive(Clone, Debug)]
pub struct CreditCardType {
    pub id: i32,
    pub public_id: Uuid,
    pub name: String,
    pub created_at: NaiveDateTime,
    pub updated_at: NaiveDateTime,
}

/// A stored credit card issuer.
#[derive(Clone, Debug)]
pub struct CreditCardIssuer {
    pub id: i32,
    pub public_id: Uuid,
    pub name: String,
    pub created_at: NaiveDateTime,
    pub updated_at: NaiveDateTime,
}

} // verus!
