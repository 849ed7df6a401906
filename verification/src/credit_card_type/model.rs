use vstd::prelude::*;
use uuid::Uuid;
use crate::credit_card_type::entity::{CreditCard, CreditCardIssuer, CreditCardType};
use crate::credit_card_type::typedef::CreditCardDetail;

verus! {

/// A credit card as the service hands it out.
#[derive(Debug, Clone)]
pub struct CreditCardModel {
    pub id: i32,
    pub public_id: Uuid,
    pub name: String,
    pub credit_card_type_id: i32,
    pub credit_card_issuer_id: i32,
    pub card_image_url: String,
}

/// A credit card with the names of its kind and issuer.
#[derive(Debug, Clone)]
pub struct CreditCardDetailModel {
    pub id: i32,
    pub public_id: Uuid,
    pub name: String,
    pub credit_card_type_id: i32,
    pub credit_card_issuer_id: i32,
    pub card_image_url: String,
    pub credit_card_type_name: String,
    pub credit_card_issuer_name: String,
}

/// A kind of credit card as the service hands it out.
#[derive(Debug, Clone)]
pub struct CreditCardTypeModel {
    pub id: i32,
    pub public_id: Uuid,
    pub name: String,
}

/// A credit card issuer as the service hands it out.
#[derive(Debug, Clone)]
pub struct CreditCardIssuerModel {
    pub id: i32,
    pub public_id: Uuid,
    pub name: String,
}

/// The model of a stored credit card: every field but the timestamps.
pub open spec fn credit_card_model_of(v: CreditCard) -> CreditCardModel {
    CreditCardModel {
        id: v.id,
        public_id: v.public_id,
        name: v.name,
        credit_card_type_id: v.credit_card_type_id,
        credit_card_issuer_id: v.credit_card_issuer_id,
        card_image_url: v.card_image_url,
    }
}

/// The model of a joined credit card: the card's fields with the names of
/// its kind and its issuer.
pub open spec fn credit_card_detail_model_of(v: CreditCardDetail) -> CreditCardDetailModel {
    CreditCardDetailModel {
        id: v.0.id,
        public_id: v.0.public_id,
        name: v.0.name,
        credit_card_type_id: v.0.credit_card_type_id,
        credit_card_issuer_id: v.0.credit_card_issuer_id,
        card_image_url: v.0.card_image_url,
        credit_card_type_name: v.1.name,
        credit_card_issuer_name: v.2.name,
    }
}

impl From<CreditCard> for CreditCardModel {
    fn from(value: CreditCard) -> (m: CreditCardModel) {
        CreditCardModel {
            id: value.id,
            public_id: value.public_id,
            name: value.name,
            credit_card_type_id: value.credit_card_type_id,
            credit_card_issuer_id: value.credit_card_issuer_id,
            card_image_url: value.card_image_url,
        }
    }
}

impl vstd::std_specs::convert::FromSpecImpl<CreditCard> for CreditCardModel {
    open spec fn obeys_from_spec() -> bool {
        true
    }

    open spec fn from_spec(v: CreditCard) -> CreditCardModel {
        credit_card_model_of(v)
    }
}

impl From<CreditCardType> for CreditCardTypeModel {
    fn from(value: CreditCardType) -> (m: CreditCardTypeModel) {
        CreditCardTypeModel { id: value.id, public_id: value.public_id, name: value.name }
    }
}

impl vstd::std_specs::convert::FromSpecImpl<CreditCardType> for CreditCardTypeModel {
    open spec fn obeys_from_spec() -> bool {
        true
    }

    open spec fn from_spec(v: CreditCardType) -> CreditCardTypeModel {
        CreditCardTypeModel { id: v.id, public_id: v.public_id, name: v.name }
    }
}

impl From<CreditCardIssuer> for CreditCardIssuerModel {
    fn from(value: CreditCardIssuer) -> (m: CreditCardIssuerModel) {
        CreditCardIssuerModel { id: value.id, public_id: value.public_id, name: value.name }
    }
}

impl vstd::std_specs::convert::FromSpecImpl<CreditCardIssuer> for CreditCardIssuerModel {
    open spec fn obeys_from_spec() -> bool {
        true
    }

    open spec fn from_spec(v: CreditCardIssuer) -> CreditCardIssuerModel {
        CreditCardIssuerModel { id: v.id, public_id: v.public_id, name: v.name }
    }
}

impl From<CreditCardDetail> for CreditCardDetailModel {
    fn from(value: CreditCardDetail) -> (m: CreditCardDetailModel)
        ensures
            m.id == value.0.id,
            m.public_id == value.0.public_id,
            m.name == value.0.name,
            m.credit_card_type_id == value.0.credit_card_type_id,
            m.credit_card_issuer_id == value.0.credit_card_issuer_id,
            m.card_image_url == value.0.card_image_url,
            m.credit_card_type_name == value.1.name,
            m.credit_card_issuer_name == value.2.name,
    {
        let (card, card_type, issuer) = value;
        CreditCardDetailModel {
            id: card.id,
            public_id: card.public_id,
            name: card.name,
            credit_card_type_id: card.credit_card_type_id,
            credit_card_issuer_id: card.credit_card_issuer_id,
            card_image_url: card.card_image_url,
            credit_card_type_name: card_type.name,
            credit_card_issuer_name: issuer.name,
        }
    }
}

impl vstd::std_specs::convert::FromSpecImpl<CreditCardDetail> for CreditCardDetailModel {
    open spec fn obeys_from_spec() -> bool {
        true
    }

    open spec fn from_spec(v: CreditCardDetail) -> CreditCardDetailModel {
        credit_card_detail_model_of(v)
    }
}

/// The model of a joined card keeps the card's own fields, takes the kind's
/// name from the kind and the issuer's name from the issuer.
pub proof fn lemma_credit_card_detail_model_fields(v: CreditCardDetail)
    ensures
        ({
            let m = credit_card_detail_model_of(v);
            &&& m.id == v.0.id
            &&& m.public_id == v.0.public_id
            &&& m.name == v.0.name
            &&& m.credit_card_type_id == v.0.credit_card_type_id
            &&& m.credit_card_issuer_id == v.0.credit_card_issuer_id
            &&& m.card_image_url == v.0.card_image_url
            &&& m.credit_card_type_name == v.1.name
            &&& m.credit_card_issuer_name == v.2.name
        }),
{
}

} // verus!
