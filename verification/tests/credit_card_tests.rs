use card_router::credit_card_type::constant::CreditCardTypeEnum;
use card_router::credit_card_type::controller::list_cards;
use card_router::credit_card_type::entity::{CreditCard, CreditCardIssuer, CreditCardType};
use card_router::credit_card_type::error::CreditCardTypeError;
use card_router::credit_card_type::model::{
    CreditCardDetailModel, CreditCardIssuerModel, CreditCardModel, CreditCardTypeModel,
};
use card_router::credit_card_type::service::{find_by_public_id_result, list_all_card_types_result};
use card_router::error::data_error::DataError;
use uuid::Uuid;

const CREDIT_CARD_NAME: &str = "Sapphire Reserve";
const CREDIT_CARD_ISSUER: &str = "Chase";
const CARD_IMAGE_URL: &str = "www.prettyphoto.com";

fn card(id: i32, name: &str) -> CreditCard {
    CreditCard {
        id,
        public_id: Uuid::new_v4(),
        name: name.to_string(),
        credit_card_type_id: 2,
        credit_card_issuer_id: 5,
        card_image_url: CARD_IMAGE_URL.to_string(),
        created_at: Default::default(),
        updated_at: Default::default(),
    }
}

fn card_type(name: &str) -> CreditCardType {
    CreditCardType { id: 2, public_id: Uuid::new_v4(), name: name.to_string(), created_at: Default::default(), updated_at: Default::default() }
}

fn issuer(name: &str) -> CreditCardIssuer {
    CreditCardIssuer { id: 5, public_id: Uuid::new_v4(), name: name.to_string(), created_at: Default::default(), updated_at: Default::default() }
}

#[test]
pub fn test_from_credit_card_detail() {}

#[test]
pub fn test_from_credit_card() {
    let public_id = Uuid::new_v4();
    let card = CreditCard {
        id: 3,
        public_id: public_id.clone(),
        name: CREDIT_CARD_NAME.to_string(),
        credit_card_type_id: 2,
        credit_card_issuer_id: 5,
        card_image_url: CARD_IMAGE_URL.to_string(),
        created_at: Default::default(),
        updated_at: Default::default(),
    };
    let model = CreditCardModel::from(card.clone());
    assert_eq!(model.id, card.id);
    assert_eq!(model.public_id, card.public_id);
    assert_eq!(model.card_image_url, card.card_image_url);
    assert_eq!(model.name, card.name);
    assert_eq!(model.credit_card_issuer_id, card.credit_card_issuer_id);
    assert_eq!(model.credit_card_type_id, card.credit_card_type_id);
}

#[test]
pub fn test_from_credit_card_issuer() {
    let issuer = CreditCardIssuer {
        id: 1,
        public_id: Uuid::new_v4(),
        name: CREDIT_CARD_ISSUER.to_string(),
        created_at: Default::default(),
        updated_at: Default::default(),
    };

    let model = CreditCardIssuerModel::from(issuer.clone());

    assert_eq!(model.id, issuer.id);
    assert_eq!(model.public_id, issuer.public_id);
    assert_eq!(model.name, issuer.name);
}

#[test]
pub fn test_from_credit_card_type() {
    let cc_type = CreditCardType {
        id: 2,
        public_id: Uuid::new_v4(),
        name: CREDIT_CARD_NAME.to_string(),
        created_at: Default::default(),
        updated_at: Default::default(),
    };

    let model = CreditCardTypeModel::from(cc_type.clone());

    assert_eq!(model.id, cc_type.id);
    assert_eq!(model.public_id, cc_type.public_id);
    assert_eq!(model.name, cc_type.name);
}

#[test]
fn detail_model_joins_the_names() {
    let c = card(3, CREDIT_CARD_NAME);
    let public_id = c.public_id;
    let model = CreditCardDetailModel::from((c, card_type("Travel"), issuer(CREDIT_CARD_ISSUER)));
    assert_eq!(3, model.id);
    assert_eq!(public_id, model.public_id);
    assert_eq!(CREDIT_CARD_NAME, model.name);
    assert_eq!("Travel", model.credit_card_type_name);
    assert_eq!(CREDIT_CARD_ISSUER, model.credit_card_issuer_name);
}

#[test]
fn listing_keeps_every_card_in_order() {
    let listed = vec![
        (card(1, "Sapphire Preferred"), card_type("Travel"), issuer("Chase")),
        (card(2, "Sapphire Reserve"), card_type("Travel"), issuer("Chase")),
        (card(3, "World Elite"), card_type("Rent"), issuer("Bilt")),
    ];
    let models = list_all_card_types_result(Ok(listed)).expect("listed");
    assert_eq!(3, models.len());
    assert_eq!(vec![1, 2, 3], models.iter().map(|m| m.id).collect::<Vec<_>>());
    let body = list_cards(Ok(models.clone())).expect("answered");
    assert_eq!(3, body.len());
    assert_eq!("World Elite", body[2].card_name);
    assert_eq!("Bilt", body[2].issuer_name);
    assert_eq!("Rent", body[2].card_type);
    assert_eq!(models[2].public_id, body[2].public_id);
    assert_eq!(CARD_IMAGE_URL, body[0].card_image_url);
}

#[test]
fn lookup_failures_are_unexpected() {
    match list_all_card_types_result(Err(DataError::Unexpected("db down".into()))) {
        Err(CreditCardTypeError::Unexpected(m)) => assert_eq!("db down", m),
        other => panic!("unexpected {:?}", other),
    }
    match find_by_public_id_result(Err(DataError::NotFound("no card".into()))) {
        Err(CreditCardTypeError::Unexpected(m)) => assert_eq!("no card", m),
        other => panic!("unexpected {:?}", other),
    }
    let found = find_by_public_id_result(Ok(card(7, "Card"))).expect("found");
    assert_eq!(7, found.id);
    assert!(list_cards(Err(CreditCardTypeError::Unexpected("x".into()))).is_err());
}

#[test]
fn card_products_have_stored_numbers() {
    assert_eq!(1, i32::from(CreditCardTypeEnum::ChaseSapphirePreferred));
    assert_eq!(2, i32::from(CreditCardTypeEnum::ChaseSapphireReserve));
    assert_eq!(3, i32::from(CreditCardTypeEnum::BiltWorldElite));
}
