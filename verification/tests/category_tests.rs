use card_router::category::constant::Category as CategoryEnum;
use card_router::category::entity::{Category, MccMapping};
use card_router::category::model::{CategoryModel, MccMappingModel};
use card_router::category::service::{category_result, mcc_mapping_result};
use card_router::category::error::CategoryError;
use card_router::error::data_error::DataError;

#[test]
fn test_conversions() {
    // The categories are stored as numbers through `From`, not as enum
    // discriminants.
    assert_eq!(1, i32::from(CategoryEnum::Hotels));
    assert_eq!(2, i32::from(CategoryEnum::CarRental));
    assert_eq!(3, i32::from(CategoryEnum::Airlines));
    assert_eq!(4, i32::from(CategoryEnum::Dining));
    assert_eq!(5, i32::from(CategoryEnum::SportingGoods));
    assert_eq!(6, i32::from(CategoryEnum::Transportation));
}

#[test]
fn test_from_mcc() {
    let mcc_entity = MccMapping {
        id: 69,
        public_id: Default::default(),
        mcc_code: "1234".to_string(),
        category_id: 1,
        created_at: Default::default(),
        updated_at: Default::default(),
    };
    let mcc_model = MccMappingModel::from(mcc_entity.clone());
    assert_eq!(mcc_entity.id, mcc_model.id);
    assert_eq!(mcc_entity.public_id, mcc_model.public_id);
    assert_eq!(mcc_entity.mcc_code, mcc_model.mcc_code);
    assert_eq!(mcc_entity.category_id, mcc_model.category_id);
}

#[test]
fn test_from_category() {
    let category_entity = Category {
        id: 69,
        public_id: Default::default(),
        name: "lol".to_string(),
        created_at: Default::default(),
        updated_at: Default::default(),
    };
    let category_model = CategoryModel::from(category_entity.clone());
    assert_eq!(category_entity.id, category_model.id);
    assert_eq!(category_entity.public_id, category_model.public_id);
    assert_eq!(category_entity.name, category_model.name);
}

#[test]
fn category_numbers_round_trip() {
    for c in [
        CategoryEnum::Hotels,
        CategoryEnum::CarRental,
        CategoryEnum::Airlines,
        CategoryEnum::Dining,
        CategoryEnum::SportingGoods,
        CategoryEnum::Transportation,
    ] {
        assert_eq!(Ok(c), CategoryEnum::from_sql(i32::from(&c)));
        assert_eq!(i32::from(c), c.to_sql());
    }
    assert_eq!(Err("Unknown value for RuleStatus found".to_string()), CategoryEnum::from_sql(0));
    assert_eq!(Err("Unknown value for RuleStatus found".to_string()), CategoryEnum::from_sql(7));
}

#[test]
fn categories_display_their_names() {
    assert_eq!("Hotels", CategoryEnum::Hotels.to_string());
    assert_eq!("Car Rental", CategoryEnum::CarRental.to_string());
    assert_eq!("Airlines", CategoryEnum::Airlines.to_string());
    assert_eq!("Dining", CategoryEnum::Dining.to_string());
    assert_eq!("Sporting Goods", CategoryEnum::SportingGoods.to_string());
    assert_eq!("Transportation", CategoryEnum::Transportation.to_string());
}

#[test]
fn category_lookup_ignores_case() {
    assert_eq!("hotels", Category::name_filter("HoTeLs"));
    assert_eq!("hotels", card_router::category::service::category_name_filter("HOTELS"));
}

#[test]
fn category_service_maps_lookups() {
    let found = Category {
        id: 4,
        public_id: Default::default(),
        name: "dining".to_string(),
        created_at: Default::default(),
        updated_at: Default::default(),
    };
    let model = category_result(Ok(found)).expect("found");
    assert_eq!(4, model.id);
    assert_eq!("dining", model.name);
    match category_result(Err(DataError::NotFound("no such category".into()))) {
        Err(CategoryError::Unexpected(m)) => assert_eq!("no such category", m),
        other => panic!("unexpected {:?}", other),
    }
    match mcc_mapping_result(Err(DataError::Conflict("dupe".into()))) {
        Err(CategoryError::Unexpected(m)) => assert_eq!("dupe", m),
        other => panic!("unexpected {:?}", other),
    }
}
