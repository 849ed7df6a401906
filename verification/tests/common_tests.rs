use card_router::asa::request::{AsaRequest, Merchant};
use card_router::common::model::TransactionMetadata;
use card_router::error::data_error::DataError;

const AMOUNT: i32 = 100;
const MCC: &str = "7184";

const DESCRIPTOR: &str = "Kyle's Coffee";

fn request(amount: Option<i32>, merchant: Option<Merchant>) -> AsaRequest {
    AsaRequest {
        amount,
        acquirer_fee: None,
        authorization_amount: None,
        avs: None,
        card: None,
        cardholder_authentication: None,
        cash_amount: None,
        conversion_rate_bits: None,
        created: None,
        events: None,
        funding: None,
        merchant_amount: None,
        merchant_currency: None,
        merchant,
        network: None,
        network_risk_score: None,
        pos: None,
        settled_amount: None,
        status: None,
        token: None,
        token_info: None,
    }
}

fn merchant(descriptor: Option<&str>, mcc: Option<&str>) -> Merchant {
    Merchant {
        acceptor_id: None,
        city: None,
        country: None,
        descriptor: descriptor.map(|d| d.to_string()),
        mcc: mcc.map(|m| m.to_string()),
        state: None,
    }
}

#[test]
pub fn test_convert() {
    let req = request(Some(AMOUNT), Some(merchant(Some(DESCRIPTOR), Some(MCC))));
    let txn = TransactionMetadata::convert(&req).expect("Should be no error");
    assert_eq!(AMOUNT, txn.amount_cents);
    assert_eq!(DESCRIPTOR, txn.memo.as_str());
    assert_eq!(MCC, txn.mcc.as_str());
}

#[test]
pub fn test_convert_throws_no_merchant() {
    let req = request(Some(AMOUNT), None);
    let error = TransactionMetadata::convert(&req).expect_err("Should be error");
    assert_eq!(DataError::Format("test".into()), error);
}

#[test]
pub fn test_convert_throws_no_mcc() {
    let req = request(Some(AMOUNT), Some(merchant(Some(DESCRIPTOR), None)));
    let error = TransactionMetadata::convert(&req).expect_err("Should be error");
    assert_eq!(DataError::Format("test".into()), error);
}

#[test]
pub fn test_convert_throws_no_amount() {
    let req = request(None, Some(merchant(Some(DESCRIPTOR), Some(MCC))));
    let error = TransactionMetadata::convert(&req).expect_err("Should be error");
    assert_eq!(DataError::Format("test".into()), error);
}

#[test]
pub fn test_convert_throws_no_descriptor() {
    let req = request(Some(AMOUNT), Some(merchant(None, None)));
    let error = TransactionMetadata::convert(&req).expect_err("Should be error");
    assert_eq!(DataError::Format("test".into()), error);
}

#[test]
fn convert_names_the_first_missing_field() {
    let cases = [
        (request(None, None), "missing merchant"),
        (request(None, Some(merchant(None, Some(MCC)))), "missing descriptor"),
        (request(None, Some(merchant(Some(DESCRIPTOR), None))), "missing mcc"),
        (request(None, Some(merchant(Some(DESCRIPTOR), Some(MCC)))), "missing amount"),
    ];
    for (req, expected) in cases {
        match TransactionMetadata::convert(&req) {
            Err(DataError::Format(m)) => assert_eq!(expected, m),
            other => panic!("unexpected {:?}", other),
        }
    }
}
