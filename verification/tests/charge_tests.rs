use card_router::adyen::checkout::model::{PaymentResponse, ResultCode};
use card_router::adyen::checkout::request::ChargeCardRequest;
use card_router::adyen_service::checkout::service::{add_card_payment, cancel_payment, card_on_file_payment, PaymentMethodPlan};
use card_router::asa::request::{create_example_asa, AsaRequest};
use card_router::asa::response::AsaResponseResult;
use card_router::charge::constant::{ChargeCardAttemptResult, ChargeEngineResult, ChargeStatus};
use card_router::charge::entity::{ExpectedWalletChargeReference, WalletCardCharge};
use card_router::charge::error::ChargeError;
use card_router::charge::model::RegisteredTransactionModel;
use card_router::charge::service::{
    asa_charge_answer, asa_charge_metadata, passthrough_record, wallet_charge_record, LedgerInstruction,
    WalletChargeRun,
};
use card_router::charge_engine::engine::{
    engine_answer, engine_cancel_step, engine_card_check, engine_card_step, EngineCardStep,
};
use card_router::passthrough_card::model::PassthroughCardModel;
use card_router::wallet::model::WalletModelWithRule;
use uuid::Uuid;

fn registered() -> RegisteredTransactionModel {
    RegisteredTransactionModel {
        id: 10,
        user_id: 20,
        transaction_id: Uuid::new_v4(),
        memo: "Kyle's Coffee".to_string(),
        amount_cents: 700,
        mcc: "5812".to_string(),
    }
}

fn wallet(id: i32) -> WalletModelWithRule {
    WalletModelWithRule { id, user_id: 20, payment_method_id: format!("pm-{}", id), rule_id: Some(3) }
}

fn reservation() -> ExpectedWalletChargeReference {
    ExpectedWalletChargeReference {
        id: 30,
        registered_transaction_id: 10,
        reference_id: Uuid::new_v4(),
        user_id: 20,
        wallet_card_id: 1,
        amount_cents: 700,
        created_at: Default::default(),
        updated_at: Default::default(),
    }
}

fn response(code: Option<ResultCode>, amount: Option<i64>) -> PaymentResponse {
    PaymentResponse {
        result_code: code,
        psp_reference: Some("psp-1".to_string()),
        merchant_reference: Some("ref-1".to_string()),
        amount_value: amount,
    }
}

fn wallet_charge(id: i32) -> WalletCardCharge {
    WalletCardCharge {
        id,
        registered_transaction_id: 10,
        user_id: 20,
        wallet_card_id: id,
        amount_cents: 700,
        rule_id: None,
        expected_wallet_charge_reference_id: 30,
        resolved_charge_status: ChargeStatus::Success,
        psp_reference: None,
        returned_reference: None,
        returned_charge_status: None,
        is_success: Some(true),
        created_at: Default::default(),
        updated_at: Default::default(),
        public_id: Uuid::new_v4(),
    }
}

#[test]
fn authorised_wallet_charge_is_settled() {
    let rec = wallet_charge_record(&Some(response(Some(ResultCode::Authorised), None)), &registered(), &wallet(1), &reservation());
    assert_eq!(ChargeStatus::Success, rec.charge.resolved_charge_status);
    assert_eq!(Some(true), rec.charge.is_success);
    assert_eq!(Some("\"Authorised\"".to_string()), rec.charge.returned_charge_status);
    assert_eq!(Some("psp-1".to_string()), rec.charge.psp_reference);
    assert_eq!(LedgerInstruction::SettleWalletCardAmount { wallet_card_id: 1, amount_cents: 700 }, rec.ledger);
    assert_eq!(ChargeCardAttemptResult::Approved, rec.attempt);
}

#[test]
fn refused_wallet_charge_is_released() {
    for code in [ResultCode::Refused, ResultCode::Cancelled, ResultCode::Error] {
        let rec = wallet_charge_record(&Some(response(Some(code), Some(5))), &registered(), &wallet(1), &reservation());
        assert_eq!(ChargeStatus::Fail, rec.charge.resolved_charge_status);
        assert_eq!(None, rec.charge.is_success);
        assert_eq!(LedgerInstruction::ReleaseWalletAmount { wallet_card_id: 1, amount_cents: 700 }, rec.ledger);
        assert_eq!(ChargeCardAttemptResult::Denied, rec.attempt);
    }
}

#[test]
fn intermediate_wallet_charge_settles_the_answered_amount() {
    let rec = wallet_charge_record(&Some(response(Some(ResultCode::RedirectShopper), Some(250))), &registered(), &wallet(1), &reservation());
    assert_eq!(ChargeStatus::Fail, rec.charge.resolved_charge_status);
    assert_eq!(LedgerInstruction::SettleWalletCardAmount { wallet_card_id: 1, amount_cents: 250 }, rec.ledger);
    let rec = wallet_charge_record(&Some(response(Some(ResultCode::Pending), None)), &registered(), &wallet(1), &reservation());
    assert_eq!(LedgerInstruction::SettleWalletCardAmount { wallet_card_id: 1, amount_cents: 0 }, rec.ledger);
    assert_eq!(ChargeCardAttemptResult::Denied, rec.attempt);
}

#[test]
fn failed_proxy_call_is_released() {
    let rec = wallet_charge_record(&None, &registered(), &wallet(2), &reservation());
    assert_eq!(ChargeStatus::Fail, rec.charge.resolved_charge_status);
    assert_eq!(None, rec.charge.psp_reference);
    assert_eq!(None, rec.charge.returned_charge_status);
    assert_eq!(LedgerInstruction::ReleaseWalletAmount { wallet_card_id: 2, amount_cents: 700 }, rec.ledger);
    let rec = wallet_charge_record(&Some(response(None, None)), &registered(), &wallet(2), &reservation());
    assert_eq!(ChargeStatus::Fail, rec.charge.resolved_charge_status);
    assert_eq!(LedgerInstruction::ReleaseWalletAmount { wallet_card_id: 2, amount_cents: 700 }, rec.ledger);
}

#[test]
fn wallet_stops_at_the_first_charged_card() {
    let cards = [ChargeCardAttemptResult::Denied, ChargeCardAttemptResult::Approved, ChargeCardAttemptResult::Approved];
    let mut run: WalletChargeRun<i32> = WalletChargeRun::new();
    let mut tried = Vec::new();
    while let Some(i) = run.next(cards.len()) {
        tried.push(i);
        let attempt: Result<(ChargeCardAttemptResult, Option<i32>), ChargeError> = Ok((cards[i], Some(i as i32 + 100)));
        run.record(attempt);
    }
    assert_eq!(vec![0, 1], tried);
    assert_eq!((ChargeEngineResult::Approved, Some(101)), run.finish());
}

#[test]
fn wallet_without_cards_is_denied() {
    let run: WalletChargeRun<i32> = WalletChargeRun::new();
    assert_eq!(None, run.next(0));
    assert_eq!((ChargeEngineResult::Denied, None), run.finish());
}

#[test]
fn wallet_skips_cards_whose_charge_could_not_be_recorded() {
    let mut run: WalletChargeRun<i32> = WalletChargeRun::new();
    let failed: Result<(ChargeCardAttemptResult, Option<i32>), ChargeError> = Err(ChargeError::Unexpected("db".into()));
    run.record(failed);
    assert_eq!(Some(1), run.next(2));
    run.record::<ChargeError>(Ok((ChargeCardAttemptResult::Denied, Some(7))));
    assert_eq!(None, run.next(2));
    assert_eq!((ChargeEngineResult::Denied, Some(7)), run.finish());
}

#[test]
fn engine_cancels_intermediate_charges() {
    assert_eq!(EngineCardStep::Cancel("psp-1".to_string()), engine_card_step(&Some(response(Some(ResultCode::Pending), None))));
    assert_eq!(
        EngineCardStep::Register { successful: true, attempt: ChargeCardAttemptResult::Approved },
        engine_card_step(&Some(response(Some(ResultCode::Authorised), None)))
    );
    assert_eq!(
        EngineCardStep::Register { successful: false, attempt: ChargeCardAttemptResult::Denied },
        engine_card_step(&None)
    );
    assert_eq!(
        EngineCardStep::Register { successful: false, attempt: ChargeCardAttemptResult::PartialCancelSucceeded },
        engine_cancel_step(true)
    );
    assert_eq!(
        EngineCardStep::Register { successful: false, attempt: ChargeCardAttemptResult::PartialCancelFailed },
        engine_cancel_step(false)
    );
}

#[test]
fn engine_needs_a_card_token() {
    let mut req: AsaRequest = create_example_asa(100, "5812".to_string());
    assert!(engine_card_check(&req).is_ok());
    req.card.as_mut().unwrap().token = None;
    let e = engine_card_check(&req).unwrap_err();
    assert_eq!((400, "expect token".to_string()), (e.status_code, e.message));
    req.card = None;
    let e = engine_card_check(&req).unwrap_err();
    assert_eq!((400, "expect card".to_string()), (e.status_code, e.message));
    let e = engine_answer::<i32>(ChargeEngineResult::Approved, false, Ok(None)).unwrap_err();
    assert_eq!(500, e.status_code);
    assert_eq!(Ok((ChargeEngineResult::Denied, None)), engine_answer::<i32>(ChargeEngineResult::Denied, true, Ok(Some(3))).map_err(|e| e.status_code));
}

#[test]
fn asa_charge_reads_the_request() {
    let req = create_example_asa(1234, "5812".to_string());
    let md = asa_charge_metadata(&req).expect("metadata");
    assert_eq!(1234, md.amount_cents);
    assert_eq!("5812", md.mcc);
    assert_eq!("test merchant", md.memo);
    let mut no_card = req.clone();
    no_card.card = None;
    assert!(matches!(asa_charge_metadata(&no_card), Err(ChargeError::NoCardInRequest)));
    let mut no_merchant = req.clone();
    no_merchant.merchant = None;
    assert!(matches!(asa_charge_metadata(&no_merchant), Err(ChargeError::Unexpected(m)) if m == "missing merchant"));
}

#[test]
fn passthrough_charge_follows_the_wallet_result() {
    let card = PassthroughCardModel { id: 5 };
    let rec = passthrough_record(ChargeEngineResult::Approved, Some(wallet_charge(1)), &registered(), &card);
    assert_eq!(ChargeStatus::Success, rec.charge.status);
    assert_eq!(LedgerInstruction::SettlePassthroughCardAmount { passthrough_card_id: 5, amount_cents: 700 }, rec.ledger);
    assert_eq!(Some(1), rec.settles.map(|c| c.id));
    let rec = passthrough_record(ChargeEngineResult::Denied, None, &registered(), &card);
    assert_eq!(ChargeStatus::Fail, rec.charge.status);
    assert_eq!(LedgerInstruction::ReleasePassthroughCardAmount { passthrough_card_id: 5, amount_cents: 700 }, rec.ledger);
    let rec = passthrough_record(ChargeEngineResult::Approved, None, &registered(), &card);
    assert_eq!(ChargeStatus::Fail, rec.charge.status);
}

#[test]
fn asa_answers_follow_the_engine() {
    assert_eq!(AsaResponseResult::Approved, asa_charge_answer(ChargeEngineResult::Approved, true, Ok(())).unwrap());
    assert_eq!(AsaResponseResult::UnauthorizedMerchant, asa_charge_answer(ChargeEngineResult::Denied, false, Ok(())).unwrap());
    assert!(matches!(asa_charge_answer(ChargeEngineResult::Approved, false, Ok(())), Err(ChargeError::Unexpected(_))));
    assert!(matches!(asa_charge_answer(ChargeEngineResult::Approved, true, Err(ChargeError::NoCardInRequest)), Err(ChargeError::NoCardInRequest)));
}

#[test]
fn charge_statuses_round_trip() {
    for s in [ChargeStatus::Fail, ChargeStatus::Success] {
        assert_eq!(s, ChargeStatus::from_str(&s.as_str()));
        assert_eq!(Ok(s), ChargeStatus::from_sql_bytes(&s.to_sql_bytes()));
    }
    assert_eq!("SUCCESS", ChargeStatus::Success.as_str());
    assert_eq!(ChargeStatus::Fail, ChargeStatus::from_str("whatever"));
    assert_eq!(Err("Unknown value for ChargeStatus found".to_string()), ChargeStatus::from_sql_bytes(b"PENDING"));
}

#[test]
fn provider_payments_are_planned() {
    let customer = Uuid::new_v4();
    let key = Uuid::new_v4();
    let request = ChargeCardRequest {
        amount_cents: 700,
        mcc: "5812",
        payment_method_id: "pm-1",
        customer_public_id: &customer,
        idempotency_key: &key,
        reference: "ref-1",
        statement: "Kyle's Coffee",
    };
    let plan = card_on_file_payment(&request, "Merchant");
    assert_eq!(Some(key), plan.idempotency_key);
    assert_eq!(700, plan.amount_value);
    assert_eq!("USD", plan.currency);
    assert!(matches!(plan.payment_method, PaymentMethodPlan::StoredScheme { ref stored_payment_method_id } if stored_payment_method_id == "pm-1"));
    assert_eq!(Some("Kyle's Coffee".to_string()), plan.shopper_statement);
    let plan = add_card_payment(customer, "ref-2", "Merchant");
    assert_eq!(0, plan.amount_value);
    assert_eq!(Some("US".to_string()), plan.country_code);
    assert_eq!(Some(customer), plan.shopper_reference);
    assert_eq!("myapp://payment", plan.return_url);
    let cancel = cancel_payment("psp-9", "Merchant", key, customer);
    assert_eq!("psp-9", cancel.psp_reference);
    assert_eq!(Some(customer), cancel.reference);
}
