use vstd::prelude::*;
use chrono::NaiveDateTime;
use uuid::Uuid;
use crate::charge::constant::ChargeStatus;

verus! {

/// A card transaction about to be registered.
#[derive(Debug)]
pub struct InsertableRegisteredTransaction<'a> {
    pub user_id: i32,
    pub memo: &'a str,
    pub amount_cents: i32,
    pub mcc: &'a str,
}

/// A registered card transaction.
#[derive(Debug, Clone)]
pub struct RegisteredTransaction {
    pub id: i32,
    pub user_id: i32,
    pub transaction_id: Uuid,
    pub memo: String,
    pub amount_cents: i32,
    pub mcc: String,
    pub created_at: NaiveDateTime,
    pub updated_at: NaiveDateTime,
}

/// The raw request body a transaction was registered from.
#[derive(Debug, Clone)]
pub struct RegisteredTransactionMetadata {
    pub registered_transaction_id: i32,
    pub body: String,
}

#[derive(Debug)]
pub struct InsertableRegisteredTransactionMetadata<'a> {
    pub registered_transaction_id: i32,
    pub body: &'a str,
}

/// A charge of the passthrough card, the card the customer pays with.
#[derive(Debug, Clone)]
pub struct PassthroughCardCharge {
    pub id: i32,
    pub registered_transaction_id: i32,
    pub user_id: i32,
    pub passthrough_card_id: i32,
    pub amount_cents: i32,
    pub status: ChargeStatus,
    pub is_success: Option<bool>,
    pub created_at: NaiveDateTime,
    pub updated_at: NaiveDateTime,
}

#[derive(Debug, Clone)]
pub struct InsertablePassthroughCardCharge {
    pub registered_transaction_id: i32,
    pub user_id: i32,
    pub passthrough_card_id: i32,
    pub amount_cents: i32,
    pub status: ChargeStatus,
    pub is_success: Option<bool>,
}

/// The reservation of an amount on a wallet card, made before the card is
/// charged; its reference travels with the charge.
#[derive(Debug, Clone)]
pub struct InsertableExpectedWalletChargeReference {
    pub registered_transaction_id: i32,
    pub user_id: i32,
    pub wallet_card_id: i32,
    pub amount_cents: i32,
}

#[derive(Debug, Clone)]
pub struct ExpectedWalletChargeReference {
    pub id: i32,
    pub registered_transaction_id: i32,
    pub reference_id: Uuid,
    pub user_id: i32,
    pub wallet_card_id: i32,
    pub amount_cents: i32,
    pub created_at: NaiveDateTime,
    pub updated_at: NaiveDateTime,
}

/// A charge of a wallet card, the card a transaction is routed to.
#[derive(Debug, Clone)]
pub struct WalletCardCharge {
    pub id: i32,
    pub registered_transaction_id: i32,
    pub user_id: i32,
    pub wallet_card_id: i32,
    pub amount_cents: i32,
    pub rule_id: Option<i32>,
    pub expected_wallet_charge_reference_id: i32,
    pub resolved_charge_status: ChargeStatus,
    pub psp_reference: Option<String>,
    pub returned_reference: Option<String>,
    pub returned_charge_status: Option<String>,
    pub is_success: Option<bool>,
    pub created_at: NaiveDateTime,
    pub updated_at: NaiveDateTime,
    pub public_id: Uuid,
}

#[derive(Debug, Clone)]
pub struct InsertableWalletCardCharge {
    pub registered_transaction_id: i32,
    pub user_id: i32,
    pub wallet_card_id: i32,
    pub amount_cents: i32,
    pub rule_id: Option<i32>,
    pub expected_wallet_charge_reference_id: i32,
    pub resolved_charge_status: ChargeStatus,
    pub psp_reference: Option<String>,
    pub returned_reference: Option<String>,
    pub returned_charge_status: Option<String>,
    pub is_success: Option<bool>,
}

/// A transaction charged end to end: the wallet card charge and the
/// passthrough card charge that settle it.
#[derive(Debug, Clone)]
pub struct SuccessfulEndToEndCharge {
    pub id: i32,
    pub registered_transaction_id: i32,
    pub wallet_card_charge_id: i32,
    pub passthrough_card_charge_id: i32,
    pub public_id: Uuid,
}

#[derive(Debug, Clone)]
pub struct InsertableSuccessfulEndToEndCharge {
    pub registered_transaction_id: i32,
    pub wallet_card_charge_id: i32,
    pub passthrough_card_charge_id: i32,
}

} // verus!
