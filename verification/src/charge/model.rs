use vstd::prelude::*;
use chrono::NaiveDateTime;
use uuid::Uuid;
use crate::charge::constant::ChargeStatus;
use crate::charge::entity::{
    PassthroughCardCharge, RegisteredTransaction, SuccessfulEndToEndCharge, WalletCardCharge,
};

verus! {

#[derive(Clone, Debug)]
pub struct RegisteredTransactionModel {
    pub id: i32,
    pub user_id: i32,
    pub transaction_id: Uuid,
    pub memo: String,
    pub amount_cents: i32,
    pub mcc: String,
}

#[derive(Clone, Debug)]
pub struct PassthroughCardChargeModel {
    pub id: i32,
    pub registered_transaction_id: i32,
    pub user_id: i32,
    pub passthrough_card_id: i32,
    pub amount_cents: i32,
    pub status: ChargeStatus,
    pub is_success: Option<bool>,
    pub created_at: NaiveDateTime,
}

#[derive(Clone, Debug)]
pub struct WalletCardChargeModel {
    pub id: i32,
    pub registered_transaction_id: i32,
    pub user_id: i32,
    pub wallet_card_id: i32,
    pub amount_cents: i32,
    pub status: ChargeStatus,
    pub is_success: Option<bool>,
    pub created_at: NaiveDateTime,
    pub rule_id: Option<i32>,
}

#[derive(Clone, Copy, Debug)]
pub struct SuccessfulEndToEndChargeModel {
    pub id: i32,
    pub registered_transaction_id: i32,
    pub inner_charge_ledger_id: i32,
    pub outer_charge_ledger_id: i32,
}

impl From<RegisteredTransaction> for RegisteredTransactionModel {
    fn from(value: RegisteredTransaction) -> (m: RegisteredTransactionModel) {
        RegisteredTransactionModel {
            id: value.id,
            user_id: value.user_id,
            transaction_id: value.transaction_id,
            memo: value.memo,
            amount_cents: value.amount_cents,
            mcc: value.mcc,
        }
    }
}

impl vstd::std_specs::convert::FromSpecImpl<RegisteredTransaction> for RegisteredTransactionModel {
    open spec fn obeys_from_spec() -> bool {
        true
    }

    /// The model keeps the row's identity, customer, memo, amount and category
    /// code, and drops its timestamps.
    open spec fn from_spec(v: RegisteredTransaction) -> RegisteredTransactionModel {
        RegisteredTransactionModel {
            id: v.id,
            user_id: v.user_id,
            transaction_id: v.transaction_id,
            memo: v.memo,
            amount_cents: v.amount_cents,
            mcc: v.mcc,
        }
    }
}

impl From<PassthroughCardCharge> for PassthroughCardChargeModel {
    fn from(value: PassthroughCardCharge) -> (m: PassthroughCardChargeModel) {
        PassthroughCardChargeModel {
            id: value.id,
            registered_transaction_id: value.registered_transaction_id,
            user_id: value.user_id,
            passthrough_card_id: value.passthrough_card_id,
            amount_cents: value.amount_cents,
            status: value.status,
            is_success: value.is_success,
            created_at: value.created_at,
        }
    }
}

impl vstd::std_specs::convert::FromSpecImpl<PassthroughCardCharge> for PassthroughCardChargeModel {
    open spec fn obeys_from_spec() -> bool {
        true
    }

    /// The model keeps every field of the row but its update time.
    open spec fn from_spec(v: PassthroughCardCharge) -> PassthroughCardChargeModel {
        PassthroughCardChargeModel {
            id: v.id,
            registered_transaction_id: v.registered_transaction_id,
            user_id: v.user_id,
            passthrough_card_id: v.passthrough_card_id,
            amount_cents: v.amount_cents,
            status: v.status,
            is_success: v.is_success,
            created_at: v.created_at,
        }
    }
}

impl From<WalletCardCharge> for WalletCardChargeModel {
    fn from(value: WalletCardCharge) -> (m: WalletCardChargeModel) {
        WalletCardChargeModel {
            id: value.id,
            registered_transaction_id: value.registered_transaction_id,
            user_id: value.user_id,
            wallet_card_id: value.wallet_card_id,
            amount_cents: value.amount_cents,
            status: value.resolved_charge_status,
            is_success: value.is_success,
            created_at: value.created_at,
            rule_id: value.rule_id,
        }
    }
}

impl vstd::std_specs::convert::FromSpecImpl<WalletCardCharge> for WalletCardChargeModel {
    open spec fn obeys_from_spec() -> bool {
        true
    }

    /// The model's status is the row's resolved status; the provider's
    /// references and the reservation are dropped.
    open spec fn from_spec(v: WalletCardCharge) -> WalletCardChargeModel {
        WalletCardChargeModel {
            id: v.id,
            registered_transaction_id: v.registered_transaction_id,
            user_id: v.user_id,
            wallet_card_id: v.wallet_card_id,
            amount_cents: v.amount_cents,
            status: v.resolved_charge_status,
            is_success: v.is_success,
            created_at: v.created_at,
            rule_id: v.rule_id,
        }
    }
}

impl From<SuccessfulEndToEndCharge> for SuccessfulEndToEndChargeModel {
    fn from(value: SuccessfulEndToEndCharge) -> (m: SuccessfulEndToEndChargeModel) {
        SuccessfulEndToEndChargeModel {
            id: value.id,
            registered_transaction_id: value.registered_transaction_id,
            inner_charge_ledger_id: value.wallet_card_charge_id,
            outer_charge_ledger_id: value.passthrough_card_charge_id,
        }
    }
}

impl vstd::std_specs::convert::FromSpecImpl<SuccessfulEndToEndCharge> for SuccessfulEndToEndChargeModel {
    open spec fn obeys_from_spec() -> bool {
        true
    }

    /// The inner charge is the wallet card charge and the outer charge the
    /// passthrough card charge.
    open spec fn from_spec(v: SuccessfulEndToEndCharge) -> SuccessfulEndToEndChargeModel {
        SuccessfulEndToEndChargeModel {
            id: v.id,
            registered_transaction_id: v.registered_transaction_id,
            inner_charge_ledger_id: v.wallet_card_charge_id,
            outer_charge_ledger_id: v.passthrough_card_charge_id,
        }
    }
}

} // verus!
