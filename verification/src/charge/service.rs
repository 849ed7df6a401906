use vstd::prelude::*;
use uuid::Uuid;
use crate::adyen::checkout::model::{PaymentResponse, ResultCode, result_code_json};
use crate::asa::request::AsaRequest;
use crate::asa::response::{AsaResponseResult, asa_for_engine_result};
use crate::charge::constant::{
    ChargeCardAttemptResult, ChargeEngineResult, ChargeStatus, acceptable_status,
    attempt_for_code, final_state_error, is_acceptable_status, is_final_state_error,
};
use crate::charge::entity::{
    ExpectedWalletChargeReference, InsertableExpectedWalletChargeReference,
    InsertablePassthroughCardCharge, InsertableRegisteredTransaction,
    InsertableSuccessfulEndToEndCharge, InsertableWalletCardCharge, PassthroughCardCharge,
    WalletCardCharge,
};
use crate::charge::error::ChargeError;
use crate::charge::model::RegisteredTransactionModel;
use crate::common::model::{TransactionMetadata, metadata_of_request};
use crate::footprint::request::ChargeThroughProxyRequest;
use crate::passthrough_card::model::PassthroughCardModel as PassthroughCard;
use crate::text::owned;
use crate::user::model::UserModel as User;
use crate::wallet::model::WalletModelWithRule as Wallet;

verus! {

/// A movement of money in the ledger, booked in the same database
/// transaction as the record it goes with.
#[derive(Clone, Copy, Debug, PartialEq, Eq, Structural)]
pub enum LedgerInstruction {
    ReservePassthroughCardAmount { passthrough_card_id: i32, amount_cents: i32 },
    SettlePassthroughCardAmount { passthrough_card_id: i32, amount_cents: i32 },
    ReleasePassthroughCardAmount { passthrough_card_id: i32, amount_cents: i32 },
    ReserveWalletAmount { wallet_card_id: i32, amount_cents: i32 },
    SettleWalletCardAmount { wallet_card_id: i32, amount_cents: i32 },
    ReleaseWalletAmount { wallet_card_id: i32, amount_cents: i32 },
}

/// The views of an optional string.
pub open spec fn opt_view(o: Option<String>) -> Option<Seq<char>> {
    match o {
        Some(s) => Some(s@),
        None => None,
    }
}

fn clone_opt_string(o: &Option<String>) -> (r: Option<String>)
    ensures
        r == *o,
{
    match o {
        Some(s) => Some(s.clone()),
        None => None,
    }
}

// ---------------------------------------------------------------------------
// Charging one wallet card
// ---------------------------------------------------------------------------

/// The reservation made on a wallet card before it is charged: the expected
/// charge reference and the hold on the card's amount.
#[derive(Clone, Debug)]
pub struct WalletReservation {
    pub reference: InsertableExpectedWalletChargeReference,
    pub ledger: LedgerInstruction,
}

/// The reservation for charging a wallet card with a registered transaction.
pub fn wallet_reservation(
    registered_transaction: &RegisteredTransactionModel,
    wallet: &Wallet,
) -> (r: WalletReservation)
    ensures
        r.reference == (InsertableExpectedWalletChargeReference {
            registered_transaction_id: registered_transaction.id,
            user_id: wallet.user_id,
            wallet_card_id: wallet.id,
            amount_cents: registered_transaction.amount_cents,
        }),
        r.ledger == (LedgerInstruction::ReserveWalletAmount {
            wallet_card_id: wallet.id,
            amount_cents: registered_transaction.amount_cents,
        }),
{
    WalletReservation {
        reference: InsertableExpectedWalletChargeReference {
            registered_transaction_id: registered_transaction.id,
            user_id: wallet.user_id,
            wallet_card_id: wallet.id,
            amount_cents: registered_transaction.amount_cents,
        },
        ledger: LedgerInstruction::ReserveWalletAmount {
            wallet_card_id: wallet.id,
            amount_cents: registered_transaction.amount_cents,
        },
    }
}

/// The payment sent through the proxy to charge a wallet card: the
/// transaction's amount, category and memo, the card's payment method, the
/// customer, and the reservation's reference.
pub fn proxy_charge_request(
    idempotency_key: Uuid,
    card: &Wallet,
    user: &User,
    transaction_metadata: &TransactionMetadata,
    reservation: &ExpectedWalletChargeReference,
) -> (r: ChargeThroughProxyRequest)
    ensures
        r.amount_cents == transaction_metadata.amount_cents,
        r.mcc@ == transaction_metadata.mcc@,
        r.payment_method_id@ == card.payment_method_id@,
        r.customer_public_id == user.public_id,
        r.footprint_vault_id == user.footprint_vault_id,
        r.idempotency_key == idempotency_key,
        r.reference == reservation.reference_id,
        r.statement@ == transaction_metadata.memo@,
{
    ChargeThroughProxyRequest {
        amount_cents: transaction_metadata.amount_cents,
        mcc: transaction_metadata.mcc.clone(),
        payment_method_id: card.payment_method_id.clone(),
        customer_public_id: user.public_id,
        footprint_vault_id: user.footprint_vault_id,
        idempotency_key,
        reference: reservation.reference_id,
        statement: transaction_metadata.memo.clone(),
    }
}

/// How the charge of a wallet card is recorded, by what the proxy answered.
#[derive(Clone, Copy, Debug, PartialEq, Eq, Structural)]
pub enum WalletChargeOutcome {
    /// The provider authorised the charge.
    Successful,
    /// The provider refused, cancelled or failed the charge, or gave no code.
    Failed,
    /// The provider left the charge in an intermediate state.
    Partial,
    /// The proxy call itself failed.
    FailedNoResponseBody,
}

/// The outcome the proxy's answer leads to; `None` stands for a failed call.
pub open spec fn wallet_charge_outcome(reply: Option<PaymentResponse>) -> WalletChargeOutcome {
    match reply {
        None => WalletChargeOutcome::FailedNoResponseBody,
        Some(response) => match response.result_code {
            None => WalletChargeOutcome::Failed,
            Some(code) => if is_acceptable_status(code) {
                WalletChargeOutcome::Successful
            } else if is_final_state_error(code) {
                WalletChargeOutcome::Failed
            } else {
                WalletChargeOutcome::Partial
            },
        },
    }
}

/// The amount settled for a charge left in an intermediate state: the
/// amount the provider answered with, cut to 32 bits, or nothing.
pub open spec fn partial_settlement_amount(response: PaymentResponse) -> i32 {
    match response.amount_value {
        Some(v) => v as i32,
        None => 0,
    }
}

/// The result code the provider answered with, as JSON text.
pub open spec fn returned_status_of(response: PaymentResponse) -> Option<Seq<char>> {
    match response.result_code {
        Some(code) => Some(result_code_json(code)),
        None => None,
    }
}

/// What is recorded of the charge of a wallet card once the proxy has
/// answered: the wallet card charge, the ledger movement that goes with it,
/// and how the attempt ended.
#[derive(Clone, Debug)]
pub struct WalletChargeRecord {
    pub charge: InsertableWalletCardCharge,
    pub ledger: LedgerInstruction,
    pub attempt: ChargeCardAttemptResult,
}

/// The record of a wallet card charge, for each answer of the proxy.
///
/// An authorised charge is recorded as a success and its amount settled on
/// the card; a refused, cancelled or failed charge, one without a code and a
/// failed call are recorded as failures and their amount released; a charge
/// in an intermediate state is recorded as a failure and the amount the
/// provider answered with is settled.
pub open spec fn wallet_charge_record_of(
    rec: WalletChargeRecord,
    reply: Option<PaymentResponse>,
    registered_transaction: RegisteredTransactionModel,
    wallet: Wallet,
    reservation: ExpectedWalletChargeReference,
) -> bool {
    let c = rec.charge;
    let outcome = wallet_charge_outcome(reply);
    &&& c.registered_transaction_id == registered_transaction.id
    &&& c.user_id == registered_transaction.user_id
    &&& c.wallet_card_id == wallet.id
    &&& c.amount_cents == registered_transaction.amount_cents
    &&& c.rule_id == wallet.rule_id
    &&& c.expected_wallet_charge_reference_id == reservation.id
    &&& c.resolved_charge_status == (if outcome == WalletChargeOutcome::Successful {
        ChargeStatus::Success
    } else {
        ChargeStatus::Fail
    })
    &&& c.is_success == (if outcome == WalletChargeOutcome::Successful {
        Some(true)
    } else {
        None::<bool>
    })
    &&& match reply {
        None => {
            &&& c.psp_reference is None
            &&& c.returned_reference is None
            &&& c.returned_charge_status is None
        },
        Some(response) => {
            &&& c.psp_reference == response.psp_reference
            &&& c.returned_reference == response.merchant_reference
            &&& opt_view(c.returned_charge_status) == returned_status_of(response)
        },
    }
    &&& rec.ledger == match outcome {
        WalletChargeOutcome::Successful => LedgerInstruction::SettleWalletCardAmount {
            wallet_card_id: wallet.id,
            amount_cents: registered_transaction.amount_cents,
        },
        WalletChargeOutcome::Partial => LedgerInstruction::SettleWalletCardAmount {
            wallet_card_id: wallet.id,
            amount_cents: partial_settlement_amount(reply->0),
        },
        _ => LedgerInstruction::ReleaseWalletAmount {
            wallet_card_id: wallet.id,
            amount_cents: registered_transaction.amount_cents,
        },
    }
    &&& rec.attempt == (if outcome == WalletChargeOutcome::Successful {
        attempt_for_code(reply->0.result_code->0)
    } else {
        ChargeCardAttemptResult::Denied
    })
}

fn returned_status(response: &PaymentResponse) -> (r: Option<String>)
    ensures
        opt_view(r) == returned_status_of(*response),
{
    match response.result_code {
        Some(code) => Some(code.to_json()),
        None => None,
    }
}

/// Records the charge of a wallet card once the proxy has answered; `None`
/// stands for a failed proxy call.
pub fn wallet_charge_record(
    reply: &Option<PaymentResponse>,
    registered_transaction: &RegisteredTransactionModel,
    wallet: &Wallet,
    reservation: &ExpectedWalletChargeReference,
) -> (r: WalletChargeRecord)
    ensures
        wallet_charge_record_of(r, *reply, *registered_transaction, *wallet, *reservation),
{
    match reply {
        None => WalletChargeRecord {
            charge: InsertableWalletCardCharge {
                registered_transaction_id: registered_transaction.id,
                user_id: registered_transaction.user_id,
                wallet_card_id: wallet.id,
                amount_cents: registered_transaction.amount_cents,
                rule_id: wallet.rule_id,
                expected_wallet_charge_reference_id: reservation.id,
                resolved_charge_status: ChargeStatus::Fail,
                psp_reference: None,
                returned_reference: None,
                returned_charge_status: None,
                is_success: None,
            },
            ledger: LedgerInstruction::ReleaseWalletAmount {
                wallet_card_id: wallet.id,
                amount_cents: registered_transaction.amount_cents,
            },
            attempt: ChargeCardAttemptResult::Denied,
        },
        Some(response) => {
            let (status, is_success, ledger, attempt) = match response.result_code {
                Some(code) => {
                    if acceptable_status(code) {
                        (
                            ChargeStatus::Success,
                            Some(true),
                            LedgerInstruction::SettleWalletCardAmount {
                                wallet_card_id: wallet.id,
                                amount_cents: registered_transaction.amount_cents,
                            },
                            ChargeCardAttemptResult::from(code),
                        )
                    } else if final_state_error(code) {
                        (
                            ChargeStatus::Fail,
                            None,
                            LedgerInstruction::ReleaseWalletAmount {
                                wallet_card_id: wallet.id,
                                amount_cents: registered_transaction.amount_cents,
                            },
                            ChargeCardAttemptResult::Denied,
                        )
                    } else {
                        let amount: i32 = match response.amount_value {
                            Some(v) => v as i32,
                            None => 0,
                        };
                        (
                            ChargeStatus::Fail,
                            None,
                            LedgerInstruction::SettleWalletCardAmount {
                                wallet_card_id: wallet.id,
                                amount_cents: amount,
                            },
                            ChargeCardAttemptResult::Denied,
                        )
                    }
                },
                None => (
                    ChargeStatus::Fail,
                    None,
                    LedgerInstruction::ReleaseWalletAmount {
                        wallet_card_id: wallet.id,
                        amount_cents: registered_transaction.amount_cents,
                    },
                    ChargeCardAttemptResult::Denied,
                ),
            };
            WalletChargeRecord {
                charge: InsertableWalletCardCharge {
                    registered_transaction_id: registered_transaction.id,
                    user_id: registered_transaction.user_id,
                    wallet_card_id: wallet.id,
                    amount_cents: registered_transaction.amount_cents,
                    rule_id: wallet.rule_id,
                    expected_wallet_charge_reference_id: reservation.id,
                    resolved_charge_status: status,
                    psp_reference: clone_opt_string(&response.psp_reference),
                    returned_reference: clone_opt_string(&response.merchant_reference),
                    returned_charge_status: returned_status(response),
                    is_success,
                },
                ledger,
                attempt,
            }
        },
    }
}

/// How the charge of one wallet card ends once its record is written: the
/// attempt's result with the recorded charge, or the failure of the write.
pub fn card_attempt_outcome(
    attempt: ChargeCardAttemptResult,
    recorded: Result<WalletCardCharge, ChargeError>,
) -> (r: Result<(ChargeCardAttemptResult, Option<WalletCardCharge>), ChargeError>)
    ensures
        match recorded {
            Ok(c) => r == Ok::<(ChargeCardAttemptResult, Option<WalletCardCharge>), ChargeError>((attempt, Some(c))),
            Err(e) => r == Err::<(ChargeCardAttemptResult, Option<WalletCardCharge>), ChargeError>(e),
        },
{
    match recorded {
        Ok(c) => Ok((attempt, Some(c))),
        Err(e) => Err(e),
    }
}

/// Each attempt on a wallet card records exactly one charge, and the
/// attempt is approved exactly when the provider authorised the charge; a
/// successful record always goes with a settlement, never a release.
pub proof fn lemma_wallet_charge_record_law(
    rec: WalletChargeRecord,
    reply: Option<PaymentResponse>,
    registered_transaction: RegisteredTransactionModel,
    wallet: Wallet,
    reservation: ExpectedWalletChargeReference,
)
    requires
        wallet_charge_record_of(rec, reply, registered_transaction, wallet, reservation),
    ensures
        (rec.attempt == ChargeCardAttemptResult::Approved) <==> (reply is Some
            && reply->0.result_code == Some(ResultCode::Authorised)),
        (rec.charge.resolved_charge_status == ChargeStatus::Success) <==> (rec.charge.is_success
            == Some(true)),
        (rec.charge.resolved_charge_status == ChargeStatus::Success) <==> (rec.attempt
            == ChargeCardAttemptResult::Approved),
        rec.charge.resolved_charge_status == ChargeStatus::Success ==> rec.ledger is SettleWalletCardAmount,
{
}

// ---------------------------------------------------------------------------
// Charging a wallet: one card, and only one
// ---------------------------------------------------------------------------

/// The run through a customer's wallet: cards are tried in wallet order
/// until one is charged, and no card after it is tried.
#[derive(Debug)]
pub struct WalletChargeRun<L> {
    /// The position of the next card to try.
    pub next_card: usize,
    /// Whether the last attempt that ended charged its card.
    pub success_charge: bool,
    /// The results of the attempts that ended, in order.
    pub codes: Vec<ChargeCardAttemptResult>,
    /// The record of the last attempt that ended.
    pub ledger: Option<L>,
}

impl<L> WalletChargeRun<L> {
    /// A run is well formed when at most its last result is an approval, it
    /// counts as a success exactly then, and it has not ended more attempts
    /// than it has tried cards.
    pub open spec fn wf(&self) -> bool {
        &&& self.codes@.len() <= self.next_card
        &&& self.success_charge == (self.codes@.len() > 0 && self.codes@.last()
            == ChargeCardAttemptResult::Approved)
        &&& forall|i: int|
            0 <= i < self.codes@.len() - 1 ==> self.codes@[i] != ChargeCardAttemptResult::Approved
    }

    /// A run that has tried no card yet.
    pub fn new() -> (r: WalletChargeRun<L>)
        ensures
            r.wf(),
            r.next_card == 0,
            !r.success_charge,
            r.codes@.len() == 0,
            r.ledger is None,
    {
        WalletChargeRun { next_card: 0, success_charge: false, codes: Vec::new(), ledger: None }
    }

    /// The position of the next card to try, or nothing once a card has been
    /// charged or every card has been tried.
    pub fn next(&self, wallet_len: usize) -> (r: Option<usize>)
        ensures
            r == (if !self.success_charge && self.next_card < wallet_len {
                Some(self.next_card)
            } else {
                None::<usize>
            }),
    {
        if !self.success_charge && self.next_card < wallet_len {
            Some(self.next_card)
        } else {
            None
        }
    }

    /// Takes in how the attempt on the next card ended. An attempt that
    /// failed outright changes nothing but the position; one that ended
    /// keeps its result and its record.
    pub fn record<E>(&mut self, attempt: Result<(ChargeCardAttemptResult, Option<L>), E>)
        requires
            old(self).wf(),
            !old(self).success_charge,
            old(self).next_card < usize::MAX,
        ensures
            final(self).wf(),
            final(self).next_card == old(self).next_card + 1,
            match attempt {
                Ok((a, l)) => {
                    &&& final(self).success_charge == (a == ChargeCardAttemptResult::Approved)
                    &&& final(self).codes@ == old(self).codes@.push(a)
                    &&& final(self).ledger == l
                },
                Err(_) => {
                    &&& final(self).success_charge == old(self).success_charge
                    &&& final(self).codes@ == old(self).codes@
                    &&& final(self).ledger == old(self).ledger
                },
            },
    {
        self.next_card = self.next_card + 1;
        match attempt {
            Ok((charge_attempt, ledger)) => {
                self.success_charge = bool::from(&charge_attempt);
                self.ledger = ledger;
                self.codes.push(charge_attempt);
            },
            Err(_) => {},
        }
    }

    /// The wallet's result: approved when a card was charged, denied
    /// otherwise, with the record of the last attempt that ended.
    pub fn finish(self) -> (r: (ChargeEngineResult, Option<L>))
        ensures
            r.0 == (if self.success_charge {
                ChargeEngineResult::Approved
            } else {
                ChargeEngineResult::Denied
            }),
            r.1 == self.ledger,
    {
        if self.success_charge {
            (ChargeEngineResult::Approved, self.ledger)
        } else {
            (ChargeEngineResult::Denied, self.ledger)
        }
    }
}

/// A wallet is charged on one card and only one: a well-formed run holds at
/// most one approval, tries no further card once it has one, and its result
/// is an approval exactly when one of its attempts was approved.
pub proof fn lemma_one_card_only<L>(run: WalletChargeRun<L>, wallet_len: usize)
    requires
        run.wf(),
    ensures
        forall|i: int, j: int|
            0 <= i < j < run.codes@.len() && run.codes@[i] == ChargeCardAttemptResult::Approved
                ==> run.codes@[j] != ChargeCardAttemptResult::Approved,
        run.success_charge ==> !(!run.success_charge && run.next_card < wallet_len),
        run.success_charge <==> run.codes@.contains(ChargeCardAttemptResult::Approved),
{
    if run.codes@.contains(ChargeCardAttemptResult::Approved) {
        let k = choose|k: int|
            0 <= k < run.codes@.len() && run.codes@[k] == ChargeCardAttemptResult::Approved;
        assert(k == run.codes@.len() - 1);
    }
    if run.success_charge {
        assert(run.codes@[run.codes@.len() - 1] == ChargeCardAttemptResult::Approved);
    }
}

// ---------------------------------------------------------------------------
// Charging a card transaction end to end
// ---------------------------------------------------------------------------

/// What a request must carry before anything is charged: its metadata, and a
/// card with a token.
pub open spec fn asa_charge_admits(request: AsaRequest) -> bool {
    &&& metadata_of_request(request) is Ok
    &&& request.card is Some
    &&& request.card->0.token is Some
}

/// Checks a card transaction request and reads its metadata. A request whose
/// metadata cannot be read fails unexpectedly with the reason; one without a
/// card or without a card token fails for want of a card.
pub fn asa_charge_metadata(request: &AsaRequest) -> (r: Result<TransactionMetadata, ChargeError>)
    ensures
        match metadata_of_request(*request) {
            Err(msg) => r matches Err(ChargeError::Unexpected(m)) && m@ == msg,
            Ok((memo, amount, mcc)) => if request.card is None || request.card->0.token is None {
                r matches Err(ChargeError::NoCardInRequest)
            } else {
                r matches Ok(md) && md.memo@ == memo && md.amount_cents == amount && md.mcc@ == mcc
            },
        },
{
    let metadata = match TransactionMetadata::convert(request) {
        Ok(m) => m,
        Err(e) => return Err(ChargeError::Unexpected(e.cause())),
    };
    let card = match &request.card {
        Some(c) => c,
        None => return Err(ChargeError::NoCardInRequest),
    };
    match &card.token {
        Some(_) => {},
        None => return Err(ChargeError::NoCardInRequest),
    }
    Ok(metadata)
}

/// The registered transaction for a customer's card transaction.
pub fn registered_transaction_record<'a>(
    user: &User,
    metadata: &'a TransactionMetadata,
) -> (r: InsertableRegisteredTransaction<'a>)
    ensures
        r.user_id == user.id,
        r.memo@ == metadata.memo@,
        r.amount_cents == metadata.amount_cents,
        r.mcc@ == metadata.mcc@,
{
    InsertableRegisteredTransaction {
        user_id: user.id,
        memo: metadata.memo.as_str(),
        amount_cents: metadata.amount_cents,
        mcc: metadata.mcc.as_str(),
    }
}

/// The hold placed on the passthrough card once a transaction is registered:
/// the whole amount of the transaction.
pub fn passthrough_reservation(
    registered_transaction: &RegisteredTransactionModel,
    passthrough_card: &PassthroughCard,
) -> (r: LedgerInstruction)
    ensures
        r == (LedgerInstruction::ReservePassthroughCardAmount {
            passthrough_card_id: passthrough_card.id,
            amount_cents: registered_transaction.amount_cents,
        }),
{
    LedgerInstruction::ReservePassthroughCardAmount {
        passthrough_card_id: passthrough_card.id,
        amount_cents: registered_transaction.amount_cents,
    }
}

/// What is recorded of the passthrough card once the wallet has been
/// charged: the passthrough card charge and the ledger movement that goes
/// with it, and for a success the wallet card charge it settles.
#[derive(Clone, Debug)]
pub struct PassthroughRecord {
    pub charge: InsertablePassthroughCardCharge,
    pub ledger: LedgerInstruction,
    pub settles: Option<WalletCardCharge>,
}

/// The passthrough record for a wallet's result: a success that settles the
/// transaction's amount when the wallet was approved with a record of its
/// charge, and otherwise a failure that releases the amount.
pub open spec fn passthrough_record_of(
    rec: PassthroughRecord,
    result: ChargeEngineResult,
    ledger: Option<WalletCardCharge>,
    registered_transaction: RegisteredTransactionModel,
    passthrough_card: PassthroughCard,
) -> bool {
    let success = result == ChargeEngineResult::Approved && ledger is Some;
    &&& rec.charge.registered_transaction_id == registered_transaction.id
    &&& rec.charge.user_id == registered_transaction.user_id
    &&& rec.charge.passthrough_card_id == passthrough_card.id
    &&& rec.charge.amount_cents == registered_transaction.amount_cents
    &&& rec.charge.status == (if success { ChargeStatus::Success } else { ChargeStatus::Fail })
    &&& rec.charge.is_success == (if success { Some(true) } else { None::<bool> })
    &&& rec.ledger == (if success {
        LedgerInstruction::SettlePassthroughCardAmount {
            passthrough_card_id: passthrough_card.id,
            amount_cents: registered_transaction.amount_cents,
        }
    } else {
        LedgerInstruction::ReleasePassthroughCardAmount {
            passthrough_card_id: passthrough_card.id,
            amount_cents: registered_transaction.amount_cents,
        }
    })
    &&& rec.settles == (if success { ledger } else { None::<WalletCardCharge> })
}

/// Records the passthrough card once the wallet has been charged.
pub fn passthrough_record(
    result: ChargeEngineResult,
    ledger: Option<WalletCardCharge>,
    registered_transaction: &RegisteredTransactionModel,
    passthrough_card: &PassthroughCard,
) -> (r: PassthroughRecord)
    ensures
        passthrough_record_of(r, result, ledger, *registered_transaction, *passthrough_card),
{
    match (result, ledger) {
        (ChargeEngineResult::Approved, Some(wallet_charge)) => PassthroughRecord {
            charge: InsertablePassthroughCardCharge {
                registered_transaction_id: registered_transaction.id,
                user_id: registered_transaction.user_id,
                passthrough_card_id: passthrough_card.id,
                amount_cents: registered_transaction.amount_cents,
                status: ChargeStatus::Success,
                is_success: Some(true),
            },
            ledger: LedgerInstruction::SettlePassthroughCardAmount {
                passthrough_card_id: passthrough_card.id,
                amount_cents: registered_transaction.amount_cents,
            },
            settles: Some(wallet_charge),
        },
        _ => PassthroughRecord {
            charge: InsertablePassthroughCardCharge {
                registered_transaction_id: registered_transaction.id,
                user_id: registered_transaction.user_id,
                passthrough_card_id: passthrough_card.id,
                amount_cents: registered_transaction.amount_cents,
                status: ChargeStatus::Fail,
                is_success: None,
            },
            ledger: LedgerInstruction::ReleasePassthroughCardAmount {
                passthrough_card_id: passthrough_card.id,
                amount_cents: registered_transaction.amount_cents,
            },
            settles: None,
        },
    }
}

/// The end-to-end charge that ties a transaction to the wallet card charge
/// and the passthrough card charge that settle it.
pub fn end_to_end_charge(
    registered_transaction: &RegisteredTransactionModel,
    wallet_card_charge: &WalletCardCharge,
    outer: &PassthroughCardCharge,
) -> (r: InsertableSuccessfulEndToEndCharge)
    ensures
        r == (InsertableSuccessfulEndToEndCharge {
            registered_transaction_id: registered_transaction.id,
            wallet_card_charge_id: wallet_card_charge.id,
            passthrough_card_charge_id: outer.id,
        }),
{
    InsertableSuccessfulEndToEndCharge {
        registered_transaction_id: registered_transaction.id,
        wallet_card_charge_id: wallet_card_charge.id,
        passthrough_card_charge_id: outer.id,
    }
}

/// The message of an approval that came without a record of the wallet
/// charge.
pub open spec fn approved_without_ledger_message() -> Seq<char> {
    "Approved inner charge with no ledger entry, should not be possible"@
}

/// The answer to a card transaction once the passthrough card is recorded.
///
/// A failed recording fails the request. Otherwise an approval with a record
/// of the wallet charge answers approved, an approval without one fails
/// unexpectedly, and any other result answers as that result.
pub fn asa_charge_answer(
    result: ChargeEngineResult,
    ledger_present: bool,
    recorded: Result<(), ChargeError>,
) -> (r: Result<AsaResponseResult, ChargeError>)
    ensures
        match recorded {
            Err(e) => r == Err::<AsaResponseResult, ChargeError>(e),
            Ok(()) => if result == ChargeEngineResult::Approved && !ledger_present {
                r matches Err(ChargeError::Unexpected(m)) && m@ == approved_without_ledger_message()
            } else {
                r == Ok::<AsaResponseResult, ChargeError>(asa_for_engine_result(result))
            },
        },
{
    match recorded {
        Err(e) => Err(e),
        Ok(()) => {
            if let ChargeEngineResult::Approved = result {
                if !ledger_present {
                    return Err(
                        ChargeError::Unexpected(
                            owned("Approved inner charge with no ledger entry, should not be possible"),
                        ),
                    );
                }
            }
            Ok(AsaResponseResult::from(result))
        },
    }
}

/// A card transaction is answered approved exactly when its wallet was
/// approved with a record, its passthrough charge was recorded as a success,
/// and that record was written.
pub proof fn lemma_asa_answer_law(
    rec: PassthroughRecord,
    result: ChargeEngineResult,
    ledger: Option<WalletCardCharge>,
    registered_transaction: RegisteredTransactionModel,
    passthrough_card: PassthroughCard,
    recorded: Result<(), ChargeError>,
    answer: Result<AsaResponseResult, ChargeError>,
)
    requires
        passthrough_record_of(rec, result, ledger, registered_transaction, passthrough_card),
        match recorded {
            Err(e) => answer == Err::<AsaResponseResult, ChargeError>(e),
            Ok(()) => if result == ChargeEngineResult::Approved && ledger is None {
                answer is Err
            } else {
                answer == Ok::<AsaResponseResult, ChargeError>(asa_for_engine_result(result))
            },
        },
    ensures
        answer == Ok::<AsaResponseResult, ChargeError>(AsaResponseResult::Approved) <==> (recorded is Ok
            && rec.charge.status == ChargeStatus::Success),
{
}

/// Every hold placed on a card is resolved on the same card: the hold on the
/// passthrough card is settled or released for the amount it was placed
/// for, and the hold on a wallet card is settled or released for that
/// amount too, except that a charge the provider left in an intermediate
/// state settles the amount the provider answered with.
pub proof fn lemma_holds_are_resolved(
    passthrough_hold: LedgerInstruction,
    passthrough: PassthroughRecord,
    result: ChargeEngineResult,
    ledger: Option<WalletCardCharge>,
    wallet_hold: WalletReservation,
    wallet_charge: WalletChargeRecord,
    reply: Option<PaymentResponse>,
    registered_transaction: RegisteredTransactionModel,
    passthrough_card: PassthroughCard,
    wallet: Wallet,
    reservation: ExpectedWalletChargeReference,
)
    requires
        passthrough_hold == (LedgerInstruction::ReservePassthroughCardAmount {
            passthrough_card_id: passthrough_card.id,
            amount_cents: registered_transaction.amount_cents,
        }),
        passthrough_record_of(passthrough, result, ledger, registered_transaction, passthrough_card),
        wallet_hold.ledger == (LedgerInstruction::ReserveWalletAmount {
            wallet_card_id: wallet.id,
            amount_cents: registered_transaction.amount_cents,
        }),
        wallet_charge_record_of(wallet_charge, reply, registered_transaction, wallet, reservation),
    ensures
        passthrough.ledger == (LedgerInstruction::SettlePassthroughCardAmount {
            passthrough_card_id: passthrough_hold->ReservePassthroughCardAmount_passthrough_card_id,
            amount_cents: passthrough_hold->ReservePassthroughCardAmount_amount_cents,
        }) || passthrough.ledger == (LedgerInstruction::ReleasePassthroughCardAmount {
            passthrough_card_id: passthrough_hold->ReservePassthroughCardAmount_passthrough_card_id,
            amount_cents: passthrough_hold->ReservePassthroughCardAmount_amount_cents,
        }),
        (wallet_charge.ledger matches LedgerInstruction::SettleWalletCardAmount { wallet_card_id, .. }
            && wallet_card_id == wallet_hold.ledger->ReserveWalletAmount_wallet_card_id)
            || (wallet_charge.ledger matches LedgerInstruction::ReleaseWalletAmount { wallet_card_id, .. }
            && wallet_card_id == wallet_hold.ledger->ReserveWalletAmount_wallet_card_id),
        wallet_charge_outcome(reply) != WalletChargeOutcome::Partial ==> (
            wallet_charge.ledger == (LedgerInstruction::SettleWalletCardAmount {
                wallet_card_id: wallet.id,
                amount_cents: wallet_hold.ledger->ReserveWalletAmount_amount_cents,
            }) || wallet_charge.ledger == (LedgerInstruction::ReleaseWalletAmount {
                wallet_card_id: wallet.id,
                amount_cents: wallet_hold.ledger->ReserveWalletAmount_amount_cents,
            })),
{
}

/// A wallet charge the provider answered with a code other than Authorised,
/// Cancelled, Error or Refused is recorded as failed and settles the amount
/// the provider answered with (nothing when it gave none); one answered
/// Cancelled, Error or Refused, or without a code, is recorded as failed and
/// releases the transaction's amount; one answered Authorised is recorded as
/// a success and settles the transaction's amount.
pub proof fn lemma_wallet_charge_by_code(
    rec: WalletChargeRecord,
    response: PaymentResponse,
    registered_transaction: RegisteredTransactionModel,
    wallet: Wallet,
    reservation: ExpectedWalletChargeReference,
)
    requires
        wallet_charge_record_of(rec, Some(response), registered_transaction, wallet, reservation),
    ensures
        response.result_code matches Some(c) && c != ResultCode::Authorised && c != ResultCode::Cancelled
            && c != ResultCode::Error && c != ResultCode::Refused ==> {
            &&& rec.charge.resolved_charge_status == ChargeStatus::Fail
            &&& rec.charge.is_success is None
            &&& rec.attempt == ChargeCardAttemptResult::Denied
            &&& rec.ledger == (LedgerInstruction::SettleWalletCardAmount {
                wallet_card_id: wallet.id,
                amount_cents: match response.amount_value {
                    Some(v) => v as i32,
                    None => 0i32,
                },
            })
        },
        (response.result_code is None || response.result_code == Some(ResultCode::Cancelled)
            || response.result_code == Some(ResultCode::Error)
            || response.result_code == Some(ResultCode::Refused)) ==> {
            &&& rec.charge.resolved_charge_status == ChargeStatus::Fail
            &&& rec.charge.is_success is None
            &&& rec.attempt == ChargeCardAttemptResult::Denied
            &&& rec.ledger == (LedgerInstruction::ReleaseWalletAmount {
                wallet_card_id: wallet.id,
                amount_cents: registered_transaction.amount_cents,
            })
        },
        response.result_code == Some(ResultCode::Authorised) ==> {
            &&& rec.charge.resolved_charge_status == ChargeStatus::Success
            &&& rec.charge.is_success == Some(true)
            &&& rec.attempt == ChargeCardAttemptResult::Approved
            &&& rec.ledger == (LedgerInstruction::SettleWalletCardAmount {
                wallet_card_id: wallet.id,
                amount_cents: registered_transaction.amount_cents,
            })
        },
{
}

} // verus!
