use vstd::prelude::*;
use uuid::Uuid;
use crate::adyen::checkout::model::{PaymentResponse, ResultCode};
use crate::adyen::checkout::request::ChargeCardRequest;
use crate::asa::request::AsaRequest;
use crate::charge::constant::{
    ChargeCardAttemptResult, ChargeEngineResult, acceptable_status, attempt_for_code,
    final_state_error, is_acceptable_status, is_final_state_error,
};
use crate::common::model::TransactionMetadata;
use crate::service_error::ServiceError;
use crate::text::owned;
use crate::user::model::UserModel as User;
use crate::wallet::model::WalletModelWithRule as Wallet;

verus! {

/// The charge of a stored wallet card sent straight to the payment
/// provider: the transaction's amount, category and memo, the card's payment
/// method and the customer, under the given idempotency key and reference.
pub fn engine_charge_request<'a>(
    transaction_metadata: &'a TransactionMetadata,
    card: &'a Wallet,
    user: &'a User,
    idempotency_key: &'a Uuid,
    reference: &'a str,
) -> (r: ChargeCardRequest<'a>)
    ensures
        r.amount_cents == transaction_metadata.amount_cents,
        r.mcc@ == transaction_metadata.mcc@,
        r.payment_method_id@ == card.payment_method_id@,
        *r.customer_public_id == user.public_id,
        *r.idempotency_key == *idempotency_key,
        r.reference@ == reference@,
        r.statement@ == transaction_metadata.memo@,
{
    ChargeCardRequest {
        amount_cents: transaction_metadata.amount_cents,
        mcc: transaction_metadata.mcc.as_str(),
        payment_method_id: card.payment_method_id.as_str(),
        customer_public_id: &user.public_id,
        idempotency_key,
        reference,
        statement: transaction_metadata.memo.as_str(),
    }
}

/// What the engine does next in the charge of a wallet card.
#[derive(Clone, Debug, PartialEq, Eq)]
pub enum EngineCardStep {
    /// Ask the provider to cancel the payment with this reference, then
    /// report whether the cancellation went through.
    Cancel(String),
    /// Register the inner charge, successful or failed, and end the attempt
    /// with this result.
    Register { successful: bool, attempt: ChargeCardAttemptResult },
}

/// The step the provider's answer leads to; `None` stands for a failed call.
///
/// An authorised charge is registered as a success; a refused, cancelled or
/// failed one, one without a code and a failed call as a denial; a charge in
/// an intermediate state is cancelled when it carries a provider reference,
/// and denied otherwise.
pub open spec fn engine_card_step_of(reply: Option<PaymentResponse>) -> EngineCardStep {
    match reply {
        Some(response) => match response.result_code {
            Some(code) => if is_acceptable_status(code) {
                EngineCardStep::Register { successful: true, attempt: attempt_for_code(code) }
            } else if is_final_state_error(code) {
                EngineCardStep::Register {
                    successful: false,
                    attempt: ChargeCardAttemptResult::Denied,
                }
            } else {
                match response.psp_reference {
                    Some(psp) => EngineCardStep::Cancel(psp),
                    None => EngineCardStep::Register {
                        successful: false,
                        attempt: ChargeCardAttemptResult::Denied,
                    },
                }
            },
            None => EngineCardStep::Register {
                successful: false,
                attempt: ChargeCardAttemptResult::Denied,
            },
        },
        None => EngineCardStep::Register {
            successful: false,
            attempt: ChargeCardAttemptResult::Denied,
        },
    }
}

/// Decides what follows the provider's answer to a charge.
pub fn engine_card_step(reply: &Option<PaymentResponse>) -> (r: EngineCardStep)
    ensures
        r == engine_card_step_of(*reply),
{
    let denied = EngineCardStep::Register {
        successful: false,
        attempt: ChargeCardAttemptResult::Denied,
    };
    match reply {
        Some(response) => match response.result_code {
            Some(code) => {
                if acceptable_status(code) {
                    EngineCardStep::Register {
                        successful: true,
                        attempt: ChargeCardAttemptResult::from(code),
                    }
                } else if final_state_error(code) {
                    denied
                } else {
                    match &response.psp_reference {
                        Some(psp) => EngineCardStep::Cancel(psp.clone()),
                        None => denied,
                    }
                }
            },
            None => denied,
        },
        None => denied,
    }
}

/// What follows a cancellation: the inner charge is registered as failed,
/// and the attempt ends as a partial charge whose cancellation went through
/// or failed.
pub fn engine_cancel_step(cancelled: bool) -> (r: EngineCardStep)
    ensures
        r == (EngineCardStep::Register {
            successful: false,
            attempt: if cancelled {
                ChargeCardAttemptResult::PartialCancelSucceeded
            } else {
                ChargeCardAttemptResult::PartialCancelFailed
            },
        }),
{
    EngineCardStep::Register {
        successful: false,
        attempt: if cancelled {
            ChargeCardAttemptResult::PartialCancelSucceeded
        } else {
            ChargeCardAttemptResult::PartialCancelFailed
        },
    }
}

/// How the charge of one wallet card ends once the inner charge is
/// registered: the attempt's result with the ledger entry, or the failure of
/// the registration.
pub fn engine_card_outcome<L>(
    attempt: ChargeCardAttemptResult,
    registered: Result<L, ServiceError>,
) -> (r: Result<(ChargeCardAttemptResult, Option<L>), ServiceError>)
    ensures
        match registered {
            Ok(l) => r == Ok::<(ChargeCardAttemptResult, Option<L>), ServiceError>((attempt, Some(l))),
            Err(e) => r == Err::<(ChargeCardAttemptResult, Option<L>), ServiceError>(e),
        },
{
    match registered {
        Ok(l) => Ok((attempt, Some(l))),
        Err(e) => Err(e),
    }
}

/// The engine registers a success exactly for an authorised charge, and only
/// a success approves the attempt.
pub proof fn lemma_engine_card_step_law(reply: Option<PaymentResponse>)
    ensures
        (engine_card_step_of(reply) matches EngineCardStep::Register { successful, .. }
            && successful) <==> (reply is Some && reply->0.result_code == Some(
            ResultCode::Authorised,
        )),
        engine_card_step_of(reply) matches EngineCardStep::Register { successful, attempt } ==> (
        (attempt == ChargeCardAttemptResult::Approved) == successful),
{
}

/// Checks that a card transaction request names a card with a token.
pub fn engine_card_check(request: &AsaRequest) -> (r: Result<(), ServiceError>)
    ensures
        request.card is None ==> (r matches Err(e) && e.status_code == 400 && e.message@
            == "expect card"@),
        request.card is Some && request.card->0.token is None ==> (r matches Err(e)
            && e.status_code == 400 && e.message@ == "expect token"@),
        request.card is Some && request.card->0.token is Some ==> r is Ok,
{
    match &request.card {
        None => Err(ServiceError::new(400, owned("expect card"))),
        Some(card) => match &card.token {
            None => Err(ServiceError::new(400, owned("expect token"))),
            Some(_) => Ok(()),
        },
    }
}

/// What the engine records of the outer charge once the wallet is charged.
#[derive(Debug)]
pub enum EngineSettlement<L> {
    /// Register the outer charge as successful, then the full transaction
    /// that ties it to this inner charge.
    SuccessfulOuter(L),
    /// Register the outer charge as failed.
    FailedOuter,
}

/// The outer charge succeeds exactly when the wallet was approved with a
/// ledger entry for its inner charge.
pub fn engine_settlement<L>(result: ChargeEngineResult, ledger: Option<L>) -> (r: EngineSettlement<L>)
    ensures
        result == ChargeEngineResult::Approved && ledger is Some ==> r == EngineSettlement::<L>::SuccessfulOuter(ledger->0),
        !(result == ChargeEngineResult::Approved && ledger is Some) ==> r is FailedOuter,
{
    match (result, ledger) {
        (ChargeEngineResult::Approved, Some(l)) => EngineSettlement::SuccessfulOuter(l),
        _ => EngineSettlement::FailedOuter,
    }
}

/// The engine's answer to a card transaction once the outer charge is
/// registered (with the full transaction for a success).
///
/// A failed registration fails the request. Otherwise an approval with a
/// ledger entry answers approved with the full transaction, an approval
/// without one fails with status 500, and any other result answers as that
/// result with nothing.
pub fn engine_answer<T>(
    result: ChargeEngineResult,
    ledger_present: bool,
    registered: Result<Option<T>, ServiceError>,
) -> (r: Result<(ChargeEngineResult, Option<T>), ServiceError>)
    ensures
        match registered {
            Err(e) => r == Err::<(ChargeEngineResult, Option<T>), ServiceError>(e),
            Ok(full) => if result == ChargeEngineResult::Approved {
                if ledger_present {
                    r == Ok::<(ChargeEngineResult, Option<T>), ServiceError>((result, full))
                } else {
                    r matches Err(e) && e.status_code == 500 && e.message@
                        == "Approved inner charge with no ledger entry, should not be possible"@
                }
            } else {
                r == Ok::<(ChargeEngineResult, Option<T>), ServiceError>((result, None))
            },
        },
{
    match registered {
        Err(e) => Err(e),
        Ok(full) => {
            if let ChargeEngineResult::Approved = result {
                if ledger_present {
                    Ok((result, full))
                } else {
                    Err(
                        ServiceError::new(
                            500,
                            owned(
                                "Approved inner charge with no ledger entry, should not be possible",
                            ),
                        ),
                    )
                }
            } else {
                Ok((result, None))
            }
        },
    }
}

/// The engine registers a charge answered Authorised as a success, and one
/// answered Cancelled, Error or Refused, without a code, or not answered at
/// all as a denial, whatever the provider reference; it cancels a payment
/// only when the provider left it in another state and gave its reference,
/// and then cancels it by that reference.
pub proof fn lemma_engine_card_step_by_code(reply: Option<PaymentResponse>)
    ensures
        reply matches Some(response) && response.result_code == Some(ResultCode::Authorised)
            ==> engine_card_step_of(reply) == (EngineCardStep::Register {
            successful: true,
            attempt: ChargeCardAttemptResult::Approved,
        }),
        (reply is None || reply->0.result_code is None
            || reply->0.result_code == Some(ResultCode::Cancelled)
            || reply->0.result_code == Some(ResultCode::Error)
            || reply->0.result_code == Some(ResultCode::Refused))
            ==> engine_card_step_of(reply) == (EngineCardStep::Register {
            successful: false,
            attempt: ChargeCardAttemptResult::Denied,
        }),
        engine_card_step_of(reply) matches EngineCardStep::Cancel(psp) ==> {
            &&& reply matches Some(response)
            &&& response.psp_reference == Some(psp)
            &&& response.result_code matches Some(c)
            &&& c != ResultCode::Authorised && c != ResultCode::Cancelled
            &&& c != ResultCode::Error && c != ResultCode::Refused
        },
        (reply matches Some(response) && response.result_code matches Some(c)
            && c != ResultCode::Authorised && c != ResultCode::Cancelled
            && c != ResultCode::Error && c != ResultCode::Refused
            && response.psp_reference is Some)
            ==> engine_card_step_of(reply) == EngineCardStep::Cancel(reply->0.psp_reference->0),
{
}

} // verus!
