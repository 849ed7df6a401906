use vstd::prelude::*;
use uuid::Uuid;
use crate::adyen::checkout::request::ChargeCardRequest;
use crate::text::owned;

verus! {

/// Which payment method a payment request charges.
#[derive(Clone, Debug)]
pub enum PaymentMethodPlan {
    /// A card stored with the provider, charged as a card scheme payment.
    StoredScheme { stored_payment_method_id: String },
    /// The method the customer's app sent, passed on as it came.
    AsGiven,
}

/// A payment request to the provider: the fields the service sets. Every
/// field not named here is left empty.
#[derive(Clone, Debug)]
pub struct PaymentRequestPlan {
    /// The idempotency key the request is sent under, if any.
    pub idempotency_key: Option<Uuid>,
    pub currency: String,
    pub amount_value: i64,
    pub country_code: Option<String>,
    pub mcc: Option<String>,
    pub merchant_account: String,
    pub payment_method: PaymentMethodPlan,
    /// Whether the card is charged as a card on file; the service always says
    /// so.
    pub card_on_file: bool,
    pub reference: String,
    pub return_url: String,
    /// Whether the shopper interaction is e-commerce; otherwise it is left
    /// empty.
    pub ecommerce_interaction: bool,
    pub shopper_reference: Option<Uuid>,
    pub shopper_statement: Option<String>,
    pub store_payment_method: Option<bool>,
}

/// The payment request that charges a stored card: in US dollars, for the
/// request's amount in cents, with its category code, reference and
/// statement, as a card on file, under the request's idempotency key.
pub fn card_on_file_payment(request: &ChargeCardRequest, merchant_account: &str) -> (r: PaymentRequestPlan)
    ensures
        r.idempotency_key == Some(*request.idempotency_key),
        r.currency@ == "USD"@,
        r.amount_value == request.amount_cents as i64,
        r.country_code is None,
        r.mcc is Some && r.mcc->0@ == request.mcc@,
        r.merchant_account@ == merchant_account@,
        r.payment_method matches PaymentMethodPlan::StoredScheme { stored_payment_method_id }
            && stored_payment_method_id@ == request.payment_method_id@,
        r.card_on_file,
        r.reference@ == request.reference@,
        r.return_url@ == ""@,
        !r.ecommerce_interaction,
        r.shopper_reference is None,
        r.shopper_statement is Some && r.shopper_statement->0@ == request.statement@,
        r.store_payment_method is None,
{
    PaymentRequestPlan {
        idempotency_key: Some(*request.idempotency_key),
        currency: owned("USD"),
        amount_value: request.amount_cents as i64,
        country_code: None,
        mcc: Some(owned(request.mcc)),
        merchant_account: owned(merchant_account),
        payment_method: PaymentMethodPlan::StoredScheme {
            stored_payment_method_id: owned(request.payment_method_id),
        },
        card_on_file: true,
        reference: owned(request.reference),
        return_url: owned(""),
        ecommerce_interaction: false,
        shopper_reference: None,
        shopper_statement: Some(owned(request.statement)),
        store_payment_method: None,
    }
}

/// The payment request that adds a customer's card: a zero-dollar payment
/// in the US, with the method the customer's app sent, stored as a card on
/// file under the customer's public id, as an e-commerce interaction that
/// returns to the app. It is sent without an idempotency key.
pub fn add_card_payment(
    customer_public_id: Uuid,
    reference_id: &str,
    merchant_account: &str,
) -> (r: PaymentRequestPlan)
    ensures
        r.idempotency_key is None,
        r.currency@ == "USD"@,
        r.amount_value == 0,
        r.country_code is Some && r.country_code->0@ == "US"@,
        r.mcc is None,
        r.merchant_account@ == merchant_account@,
        r.payment_method is AsGiven,
        r.card_on_file,
        r.reference@ == reference_id@,
        r.return_url@ == "myapp://payment"@,
        r.ecommerce_interaction,
        r.shopper_reference == Some(customer_public_id),
        r.shopper_statement is None,
        r.store_payment_method == Some(true),
{
    PaymentRequestPlan {
        idempotency_key: None,
        currency: owned("USD"),
        amount_value: 0,
        country_code: Some(owned("US")),
        mcc: None,
        merchant_account: owned(merchant_account),
        payment_method: PaymentMethodPlan::AsGiven,
        card_on_file: true,
        reference: owned(reference_id),
        return_url: owned("myapp://payment"),
        ecommerce_interaction: true,
        shopper_reference: Some(customer_public_id),
        shopper_statement: None,
        store_payment_method: Some(true),
    }
}

/// A request to cancel a payment.
#[derive(Clone, Debug)]
pub struct PaymentCancelPlan {
    pub psp_reference: String,
    pub idempotency_key: Uuid,
    pub merchant_account: String,
    pub reference: Option<Uuid>,
}

/// The request that cancels the payment with a provider reference, under a
/// fresh idempotency key and with a fresh reference.
pub fn cancel_payment(
    psp_reference: &str,
    merchant_account: &str,
    idempotency_key: Uuid,
    reference: Uuid,
) -> (r: PaymentCancelPlan)
    ensures
        r.psp_reference@ == psp_reference@,
        r.idempotency_key == idempotency_key,
        r.merchant_account@ == merchant_account@,
        r.reference == Some(reference),
{
    PaymentCancelPlan {
        psp_reference: owned(psp_reference),
        idempotency_key,
        merchant_account: owned(merchant_account),
        reference: Some(reference),
    }
}

} // verus!
