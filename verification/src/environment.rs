use vstd::prelude::*;

verus! {

/// The settings the service reads from its process environment.
#[derive(Clone, Debug)]
pub struct Environment {
    pub database_url: String,
    pub redis_url: String,
    pub adyen_api_key: String,
    pub adyen_merchant_account_name: String,
    pub lithic_api_key: String,
    pub mode: String,
    pub lithic_webhook_url: String,
}

} // verus!
