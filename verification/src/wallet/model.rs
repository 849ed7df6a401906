use vstd::prelude::*;

verus! {

/// A card in a customer's wallet, with the rule that placed it there, as far
/// as the charge flow reads one.
#[derive(Clone, Debug)]
pub struct WalletModelWithRule {
    pub id: i32,
    pub user_id: i32,
    pub payment_method_id: String,
    pub rule_id: Option<i32>,
}

} // verus!
