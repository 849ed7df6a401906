use vstd::prelude::*;
use crate::credit_card_type::entity::{CreditCard, CreditCardIssuer, CreditCardType};

verus! {

/// A credit card with its kind and its issuer, as the listing joins them.
pub type CreditCardDetail = (CreditCard, CreditCardType, CreditCardIssuer);

} // verus!
