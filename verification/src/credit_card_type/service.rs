use vstd::prelude::*;
use crate::credit_card_type::entity::CreditCard;
use crate::credit_card_type::error::{credit_card_type_error_of, CreditCardTypeError};
use crate::credit_card_type::model::{
    credit_card_detail_model_of, credit_card_model_of, CreditCardDetailModel, CreditCardModel,
};
use crate::credit_card_type::typedef::CreditCardDetail;
use crate::error::data_error::DataError;

verus! {

broadcast use vstd::std_specs::vec::axiom_spec_into_iter;

/// The models of joined credit cards, one for each, in the same order.
pub fn credit_card_detail_models(cards: Vec<CreditCardDetail>) -> (r: Vec<CreditCardDetailModel>)
    ensures
        r@.len() == cards@.len(),
        forall|i: int| 0 <= i < cards@.len() ==> #[trigger] r@[i] == credit_card_detail_model_of(cards@[i]),
{
    let ghost all = cards@;
    let mut out: Vec<CreditCardDetailModel> = Vec::new();
    for card in it: cards.into_iter()
        invariant
            it.seq() == all,
            out@.len() == it.index(),
            forall|i: int| 0 <= i < it.index() ==> #[trigger] out@[i] == credit_card_detail_model_of(all[i]),
    {
        out.push(CreditCardDetailModel::from(card));
    }
    out
}

/// What the service answers once the listing has come back: the cards as
/// models, in the order listed, or the failure as unexpected.
pub fn list_all_card_types_result(found: Result<Vec<CreditCardDetail>, DataError>) -> (r: Result<Vec<CreditCardDetailModel>, CreditCardTypeError>)
    ensures
        match found {
            Ok(cards) => r matches Ok(models) && models@.len() == cards@.len()
                && forall|i: int| 0 <= i < cards@.len() ==> #[trigger] models@[i] == credit_card_detail_model_of(cards@[i]),
            Err(e) => r == Err::<Vec<CreditCardDetailModel>, CreditCardTypeError>(credit_card_type_error_of(e)),
        },
{
    match found {
        Ok(cards) => Ok(credit_card_detail_models(cards)),
        Err(e) => Err(CreditCardTypeError::from(e)),
    }
}

/// What the service answers once the lookup by public id has come back.
pub fn find_by_public_id_result(found: Result<CreditCard, DataError>) -> (r: Result<CreditCardModel, CreditCardTypeError>)
    ensures
        match found {
            Ok(card) => r == Ok::<CreditCardModel, CreditCardTypeError>(credit_card_model_of(card)),
            Err(e) => r == Err::<CreditCardModel, CreditCardTypeError>(credit_card_type_error_of(e)),
        },
{
    match found {
        Ok(card) => Ok(CreditCardModel::from(card)),
        Err(e) => Err(CreditCardTypeError::from(e)),
    }
}

} // verus!
