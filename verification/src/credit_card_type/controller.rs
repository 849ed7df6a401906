use vstd::prelude::*;
use crate::credit_card_type::error::CreditCardTypeError;
use crate::credit_card_type::model::CreditCardDetailModel;
use crate::credit_card_type::response::CardTypeResponse;

verus! {

/// How a listed credit card is answered: its public id, its name, the names
/// of its issuer and kind, and its image.
pub open spec fn card_type_response_of(card: CreditCardDetailModel) -> CardTypeResponse {
    CardTypeResponse {
        public_id: card.public_id,
        card_name: card.name,
        issuer_name: card.credit_card_issuer_name,
        card_type: card.credit_card_type_name,
        card_image_url: card.card_image_url,
    }
}

/// The body the card listing answers with, given what the service listed:
/// one entry per card, in order; a failure passes through.
pub fn list_cards(listed: Result<Vec<CreditCardDetailModel>, CreditCardTypeError>) -> (r: Result<Vec<CardTypeResponse>, CreditCardTypeError>)
    ensures
        match listed {
            Ok(cards) => r matches Ok(body) && body@.len() == cards@.len()
                && forall|i: int| 0 <= i < cards@.len() ==> #[trigger] body@[i] == card_type_response_of(cards@[i]),
            Err(e) => r == Err::<Vec<CardTypeResponse>, CreditCardTypeError>(e),
        },
{
    let cards = match listed {
        Ok(cards) => cards,
        Err(e) => return Err(e),
    };
    let ghost all = cards@;
    let mut body: Vec<CardTypeResponse> = Vec::new();
    for card in it: cards.into_iter()
        invariant
            it.seq() == all,
            body@.len() == it.index(),
            forall|i: int| 0 <= i < it.index() ==> #[trigger] body@[i] == card_type_response_of(all[i]),
    {
        body.push(CardTypeResponse {
            public_id: card.public_id,
            card_name: card.name,
            issuer_name: card.credit_card_issuer_name,
            card_type: card.credit_card_type_name,
            card_image_url: card.card_image_url,
        });
    }
    Ok(body)
}

} // verus!
