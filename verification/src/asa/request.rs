use vstd::prelude::*;
use crate::text::owned;

verus! {

/// An authorization stream access request, as the card issuer sends it.
///
/// The issuer sends the conversion rate as a 32-bit float; it is held here by
/// its bit pattern, which is all the library ever does with it.
#[derive(Debug, Clone)]
pub struct AsaRequest {
    pub amount: Option<i32>,
    pub acquirer_fee: Option<i32>,
    pub authorization_amount: Option<i32>,
    pub avs: Option<Avs>,
    pub card: Option<Card>,
    pub cardholder_authentication: Option<CardholderAuthentication>,
    pub cash_amount: Option<i32>,
    pub conversion_rate_bits: Option<u32>,
    pub created: Option<String>,
    pub events: Option<Vec<Event>>,
    pub funding: Option<Vec<Funding>>,
    pub merchant_amount: Option<i32>,
    pub merchant_currency: Option<String>,
    pub merchant: Option<Merchant>,
    pub network: Option<String>,
    pub network_risk_score: Option<i32>,
    pub pos: Option<POS>,
    pub settled_amount: Option<i32>,
    pub status: Option<String>,
    pub token: Option<String>,
    pub token_info: Option<TokenInfo>,
}

#[derive(Debug, Clone)]
pub struct Card {
    pub token: Option<String>,
}

#[derive(Debug, Clone)]
pub struct CardholderAuthentication {}

#[derive(Debug, Clone)]
pub struct TokenInfo {}

#[derive(Debug, Clone)]
pub struct Merchant {
    pub acceptor_id: Option<String>,
    pub city: Option<String>,
    pub country: Option<String>,
    pub descriptor: Option<String>,
    pub mcc: Option<String>,
    pub state: Option<String>,
}

#[derive(Debug, Clone)]
pub struct Avs {
    pub address: Option<String>,
    pub zipcode: Option<String>,
}

#[derive(Debug, Clone)]
pub struct Event {}

#[derive(Debug, Clone)]
pub struct Funding {
    pub amount: Option<i32>,
    pub token: Option<String>,
    pub type_: Option<String>,
}

#[derive(Debug, Clone)]
pub struct POS {
    pub terminal: Option<Terminal>,
    pub entry_mode: Option<EntryMode>,
}

#[derive(Debug, Clone)]
pub struct Terminal {
    pub attended: Option<bool>,
    pub operator: Option<String>,
    pub on_premise: Option<bool>,
    pub pin_capability: Option<String>,
    pub type_: Option<String>,
    pub partial_approval_capable: Option<bool>,
}

#[derive(Debug, Clone)]
pub struct EntryMode {
    pub pan: Option<String>,
    pub pin_entered: Option<bool>,
    pub cardholder: Option<String>,
    pub card: Option<String>,
}

/// Whether an optional text is present and reads as given.
pub open spec fn holds_text(o: Option<String>, text: Seq<char>) -> bool {
    o matches Some(v) && v@ == text
}

/// A sample request for an amount at a merchant category, the way the tests
/// of the charge flow use one: card "abc123" at a New York test merchant, in
/// dollars, with nothing funded yet and every other amount zero.
pub fn create_example_asa(amount_cents: i32, mcc_code: String) -> (r: AsaRequest)
    ensures
        r.amount == Some(amount_cents),
        r.acquirer_fee == Some(0i32) && r.authorization_amount == Some(0i32) && r.cash_amount == Some(0i32),
        r.merchant_amount == Some(0i32) && r.network_risk_score == Some(0i32) && r.settled_amount == Some(0i32),
        r.avs matches Some(a) && holds_text(a.address, "test address"@) && holds_text(a.zipcode, "10017"@),
        r.card matches Some(c) && holds_text(c.token, "abc123"@),
        r.cardholder_authentication is Some,
        r.conversion_rate_bits == Some(0u32),
        holds_text(r.created, "2023-12-01"@),
        r.events matches Some(e) && e@.len() == 0,
        r.funding matches Some(f) && f@.len() == 0,
        holds_text(r.merchant_currency, "USD"@),
        r.merchant matches Some(m) && m.mcc == Some(mcc_code)
            && holds_text(m.acceptor_id, "1"@) && holds_text(m.city, "New York"@)
            && holds_text(m.country, "USA"@) && holds_text(m.descriptor, "test merchant"@)
            && holds_text(m.state, "NY"@),
        holds_text(r.network, "Visa"@),
        r.pos matches Some(p) && (p.terminal matches Some(t)
            && t.attended == Some(true) && holds_text(t.operator, ""@) && t.on_premise == Some(true)
            && holds_text(t.pin_capability, "yes"@) && holds_text(t.type_, "pos"@)
            && t.partial_approval_capable == Some(true))
            && (p.entry_mode matches Some(e) && holds_text(e.pan, ""@) && e.pin_entered == Some(true)
            && holds_text(e.cardholder, ""@) && holds_text(e.card, "1234"@)),
        holds_text(r.status, "new"@),
        holds_text(r.token, "test_token"@),
        r.token_info is Some,
{
    AsaRequest {
        amount: Some(amount_cents),
        acquirer_fee: Some(0),
        authorization_amount: Some(0),
        avs: Some(Avs { address: Some(owned("test address")), zipcode: Some(owned("10017")) }),
        card: Some(Card { token: Some(owned("abc123")) }),
        cardholder_authentication: Some(CardholderAuthentication {}),
        cash_amount: Some(0),
        conversion_rate_bits: Some(0u32),
        created: Some(owned("2023-12-01")),
        events: Some(Vec::new()),
        funding: Some(Vec::new()),
        merchant_amount: Some(0),
        merchant_currency: Some(owned("USD")),
        merchant: Some(
            Merchant {
                acceptor_id: Some(owned("1")),
                city: Some(owned("New York")),
                country: Some(owned("USA")),
                descriptor: Some(owned("test merchant")),
                mcc: Some(mcc_code),
                state: Some(owned("NY")),
            },
        ),
        network: Some(owned("Visa")),
        network_risk_score: Some(0),
        pos: Some(
            POS {
                terminal: Some(
                    Terminal {
                        attended: Some(true),
                        operator: Some(owned("")),
                        on_premise: Some(true),
                        pin_capability: Some(owned("yes")),
                        type_: Some(owned("pos")),
                        partial_approval_capable: Some(true),
                    },
                ),
                entry_mode: Some(
                    EntryMode {
                        pan: Some(owned("")),
                        pin_entered: Some(true),
                        cardholder: Some(owned("")),
                        card: Some(owned("1234")),
                    },
                ),
            },
        ),
        settled_amount: Some(0),
        status: Some(owned("new")),
        token: Some(owned("test_token")),
        token_info: Some(TokenInfo {}),
    }
}

} // verus!
