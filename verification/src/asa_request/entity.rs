use vstd::prelude::*;
use crate::text::owned;

verus! {

/// An authorization stream access request with every field present. The
/// conversion rate is carried as the bit pattern of its 32-bit float.
#[derive(Debug, Clone)]
pub struct AsaRequest {
    pub amount: i32,
    pub acquirer_fee: i32,
    pub authorization_amount: i32,
    pub avs: Avs,
    pub card: Card,
    pub cardholder_authentication: CardholderAuthentication,
    pub cash_amount: i32,
    pub conversion_rate_bits: u32,
    pub created: String,
    pub events: Vec<Event>,
    pub funding: Vec<Funding>,
    pub merchant_amount: i32,
    pub merchant_currency: String,
    pub merchant: Merchant,
    pub network: String,
    pub network_risk_score: i32,
    pub pos: POS,
    pub settled_amount: i32,
    pub status: String,
    pub token: String,
    pub token_info: TokenInfo,
}

#[derive(Debug, Clone)]
pub struct Card {}

#[derive(Debug, Clone)]
pub struct CardholderAuthentication {}

#[derive(Debug, Clone)]
pub struct TokenInfo {}

#[derive(Debug, Clone)]
pub struct Merchant {
    pub acceptor_id: String,
    pub city: String,
    pub country: String,
    pub descriptor: String,
    pub mcc: String,
    pub state: String,
}

#[derive(Debug, Clone)]
pub struct Avs {
    pub address: String,
    pub zipcode: String,
}

#[derive(Debug, Clone)]
pub struct Event {}

#[derive(Debug, Clone)]
pub struct Funding {
    pub amount: i32,
    pub token: String,
    pub type_: String,
}

#[derive(Debug, Clone)]
pub struct POS {
    pub terminal: Terminal,
    pub entry_mode: EntryMode,
}

#[derive(Debug, Clone)]
pub struct Terminal {
    pub attended: bool,
    pub operator: String,
    pub on_premise: bool,
    pub pin_capability: String,
    pub type_: String,
    pub partial_approval_capable: bool,
}

#[derive(Debug, Clone)]
pub struct EntryMode {
    pub pan: String,
    pub pin_entered: bool,
    pub cardholder: String,
    pub card: String,
}

/// A sample request for the given amount at a merchant of the given category
/// code: a New York test merchant, in dollars, with nothing funded yet.
pub fn create_example_asa(amount_cents: i32, mcc_code: String) -> (r: AsaRequest)
    ensures
        r.amount == amount_cents,
        r.merchant.mcc == mcc_code,
        r.merchant.descriptor@ == "test merchant"@,
        r.merchant.acceptor_id@ == "1"@,
        r.merchant.city@ == "New York"@,
        r.merchant.country@ == "USA"@,
        r.merchant.state@ == "NY"@,
        r.merchant_currency@ == "USD"@,
        r.network@ == "Visa"@,
        r.token@ == "test_token"@,
        r.status@ == "new"@,
        r.created@ == "2023-12-01"@,
        r.avs.address@ == "test address"@,
        r.avs.zipcode@ == "10017"@,
        r.acquirer_fee == 0 && r.authorization_amount == 0 && r.cash_amount == 0,
        r.merchant_amount == 0 && r.network_risk_score == 0 && r.settled_amount == 0,
        r.conversion_rate_bits == 0,
        r.events@.len() == 0,
        r.funding@.len() == 0,
        r.pos.terminal.attended && r.pos.terminal.on_premise && r.pos.terminal.partial_approval_capable,
        r.pos.terminal.operator@ == ""@,
        r.pos.terminal.pin_capability@ == "yes"@,
        r.pos.terminal.type_@ == "pos"@,
        r.pos.entry_mode.pan@ == ""@,
        r.pos.entry_mode.pin_entered,
        r.pos.entry_mode.cardholder@ == ""@,
        r.pos.entry_mode.card@ == "1234"@,
{
    AsaRequest {
        amount: amount_cents,
        acquirer_fee: 0,
        authorization_amount: 0,
        avs: Avs { address: owned("test address"), zipcode: owned("10017") },
        card: Card {},
        cardholder_authentication: CardholderAuthentication {},
        cash_amount: 0,
        conversion_rate_bits: 0,
        created: owned("2023-12-01"),
        events: Vec::new(),
        funding: Vec::new(),
        merchant_amount: 0,
        merchant_currency: owned("USD"),
        merchant: Merchant {
            acceptor_id: owned("1"),
            city: owned("New York"),
            country: owned("USA"),
            descriptor: owned("test merchant"),
            mcc: mcc_code,
            state: owned("NY"),
        },
        network: owned("Visa"),
        network_risk_score: 0,
        pos: POS {
            terminal: Terminal {
                attended: true,
                operator: owned(""),
                on_premise: true,
                pin_capability: owned("yes"),
                type_: owned("pos"),
                partial_approval_capable: true,
            },
            entry_mode: EntryMode {
                pan: owned(""),
                pin_entered: true,
                cardholder: owned(""),
                card: owned("1234"),
            },
        },
        settled_amount: 0,
        status: owned("new"),
        token: owned("test_token"),
        token_info: TokenInfo {},
    }
}

} // verus!
