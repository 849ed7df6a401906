use vstd::prelude::*;
use crate::charge::constant::ChargeEngineResult;
use crate::text::{str_equal, owned};

verus! {

/// The answer given to an authorization stream access request.
#[derive(Clone, Copy, Debug, PartialEq, Eq, Structural)]
pub enum AsaResponseResult {
    AccountInactive,
    AvsInvalid,
    CardClosed,
    CardPaused,
    InsufficientFunds,
    UnauthorizedMerchant,
    VelocityExceeded,
    Approved,
}

/// The wire code of an authorization answer.
pub open spec fn asa_code(r: AsaResponseResult) -> Seq<char> {
    match r {
        AsaResponseResult::AccountInactive => "ACCOUNT_INACTIVE"@,
        AsaResponseResult::AvsInvalid => "AVS_INVALID"@,
        AsaResponseResult::CardClosed => "CARD_CLOSED"@,
        AsaResponseResult::CardPaused => "CARD_PAUSED"@,
        AsaResponseResult::InsufficientFunds => "INSUFFICIENT_FUNDS"@,
        AsaResponseResult::UnauthorizedMerchant => "UNAUTHORIZED_MERCHANT"@,
        AsaResponseResult::VelocityExceeded => "VELOCITY_EXCEEDED"@,
        AsaResponseResult::Approved => "APPROVED"@,
    }
}

/// The authorization answer a wire code stands for; an unknown code reads as
/// an unauthorized merchant.
pub open spec fn asa_from_code(s: Seq<char>) -> AsaResponseResult {
    if s == "ACCOUNT_INACTIVE"@ {
        AsaResponseResult::AccountInactive
    } else if s == "AVS_INVALID"@ {
        AsaResponseResult::AvsInvalid
    } else if s == "CARD_CLOSED"@ {
        AsaResponseResult::CardClosed
    } else if s == "CARD_PAUSED"@ {
        AsaResponseResult::CardPaused
    } else if s == "INSUFFICIENT_FUNDS"@ {
        AsaResponseResult::InsufficientFunds
    } else if s == "UNAUTHORIZED_MERCHANT"@ {
        AsaResponseResult::UnauthorizedMerchant
    } else if s == "VELOCITY_EXCEEDED"@ {
        AsaResponseResult::VelocityExceeded
    } else if s == "APPROVED"@ {
        AsaResponseResult::Approved
    } else {
        AsaResponseResult::UnauthorizedMerchant
    }
}

impl AsaResponseResult {
    /// Reads a wire code.
    pub fn from_code(value: &str) -> (r: AsaResponseResult)
        ensures
            r == asa_from_code(value@),
    {
        if str_equal(value, "ACCOUNT_INACTIVE") {
            AsaResponseResult::AccountInactive
        } else if str_equal(value, "AVS_INVALID") {
            AsaResponseResult::AvsInvalid
        } else if str_equal(value, "CARD_CLOSED") {
            AsaResponseResult::CardClosed
        } else if str_equal(value, "CARD_PAUSED") {
            AsaResponseResult::CardPaused
        } else if str_equal(value, "INSUFFICIENT_FUNDS") {
            AsaResponseResult::InsufficientFunds
        } else if str_equal(value, "UNAUTHORIZED_MERCHANT") {
            AsaResponseResult::UnauthorizedMerchant
        } else if str_equal(value, "VELOCITY_EXCEEDED") {
            AsaResponseResult::VelocityExceeded
        } else if str_equal(value, "APPROVED") {
            AsaResponseResult::Approved
        } else {
            AsaResponseResult::UnauthorizedMerchant
        }
    }

    /// Writes the wire code.
    pub fn code(&self) -> (s: String)
        ensures
            s@ == asa_code(*self),
    {
        match self {
            AsaResponseResult::AccountInactive => owned("ACCOUNT_INACTIVE"),
            AsaResponseResult::AvsInvalid => owned("AVS_INVALID"),
            AsaResponseResult::CardClosed => owned("CARD_CLOSED"),
            AsaResponseResult::CardPaused => owned("CARD_PAUSED"),
            AsaResponseResult::InsufficientFunds => owned("INSUFFICIENT_FUNDS"),
            AsaResponseResult::UnauthorizedMerchant => owned("UNAUTHORIZED_MERCHANT"),
            AsaResponseResult::VelocityExceeded => owned("VELOCITY_EXCEEDED"),
            AsaResponseResult::Approved => owned("APPROVED"),
        }
    }
}

impl<'a> From<&'a str> for AsaResponseResult {
    fn from(value: &'a str) -> (r: AsaResponseResult) {
        AsaResponseResult::from_code(value)
    }
}

impl<'a> vstd::std_specs::convert::FromSpecImpl<&'a str> for AsaResponseResult {
    open spec fn obeys_from_spec() -> bool {
        true
    }

    open spec fn from_spec(v: &'a str) -> AsaResponseResult {
        asa_from_code(v@)
    }
}

impl From<String> for AsaResponseResult {
    fn from(value: String) -> (r: AsaResponseResult) {
        AsaResponseResult::from_code(value.as_str())
    }
}

impl vstd::std_specs::convert::FromSpecImpl<String> for AsaResponseResult {
    open spec fn obeys_from_spec() -> bool {
        true
    }

    open spec fn from_spec(v: String) -> AsaResponseResult {
        asa_from_code(v@)
    }
}

impl From<AsaResponseResult> for String {
    /// The wire code of the answer.
    fn from(value: AsaResponseResult) -> (s: String)
        ensures
            s@ == asa_code(value),
    {
        value.code()
    }
}

impl<'a> From<&'a AsaResponseResult> for String {
    /// The wire code of the answer.
    fn from(value: &'a AsaResponseResult) -> (s: String)
        ensures
            s@ == asa_code(*value),
    {
        value.code()
    }
}

impl<'a> vstd::std_specs::convert::FromSpecImpl<&'a AsaResponseResult> for String {
    open spec fn obeys_from_spec() -> bool {
        false
    }

    open spec fn from_spec(v: &'a AsaResponseResult) -> String {
        arbitrary()
    }
}

impl vstd::std_specs::convert::FromSpecImpl<AsaResponseResult> for String {
    open spec fn obeys_from_spec() -> bool {
        false
    }

    open spec fn from_spec(v: AsaResponseResult) -> String {
        arbitrary()
    }
}

/// Writing an authorization answer as its wire code and reading the code back
/// gives the same answer.
pub proof fn lemma_asa_code_round_trip(r: AsaResponseResult)
    ensures
        asa_from_code(asa_code(r)) == r,
{
    let a = "ACCOUNT_INACTIVE"@;
    let b = "AVS_INVALID"@;
    let c = "CARD_CLOSED"@;
    let d = "CARD_PAUSED"@;
    let e = "INSUFFICIENT_FUNDS"@;
    let f = "UNAUTHORIZED_MERCHANT"@;
    let g = "VELOCITY_EXCEEDED"@;
    let h = "APPROVED"@;
    reveal_strlit("ACCOUNT_INACTIVE");
    reveal_strlit("AVS_INVALID");
    reveal_strlit("CARD_CLOSED");
    reveal_strlit("CARD_PAUSED");
    reveal_strlit("INSUFFICIENT_FUNDS");
    reveal_strlit("UNAUTHORIZED_MERCHANT");
    reveal_strlit("VELOCITY_EXCEEDED");
    reveal_strlit("APPROVED");
    assert(a.len() == 16 && b.len() == 11 && c.len() == 11 && d.len() == 11);
    assert(e.len() == 18 && f.len() == 21 && g.len() == 17 && h.len() == 8);
    assert(b[0] != c[0] && b[0] != d[0] && c[5] != d[5]);
    assert(a != b && a != c && a != d && a != e && a != f && a != g && a != h);
    assert(b != c && b != d && b != e && b != f && b != g && b != h);
    assert(c != d && c != e && c != f && c != g && c != h);
    assert(d != e && d != f && d != g && d != h);
    assert(e != f && e != g && e != h && f != g && f != h && g != h);
}

/// The authorization answer for an engine result: a denial reads as an
/// unauthorized merchant, and each other result as its namesake.
pub open spec fn asa_for_engine_result(r: ChargeEngineResult) -> AsaResponseResult {
    match r {
        ChargeEngineResult::Approved => AsaResponseResult::Approved,
        ChargeEngineResult::CardClosed => AsaResponseResult::CardClosed,
        ChargeEngineResult::Denied => AsaResponseResult::UnauthorizedMerchant,
        ChargeEngineResult::InsufficientFunds => AsaResponseResult::InsufficientFunds,
        ChargeEngineResult::CardPaused => AsaResponseResult::CardPaused,
    }
}

impl From<ChargeEngineResult> for AsaResponseResult {
    fn from(value: ChargeEngineResult) -> (r: AsaResponseResult) {
        match value {
            ChargeEngineResult::Approved => AsaResponseResult::Approved,
            ChargeEngineResult::CardClosed => AsaResponseResult::CardClosed,
            ChargeEngineResult::Denied => AsaResponseResult::UnauthorizedMerchant,
            ChargeEngineResult::InsufficientFunds => AsaResponseResult::InsufficientFunds,
            ChargeEngineResult::CardPaused => AsaResponseResult::CardPaused,
        }
    }
}

impl vstd::std_specs::convert::FromSpecImpl<ChargeEngineResult> for AsaResponseResult {
    open spec fn obeys_from_spec() -> bool {
        true
    }

    open spec fn from_spec(v: ChargeEngineResult) -> AsaResponseResult {
        asa_for_engine_result(v)
    }
}

/// The outcome of the address verification of an authorization.
#[derive(Clone, Copy, Debug, PartialEq, Eq, Structural)]
pub enum AvsResponseResult {
    Fail,
    Match,
    MatchAddressOnly,
    MatchZipOnly,
}

/// The wire code of an address verification outcome.
pub open spec fn avs_code(r: AvsResponseResult) -> Seq<char> {
    match r {
        AvsResponseResult::Fail => "FAIL"@,
        AvsResponseResult::Match => "MATCH"@,
        AvsResponseResult::MatchAddressOnly => "MATCH_ADDRESS_ONLY"@,
        AvsResponseResult::MatchZipOnly => "MATCH_ZIP_ONLY"@,
    }
}

/// The address verification outcome a wire code stands for; an unknown code
/// reads as a failure.
pub open spec fn avs_from_code(s: Seq<char>) -> AvsResponseResult {
    if s == "FAIL"@ {
        AvsResponseResult::Fail
    } else if s == "MATCH"@ {
        AvsResponseResult::Match
    } else if s == "MATCH_ADDRESS_ONLY"@ {
        AvsResponseResult::MatchAddressOnly
    } else if s == "MATCH_ZIP_ONLY"@ {
        AvsResponseResult::MatchZipOnly
    } else {
        AvsResponseResult::Fail
    }
}

impl AvsResponseResult {
    /// Reads a wire code.
    pub fn from_code(value: &str) -> (r: AvsResponseResult)
        ensures
            r == avs_from_code(value@),
    {
        if str_equal(value, "FAIL") {
            AvsResponseResult::Fail
        } else if str_equal(value, "MATCH") {
            AvsResponseResult::Match
        } else if str_equal(value, "MATCH_ADDRESS_ONLY") {
            AvsResponseResult::MatchAddressOnly
        } else if str_equal(value, "MATCH_ZIP_ONLY") {
            AvsResponseResult::MatchZipOnly
        } else {
            AvsResponseResult::Fail
        }
    }

    /// Writes the wire code.
    pub fn code(&self) -> (s: String)
        ensures
            s@ == avs_code(*self),
    {
        match self {
            AvsResponseResult::Fail => owned("FAIL"),
            AvsResponseResult::Match => owned("MATCH"),
            AvsResponseResult::MatchAddressOnly => owned("MATCH_ADDRESS_ONLY"),
            AvsResponseResult::MatchZipOnly => owned("MATCH_ZIP_ONLY"),
        }
    }
}

impl<'a> From<&'a str> for AvsResponseResult {
    fn from(value: &'a str) -> (r: AvsResponseResult) {
        AvsResponseResult::from_code(value)
    }
}

impl<'a> vstd::std_specs::convert::FromSpecImpl<&'a str> for AvsResponseResult {
    open spec fn obeys_from_spec() -> bool {
        true
    }

    open spec fn from_spec(v: &'a str) -> AvsResponseResult {
        avs_from_code(v@)
    }
}

impl From<String> for AvsResponseResult {
    fn from(value: String) -> (r: AvsResponseResult) {
        AvsResponseResult::from_code(value.as_str())
    }
}

impl vstd::std_specs::convert::FromSpecImpl<String> for AvsResponseResult {
    open spec fn obeys_from_spec() -> bool {
        true
    }

    open spec fn from_spec(v: String) -> AvsResponseResult {
        avs_from_code(v@)
    }
}

impl From<AvsResponseResult> for String {
    /// The wire code of the outcome.
    fn from(value: AvsResponseResult) -> (s: String)
        ensures
            s@ == avs_code(value),
    {
        value.code()
    }
}

impl<'a> From<&'a AvsResponseResult> for String {
    /// The wire code of the outcome.
    fn from(value: &'a AvsResponseResult) -> (s: String)
        ensures
            s@ == avs_code(*value),
    {
        value.code()
    }
}

impl<'a> vstd::std_specs::convert::FromSpecImpl<&'a AvsResponseResult> for String {
    open spec fn obeys_from_spec() -> bool {
        false
    }

    open spec fn from_spec(v: &'a AvsResponseResult) -> String {
        arbitrary()
    }
}

impl vstd::std_specs::convert::FromSpecImpl<AvsResponseResult> for String {
    open spec fn obeys_from_spec() -> bool {
        false
    }

    open spec fn from_spec(v: AvsResponseResult) -> String {
        arbitrary()
    }
}

/// Writing an address verification outcome as its wire code and reading the
/// code back gives the same outcome.
pub proof fn lemma_avs_code_round_trip(r: AvsResponseResult)
    ensures
        avs_from_code(avs_code(r)) == r,
{
    let a = "FAIL"@;
    let b = "MATCH"@;
    let c = "MATCH_ADDRESS_ONLY"@;
    let d = "MATCH_ZIP_ONLY"@;
    reveal_strlit("FAIL");
    reveal_strlit("MATCH");
    reveal_strlit("MATCH_ADDRESS_ONLY");
    reveal_strlit("MATCH_ZIP_ONLY");
    assert(a.len() == 4 && b.len() == 5 && c.len() == 18 && d.len() == 14);
    assert(a != b && a != c && a != d && b != c && b != d && c != d);
}

/// A balance reported with an authorization answer.
#[derive(Clone, Copy, Debug, PartialEq, Eq, Structural)]
pub struct Balance {
    pub amount: i32,
    pub available: i32,
}

/// The answer to an authorization stream access request.
#[derive(Clone, Debug)]
pub struct AsaResponse {
    pub token: String,
    pub result: AsaResponseResult,
    pub avs_result: Option<String>,
    pub balance: Option<Balance>,
}

} // verus!
