use vstd::prelude::*;
use crate::adyen::checkout::model::ResultCode;
use crate::text::{bytes_equal, owned, str_equal};

verus! {

/// Whether a recorded charge went through.
#[derive(Clone, Copy, Debug, PartialEq, Eq, Structural)]
pub enum ChargeStatus {
    Fail,
    Success,
}

/// The text under which a charge status is stored.
pub open spec fn charge_status_text(s: ChargeStatus) -> Seq<char> {
    match s {
        ChargeStatus::Fail => "FAIL"@,
        ChargeStatus::Success => "SUCCESS"@,
    }
}

/// The bytes under which a charge status is stored.
pub open spec fn charge_status_bytes(s: ChargeStatus) -> Seq<u8> {
    match s {
        ChargeStatus::Fail => seq![70u8, 65u8, 73u8, 76u8],
        ChargeStatus::Success => seq![83u8, 85u8, 67u8, 67u8, 69u8, 83u8, 83u8],
    }
}

/// The status a stored text stands for; anything but "SUCCESS" reads as a
/// failure.
pub open spec fn charge_status_from_text(s: Seq<char>) -> ChargeStatus {
    if s == "SUCCESS"@ {
        ChargeStatus::Success
    } else {
        ChargeStatus::Fail
    }
}

/// The message a stored value that names no status is refused with.
pub open spec fn unknown_charge_status_message() -> Seq<char> {
    "Unknown value for ChargeStatus found"@
}

/// The status stored bytes stand for, or the refusal of bytes that name none.
pub open spec fn charge_status_from_bytes(b: Seq<u8>) -> Result<ChargeStatus, Seq<char>> {
    if b == charge_status_bytes(ChargeStatus::Fail) {
        Ok(ChargeStatus::Fail)
    } else if b == charge_status_bytes(ChargeStatus::Success) {
        Ok(ChargeStatus::Success)
    } else {
        Err(unknown_charge_status_message())
    }
}

impl ChargeStatus {
    /// The stored text of this status.
    pub fn as_str(&self) -> (s: String)
        ensures
            s@ == charge_status_text(*self),
    {
        match self {
            ChargeStatus::Fail => owned("FAIL"),
            ChargeStatus::Success => owned("SUCCESS"),
        }
    }

    /// The status a stored text stands for.
    pub fn from_str(str: &str) -> (s: ChargeStatus)
        ensures
            s == charge_status_from_text(str@),
    {
        proof {
            reveal_strlit("FAIL");
            reveal_strlit("SUCCESS");
            assert("FAIL"@.len() != "SUCCESS"@.len());
        }
        if str_equal(str, "FAIL") {
            ChargeStatus::Fail
        } else if str_equal(str, "SUCCESS") {
            ChargeStatus::Success
        } else {
            ChargeStatus::Fail
        }
    }

    /// The text this status is displayed as, the same as its stored text.
    pub fn to_string(&self) -> (s: String)
        ensures
            s@ == charge_status_text(*self),
    {
        self.as_str()
    }

    /// The bytes this status is stored as.
    pub fn to_sql_bytes(&self) -> (b: Vec<u8>)
        ensures
            b@ == charge_status_bytes(*self),
    {
        match self {
            ChargeStatus::Fail => vec![70u8, 65u8, 73u8, 76u8],
            ChargeStatus::Success => vec![83u8, 85u8, 67u8, 67u8, 69u8, 83u8, 83u8],
        }
    }

    /// Reads a status from its stored bytes.
    pub fn from_sql_bytes(bytes: &[u8]) -> (r: Result<ChargeStatus, String>)
        ensures
            match r {
                Ok(s) => charge_status_from_bytes(bytes@) == Ok::<ChargeStatus, Seq<char>>(s),
                Err(m) => charge_status_from_bytes(bytes@) == Err::<ChargeStatus, Seq<char>>(m@),
            },
    {
        let fail: [u8; 4] = [70u8, 65u8, 73u8, 76u8];
        let success: [u8; 7] = [83u8, 85u8, 67u8, 67u8, 69u8, 83u8, 83u8];
        assert(fail@ =~= charge_status_bytes(ChargeStatus::Fail));
        assert(success@ =~= charge_status_bytes(ChargeStatus::Success));
        if bytes_equal(bytes, fail.as_slice()) {
            Ok(ChargeStatus::Fail)
        } else if bytes_equal(bytes, success.as_slice()) {
            Ok(ChargeStatus::Success)
        } else {
            Err(owned("Unknown value for ChargeStatus found"))
        }
    }
}

/// Reading the stored text of a status gives the status back, and so does
/// reading its stored bytes.
pub proof fn lemma_charge_status_round_trip(s: ChargeStatus)
    ensures
        charge_status_from_text(charge_status_text(s)) == s,
        charge_status_from_bytes(charge_status_bytes(s)) == Ok::<ChargeStatus, Seq<char>>(s),
{
    reveal_strlit("FAIL");
    reveal_strlit("SUCCESS");
    assert("FAIL"@.len() != "SUCCESS"@.len());
    assert(charge_status_bytes(ChargeStatus::Fail).len() != charge_status_bytes(ChargeStatus::Success).len());
}

/// The overall answer of the charge engine to a card transaction.
#[derive(Clone, Copy, Debug, PartialEq, Eq, Structural)]
pub enum ChargeEngineResult {
    Approved,
    Denied,
    InsufficientFunds,
    CardClosed,
    CardPaused,
}

impl ChargeEngineResult {
    /// `Some(true)` for an approval; nothing otherwise.
    pub fn is_success(&self) -> (r: Option<bool>)
        ensures
            r == (if *self == ChargeEngineResult::Approved { Some(true) } else { None::<bool> }),
    {
        match self {
            ChargeEngineResult::Approved => Some(true),
            _ => None,
        }
    }
}

/// How the charge of one wallet card ended.
#[derive(Clone, Copy, Debug, PartialEq, Eq, Structural)]
pub enum ChargeCardAttemptResult {
    Approved,
    Denied,
    PartialCancelSucceeded,
    PartialCancelFailed,
}

/// Whether a card attempt counts as a successful charge.
pub open spec fn attempt_succeeded(a: ChargeCardAttemptResult) -> bool {
    a == ChargeCardAttemptResult::Approved
}

impl<'a> From<&'a ChargeCardAttemptResult> for bool {
    fn from(value: &'a ChargeCardAttemptResult) -> (b: bool) {
        match *value {
            ChargeCardAttemptResult::Approved => true,
            _ => false,
        }
    }
}

impl<'a> vstd::std_specs::convert::FromSpecImpl<&'a ChargeCardAttemptResult> for bool {
    open spec fn obeys_from_spec() -> bool {
        true
    }

    open spec fn from_spec(v: &'a ChargeCardAttemptResult) -> bool {
        attempt_succeeded(*v)
    }
}

/// The attempt result a provider's result code stands for: accepted,
/// pending, received and success codes approve; every other code denies.
pub open spec fn attempt_for_code(c: ResultCode) -> ChargeCardAttemptResult {
    match c {
        ResultCode::Authorised => ChargeCardAttemptResult::Approved,
        ResultCode::Pending => ChargeCardAttemptResult::Approved,
        ResultCode::Received => ChargeCardAttemptResult::Approved,
        ResultCode::Success => ChargeCardAttemptResult::Approved,
        _ => ChargeCardAttemptResult::Denied,
    }
}

impl From<ResultCode> for ChargeCardAttemptResult {
    fn from(value: ResultCode) -> (a: ChargeCardAttemptResult) {
        match value {
            ResultCode::Authorised => ChargeCardAttemptResult::Approved,
            ResultCode::Pending => ChargeCardAttemptResult::Approved,
            ResultCode::Received => ChargeCardAttemptResult::Approved,
            ResultCode::Success => ChargeCardAttemptResult::Approved,
            ResultCode::AuthenticationFinished => ChargeCardAttemptResult::Denied,
            ResultCode::AuthenticationNotRequired => ChargeCardAttemptResult::Denied,
            ResultCode::Cancelled => ChargeCardAttemptResult::Denied,
            ResultCode::ChallengeShopper => ChargeCardAttemptResult::Denied,
            ResultCode::Error => ChargeCardAttemptResult::Denied,
            ResultCode::IdentifyShopper => ChargeCardAttemptResult::Denied,
            ResultCode::PartiallyAuthorised => ChargeCardAttemptResult::Denied,
            ResultCode::PresentToShopper => ChargeCardAttemptResult::Denied,
            ResultCode::RedirectShopper => ChargeCardAttemptResult::Denied,
            ResultCode::Refused => ChargeCardAttemptResult::Denied,
        }
    }
}

impl vstd::std_specs::convert::FromSpecImpl<ResultCode> for ChargeCardAttemptResult {
    open spec fn obeys_from_spec() -> bool {
        true
    }

    open spec fn from_spec(v: ResultCode) -> ChargeCardAttemptResult {
        attempt_for_code(v)
    }
}

/// The result codes a charge is accepted on: only an authorisation.
pub open spec fn is_acceptable_status(c: ResultCode) -> bool {
    c == ResultCode::Authorised
}

/// The result codes after which a charge is known to have failed for good.
pub open spec fn is_final_state_error(c: ResultCode) -> bool {
    c == ResultCode::Cancelled || c == ResultCode::Error || c == ResultCode::Refused
}

/// Whether a charge is accepted on this result code.
pub fn acceptable_status(c: ResultCode) -> (b: bool)
    ensures
        b == is_acceptable_status(c),
{
    match c {
        ResultCode::Authorised => true,
        _ => false,
    }
}

/// Whether this result code ends a charge in failure for good.
pub fn final_state_error(c: ResultCode) -> (b: bool)
    ensures
        b == is_final_state_error(c),
{
    match c {
        ResultCode::Cancelled => true,
        ResultCode::Error => true,
        ResultCode::Refused => true,
        _ => false,
    }
}

/// An accepted code always approves the card attempt, and no final error
/// code does.
pub proof fn lemma_status_sets_agree_with_attempts(c: ResultCode)
    ensures
        is_acceptable_status(c) ==> attempt_for_code(c) == ChargeCardAttemptResult::Approved,
        is_final_state_error(c) ==> attempt_for_code(c) == ChargeCardAttemptResult::Denied,
        !(is_acceptable_status(c) && is_final_state_error(c)),
{
}

/// A charge has failed for good exactly when the provider answered it
/// Cancelled, Error or Refused, and it is accepted exactly when the provider
/// answered Authorised; every other code leaves it in an intermediate state.
pub proof fn lemma_final_and_accepted_codes(c: ResultCode)
    ensures
        is_final_state_error(c) <==> (c == ResultCode::Cancelled || c == ResultCode::Error
            || c == ResultCode::Refused),
        is_acceptable_status(c) <==> c == ResultCode::Authorised,
{
}

} // verus!
