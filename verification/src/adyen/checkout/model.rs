use vstd::prelude::*;
use crate::text::owned;

verus! {

/// The result codes a payment provider answers a payment with.
#[derive(Clone, Copy, Debug, PartialEq, Eq, Hash, Structural)]
pub enum ResultCode {
    AuthenticationFinished,
    AuthenticationNotRequired,
    Authorised,
    Cancelled,
    ChallengeShopper,
    Error,
    IdentifyShopper,
    PartiallyAuthorised,
    Pending,
    PresentToShopper,
    Received,
    RedirectShopper,
    Refused,
    Success,
}

/// The name under which a result code travels.
pub open spec fn result_code_name(c: ResultCode) -> Seq<char> {
    match c {
        ResultCode::AuthenticationFinished => "AuthenticationFinished"@,
        ResultCode::AuthenticationNotRequired => "AuthenticationNotRequired"@,
        ResultCode::Authorised => "Authorised"@,
        ResultCode::Cancelled => "Cancelled"@,
        ResultCode::ChallengeShopper => "ChallengeShopper"@,
        ResultCode::Error => "Error"@,
        ResultCode::IdentifyShopper => "IdentifyShopper"@,
        ResultCode::PartiallyAuthorised => "PartiallyAuthorised"@,
        ResultCode::Pending => "Pending"@,
        ResultCode::PresentToShopper => "PresentToShopper"@,
        ResultCode::Received => "Received"@,
        ResultCode::RedirectShopper => "RedirectShopper"@,
        ResultCode::Refused => "Refused"@,
        ResultCode::Success => "Success"@,
    }
}

/// A result code written as a JSON string: its name in double quotes.
pub open spec fn result_code_json(c: ResultCode) -> Seq<char> {
    "\""@ + result_code_name(c) + "\""@
}

impl ResultCode {
    /// The name under which this result code travels.
    pub fn name(&self) -> (s: &'static str)
        ensures
            s@ == result_code_name(*self),
    {
        match self {
            ResultCode::AuthenticationFinished => "AuthenticationFinished",
            ResultCode::AuthenticationNotRequired => "AuthenticationNotRequired",
            ResultCode::Authorised => "Authorised",
            ResultCode::Cancelled => "Cancelled",
            ResultCode::ChallengeShopper => "ChallengeShopper",
            ResultCode::Error => "Error",
            ResultCode::IdentifyShopper => "IdentifyShopper",
            ResultCode::PartiallyAuthorised => "PartiallyAuthorised",
            ResultCode::Pending => "Pending",
            ResultCode::PresentToShopper => "PresentToShopper",
            ResultCode::Received => "Received",
            ResultCode::RedirectShopper => "RedirectShopper",
            ResultCode::Refused => "Refused",
            ResultCode::Success => "Success",
        }
    }

    /// This result code as a JSON string.
    pub fn to_json(&self) -> (s: String)
        ensures
            s@ == result_code_json(*self),
    {
        let s = owned("\"");
        let s = s.concat(self.name());
        s.concat("\"")
    }
}

/// What a payment provider answers a payment with, as far as the charge flow
/// reads it.
#[derive(Clone, Debug)]
pub struct PaymentResponse {
    pub result_code: Option<ResultCode>,
    pub psp_reference: Option<String>,
    pub merchant_reference: Option<String>,
    /// The amount's value in minor units, where the answer holds an amount.
    pub amount_value: Option<i64>,
}

/// Each result code travels under the provider's own name for it, and as
/// JSON that name is written in double quotes.
pub proof fn lemma_result_code_names(c: ResultCode)
    ensures
        result_code_name(ResultCode::AuthenticationFinished) == "AuthenticationFinished"@,
        result_code_name(ResultCode::AuthenticationNotRequired) == "AuthenticationNotRequired"@,
        result_code_name(ResultCode::Authorised) == "Authorised"@,
        result_code_name(ResultCode::Cancelled) == "Cancelled"@,
        result_code_name(ResultCode::ChallengeShopper) == "ChallengeShopper"@,
        result_code_name(ResultCode::Error) == "Error"@,
        result_code_name(ResultCode::IdentifyShopper) == "IdentifyShopper"@,
        result_code_name(ResultCode::PartiallyAuthorised) == "PartiallyAuthorised"@,
        result_code_name(ResultCode::Pending) == "Pending"@,
        result_code_name(ResultCode::PresentToShopper) == "PresentToShopper"@,
        result_code_name(ResultCode::Received) == "Received"@,
        result_code_name(ResultCode::RedirectShopper) == "RedirectShopper"@,
        result_code_name(ResultCode::Refused) == "Refused"@,
        result_code_name(ResultCode::Success) == "Success"@,
        result_code_json(c) == "\""@ + result_code_name(c) + "\""@,
{
}

} // verus!
