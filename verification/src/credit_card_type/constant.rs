use vstd::prelude::*;

verus! {

/// The credit card products the service knows.
#[derive(Clone, Copy, Debug, PartialEq, Eq, Structural)]
pub enum CreditCardTypeEnum {
    ChaseSapphirePreferred,
    ChaseSapphireReserve,
    BiltWorldElite,
}

/// The number a credit card product is stored as.
pub open spec fn credit_card_type_code(t: CreditCardTypeEnum) -> i32 {
    match t {
        CreditCardTypeEnum::ChaseSapphirePreferred => 1,
        CreditCardTypeEnum::ChaseSapphireReserve => 2,
        CreditCardTypeEnum::BiltWorldElite => 3,
    }
}

impl From<CreditCardTypeEnum> for i32 {
    fn from(value: CreditCardTypeEnum) -> (v: i32) {
        match value {
            CreditCardTypeEnum::ChaseSapphirePreferred => 1,
            CreditCardTypeEnum::ChaseSapphireReserve => 2,
            CreditCardTypeEnum::BiltWorldElite => 3,
        }
    }
}

impl vstd::std_specs::convert::FromSpecImpl<CreditCardTypeEnum> for i32 {
    open spec fn obeys_from_spec() -> bool {
        true
    }

    open spec fn from_spec(v: CreditCardTypeEnum) -> i32 {
        credit_card_type_code(v)
    }
}

} // verus!
