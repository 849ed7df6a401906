use vstd::prelude::*;
use crate::asa::request::AsaRequest;
use crate::error::data_error::DataError;
use crate::text::owned;

verus! {

/// What the charge flow needs to know of a card transaction.
#[derive(Clone, Debug)]
pub struct TransactionMetadata {
    pub memo: String,
    pub amount_cents: i32,
    pub mcc: String,
}

/// What converting a request gives: the metadata when the request names a
/// merchant with a descriptor and a category code and carries an amount, and
/// otherwise a format error naming the first of these found missing.
pub open spec fn metadata_of_request(r: AsaRequest) -> Result<(Seq<char>, i32, Seq<char>), Seq<char>> {
    if r.merchant is None {
        Err("missing merchant"@)
    } else if r.merchant->0.descriptor is None {
        Err("missing descriptor"@)
    } else if r.merchant->0.mcc is None {
        Err("missing mcc"@)
    } else if r.amount is None {
        Err("missing amount"@)
    } else {
        Ok((r.merchant->0.descriptor->0@, r.amount->0, r.merchant->0.mcc->0@))
    }
}

impl TransactionMetadata {
    /// The metadata of a card transaction request.
    pub fn convert(request: &AsaRequest) -> (r: Result<TransactionMetadata, DataError>)
        ensures
            match metadata_of_request(*request) {
                Ok((memo, amount, mcc)) => r matches Ok(m) && m.memo@ == memo
                    && m.amount_cents == amount && m.mcc@ == mcc,
                Err(msg) => r matches Err(DataError::Format(e)) && e@ == msg,
            },
    {
        let merchant = match &request.merchant {
            Some(m) => m,
            None => return Err(DataError::Format(owned("missing merchant"))),
        };
        let descriptor = match &merchant.descriptor {
            Some(d) => d.clone(),
            None => return Err(DataError::Format(owned("missing descriptor"))),
        };
        let mcc = match &merchant.mcc {
            Some(m) => m.clone(),
            None => return Err(DataError::Format(owned("missing mcc"))),
        };
        let amount = match request.amount {
            Some(a) => a,
            None => return Err(DataError::Format(owned("missing amount"))),
        };
        Ok(TransactionMetadata { memo: descriptor, amount_cents: amount, mcc })
    }
}

/// Reading a request succeeds exactly when it names a merchant with a
/// descriptor and a category code and carries an amount, whatever the
/// amount; the metadata then holds the descriptor as memo, the amount and
/// the category code unchanged.
pub proof fn lemma_metadata_of_request(r: AsaRequest)
    ensures
        metadata_of_request(r) is Ok <==> (r.merchant is Some && r.merchant->0.descriptor is Some
            && r.merchant->0.mcc is Some && r.amount is Some),
        r.merchant is Some && r.merchant->0.descriptor is Some && r.merchant->0.mcc is Some
            && r.amount is Some ==> metadata_of_request(r) == Ok::<(Seq<char>, i32, Seq<char>), Seq<char>>(
            (r.merchant->0.descriptor->0@, r.amount->0, r.merchant->0.mcc->0@)),
{
}

} // verus!
