use vstd::prelude::*;

verus! {

/// The card the customer pays with, which passes each charge on to a wallet
/// card, as far as the charge flow reads one.
#[derive(Clone, Copy, Debug)]
pub struct PassthroughCardModel {
    pub id: i32,
}

} // verus!
