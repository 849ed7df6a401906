use vstd::prelude::*;
use uuid::Uuid;

verus! {

/// A customer, as far as the charge flow reads one.
#[derive(Clone, Copy, Debug)]
pub struct UserModel {
    pub id: i32,
    pub public_id: Uuid,
    pub footprint_vault_id: Uuid,
}

} // verus!
