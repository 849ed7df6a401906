use vstd::prelude::*;
use chrono::NaiveDateTime;
use uuid::Uuid;
use crate::text::{lowercase, lowercase_of};

verus! {

/// A stored spending category.
#[derive(Clone, Debug)]
pub struct Category {
    pub id: i32,
    pub public_id: Uuid,
    pub name: String,
    pub created_at: NaiveDateTime,
    pub updated_at: NaiveDateTime,
}

/// A stored assignment of a merchant category code to a spending category.
#[derive(Clone, Debug)]
pub struct MccMapping {
    pub id: i32,
    pub public_id: Uuid,
    pub mcc_code: String,
    pub category_id: i32,
    pub created_at: NaiveDateTime,
    pub updated_at: NaiveDateTime,
}

impl Category {
    /// The value a lookup by name compares the stored names with: the name
    /// lowercased, so that the lookup ignores case.
    pub fn name_filter(name: &str) -> (r: String)
        ensures
            r@ == lowercase_of(name@),
    {
        lowercase(name)
    }
}

} // verus!
