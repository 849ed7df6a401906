use vstd::prelude::*;
use uuid::Uuid;
use crate::category::entity::{Category, MccMapping};

verus! {

/// A spending category as the service hands it out.
#[derive(Clone, Debug)]
pub struct CategoryModel {
    pub id: i32,
    pub public_id: Uuid,
    pub name: String,
}

/// A category code assignment as the service hands it out.
#[derive(Clone, Debug)]
pub struct MccMappingModel {
    pub id: i32,
    pub public_id: Uuid,
    pub mcc_code: String,
    pub category_id: i32,
}

/// The model of a stored category: its id, public id and name.
pub open spec fn category_model_of(v: Category) -> CategoryModel {
    CategoryModel { id: v.id, public_id: v.public_id, name: v.name }
}

/// The model of a stored category code assignment.
pub open spec fn mcc_mapping_model_of(v: MccMapping) -> MccMappingModel {
    MccMappingModel {
        id: v.id,
        public_id: v.public_id,
        mcc_code: v.mcc_code,
        category_id: v.category_id,
    }
}

impl From<Category> for CategoryModel {
    fn from(value: Category) -> (m: CategoryModel) {
        CategoryModel { id: value.id, public_id: value.public_id, name: value.name }
    }
}

impl vstd::std_specs::convert::FromSpecImpl<Category> for CategoryModel {
    open spec fn obeys_from_spec() -> bool {
        true
    }

    open spec fn from_spec(v: Category) -> CategoryModel {
        category_model_of(v)
    }
}

impl From<MccMapping> for MccMappingModel {
    fn from(value: MccMapping) -> (m: MccMappingModel) {
        MccMappingModel {
            id: value.id,
            public_id: value.public_id,
            mcc_code: value.mcc_code,
            category_id: value.category_id,
        }
    }
}

impl vstd::std_specs::convert::FromSpecImpl<MccMapping> for MccMappingModel {
    open spec fn obeys_from_spec() -> bool {
        true
    }

    open spec fn from_spec(v: MccMapping) -> MccMappingModel {
        mcc_mapping_model_of(v)
    }
}

} // verus!
