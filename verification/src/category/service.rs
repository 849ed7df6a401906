use vstd::prelude::*;
use crate::category::entity::{Category, MccMapping};
use crate::category::error::{category_error_of, CategoryError};
use crate::category::model::{category_model_of, mcc_mapping_model_of, CategoryModel, MccMappingModel};
use crate::error::data_error::DataError;
use crate::text::lowercase_of;

verus! {

/// The value the category table's names are compared with when the service
/// looks a category up by `name`: the lookup lowercases the name, and the
/// stored-row query lowercases it once more.
pub fn category_name_filter(name: &str) -> (r: String)
    ensures
        r@ == lowercase_of(lowercase_of(name@)),
{
    let once = Category::name_filter(name);
    Category::name_filter(once.as_str())
}

/// What the service answers once the category lookup has come back: the
/// category as a model, or the failure as a category error.
pub fn category_result(found: Result<Category, DataError>) -> (r: Result<CategoryModel, CategoryError>)
    ensures
        match found {
            Ok(c) => r == Ok::<CategoryModel, CategoryError>(category_model_of(c)),
            Err(e) => r == Err::<CategoryModel, CategoryError>(category_error_of(e)),
        },
{
    match found {
        Ok(c) => Ok(CategoryModel::from(c)),
        Err(e) => Err(CategoryError::from(e)),
    }
}

/// What the service answers once the category code lookup has come back.
pub fn mcc_mapping_result(found: Result<MccMapping, DataError>) -> (r: Result<MccMappingModel, CategoryError>)
    ensures
        match found {
            Ok(m) => r == Ok::<MccMappingModel, CategoryError>(mcc_mapping_model_of(m)),
            Err(e) => r == Err::<MccMappingModel, CategoryError>(category_error_of(e)),
        },
{
    match found {
        Ok(m) => Ok(MccMappingModel::from(m)),
        Err(e) => Err(CategoryError::from(e)),
    }
}

} // verus!
