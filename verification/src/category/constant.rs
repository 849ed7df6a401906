use vstd::prelude::*;
use crate::text::owned;

verus! {

/// The spending categories a merchant can fall under.
#[derive(Clone, Copy, Debug, PartialEq, Eq, Structural)]
pub enum Category {
    Hotels,
    CarRental,
    Airlines,
    Dining,
    SportingGoods,
    Transportation,
}

/// The number a category is stored as.
pub open spec fn category_code(c: Category) -> i32 {
    match c {
        Category::Hotels => 1,
        Category::CarRental => 2,
        Category::Airlines => 3,
        Category::Dining => 4,
        Category::SportingGoods => 5,
        Category::Transportation => 6,
    }
}

/// The category a stored number stands for, if any.
pub open spec fn category_of_code(v: i32) -> Option<Category> {
    if v == 1 {
        Some(Category::Hotels)
    } else if v == 2 {
        Some(Category::CarRental)
    } else if v == 3 {
        Some(Category::Airlines)
    } else if v == 4 {
        Some(Category::Dining)
    } else if v == 5 {
        Some(Category::SportingGoods)
    } else if v == 6 {
        Some(Category::Transportation)
    } else {
        None
    }
}

/// The name a category is displayed under.
pub open spec fn category_name(c: Category) -> Seq<char> {
    match c {
        Category::Hotels => "Hotels"@,
        Category::CarRental => "Car Rental"@,
        Category::Airlines => "Airlines"@,
        Category::Dining => "Dining"@,
        Category::SportingGoods => "Sporting Goods"@,
        Category::Transportation => "Transportation"@,
    }
}

impl Category {
    /// The number this category is stored as.
    pub fn code(&self) -> (v: i32)
        ensures
            v == category_code(*self),
    {
        match self {
            Category::Hotels => 1,
            Category::CarRental => 2,
            Category::Airlines => 3,
            Category::Dining => 4,
            Category::SportingGoods => 5,
            Category::Transportation => 6,
        }
    }

    /// Reads a stored number; a number that stands for no category is
    /// refused.
    pub fn from_sql(value: i32) -> (r: Result<Category, String>)
        ensures
            match category_of_code(value) {
                Some(c) => r == Ok::<Category, String>(c),
                None => r matches Err(m) && m@ == "Unknown value for RuleStatus found"@,
            },
    {
        match value {
            1 => Ok(Category::Hotels),
            2 => Ok(Category::CarRental),
            3 => Ok(Category::Airlines),
            4 => Ok(Category::Dining),
            5 => Ok(Category::SportingGoods),
            6 => Ok(Category::Transportation),
            _ => Err(owned("Unknown value for RuleStatus found")),
        }
    }

    /// The number this category is written to storage as.
    pub fn to_sql(&self) -> (v: i32)
        ensures
            v == category_code(*self),
    {
        self.code()
    }

    /// The name this category is displayed under.
    pub fn to_string(&self) -> (s: String)
        ensures
            s@ == category_name(*self),
    {
        match self {
            Category::Hotels => owned("Hotels"),
            Category::CarRental => owned("Car Rental"),
            Category::Airlines => owned("Airlines"),
            Category::Dining => owned("Dining"),
            Category::SportingGoods => owned("Sporting Goods"),
            Category::Transportation => owned("Transportation"),
        }
    }
}

impl From<Category> for i32 {
    fn from(value: Category) -> (v: i32) {
        value.code()
    }
}

impl vstd::std_specs::convert::FromSpecImpl<Category> for i32 {
    open spec fn obeys_from_spec() -> bool {
        true
    }

    open spec fn from_spec(v: Category) -> i32 {
        category_code(v)
    }
}

impl<'a> From<&'a Category> for i32 {
    fn from(value: &'a Category) -> (v: i32) {
        value.code()
    }
}

impl<'a> vstd::std_specs::convert::FromSpecImpl<&'a Category> for i32 {
    open spec fn obeys_from_spec() -> bool {
        true
    }

    open spec fn from_spec(v: &'a Category) -> i32 {
        category_code(*v)
    }
}

/// Storing a category and reading it back gives the same category, and a
/// stored number is read as a category only if that category is stored as
/// the number.
pub proof fn lemma_category_code_round_trip(c: Category, v: i32)
    ensures
        category_of_code(category_code(c)) == Some(c),
        category_of_code(v) matches Some(d) ==> category_code(d) == v,
{
}

} // verus!
