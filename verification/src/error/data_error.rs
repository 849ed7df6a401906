use vstd::prelude::*;

verus! {

/// How a data access failed, with a description of the cause.
#[derive(Debug, Clone)]
pub enum DataError {
    Conflict(String),
    NotFound(String),
    Format(String),
    Unexpected(String),
}

/// Which kind of failure a data error is, whatever its description.
pub open spec fn same_data_error_kind(a: DataError, b: DataError) -> bool {
    ||| a is Conflict && b is Conflict
    ||| a is NotFound && b is NotFound
    ||| a is Format && b is Format
    ||| a is Unexpected && b is Unexpected
}

/// The description a data error carries.
pub open spec fn data_error_cause(e: DataError) -> Seq<char> {
    match e {
        DataError::Conflict(m) => m@,
        DataError::NotFound(m) => m@,
        DataError::Format(m) => m@,
        DataError::Unexpected(m) => m@,
    }
}

impl DataError {
    /// The description this error carries.
    pub fn cause(&self) -> (s: String)
        ensures
            s@ == data_error_cause(*self),
    {
        match self {
            DataError::Conflict(m) => m.clone(),
            DataError::NotFound(m) => m.clone(),
            DataError::Format(m) => m.clone(),
            DataError::Unexpected(m) => m.clone(),
        }
    }
}

/// Two data errors are equal when they are of the same kind; their
/// descriptions are not compared.
impl PartialEq for DataError {
    fn eq(&self, other: &Self) -> (r: bool) {
        match (self, other) {
            (DataError::Conflict(_), DataError::Conflict(_)) => true,
            (DataError::NotFound(_), DataError::NotFound(_)) => true,
            (DataError::Format(_), DataError::Format(_)) => true,
            (DataError::Unexpected(_), DataError::Unexpected(_)) => true,
            _ => false,
        }
    }
}

impl vstd::std_specs::cmp::PartialEqSpecImpl for DataError {
    open spec fn obeys_eq_spec() -> bool {
        true
    }

    open spec fn eq_spec(&self, other: &DataError) -> bool {
        same_data_error_kind(*self, *other)
    }
}

} // verus!
