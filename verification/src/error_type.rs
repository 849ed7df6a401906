use vstd::prelude::*;

verus! {

/// The kinds of failure a data access can end in.
#[derive(Clone, Copy, Debug, PartialEq, Eq, Structural)]
pub enum ErrorType {
    InternalServerError,
    Conflict,
    NotFound,
}

/// The HTTP status each kind of failure is named after.
pub open spec fn error_type_status(t: ErrorType) -> u16 {
    match t {
        ErrorType::InternalServerError => 500,
        ErrorType::Conflict => 409,
        ErrorType::NotFound => 404,
    }
}

impl ErrorType {
    pub fn status_code(&self) -> (s: u16)
        ensures
            s == error_type_status(*self),
    {
        match self {
            ErrorType::InternalServerError => 500,
            ErrorType::Conflict => 409,
            ErrorType::NotFound => 404,
        }
    }
}

} // verus!
