use vstd::prelude::*;

verus! {

/// A failure of a service, with the HTTP status it answers with.
#[derive(Debug, Clone)]
pub struct ServiceError {
    pub status_code: u16,
    pub message: String,
}

impl ServiceError {
    pub fn new(status_code: u16, message: String) -> (e: ServiceError)
        ensures
            e.status_code == status_code,
            e.message == message,
    {
        ServiceError { status_code, message }
    }
}

} // verus!
