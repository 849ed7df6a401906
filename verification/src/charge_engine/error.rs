use vstd::prelude::*;

verus! {

/// A failure of the charge engine, with its message.
#[derive(Debug, Clone)]
pub struct Error {
    pub message: String,
}

impl Error {
    pub fn new(message: String) -> (e: Error)
        ensures
            e.message == message,
    {
        Error { message }
    }

    /// The text this error is displayed as: its message.
    pub fn to_string(&self) -> (s: String)
        ensures
            s@ == self.message@,
    {
        self.message.clone()
    }
}

} // verus!
