use vstd::prelude::*;
use crate::foreign::{serde_error_text, serde_error_text_of};
use crate::text::concat;

verus! {

/// A failure of the payment provider's checkout, with its message.
#[derive(Debug, Clone)]
pub struct Error {
    pub message: String,
}

impl Error {
    pub fn new(message: String) -> (e: Error)
        ensures
            e.message == message,
    {
        Error { message }
    }

    /// The text this error is written out as: its message.
    pub fn fmt(&self) -> (s: String)
        ensures
            s@ == self.message@,
    {
        self.message.clone()
    }
}

impl From<serde_json::Error> for Error {
    /// A failure to read or write JSON becomes an error whose message begins
    /// "Serde Error error: " and goes on with the failure's text.
    fn from(error: serde_json::Error) -> (e: Error)
        ensures
            e.message@ == "Serde Error error: "@ + serde_error_text_of(error),
    {
        let text = serde_error_text(&error);
        let message = concat("Serde Error error: ", text.as_str());
        Error::new(message)
    }
}

impl vstd::std_specs::convert::FromSpecImpl<serde_json::Error> for Error {
    open spec fn obeys_from_spec() -> bool {
        false
    }

    open spec fn from_spec(v: serde_json::Error) -> Error {
        arbitrary()
    }
}

} // verus!
