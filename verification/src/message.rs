//! The JSON envelope records of the control surface: a plain message for
//! success answers and an error message for failure answers. The host
//! serializes them at its boundary.

use vstd::prelude::*;

verus! {

/// A success envelope.
pub struct Message {
    message: String,
}

impl Message {
    /// The carried text.
    pub closed spec fn spec_message(&self) -> Seq<char> {
        self.message@
    }

    /// Wrap a message text.
    pub fn new(message: &str) -> (r: Message)
        ensures
            r.spec_message() == message@,
    {
        Message { message: message.to_owned() }
    }

    /// The carried text.
    pub fn message(&self) -> (r: &String)
        ensures
            r@ == self.spec_message(),
    {
        &self.message
    }
}

/// A failure envelope.
pub struct ErrorMessage {
    error: String,
}

impl ErrorMessage {
    /// The carried failure text.
    pub closed spec fn spec_error(&self) -> Seq<char> {
        self.error@
    }

    /// Wrap a failure text.
    pub fn new(error: &str) -> (r: ErrorMessage)
        ensures
            r.spec_error() == error@,
    {
        ErrorMessage { error: error.to_owned() }
    }

    /// The carried failure text.
    pub fn error(&self) -> (r: &String)
        ensures
            r@ == self.spec_error(),
    {
        &self.error
    }
}

} // verus!
