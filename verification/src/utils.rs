use vstd::prelude::*;

verus! {

/// An error with a message for the user.
#[derive(Debug)]
pub struct Error {
    message: String,
}

impl Error {
    /// The message.
    pub closed spec fn spec_message(&self) -> Seq<char> {
        self.message@
    }

    pub fn new(message: &str) -> (e: Error)
        ensures
            e.spec_message() == message@,
    {
        Error { message: message.to_owned() }
    }

    /// An error with an owned message.
    pub fn from_message(message: String) -> (e: Error)
        ensures
            e.spec_message() == message@,
    {
        Error { message }
    }

    /// The message.
    pub fn message(&self) -> (m: &str)
        ensures
            m@ == self.spec_message(),
    {
        self.message.as_str()
    }
}

} // verus!
