//! The error reported by the library: a diagnostic message.
use vstd::prelude::*;

verus! {

/// A failure, described by the message that the linker reports.
#[derive(Debug)]
pub struct LinkError {
    pub message: String,
}

impl LinkError {
    /// An error with the given message.
    pub fn new(message: String) -> (e: LinkError)
        ensures
            e.message@ == message@,
    {
        LinkError { message }
    }

    /// An error whose message is the given text.
    pub fn msg(text: &str) -> (e: LinkError)
        ensures
            e.message@ == text@,
    {
        LinkError { message: String::from_str(text) }
    }
}

} // verus!
