//! Errors that are reported to a client instead of stopping the server.

use vstd::prelude::*;

verus! {

/// An error that the server answers with, prefixed by `E`.
#[derive(Debug)]
pub struct SoftError {
    pub message: String,
}

impl SoftError {
    pub fn new(message: &str) -> (e: SoftError)
        ensures
            e.message@ == message@,
    {
        SoftError { message: message.to_owned() }
    }

    /// The reply sent to the client: `E` followed by the message.
    pub fn reply(&self) -> (r: String)
        ensures
            r@ == seq!['E'] + self.message@,
    {
        let mut r = "E".to_owned();
        proof {
            reveal_strlit("E");
        }
        r.append(self.message.as_str());
        r
    }
}

} // verus!
