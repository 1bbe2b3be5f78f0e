//! The errors that a websocket or a body stream hands to its user: the
//! message of the error that occurred underneath.
use vstd::prelude::*;

verus! {

/// Errors that can happen inside warp.
pub struct Error(Box<str>);

/// `Box::<str>::from`: an owned copy of `s`.
#[verifier::external_body]
fn boxed_str(s: &str) -> (b: Box<str>)
    ensures
        (*b)@ == s@,
{
    Box::from(s)
}

impl Error {
    /// An error with the message `message`.
    pub fn new(message: &str) -> (e: Error)
        ensures
            e.spec_message() == message@,
    {
        Error(boxed_str(message))
    }

    /// The message of the error.
    pub closed spec fn spec_message(&self) -> Seq<char> {
        (*self.0)@
    }

    /// The message of the error, as its `Display` writes it.
    pub fn message(&self) -> (s: &str)
        ensures
            s@ == self.spec_message(),
    {
        &*self.0
    }
}

} // verus!
