//! The runtime's error value: a plain message describing what went wrong.

use vstd::prelude::*;

verus! {

/// An error of the runtime, carrying a human-readable message.
///
/// Every failure the core reports — a malformed inbound message, a rejected
/// registration, a transport fault surfaced by the caller — is carried as one
/// of these.
#[derive(Debug)]
pub struct Error {
    msg: String,
}

impl View for Error {
    type V = Seq<char>;

    closed spec fn view(&self) -> Seq<char> {
        self.msg@
    }
}

impl Error {
    /// Wraps a message into an error value.
    pub fn new(msg: String) -> (r: Self)
        ensures
            r@ == msg@,
    {
        Error { msg }
    }

    /// The message this error carries.
    pub fn message(&self) -> (r: &String)
        ensures
            r@ == self@,
    {
        &self.msg
    }
}

impl Clone for Error {
    /// The clone carries the same message.
    fn clone(&self) -> (r: Self)
        ensures
            r@ == self@,
    {
        Error { msg: self.msg.clone() }
    }
}

} // verus!
