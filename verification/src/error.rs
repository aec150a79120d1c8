//! The error type failures are surfaced through.
//!
//! Every failure — a transport fault reported by the application, a rejected
//! hex literal, a rule broken in the edit panel — is carried as a plain
//! message, cloneable so that one failure can both be logged and handed on.

use vstd::prelude::*;

verus! {

/// An error: a human-readable message.
#[derive(Debug)]
pub struct Error {
    pub message: String,
}

impl View for Error {
    type V = Seq<char>;

    open spec fn view(&self) -> Seq<char> {
        self.message@
    }
}

impl Error {
    /// Wraps a message.
    pub fn new(message: String) -> (r: Self)
        ensures
            r@ == message@,
    {
        Error { message }
    }

    /// The message carried.
    pub fn message(&self) -> (r: &str)
        ensures
            r@ == self@,
    {
        self.message.as_str()
    }
}

impl Clone for Error {
    fn clone(&self) -> (r: Self)
        ensures
            r@ == self@,
    {
        Error { message: self.message.clone() }
    }
}

} // verus!
