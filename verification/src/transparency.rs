//! Diagnostics attached to opaque locations.
use vstd::prelude::*;

verus! {

/// A diagnostic message.
#[derive(Clone, Debug, PartialEq, Eq, Hash)]
pub struct Diagnostic(String);

impl View for Diagnostic {
    type V = Seq<char>;

    /// The message text.
    closed spec fn view(&self) -> Seq<char> {
        self.0@
    }
}

impl Diagnostic {
    /// A diagnostic with the message `msg`.
    pub fn new(msg: &str) -> (d: Self)
        ensures
            d@ == msg@,
    {
        Diagnostic(msg.to_owned())
    }

    /// The message text.
    pub fn as_str(&self) -> (s: &str)
        ensures
            s@ == self@,
    {
        self.0.as_str()
    }
}

} // verus!
