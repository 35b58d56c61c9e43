//! Errors.
use vstd::prelude::*;

verus! {

/// Errors that may happen on a connection in the browser.
#[derive(Debug, PartialEq, Eq)]
pub enum Error {
    /// The browser failed, with what was said.
    Js(String),
    /// The connection failed, with what was said.
    Connection(String),
}

impl Error {
    /// This is a failure of the browser that says `message`.
    pub open spec fn is_js(self, message: Seq<char>) -> bool {
        self matches Error::Js(m) && m@ == message
    }

    /// This is a failure of the connection that says `message`.
    pub open spec fn is_connection(self, message: Seq<char>) -> bool {
        self matches Error::Connection(m) && m@ == message
    }
}

} // verus!
