//! Why the storage layer refuses a request.

use vstd::prelude::*;

verus! {

/// A request that the storage layer refuses before the store sees it.
#[derive(Debug, Clone, Copy, PartialEq, Eq, Structural)]
pub enum Error {
    /// The statement holds a keyword of a destructive kind.
    RejectedStatement,
}

/// What [`Error::message`] says of a rejected statement.
pub open spec fn rejected_statement_message() -> Seq<char> {
    "Destructive commands are not allowed"@
}

impl Error {
    /// The error in words, for a reader.
    pub fn message(&self) -> (r: String)
        ensures
            r@ == rejected_statement_message(),
    {
        match self {
            Error::RejectedStatement => String::from_str("Destructive commands are not allowed"),
        }
    }
}

} // verus!
