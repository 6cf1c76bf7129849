//! The ways in which an operation of the adapter can fail.

use vstd::prelude::*;

verus! {

/// A failure that the store reported. The adapter never looks inside.
#[derive(Clone, Debug, PartialEq, Eq)]
pub struct StoreError {
    /// The store's own account of what went wrong.
    pub message: String,
}

/// Why an operation of the adapter failed.
#[derive(Clone, Debug, PartialEq, Eq)]
pub enum Error {
    /// The store failed; its error is carried as it came.
    Store(StoreError),
    /// The store answered with bytes that do not decode: the parser does not
    /// take them as JSON, or they are outside the limits within which the
    /// parser is asked (see [`crate::codec::decode`]).
    Decode,
}

impl StoreError {
    /// A store failure with the given account.
    pub fn new(message: String) -> (error: StoreError)
        ensures
            error.message == message,
    {
        StoreError { message }
    }
}

impl Error {
    /// The text that describes this error: the store's own account for a store
    /// failure, a fixed sentence for undecodable bytes.
    pub open spec fn spec_message(self) -> Seq<char> {
        match self {
            Error::Store(inner) => inner.message@,
            Error::Decode => "json parsing failed"@,
        }
    }

    /// The text that describes this error.
    pub fn message(&self) -> (text: String)
        ensures
            text@ == self.spec_message(),
    {
        match self {
            Error::Store(inner) => inner.message.clone(),
            Error::Decode => "json parsing failed".to_owned(),
        }
    }
}

} // verus!
