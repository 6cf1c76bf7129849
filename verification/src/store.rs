//! The byte-oriented store that the adapter stands in front of.

use crate::error::StoreError;
use crate::options::{ReadOptions, WriteOptions};
use vstd::prelude::*;

verus! {

/// What a store is asked to do.
pub enum Request {
    /// Store `value` under `key`.
    Put { write_options: WriteOptions, key: Seq<u8>, value: Seq<u8> },
    /// Remove what is stored under `key`.
    Delete { write_options: WriteOptions, key: Seq<u8> },
    /// Look up what is stored under `key`.
    Get { read_options: ReadOptions, key: Seq<u8> },
}

/// What a store answers.
pub enum Reply {
    /// The answer to a `Put` or a `Delete`.
    Written(Result<(), StoreError>),
    /// The answer to a `Get`: the bytes, or `None` when there is nothing.
    Found(Result<Option<Seq<u8>>, StoreError>),
}

/// One call of a byte operation: what was asked and what was answered.
pub struct Exchange {
    /// What the store was asked.
    pub request: Request,
    /// What it answered.
    pub reply: Reply,
}

/// The calls made of a store, oldest first.
pub type History = Seq<Exchange>;

impl Request {
    /// What a store that held `entries`, and carried this request out, holds
    /// afterwards.
    pub open spec fn carried_out(self, entries: Map<Seq<u8>, Seq<u8>>) -> Map<Seq<u8>, Seq<u8>> {
        match self {
            Request::Put { key, value, .. } => entries.insert(key, value),
            Request::Delete { key, .. } => entries.remove(key),
            Request::Get { .. } => entries,
        }
    }
}

/// A lookup's answer with the bytes as a sequence.
pub open spec fn found(reply: Result<Option<Vec<u8>>, StoreError>) -> Result<
    Option<Seq<u8>>,
    StoreError,
> {
    match reply {
        Err(failure) => Err(failure),
        Ok(None) => Ok(None),
        Ok(Some(bytes)) => Ok(Some(bytes@)),
    }
}

/// A durable map from byte strings to byte strings.
///
/// Nothing is assumed of what an implementation does: whether an operation
/// succeeds, and what a later lookup sees of an earlier write, is the store's
/// own affair. An operation returns when the store has carried it out or
/// failed.
///
/// What the contracts ask of an implementation is a record: `history` lists
/// the calls of the three operations in their order, each with its arguments
/// and with what it returned. It is what lets a caller's contract say which
/// calls it made, and it says nothing of what the store does with them. The
/// record exists in proofs only: an implementation outside verified code has
/// nothing to compute for `history`, which is never run.
pub trait BinaryStore {
    /// The calls made of this store so far, oldest first.
    spec fn history(&self) -> History;

    /// Stores `value` under `key`.
    fn put_binary(&mut self, options: WriteOptions, key: &[u8], value: &[u8]) -> (reply: Result<
        (),
        StoreError,
    >)
        ensures
            final(self).history() == old(self).history().push(
                Exchange {
                    request: Request::Put { write_options: options, key: key@, value: value@ },
                    reply: Reply::Written(reply),
                },
            ),
    ;

    /// Removes what is stored under `key`.
    fn delete_binary(&mut self, options: WriteOptions, key: &[u8]) -> (reply: Result<
        (),
        StoreError,
    >)
        ensures
            final(self).history() == old(self).history().push(
                Exchange {
                    request: Request::Delete { write_options: options, key: key@ },
                    reply: Reply::Written(reply),
                },
            ),
    ;

    /// Looks up what is stored under `key`; `None` when there is nothing.
    fn get_binary(&mut self, options: ReadOptions, key: &[u8]) -> (reply: Result<
        Option<Vec<u8>>,
        StoreError,
    >)
        ensures
            final(self).history() == old(self).history().push(
                Exchange {
                    request: Request::Get { read_options: options, key: key@ },
                    reply: Reply::Found(found(reply)),
                },
            ),
    ;
}

} // verus!
