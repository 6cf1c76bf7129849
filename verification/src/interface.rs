//! The adapter: `put`, `delete` and `get` on documents, carried out through
//! the byte operations of a store.

use crate::codec::{decode, decode_outcome, encode, json_text, readable};
use crate::error::{Error, StoreError};
use crate::options::{ReadOptions, WriteOptions};
use crate::store::{found, BinaryStore, Exchange, Reply, Request};
use rustc_serialize::json::Json;
use vstd::prelude::*;

verus! {

/// What the adapter returns when the store answers a write or a removal with
/// `reply`: success for success, the store's error for a failure.
pub open spec fn write_outcome(reply: Result<(), StoreError>) -> Result<(), Error> {
    match reply {
        Ok(_) => Ok(()),
        Err(failure) => Err(Error::Store(failure)),
    }
}

/// What the adapter returns when the store answers a lookup with `reply`:
/// the store's error for a failure, nothing for an absent key, and for bytes
/// the document they decode to or the decode error.
pub open spec fn read_outcome(reply: Result<Option<Seq<u8>>, StoreError>) -> Result<
    Option<Json>,
    Error,
> {
    match reply {
        Err(failure) => Err(Error::Store(failure)),
        Ok(None) => Ok(None),
        Ok(Some(text)) => match decode_outcome(text) {
            Ok(document) => Ok(Some(document)),
            Err(error) => Err(error),
        },
    }
}

/// What `put` asks of the store: the text of the key, then the text of the
/// value, with the caller's options.
pub open spec fn put_request(options: WriteOptions, key: Json, value: Json) -> Request {
    Request::Put { write_options: options, key: json_text(key), value: json_text(value) }
}

/// What `delete` asks of the store: the text of the key, with the caller's
/// options.
pub open spec fn delete_request(options: WriteOptions, key: Json) -> Request {
    Request::Delete { write_options: options, key: json_text(key) }
}

/// What `get` asks of the store: the text of the key, with the caller's
/// options.
pub open spec fn get_request(options: ReadOptions, key: Json) -> Request {
    Request::Get { read_options: options, key: json_text(key) }
}

/// Turns the store's reply to a write or a removal into the adapter's result.
/// A failure of the store comes back as it is.
pub fn settle_write(reply: Result<(), StoreError>) -> (outcome: Result<(), Error>)
    ensures
        outcome == write_outcome(reply),
        reply is Ok ==> outcome is Ok,
        reply matches Err(failure) ==> outcome == Err::<(), Error>(Error::Store(failure)),
{
    match reply {
        Ok(_) => Ok(()),
        Err(failure) => Err(Error::Store(failure)),
    }
}

/// Turns the store's reply to a lookup into the adapter's result.
///
/// A failure of the store comes back as it is, and nothing is decoded. An
/// absent key is a success with no document. Bytes are decoded once: the
/// result is the whole document or [`Error::Decode`].
pub fn settle_read(reply: Result<Option<Vec<u8>>, StoreError>) -> (outcome: Result<
    Option<Json>,
    Error,
>)
    ensures
        outcome == read_outcome(found(reply)),
        reply matches Err(failure) ==> outcome == Err::<Option<Json>, Error>(
            Error::Store(failure),
        ),
        reply matches Ok(None) ==> outcome == Ok::<Option<Json>, Error>(None),
        reply matches Ok(Some(text)) ==> match readable(text@) {
            Some(document) => outcome == Ok::<Option<Json>, Error>(Some(document)),
            None => outcome == Err::<Option<Json>, Error>(Error::Decode),
        },
{
    match reply {
        Err(failure) => Err(Error::Store(failure)),
        Ok(None) => Ok(None),
        Ok(Some(text)) => match decode(text.as_slice()) {
            Ok(document) => Ok(Some(document)),
            Err(error) => Err(error),
        },
    }
}

/// Documents in, documents out, on top of a byte-oriented store.
///
/// Each operation is one call of the store: the adapter keeps nothing between
/// calls, asks once, and does not ask again whatever the answer. The contracts
/// say which call is made and what is returned for its answer.
pub trait Interface: BinaryStore {
    /// Stores `value` under `key`: one call of `put_binary`, as
    /// [`put_request`] says.
    ///
    /// Succeeds when the store does, and fails only with the store's own
    /// error.
    fn put(&mut self, options: WriteOptions, key: &Json, value: &Json) -> (outcome: Result<
        (),
        Error,
    >)
        ensures
            exists|reply: Result<(), StoreError>|
                final(self).history() == old(self).history().push(
                    Exchange {
                        request: put_request(options, *key, *value),
                        reply: Reply::Written(reply),
                    },
                ) && outcome == write_outcome(reply),
    ;

    /// Removes what is stored under `key`: one call of `delete_binary`, as
    /// [`delete_request`] says.
    ///
    /// Succeeds when the store does, and fails only with the store's own
    /// error.
    fn delete(&mut self, options: WriteOptions, key: &Json) -> (outcome: Result<(), Error>)
        ensures
            exists|reply: Result<(), StoreError>|
                final(self).history() == old(self).history().push(
                    Exchange {
                        request: delete_request(options, *key),
                        reply: Reply::Written(reply),
                    },
                ) && outcome == write_outcome(reply),
    ;

    /// Looks up the document stored under `key`: one call of `get_binary`, as
    /// [`get_request`] says. What is returned for the store's answer is what
    /// [`read_outcome`] gives for it.
    fn get(&mut self, options: ReadOptions, key: &Json) -> (outcome: Result<Option<Json>, Error>)
        ensures
            exists|reply: Result<Option<Seq<u8>>, StoreError>|
                final(self).history() == old(self).history().push(
                    Exchange {
                        request: get_request(options, *key),
                        reply: Reply::Found(reply),
                    },
                ) && outcome == read_outcome(reply),
    ;
}

impl<S: BinaryStore> Interface for S {
    fn put(&mut self, options: WriteOptions, key: &Json, value: &Json) -> (outcome: Result<
        (),
        Error,
    >) {
        let key_text = encode(key);
        let value_text = encode(value);
        let reply = self.put_binary(options, key_text.as_slice(), value_text.as_slice());
        settle_write(reply)
    }

    fn delete(&mut self, options: WriteOptions, key: &Json) -> (outcome: Result<(), Error>) {
        let key_text = encode(key);
        let reply = self.delete_binary(options, key_text.as_slice());
        settle_write(reply)
    }

    fn get(&mut self, options: ReadOptions, key: &Json) -> (outcome: Result<Option<Json>, Error>) {
        let key_text = encode(key);
        let reply = self.get_binary(options, key_text.as_slice());
        settle_read(reply)
    }
}

} // verus!
