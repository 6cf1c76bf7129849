//! A store that lives in memory.
//!
//! It keeps a log of the writes and removals made of it and answers a lookup
//! with the latest of them for the key. It never fails, and what it holds ends
//! with it: it is for tests, and for callers that need no durable store.

use crate::error::StoreError;
use crate::options::{ReadOptions, WriteOptions};
use crate::store::{found, BinaryStore, Exchange, History, Reply, Request};
use vstd::prelude::*;

verus! {

/// What the log says of `key`: the value of the latest entry for it, `None`
/// when that entry is a removal or when there is no entry.
pub open spec fn latest(log: Seq<(Seq<u8>, Option<Seq<u8>>)>, key: Seq<u8>) -> Option<Seq<u8>>
    decreases log.len(),
{
    if log.len() == 0 {
        None
    } else if log.last().0 == key {
        log.last().1
    } else {
        latest(log.drop_last(), key)
    }
}

/// The map that a log stands for.
pub open spec fn held(log: Seq<(Seq<u8>, Option<Seq<u8>>)>) -> Map<Seq<u8>, Seq<u8>> {
    Map::new(
        |key: Seq<u8>| latest(log, key) is Some,
        |key: Seq<u8>| latest(log, key).unwrap(),
    )
}

/// The bytes of an entry's value as a sequence.
pub open spec fn value_view(value: Option<Vec<u8>>) -> Option<Seq<u8>> {
    match value {
        Some(bytes) => Some(bytes@),
        None => None,
    }
}

/// A byte-oriented store in memory.
pub struct MemoryStore {
    log: Vec<(Vec<u8>, Option<Vec<u8>>)>,
    calls: Ghost<History>,
}

impl View for MemoryStore {
    type V = Map<Seq<u8>, Seq<u8>>;

    /// What the store holds.
    closed spec fn view(&self) -> Map<Seq<u8>, Seq<u8>> {
        held(self.entries())
    }
}

/// Tells whether two byte strings are the same.
pub fn same_bytes(left: &[u8], right: &[u8]) -> (same: bool)
    ensures
        same == (left@ == right@),
{
    if left.len() != right.len() {
        return false;
    }
    let mut at: usize = 0;
    while at < left.len()
        invariant
            left.len() == right.len(),
            at <= left.len(),
            left@.take(at as int) == right@.take(at as int),
        decreases left.len() - at,
    {
        if left[at] != right[at] {
            return false;
        }
        assert(left@.take(at + 1) == left@.take(at as int).push(left@[at as int]));
        assert(right@.take(at + 1) == right@.take(at as int).push(right@[at as int]));
        at = at + 1;
    }
    assert(left@.take(at as int) == left@);
    assert(right@.take(at as int) == right@);
    true
}

impl MemoryStore {
    /// The log as sequences.
    closed spec fn entries(&self) -> Seq<(Seq<u8>, Option<Seq<u8>>)> {
        self.log@.map_values(|entry: (Vec<u8>, Option<Vec<u8>>)| (entry.0@, value_view(entry.1)))
    }

    /// A store that holds nothing and has not been called.
    pub fn new() -> (store: MemoryStore)
        ensures
            store@ == Map::<Seq<u8>, Seq<u8>>::empty(),
            store.history() == Seq::<Exchange>::empty(),
    {
        let store = MemoryStore { log: Vec::new(), calls: Ghost(Seq::empty()) };
        assert(store.entries() == Seq::<(Seq<u8>, Option<Seq<u8>>)>::empty());
        assert(store@ == Map::<Seq<u8>, Seq<u8>>::empty());
        store
    }

    /// Adds an entry to the log.
    fn record(&mut self, key: &[u8], value: Option<Vec<u8>>)
        ensures
            final(self).entries() == old(self).entries().push((key@, value_view(value))),
            final(self).calls == old(self).calls,
    {
        let key = vstd::slice::slice_to_vec(key);
        self.log.push((key, value));
        assert(self.entries() == old(self).entries().push((key@, value_view(value))));
    }
}

impl BinaryStore for MemoryStore {
    closed spec fn history(&self) -> History {
        self.calls@
    }

    /// Stores `value` under `key`. Always succeeds.
    fn put_binary(&mut self, options: WriteOptions, key: &[u8], value: &[u8]) -> (reply: Result<
        (),
        StoreError,
    >)
        ensures
            reply is Ok,
            final(self)@ == old(self)@.insert(key@, value@),
    {
        let value = vstd::slice::slice_to_vec(value);
        self.record(key, Some(value));
        proof {
            self.calls@ = self.calls@.push(
                Exchange {
                    request: Request::Put { write_options: options, key: key@, value: value@ },
                    reply: Reply::Written(Ok(())),
                },
            );
            assert(self.entries().drop_last() == old(self).entries());
            assert(self@ == old(self)@.insert(key@, value@));
        }
        Ok(())
    }

    /// Removes what is stored under `key`. Always succeeds, also where there
    /// was nothing to remove.
    fn delete_binary(&mut self, options: WriteOptions, key: &[u8]) -> (reply: Result<
        (),
        StoreError,
    >)
        ensures
            reply is Ok,
            final(self)@ == old(self)@.remove(key@),
    {
        self.record(key, None);
        proof {
            self.calls@ = self.calls@.push(
                Exchange {
                    request: Request::Delete { write_options: options, key: key@ },
                    reply: Reply::Written(Ok(())),
                },
            );
            assert(self.entries().drop_last() == old(self).entries());
            assert(self@ == old(self)@.remove(key@));
        }
        Ok(())
    }

    /// Looks up what is stored under `key`. Always succeeds, and changes
    /// nothing of what is held.
    fn get_binary(&mut self, options: ReadOptions, key: &[u8]) -> (reply: Result<
        Option<Vec<u8>>,
        StoreError,
    >)
        ensures
            final(self)@ == old(self)@,
            found(reply) == Ok::<Option<Seq<u8>>, StoreError>(
                if old(self)@.dom().contains(key@) {
                    Some(old(self)@[key@])
                } else {
                    None
                },
            ),
    {
        let mut answer: Option<Vec<u8>> = None;
        let mut left: usize = self.log.len();
        assert(self.entries().take(left as int) == self.entries());
        while left > 0
            invariant_except_break
                answer is None,
                latest(self.entries(), key@) == latest(self.entries().take(left as int), key@),
            invariant
                left <= self.log.len(),
            ensures
                value_view(answer) == latest(self.entries(), key@),
            decreases left,
        {
            left = left - 1;
            assert(self.entries().take(left + 1).drop_last() == self.entries().take(left as int));
            if same_bytes(self.log[left].0.as_slice(), key) {
                match &self.log[left].1 {
                    Some(bytes) => {
                        answer = Some(vstd::slice::slice_to_vec(bytes.as_slice()));
                    },
                    None => {},
                }
                break ;
            }
        }
        let reply: Result<Option<Vec<u8>>, StoreError> = Ok(answer);
        proof {
            self.calls@ = self.calls@.push(
                Exchange {
                    request: Request::Get { read_options: options, key: key@ },
                    reply: Reply::Found(found(reply)),
                },
            );
        }
        reply
    }
}

} // verus!
