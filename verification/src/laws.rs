//! What holds of the adapter in front of a store that keeps what it is given.
//!
//! Such a store is modelled by what it holds, a map from key bytes to value
//! bytes: carrying out a request changes the map as
//! [`Request::carried_out`](crate::store::Request::carried_out) says, and a
//! lookup that does not fail answers with what is held. The laws take the
//! requests that the adapter makes, by its contracts, and follow them through
//! that map: it is the same key text on every call with the same key.

use crate::codec::{json_text, readable};
use crate::error::{Error, StoreError};
use crate::interface::{delete_request, get_request, put_request, read_outcome};
use crate::options::{ReadOptions, WriteOptions};
use crate::store::{Exchange, Reply, Request};
use rustc_serialize::json::Json;
use vstd::prelude::*;

verus! {

/// What the store holds once it has carried out the request of `put`.
pub open spec fn after_put(
    entries: Map<Seq<u8>, Seq<u8>>,
    options: WriteOptions,
    key: Json,
    value: Json,
) -> Map<Seq<u8>, Seq<u8>> {
    put_request(options, key, value).carried_out(entries)
}

/// What the store holds once it has carried out the request of `delete`.
pub open spec fn after_delete(entries: Map<Seq<u8>, Seq<u8>>, options: WriteOptions, key: Json) -> Map<
    Seq<u8>,
    Seq<u8>,
> {
    delete_request(options, key).carried_out(entries)
}

/// What a store holds after the calls of `history`, if it held `entries`
/// before them and keeps what it is given: each write or removal that it
/// answered with success is carried out, in order, and nothing else changes
/// what it holds.
pub open spec fn contents(entries: Map<Seq<u8>, Seq<u8>>, history: Seq<Exchange>) -> Map<
    Seq<u8>,
    Seq<u8>,
>
    decreases history.len(),
{
    if history.len() == 0 {
        entries
    } else {
        let before = contents(entries, history.drop_last());
        if history.last().reply == Reply::Written(Ok(())) {
            history.last().request.carried_out(before)
        } else {
            before
        }
    }
}

/// The answer of a store that holds `entries` to a lookup that does not fail.
pub open spec fn lookup(entries: Map<Seq<u8>, Seq<u8>>, request: Request) -> Result<
    Option<Seq<u8>>,
    StoreError,
> {
    if request is Get && entries.dom().contains(request->Get_key) {
        Ok(Some(entries[request->Get_key]))
    } else {
        Ok(None)
    }
}

/// What `get` returns from a store that holds `entries` and does not fail.
pub open spec fn get_from(entries: Map<Seq<u8>, Seq<u8>>, options: ReadOptions, key: Json) -> Result<
    Option<Json>,
    Error,
> {
    read_outcome(lookup(entries, get_request(options, key)))
}

/// What `put` and `delete` change: the entry under the key's text becomes the
/// value's text, or goes, and every other entry stays. A `get` changes
/// nothing.
pub proof fn law_requests_change_one_entry(
    entries: Map<Seq<u8>, Seq<u8>>,
    write: WriteOptions,
    read: ReadOptions,
    key: Json,
    value: Json,
)
    ensures
        after_put(entries, write, key, value) == entries.insert(json_text(key), json_text(value)),
        after_delete(entries, write, key) == entries.remove(json_text(key)),
        get_request(read, key).carried_out(entries) == entries,
{
}

/// What the store holds after one more call of the adapter. A `put` that the
/// store answered with success has put the value's text under the key's text
/// and left every other entry; a `delete` has removed the entry under the
/// key's text and left every other; a call that the store answered with a
/// failure, and every `get`, has left what the store holds.
pub proof fn law_contents_after_a_call(
    entries: Map<Seq<u8>, Seq<u8>>,
    history: Seq<Exchange>,
    write: WriteOptions,
    read: ReadOptions,
    key: Json,
    value: Json,
    failure: StoreError,
    answer: Result<Option<Seq<u8>>, StoreError>,
)
    ensures
        contents(
            entries,
            history.push(
                Exchange { request: put_request(write, key, value), reply: Reply::Written(Ok(())) },
            ),
        ) == contents(entries, history).insert(json_text(key), json_text(value)),
        contents(
            entries,
            history.push(
                Exchange { request: delete_request(write, key), reply: Reply::Written(Ok(())) },
            ),
        ) == contents(entries, history).remove(json_text(key)),
        contents(
            entries,
            history.push(
                Exchange {
                    request: put_request(write, key, value),
                    reply: Reply::Written(Err(failure)),
                },
            ),
        ) == contents(entries, history),
        contents(
            entries,
            history.push(
                Exchange {
                    request: delete_request(write, key),
                    reply: Reply::Written(Err(failure)),
                },
            ),
        ) == contents(entries, history),
        contents(
            entries,
            history.push(Exchange { request: get_request(read, key), reply: Reply::Found(answer) }),
        ) == contents(entries, history),
{
    let put = Exchange { request: put_request(write, key, value), reply: Reply::Written(Ok(())) };
    let delete = Exchange { request: delete_request(write, key), reply: Reply::Written(Ok(())) };
    let put_failed = Exchange {
        request: put_request(write, key, value),
        reply: Reply::Written(Err(failure)),
    };
    let delete_failed = Exchange {
        request: delete_request(write, key),
        reply: Reply::Written(Err(failure)),
    };
    let get = Exchange { request: get_request(read, key), reply: Reply::Found(answer) };
    assert(history.push(put).drop_last() == history);
    assert(history.push(delete).drop_last() == history);
    assert(history.push(put_failed).drop_last() == history);
    assert(history.push(delete_failed).drop_last() == history);
    assert(history.push(get).drop_last() == history);
}

/// Round trip: after `put(key, value)`, `get(key)` yields the document that
/// the text of `value` parses to. Where the parser does not read that text
/// back, `get` fails with the decode error instead.
pub proof fn law_round_trip(
    entries: Map<Seq<u8>, Seq<u8>>,
    write: WriteOptions,
    read: ReadOptions,
    key: Json,
    value: Json,
)
    ensures
        readable(json_text(value)) matches Some(document) ==> get_from(
            after_put(entries, write, key, value),
            read,
            key,
        ) == Ok::<Option<Json>, Error>(Some(document)),
        readable(json_text(value)) is None ==> get_from(
            after_put(entries, write, key, value),
            read,
            key,
        ) == Err::<Option<Json>, Error>(Error::Decode),
{
}

/// Round trip through the record of calls: once the store has answered the
/// call of `put(key, value)` with success, `get(key)` from what it then holds
/// yields the document that the text of `value` parses to, or the decode
/// error where the parser does not read that text back.
pub proof fn law_get_after_put(
    entries: Map<Seq<u8>, Seq<u8>>,
    history: Seq<Exchange>,
    write: WriteOptions,
    read: ReadOptions,
    key: Json,
    value: Json,
)
    ensures
        get_from(
            contents(
                entries,
                history.push(
                    Exchange {
                        request: put_request(write, key, value),
                        reply: Reply::Written(Ok(())),
                    },
                ),
            ),
            read,
            key,
        ) == match readable(json_text(value)) {
            Some(document) => Ok::<Option<Json>, Error>(Some(document)),
            None => Err::<Option<Json>, Error>(Error::Decode),
        },
{
    let put = Exchange { request: put_request(write, key, value), reply: Reply::Written(Ok(())) };
    assert(history.push(put).drop_last() == history);
}

/// Delete, then get, through the record of calls: once the store has answered
/// the call of `delete(key)` with success, whatever went before, `get(key)`
/// from what it then holds succeeds with no document.
pub proof fn law_get_after_delete(
    entries: Map<Seq<u8>, Seq<u8>>,
    history: Seq<Exchange>,
    write: WriteOptions,
    read: ReadOptions,
    key: Json,
)
    ensures
        get_from(
            contents(
                entries,
                history.push(
                    Exchange { request: delete_request(write, key), reply: Reply::Written(Ok(())) },
                ),
            ),
            read,
            key,
        ) == Ok::<Option<Json>, Error>(None),
{
    let delete = Exchange { request: delete_request(write, key), reply: Reply::Written(Ok(())) };
    assert(history.push(delete).drop_last() == history);
}

/// Absence: `get` of a key that the store does not hold, because it was never
/// written or because it was deleted, succeeds with no document.
pub proof fn law_absent_key(
    entries: Map<Seq<u8>, Seq<u8>>,
    write: WriteOptions,
    read: ReadOptions,
    key: Json,
)
    ensures
        !entries.dom().contains(json_text(key)) ==> get_from(entries, read, key) == Ok::<
            Option<Json>,
            Error,
        >(None),
        get_from(after_delete(entries, write, key), read, key) == Ok::<Option<Json>, Error>(None),
{
}

/// Delete, then get: after `put(key, value)` and `delete(key)`, `get(key)`
/// succeeds with no document.
pub proof fn law_delete_then_get(
    entries: Map<Seq<u8>, Seq<u8>>,
    write: WriteOptions,
    read: ReadOptions,
    key: Json,
    value: Json,
)
    ensures
        get_from(after_delete(after_put(entries, write, key, value), write, key), read, key)
            == Ok::<Option<Json>, Error>(None),
{
}

/// A `put` under one key leaves what `get` returns for every other key text.
pub proof fn law_put_leaves_other_keys(
    entries: Map<Seq<u8>, Seq<u8>>,
    write: WriteOptions,
    read: ReadOptions,
    key: Json,
    value: Json,
    other: Json,
)
    ensures
        json_text(other) != json_text(key) ==> get_from(
            after_put(entries, write, key, value),
            read,
            other,
        ) == get_from(entries, read, other),
{
}

/// The three operations ask with the same key text for the same key, whatever
/// the options and the value.
pub proof fn law_one_key_text(
    write: WriteOptions,
    other_write: WriteOptions,
    read: ReadOptions,
    key: Json,
    value: Json,
)
    ensures
        put_request(write, key, value)->Put_key == json_text(key),
        delete_request(other_write, key)->Delete_key == json_text(key),
        get_request(read, key)->Get_key == json_text(key),
{
}

} // verus!
