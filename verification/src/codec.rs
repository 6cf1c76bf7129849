//! JSON documents and their text.
//!
//! A document is a value of the `Json` type of the `rustc_serialize` crate,
//! which also writes and parses the text. To the verifier a document is
//! opaque: the contracts speak of the text that is written for it and of the
//! document that a text parses to.

use crate::error::Error;
use crate::limits::{check_limits, within_limits};
use rustc_serialize::json::{Json, ParserError};
use vstd::prelude::*;

verus! {

/// A JSON document: null, a boolean, a number, a string, an array of
/// documents, or an object that maps strings to documents.
#[verifier::external_type_specification]
#[verifier::external_body]
pub struct ExJson(Json);

/// Why the parser turned a text down. The adapter does not tell the causes
/// apart.
#[verifier::external_type_specification]
#[verifier::external_body]
pub struct ExParserError(ParserError);

/// The compact JSON text of `document`, as `rustc_serialize` writes it.
pub uninterp spec fn json_text(document: Json) -> Seq<u8>;

/// The document that `rustc_serialize` parses `text` to, if it is JSON.
pub uninterp spec fn json_parse(text: Seq<u8>) -> Option<Json>;

/// Calls the `Display` implementation of `rustc_serialize::json::Json`
/// through `to_string`, which runs the crate's compact encoder over the
/// document, and takes the bytes of the string that it fills.
///
/// Trusted: the bytes are the text named [`json_text`], the same for the same
/// document: a number is written in decimal without an exponent, or as `null`
/// where it is not finite, and the entries of an object in the order of their
/// keys. The encoder fails only when its
/// writer fails or when something that is neither a string nor a number is
/// written as an object key; here the writer is a `String` and the keys of a
/// document are strings, so it does not fail.
#[verifier::external_body]
fn write_text(document: &Json) -> (text: Vec<u8>)
    ensures
        text@ == json_text(*document),
{
    document.to_string().into_bytes()
}

/// Calls `rustc_serialize::json::Json::from_reader` on the bytes.
///
/// Trusted: the call yields a document exactly when [`json_parse`] names one
/// for the text, and then that document. Outside the limits asked of the text
/// the parser can overflow one of its counters or its stack, cut a key short,
/// or stop with "invalid state"; [`crate::limits`] says where, and why the
/// limits keep it away from there. Within them it comes back for every text,
/// also for one that is not UTF-8, and reading from a slice cannot fail.
#[verifier::external_body]
fn parse_text(text: &[u8]) -> (parsed: Result<Json, ParserError>)
    requires
        within_limits(text@),
    ensures
        parsed matches Ok(document) ==> json_parse(text@) == Some(document),
        parsed is Err ==> json_parse(text@) is None,
{
    let mut reader = text;
    Json::from_reader(&mut reader)
}

/// The document that the adapter reads `text` as: the one the text parses to,
/// provided the text is within the limits of [`within_limits`]. Outside them
/// the parser is not asked.
pub open spec fn readable(text: Seq<u8>) -> Option<Json> {
    if within_limits(text) {
        json_parse(text)
    } else {
        None
    }
}

/// What [`decode`] returns for `text`.
pub open spec fn decode_outcome(text: Seq<u8>) -> Result<Json, Error> {
    match readable(text) {
        Some(document) => Ok(document),
        None => Err(Error::Decode),
    }
}

/// Turns the parser's verdict into the adapter's: the document, or the one
/// decode error whatever the parser's reason.
pub fn settle_parse(parsed: Result<Json, ParserError>) -> (outcome: Result<Json, Error>)
    ensures
        parsed matches Ok(document) ==> outcome == Ok::<Json, Error>(document),
        parsed is Err ==> outcome == Err::<Json, Error>(Error::Decode),
{
    match parsed {
        Ok(document) => Ok(document),
        Err(_) => Err(Error::Decode),
    }
}

/// Writes `document` out as compact JSON text.
pub fn encode(document: &Json) -> (text: Vec<u8>)
    ensures
        text@ == json_text(*document),
{
    write_text(document)
}

/// Parses `text` as a JSON document.
///
/// Fails with [`Error::Decode`], whatever the cause, when the parser does not
/// take the text or the text is outside the limits; nothing is returned of a
/// text that parses only in part.
///
/// Of the texts that are JSON, these and no others are outside the limits:
/// one in which the keys of the objects around some value have more than
/// [`MAX_KEY_BYTES`](crate::limits::MAX_KEY_BYTES) bytes together, or in which
/// an exponent is larger than a machine word holds, neither of which the
/// parser can read; one that nests deeper than
/// [`MAX_DEPTH`](crate::limits::MAX_DEPTH); and one of more than
/// [`MAX_DOCUMENT_LEN`](crate::limits::MAX_DOCUMENT_LEN) bytes.
pub fn decode(text: &[u8]) -> (outcome: Result<Json, Error>)
    ensures
        outcome == decode_outcome(text@),
{
    if !check_limits(text) {
        return Err(Error::Decode);
    }
    settle_parse(parse_text(text))
}

} // verus!
