use std::collections::BTreeMap;

use json_store::codec::{decode, encode, settle_parse};
use json_store::error::Error;
use rustc_serialize::json::Json;

fn person() -> Json {
    let mut fields = BTreeMap::new();
    fields.insert("name".to_string(), Json::String("Ada".to_string()));
    fields.insert("age".to_string(), Json::U64(36));
    Json::Object(fields)
}

#[test]
fn encode_writes_a_string_in_quotes() {
    assert_eq!(encode(&Json::String("user:1".to_string())), b"\"user:1\"".to_vec());
}

#[test]
fn encode_writes_an_object_compactly_with_sorted_keys() {
    assert_eq!(encode(&person()), b"{\"age\":36,\"name\":\"Ada\"}".to_vec());
}

#[test]
fn encode_writes_the_scalars() {
    assert_eq!(encode(&Json::Null), b"null".to_vec());
    assert_eq!(encode(&Json::Boolean(true)), b"true".to_vec());
    assert_eq!(encode(&Json::Boolean(false)), b"false".to_vec());
    assert_eq!(encode(&Json::I64(-7)), b"-7".to_vec());
    assert_eq!(encode(&Json::U64(18446744073709551615)), b"18446744073709551615".to_vec());
    assert_eq!(encode(&Json::F64(1.5)), b"1.5".to_vec());
}

#[test]
fn encode_writes_an_array_in_order() {
    let list = Json::Array(vec![Json::U64(3), Json::U64(1), Json::String("x".to_string())]);
    assert_eq!(encode(&list), b"[3,1,\"x\"]".to_vec());
}

#[test]
fn encode_escapes_quotes_and_control_characters() {
    let text = Json::String("a\"b\\c\nd".to_string());
    assert_eq!(encode(&text), b"\"a\\\"b\\\\c\\nd\"".to_vec());
}

#[test]
fn encode_gives_the_same_text_each_time() {
    assert_eq!(encode(&person()), encode(&person()));
}

#[test]
fn decode_reads_an_object() {
    assert_eq!(decode(b"{\"name\":\"Ada\",\"age\":36}"), Ok(person()));
}

#[test]
fn decode_reads_the_scalars() {
    assert_eq!(decode(b"null"), Ok(Json::Null));
    assert_eq!(decode(b"true"), Ok(Json::Boolean(true)));
    assert_eq!(decode(b"false"), Ok(Json::Boolean(false)));
    assert_eq!(decode(b"-7"), Ok(Json::I64(-7)));
    assert_eq!(decode(b"36"), Ok(Json::U64(36)));
    assert_eq!(decode(b"1.5"), Ok(Json::F64(1.5)));
    assert_eq!(decode(b"\"x\""), Ok(Json::String("x".to_string())));
}

#[test]
fn decode_reads_an_array_between_white_space() {
    let list = Json::Array(vec![Json::U64(1), Json::Array(vec![]), Json::Null]);
    assert_eq!(decode(b" [1, [ ],\n\tnull ]\r\n"), Ok(list));
}

#[test]
fn decode_reads_a_number_with_an_exponent() {
    assert_eq!(decode(b"25e-1"), Ok(Json::F64(2.5)));
    assert_eq!(decode(b"1E+2"), Ok(Json::F64(100.0)));
}

#[test]
fn decode_reads_back_what_encode_wrote() {
    let list = Json::Array(vec![person(), Json::Null, Json::String("{[,}".to_string())]);
    assert_eq!(decode(&encode(&list)), Ok(list));
}

#[test]
fn decode_rejects_text_that_is_not_json() {
    assert_eq!(decode(b"not json"), Err(Error::Decode));
}

#[test]
fn decode_rejects_the_empty_text() {
    assert_eq!(decode(b""), Err(Error::Decode));
}

#[test]
fn decode_rejects_a_truncated_document() {
    assert_eq!(decode(b"{\"name\":\"Ada\",\"age\""), Err(Error::Decode));
    assert_eq!(decode(b"[1,2"), Err(Error::Decode));
    assert_eq!(decode(b"\"open"), Err(Error::Decode));
}

#[test]
fn decode_rejects_trailing_characters() {
    assert_eq!(decode(b"{} x"), Err(Error::Decode));
}

#[test]
fn decode_rejects_bytes_that_are_not_utf8() {
    assert_eq!(decode(&[0x22, 0xFF, 0x22]), Err(Error::Decode));
}

#[test]
fn decode_rejects_a_comma_before_a_closing_brace() {
    assert_eq!(decode(b"{\"a\":1,}"), Err(Error::Decode));
    assert_eq!(decode(b"[{\"a\":{\"b\":1,},5"), Err(Error::Decode));
    assert_eq!(decode(b"[{\"a\":{\"b\":1, \n}},5]"), Err(Error::Decode));
}

#[test]
fn decode_does_not_read_a_number_that_encode_wrote_in_full() {
    let text = encode(&Json::F64(1e300));
    assert_eq!(text.len(), 303);
    assert_eq!(decode(&text), Err(Error::Decode));
}

#[test]
fn settle_parse_keeps_a_document_and_names_one_error() {
    assert_eq!(settle_parse(Json::from_str("[true]")), Ok(Json::Array(vec![Json::Boolean(true)])));
    assert_eq!(settle_parse(Json::from_str("[true")), Err(Error::Decode));
    assert_eq!(settle_parse(Json::from_str("tru")), Err(Error::Decode));
}
