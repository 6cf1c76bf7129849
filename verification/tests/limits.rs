use json_store::codec::decode;
use json_store::error::Error;
use json_store::limits::{
    check_limits, hex_digit, is_digit, is_exponent_marker, is_sign, is_space, BACKSLASH,
    CLOSE_BRACE, CLOSE_BRACKET, COLON, COMMA, LOWER_U, MAX_DEPTH, MAX_DOCUMENT_LEN, MAX_KEY_BYTES,
    OPEN_BRACE, OPEN_BRACKET, QUOTE,
};
use rustc_serialize::json::Json;

fn nested_arrays(depth: usize) -> Vec<u8> {
    format!("{}{}", "[".repeat(depth), "]".repeat(depth)).into_bytes()
}

fn nested_objects(depth: usize, key_len: usize) -> Vec<u8> {
    let key = "k".repeat(key_len);
    let mut text = String::new();
    for _ in 0..depth {
        text.push_str("{\"");
        text.push_str(&key);
        text.push_str("\":");
    }
    text.push('1');
    for _ in 0..depth {
        text.push('}');
    }
    text.into_bytes()
}

fn object_with_key(key_text: &str) -> Vec<u8> {
    format!("{{\"{}\":1}}", key_text).into_bytes()
}

fn only_key_len(text: &[u8]) -> Result<usize, Error> {
    decode(text).map(|document| match document {
        Json::Object(fields) => fields.keys().next().unwrap().len(),
        _ => panic!("not an object"),
    })
}

#[test]
fn the_limits_have_their_values() {
    assert_eq!(MAX_DOCUMENT_LEN, 4294967295);
    assert_eq!(MAX_DEPTH, 512);
    assert_eq!(MAX_KEY_BYTES, 65535);
}

#[test]
fn the_byte_classes() {
    for byte in 0..=255u8 {
        assert_eq!(is_space(byte), b" \n\t\r".contains(&byte));
        assert_eq!(is_digit(byte), b"0123456789".contains(&byte));
        assert_eq!(is_exponent_marker(byte), b"eE".contains(&byte));
        assert_eq!(is_sign(byte), b"+-".contains(&byte));
        let expected = (byte as char).to_digit(16).map(|value| value as u8);
        assert_eq!(hex_digit(byte), expected);
    }
    assert_eq!(hex_digit(0x39), Some(9));
    assert_eq!(hex_digit(0x61), Some(10));
    assert_eq!(hex_digit(0x46), Some(15));
    assert_eq!(hex_digit(0x67), None);
}

#[test]
fn the_named_bytes() {
    assert_eq!(
        [
            QUOTE,
            BACKSLASH,
            LOWER_U,
            COMMA,
            COLON,
            OPEN_BRACKET,
            CLOSE_BRACKET,
            OPEN_BRACE,
            CLOSE_BRACE
        ],
        *b"\"\\u,:[]{}"
    );
}

#[test]
fn check_limits_accepts_ordinary_documents() {
    assert!(check_limits(b""));
    assert!(check_limits(b"null"));
    assert!(check_limits(b"{\"name\":\"Ada\",\"age\":36}"));
    assert!(check_limits(b"[1, 2.5e10, -3E-7, true, false]"));
}

#[test]
fn check_limits_accepts_text_that_is_not_json() {
    assert!(check_limits(b"not json"));
    assert!(check_limits(b"]]]}}}"));
    assert!(check_limits(b"[1,]"));
    assert!(check_limits(b"\"a\":1"));
}

#[test]
fn check_limits_counts_open_arrays_and_objects() {
    assert!(check_limits(&nested_arrays(512)));
    assert!(!check_limits(&nested_arrays(513)));
    assert!(check_limits(&nested_objects(512, 1)));
    assert!(!check_limits(&nested_objects(513, 1)));
}

#[test]
fn check_limits_counts_depth_not_the_number_of_brackets() {
    let mut text = String::from("[");
    for _ in 0..1000 {
        text.push_str("[],{},");
    }
    text.push_str("0]");
    assert!(check_limits(text.as_bytes()));
}

#[test]
fn check_limits_ignores_brackets_inside_strings() {
    let text = format!("\"{}\"", "[{".repeat(500));
    assert!(check_limits(text.as_bytes()));
    let escaped = format!("\"\\\"{}\"", "[".repeat(600));
    assert!(check_limits(escaped.as_bytes()));
}

#[test]
fn check_limits_sees_where_a_string_with_escapes_ends() {
    let text = format!("\"\\\\\"{}", "[".repeat(513));
    assert!(!check_limits(text.as_bytes()));
    let text = format!("\"\\u00e9\"{}", "[".repeat(513));
    assert!(!check_limits(text.as_bytes()));
}

#[test]
fn a_key_may_fill_the_buffer_and_no_more() {
    assert_eq!(only_key_len(&nested_objects(1, 65535)), Ok(65535));
    assert!(!check_limits(&nested_objects(1, 65536)));
    assert_eq!(decode(&nested_objects(1, 65536)), Err(Error::Decode));
    assert_eq!(decode(&nested_objects(1, 70000)), Err(Error::Decode));
}

#[test]
fn a_value_may_be_longer_than_any_key() {
    let value = format!("{{\"k\":\"{}\"}}", "v".repeat(100000));
    assert!(check_limits(value.as_bytes()));
    assert!(decode(value.as_bytes()).is_ok());
}

#[test]
fn the_keys_on_the_way_down_add_up() {
    let text = format!("{{\"{}\":[{{\"{}\":1}}]}}", "a".repeat(40000), "b".repeat(25535));
    assert!(check_limits(text.as_bytes()));
    assert!(decode(text.as_bytes()).is_ok());
    let text = format!("{{\"{}\":[{{\"{}\":1}}]}}", "a".repeat(40000), "b".repeat(25536));
    assert!(!check_limits(text.as_bytes()));
    assert_eq!(decode(text.as_bytes()), Err(Error::Decode));
    assert_eq!(decode(&nested_objects(2, 65000)), Err(Error::Decode));
}

#[test]
fn keys_side_by_side_do_not_add_up() {
    let text = format!("{{\"{}\":1,\"{}\":2}}", "a".repeat(40000), "b".repeat(40000));
    assert!(check_limits(text.as_bytes()));
    assert_eq!(decode(text.as_bytes()).map(|d| d.as_object().unwrap().len()), Ok(2));
    let text = format!("[{{\"{}\":{{}}}},{{\"{}\":[]}}]", "a".repeat(40000), "b".repeat(40000));
    assert!(check_limits(text.as_bytes()));
    assert_eq!(decode(text.as_bytes()).map(|d| d.as_array().unwrap().len()), Ok(2));
}

#[test]
fn the_deepest_nesting_with_keys_that_fill_the_buffer() {
    let parsed = decode(&nested_objects(512, 127));
    assert!(parsed.is_ok());
    let mut depth = 0;
    let mut at = parsed.unwrap();
    while let Json::Object(fields) = at {
        assert_eq!(fields.len(), 1);
        let (key, inner) = fields.into_iter().next().unwrap();
        assert_eq!(key.len(), 127);
        depth += 1;
        at = inner;
    }
    assert_eq!(depth, 512);
    assert_eq!(at, Json::U64(1));
    assert_eq!(decode(&nested_objects(512, 128)), Err(Error::Decode));
}

#[test]
fn an_escape_counts_as_the_character_it_stands_for() {
    assert_eq!(only_key_len(&object_with_key(&"\\u0041".repeat(65535))), Ok(65535));
    assert_eq!(decode(&object_with_key(&"\\u0041".repeat(65536))), Err(Error::Decode));
    assert_eq!(only_key_len(&object_with_key(&"\\n".repeat(65535))), Ok(65535));
    assert_eq!(decode(&object_with_key(&"\\\"".repeat(65536))), Err(Error::Decode));
    assert_eq!(only_key_len(&object_with_key(&"\\u00e9".repeat(32767))), Ok(65534));
    assert_eq!(decode(&object_with_key(&"\\u00E9".repeat(32768))), Err(Error::Decode));
    assert_eq!(only_key_len(&object_with_key(&"\\u20ac".repeat(21845))), Ok(65535));
    assert_eq!(decode(&object_with_key(&"\\u20AC".repeat(21846))), Err(Error::Decode));
    assert_eq!(only_key_len(&object_with_key(&"\\ud83d\\ude00".repeat(16383))), Ok(65532));
    assert_eq!(decode(&object_with_key(&"\\uD83D\\uDE00".repeat(16384))), Err(Error::Decode));
}

#[test]
fn a_character_counts_as_its_bytes() {
    assert_eq!(only_key_len(&object_with_key(&"\u{20ac}".repeat(21845))), Ok(65535));
    assert_eq!(decode(&object_with_key(&"\u{20ac}".repeat(21846))), Err(Error::Decode));
}

#[test]
fn an_exponent_may_have_leading_zeros() {
    assert!(check_limits(b"1e0000000001"));
    assert_eq!(decode(b"1e0000000001"), Ok(Json::F64(10.0)));
    let zeros = format!("1e-{}2", "0".repeat(1000));
    assert_eq!(decode(zeros.as_bytes()), Ok(Json::F64(0.01)));
}

#[test]
fn an_exponent_must_fit_the_machine_word() {
    let largest = format!("1e{}", usize::MAX);
    assert!(check_limits(largest.as_bytes()));
    assert!(decode(largest.as_bytes()).is_ok());
    let one_more = format!("[1E-{}]", usize::MAX as u128 + 1);
    assert!(!check_limits(one_more.as_bytes()));
    assert_eq!(decode(one_more.as_bytes()), Err(Error::Decode));
    let ten_times = format!("1e+{}0", usize::MAX);
    assert!(!check_limits(ten_times.as_bytes()));
    assert_eq!(decode(b"1e99999999999999999999999999999999999999999"), Err(Error::Decode));
}

#[test]
fn check_limits_leaves_other_digits_alone() {
    assert!(check_limits(b"123456789012345678901234567890123456789012345678901234567890"));
    assert!(check_limits(b"0.123456789012345678901234567890123456789012345678901234567890"));
    assert!(check_limits(b"\"3e12345678901234567890123456789012345678901234567890ab\""));
    assert!(check_limits(b"[true,123456789012345678901234567890123456789012345678901]"));
}

#[test]
fn check_limits_rejects_a_comma_before_a_closing_brace() {
    assert!(!check_limits(b"{\"a\":1,}"));
    assert!(!check_limits(b"{\"a\":1, \t\r\n}"));
    assert!(check_limits(b"{\"a\":\",}\"}"));
    assert!(check_limits(b"[1,]"));
    assert!(check_limits(b"{\"a\":1,\"b\":2}"));
}

#[test]
fn check_limits_keeps_a_rejection() {
    assert!(!check_limits(b"{\"a\":1,} and then anything [] {} \"x\""));
}

#[test]
fn decode_fails_beyond_the_depth() {
    assert_eq!(decode(&nested_arrays(513)), Err(Error::Decode));
    assert_eq!(decode(&nested_arrays(200000)), Err(Error::Decode));
    assert_eq!(decode(&nested_objects(513, 1)), Err(Error::Decode));
}

#[test]
fn decode_reads_at_the_depth() {
    assert!(decode(&nested_arrays(512)).is_ok());
    assert!(decode(&nested_objects(512, 1)).is_ok());
}
