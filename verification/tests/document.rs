use serde_json::{Number, Value};
use vpn_url::document::{parse_document, parse_text, serialize_document};
use vpn_url::error::CodecError;

#[test]
fn document_is_written_with_two_space_indent() {
    let mut map = serde_json::Map::new();
    map.insert("a".to_string(), Value::Number(Number::from(1)));
    map.insert("b".to_string(), Value::Array(vec![Value::Bool(true), Value::Null]));
    let text = serialize_document(&Value::Object(map)).unwrap();
    assert_eq!(text, "{\n  \"a\": 1,\n  \"b\": [\n    true,\n    null\n  ]\n}");
    assert_eq!(serialize_document(&Value::Null).unwrap(), "null");
    assert_eq!(serialize_document(&Value::String("x\ny".to_string())).unwrap(), "\"x\\ny\"");
}

#[test]
fn text_is_read_as_a_document() {
    let mut map = serde_json::Map::new();
    map.insert("a".to_string(), Value::Number(Number::from(1)));
    assert_eq!(parse_text("{\"a\":1}"), Ok(Value::Object(map)));
    assert_eq!(parse_text(" [1, 2] "), Ok(Value::Array(vec![
        Value::Number(Number::from(1)),
        Value::Number(Number::from(2)),
    ])));
    assert_eq!(parse_text(""), Err(CodecError::InvalidDocument));
    assert_eq!(parse_text("{"), Err(CodecError::InvalidDocument));
    assert_eq!(parse_text("{\"a\":1} x"), Err(CodecError::InvalidDocument));
    assert_eq!(parse_text("random text"), Err(CodecError::InvalidDocument));
}

#[test]
fn bytes_are_read_as_text_first() {
    assert_eq!(
        parse_document(vec![0x22, 0xc3, 0xa9, 0x22]),
        Ok(Value::String("\u{e9}".to_string()))
    );
    assert_eq!(
        parse_document(vec![0x22, 0xf0, 0x9f, 0x98, 0x80, 0x22]),
        Ok(Value::String("\u{1f600}".to_string()))
    );
    assert_eq!(parse_document(vec![0x22, 0xc3, 0x22]), Err(CodecError::InvalidUtf8));
    assert_eq!(parse_document(vec![0x22, 0xed, 0xa0, 0x80, 0x22]), Err(CodecError::InvalidUtf8));
    assert_eq!(parse_document(vec![0xc0, 0x80]), Err(CodecError::InvalidUtf8));
    assert_eq!(parse_document(vec![]), Err(CodecError::InvalidDocument));
    assert_eq!(parse_document(b"tru".to_vec()), Err(CodecError::InvalidDocument));
    assert_eq!(parse_document(b"true".to_vec()), Ok(Value::Bool(true)));
}

#[test]
fn written_text_reads_back() {
    let mut map = serde_json::Map::new();
    map.insert("port".to_string(), Value::Number(Number::from(8080)));
    map.insert("name".to_string(), Value::String("\u{442}\u{435}\u{441}\u{442}".to_string()));
    let document = Value::Object(map);
    let text = serialize_document(&document).unwrap();
    assert_eq!(parse_text(&text), Ok(document.clone()));
    assert_eq!(parse_document(text.into_bytes()), Ok(document));
}
