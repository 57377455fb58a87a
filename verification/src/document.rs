//! The document that a token carries, and its JSON text.
//!
//! A document is a `serde_json::Value`. The library never looks inside one: it
//! hands it to `serde_json` to be written out or gets it from there, and
//! carries it through. What `serde_json` writes and reads is given names.

use std::string::FromUtf8Error;
use vstd::prelude::*;
use vstd::utf8::*;

use crate::error::CodecError;

verus! {

/// `serde_json::Value`, opaque to the proofs.
#[verifier::external_type_specification]
#[verifier::external_body]
pub struct ExValue(serde_json::Value);

/// `serde_json::Error`, of which only the presence is looked at.
#[verifier::external_type_specification]
#[verifier::external_body]
pub struct ExJsonError(serde_json::Error);

/// `std::string::FromUtf8Error`, of which only the presence is looked at.
#[verifier::external_type_specification]
#[verifier::external_body]
pub struct ExFromUtf8Error(FromUtf8Error);

/// The indented JSON text that `serde_json` writes for `doc`, or `None` where
/// it reports an error.
pub uninterp spec fn json_pretty(doc: serde_json::Value) -> Option<Seq<char>>;

/// The document that `serde_json` reads from `text`, or `None` where it
/// reports an error.
pub uninterp spec fn json_parsed(text: Seq<char>) -> Option<serde_json::Value>;

/// Calls `serde_json::to_string_pretty`. Trusted: the outcome depends on the
/// document alone.
#[verifier::external_body]
fn to_pretty_text(doc: &serde_json::Value) -> (res: Result<String, serde_json::Error>)
    ensures
        res matches Ok(text) ==> json_pretty(*doc) == Some(text@),
        res is Err ==> json_pretty(*doc) is None,
{
    serde_json::to_string_pretty(doc)
}

/// Calls `serde_json::from_str` for a `Value`. Trusted: the outcome depends on
/// the text alone.
#[verifier::external_body]
fn from_text(text: &str) -> (res: Result<serde_json::Value, serde_json::Error>)
    ensures
        res matches Ok(doc) ==> json_parsed(text@) == Some(doc),
        res is Err ==> json_parsed(text@) is None,
{
    serde_json::from_str(text)
}

/// Calls `String::from_utf8`. Trusted: it succeeds exactly on well-formed
/// UTF-8, and the string then holds the characters that the bytes spell.
#[verifier::external_body]
fn string_from_utf8(bytes: Vec<u8>) -> (res: Result<String, FromUtf8Error>)
    ensures
        res matches Ok(text) ==> valid_utf8(bytes@) && text@ == decode_utf8(bytes@),
        res is Err ==> !valid_utf8(bytes@),
{
    String::from_utf8(bytes)
}

/// Writes a document out as indented JSON text.
pub fn serialize_document(doc: &serde_json::Value) -> (res: Result<String, CodecError>)
    ensures
        match res {
            Ok(text) => json_pretty(*doc) == Some(text@),
            Err(e) => e == CodecError::SerializationFailed && json_pretty(*doc) is None,
        },
{
    match to_pretty_text(doc) {
        Ok(text) => Ok(text),
        Err(_) => Err(CodecError::SerializationFailed),
    }
}

/// Reads a document from JSON text.
pub fn parse_text(text: &str) -> (res: Result<serde_json::Value, CodecError>)
    ensures
        match res {
            Ok(doc) => json_parsed(text@) == Some(doc),
            Err(e) => e == CodecError::InvalidDocument && json_parsed(text@) is None,
        },
{
    match from_text(text) {
        Ok(doc) => Ok(doc),
        Err(_) => Err(CodecError::InvalidDocument),
    }
}

/// What reading `bytes` as the UTF-8 text of a JSON document gives.
pub open spec fn document_of_bytes(bytes: Seq<u8>) -> Result<serde_json::Value, CodecError> {
    if !valid_utf8(bytes) {
        Err(CodecError::InvalidUtf8)
    } else {
        match json_parsed(decode_utf8(bytes)) {
            Some(doc) => Ok(doc),
            None => Err(CodecError::InvalidDocument),
        }
    }
}

/// Reads `bytes` as the UTF-8 text of a JSON document.
pub fn parse_document(bytes: Vec<u8>) -> (res: Result<serde_json::Value, CodecError>)
    ensures
        res == document_of_bytes(bytes@),
{
    match string_from_utf8(bytes) {
        Err(_) => Err(CodecError::InvalidUtf8),
        Ok(text) => parse_text(text.as_str()),
    }
}

} // verus!
