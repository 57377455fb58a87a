//! Tokens: a document's text, compressed, framed by its length, written in
//! base64 behind the scheme; and the way back, with the older headerless form
//! as a second reading.

use vstd::prelude::*;
use vstd::slice::*;
use vstd::string::*;
use vstd::utf8::*;

use crate::base64url::{
    base64url, base64url_decoded, decode_base64, encode_base64, lemma_base64url_round_trip,
};
use crate::document::{
    document_of_bytes, json_parsed, json_pretty, parse_document, serialize_document,
};
use crate::error::CodecError;
use crate::header::{
    create_header, header_bytes, header_value, lemma_header_round_trip, read_header,
};
use crate::zlib::{compress_data, decompress_data, zlib_deflated, zlib_inflated};

verus! {

/// The characters `vpn://`, with which every token begins.
pub open spec fn scheme() -> Seq<char> {
    seq!['v', 'p', 'n', ':', '/', '/']
}

/// The bytes that a token's base64 spells: the header for `text_len`, then
/// the compressed stream.
pub open spec fn frame(text_len: nat, stream: Seq<u8>) -> Seq<u8> {
    header_bytes(text_len) + stream
}

/// The token for a document, or the reason why there is none.
pub open spec fn encode_result(doc: serde_json::Value) -> Result<Seq<char>, CodecError> {
    match json_pretty(doc) {
        None => Err(CodecError::SerializationFailed),
        Some(text) => {
            let raw = encode_utf8(text);
            if raw.len() > u32::MAX {
                Err(CodecError::LengthOverflow)
            } else {
                match zlib_deflated(raw) {
                    None => Err(CodecError::CompressionFailed),
                    Some(stream) => Ok(scheme() + base64url(frame(raw.len(), stream))),
                }
            }
        },
    }
}

/// The reading of `data` as header and compressed payload.
pub open spec fn modern_result(data: Seq<u8>) -> Result<serde_json::Value, CodecError> {
    if data.len() < 4 {
        Err(CodecError::TruncatedHeader)
    } else {
        match zlib_inflated(data.skip(4)) {
            None => Err(CodecError::DecompressionError),
            Some(raw) => if raw.len() != header_value(data) {
                Err(
                    CodecError::IntegrityMismatch {
                        expected: header_value(data) as u32,
                        actual: raw.len() as usize,
                    },
                )
            } else {
                document_of_bytes(raw)
            },
        }
    }
}

/// The reading of `data` as the document's text itself.
pub open spec fn legacy_result(data: Seq<u8>) -> Result<serde_json::Value, CodecError> {
    document_of_bytes(data)
}

/// The document in a token: the modern reading where it succeeds, the legacy
/// reading otherwise.
pub open spec fn decode_result(token: Seq<char>) -> Result<serde_json::Value, CodecError> {
    if !scheme().is_prefix_of(token) {
        Err(CodecError::InvalidScheme)
    } else {
        match base64url_decoded(token.skip(6)) {
            None => Err(CodecError::InvalidEncoding),
            Some(data) => match modern_result(data) {
                Ok(doc) => Ok(doc),
                Err(_) => legacy_result(data),
            },
        }
    }
}

/// The document comes back unchanged from its own JSON text.
pub open spec fn reads_back(doc: serde_json::Value) -> bool {
    json_pretty(doc) matches Some(text) && json_parsed(text) == Some(doc)
}

/// The length to record in the header, if it fits there.
pub fn header_length(len: usize) -> (res: Result<u32, CodecError>)
    ensures
        match res {
            Ok(n) => n == len,
            Err(e) => e == CodecError::LengthOverflow && len > u32::MAX,
        },
{
    if len > u32::MAX as usize {
        Err(CodecError::LengthOverflow)
    } else {
        Ok(len as u32)
    }
}

/// Puts the scheme in front of a token's body.
pub fn with_scheme(body: &str) -> (token: String)
    ensures
        token@ == scheme() + body@,
{
    let mut token = String::from_str("vpn://");
    proof {
        reveal_strlit("vpn://");
        assert("vpn://"@ =~= scheme());
    }
    token.append(body);
    token
}

/// Takes the scheme off a token; `None` where the token does not begin with it.
pub fn strip_scheme(token: &str) -> (res: Option<&str>)
    ensures
        match res {
            Some(body) => scheme().is_prefix_of(token@) && body@ == token@.skip(6),
            None => !scheme().is_prefix_of(token@),
        },
{
    let n = token.unicode_len();
    if n < 6 {
        return None;
    }
    if token.get_char(0) != 'v' || token.get_char(1) != 'p' || token.get_char(2) != 'n'
        || token.get_char(3) != ':' || token.get_char(4) != '/' || token.get_char(5) != '/' {
        assert(!(scheme() =~= token@.subrange(0, 6)));
        return None;
    }
    assert(scheme() =~= token@.subrange(0, 6));
    let body = token.substring_char(6, n);
    assert(body@ =~= token@.skip(6));
    Some(body)
}

/// Builds the token for a payload of `text_len` bytes that compressed to
/// `stream`.
pub fn assemble_token(text_len: u32, stream: &[u8]) -> (token: String)
    ensures
        token@ == scheme() + base64url(frame(text_len as nat, stream@)),
{
    let header = create_header(text_len);
    let mut framed: Vec<u8> = Vec::new();
    framed.push(header[0]);
    framed.push(header[1]);
    framed.push(header[2]);
    framed.push(header[3]);
    framed.extend_from_slice(stream);
    assert(framed@ =~= frame(text_len as nat, stream@));
    let body = encode_base64(framed.as_slice());
    with_scheme(body.as_str())
}

/// Takes a token apart into the bytes that its base64 spells.
pub fn open_token(token: &str) -> (res: Result<Vec<u8>, CodecError>)
    ensures
        match res {
            Ok(data) => scheme().is_prefix_of(token@) && base64url_decoded(token@.skip(6)) == Some(
                data@,
            ),
            Err(e) => if scheme().is_prefix_of(token@) {
                e == CodecError::InvalidEncoding && base64url_decoded(token@.skip(6)) is None
            } else {
                e == CodecError::InvalidScheme
            },
        },
{
    match strip_scheme(token) {
        None => Err(CodecError::InvalidScheme),
        Some(body) => decode_base64(body),
    }
}

/// Splits `data` into the length its header records and what follows the
/// header.
pub fn split_frame(data: &[u8]) -> (res: Result<(u32, &[u8]), CodecError>)
    ensures
        match res {
            Ok((expected, stream)) => data@.len() >= 4 && expected == header_value(data@)
                && stream@ == data@.skip(4),
            Err(e) => e == CodecError::TruncatedHeader && data@.len() < 4,
        },
{
    if data.len() < 4 {
        return Err(CodecError::TruncatedHeader);
    }
    let expected = read_header(data);
    let stream = slice_subrange(data, 4, data.len());
    assert(stream@ =~= data@.skip(4));
    Ok((expected, stream))
}

/// Holds the decompressed length against the one the header recorded.
pub fn check_integrity(expected: u32, actual: usize) -> (res: Result<(), CodecError>)
    ensures
        match res {
            Ok(_) => actual == expected,
            Err(e) => actual != expected && e == (CodecError::IntegrityMismatch {
                expected,
                actual,
            }),
        },
{
    if actual > u32::MAX as usize || actual as u32 != expected {
        Err(CodecError::IntegrityMismatch { expected, actual })
    } else {
        Ok(())
    }
}

/// Reads `data` as a header followed by a compressed document.
pub fn try_decode_compressed(data: &[u8]) -> (res: Result<serde_json::Value, CodecError>)
    ensures
        res == modern_result(data@),
{
    let (expected, stream) = match split_frame(data) {
        Ok(parts) => parts,
        Err(e) => {
            return Err(e);
        },
    };
    let raw = match decompress_data(stream) {
        Ok(raw) => raw,
        Err(e) => {
            return Err(e);
        },
    };
    match check_integrity(expected, raw.len()) {
        Ok(_) => parse_document(raw),
        Err(e) => Err(e),
    }
}

/// Reads `data` as the text of a document, with no header and no compression.
pub fn try_decode_plain(data: &[u8]) -> (res: Result<serde_json::Value, CodecError>)
    ensures
        res == legacy_result(data@),
{
    parse_document(slice_to_vec(data))
}

/// A frame made of a text's length and a stream that decompresses to the text
/// reads, the modern way, as whatever document the text holds.
pub proof fn lemma_modern_reads_frame(text: Seq<char>, stream: Seq<u8>)
    requires
        encode_utf8(text).len() <= u32::MAX,
        zlib_inflated(stream) == Some(encode_utf8(text)),
    ensures
        modern_result(frame(encode_utf8(text).len(), stream)) == match json_parsed(text) {
            Some(doc) => Ok::<serde_json::Value, CodecError>(doc),
            None => Err(CodecError::InvalidDocument),
        },
{
    let raw = encode_utf8(text);
    let data = frame(raw.len(), stream);
    lemma_header_round_trip(raw.len());
    assert(data.skip(4) =~= stream);
    assert(header_value(data) == header_value(header_bytes(raw.len())));
    encode_utf8_valid_utf8(text);
    encode_utf8_decode_utf8(text);
}

/// Every token begins with the scheme.
pub proof fn lemma_token_begins_with_scheme(doc: serde_json::Value)
    ensures
        encode_result(doc) matches Ok(token) ==> scheme().is_prefix_of(token),
{
    if let Ok(token) = encode_result(doc) {
        assert(scheme() =~= token.subrange(0, 6));
    }
}

/// Where the modern reading fails, for whatever reason, a token is read the
/// legacy way.
pub proof fn lemma_failed_modern_falls_back(token: Seq<char>, data: Seq<u8>)
    requires
        scheme().is_prefix_of(token),
        base64url_decoded(token.skip(6)) == Some(data),
        modern_result(data) is Err,
    ensures
        decode_result(token) == legacy_result(data),
{
}

/// A header that is wrong about the payload's length makes the modern reading
/// fail, and the token is read the legacy way.
pub proof fn lemma_wrong_length_falls_back(token: Seq<char>, data: Seq<u8>, raw: Seq<u8>)
    requires
        scheme().is_prefix_of(token),
        base64url_decoded(token.skip(6)) == Some(data),
        data.len() >= 4,
        zlib_inflated(data.skip(4)) == Some(raw),
        raw.len() != header_value(data),
    ensures
        modern_result(data) is Err,
        decode_result(token) == legacy_result(data),
{
}

/// Decoding depends on the token's characters and on nothing else.
pub proof fn lemma_decode_deterministic(first: Seq<char>, second: Seq<char>)
    requires
        first =~= second,
    ensures
        decode_result(first) == decode_result(second),
{
}

/// Turns a document into a `vpn://` token.
pub fn encode(config: &serde_json::Value) -> (res: Result<String, CodecError>)
    ensures
        match res {
            Ok(token) => encode_result(*config) == Ok::<Seq<char>, CodecError>(token@),
            Err(e) => encode_result(*config) == Err::<Seq<char>, CodecError>(e),
        },
        res matches Ok(token) ==> scheme().is_prefix_of(token@),
        res matches Ok(token) ==> (reads_back(*config) ==> decode_result(token@) == Ok::<
            serde_json::Value,
            CodecError,
        >(*config)),
{
    let text = match serialize_document(config) {
        Ok(text) => text,
        Err(e) => {
            return Err(e);
        },
    };
    let raw = text.as_str().as_bytes();
    let text_len = match header_length(raw.len()) {
        Ok(n) => n,
        Err(e) => {
            return Err(e);
        },
    };
    let stream = match compress_data(raw) {
        Ok(stream) => stream,
        Err(e) => {
            return Err(e);
        },
    };
    let token = assemble_token(text_len, stream.as_slice());
    proof {
        let data = frame(raw@.len(), stream@);
        assert(scheme() =~= token@.subrange(0, 6));
        assert(token@.skip(6) =~= base64url(data));
        lemma_base64url_round_trip(data);
        lemma_modern_reads_frame(text@, stream@);
    }
    Ok(token)
}

/// Turns a `vpn://` token back into the document it carries.
pub fn decode(vpn_url: &str) -> (res: Result<serde_json::Value, CodecError>)
    ensures
        res == decode_result(vpn_url@),
{
    let data = match open_token(vpn_url) {
        Ok(data) => data,
        Err(e) => {
            return Err(e);
        },
    };
    match try_decode_compressed(data.as_slice()) {
        Ok(doc) => Ok(doc),
        Err(_) => try_decode_plain(data.as_slice()),
    }
}

} // verus!
