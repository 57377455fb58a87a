//! Compression of the serialized document, done by `flate2`.
//!
//! What a zlib stream looks like is not stated here: the compressor's and the
//! decompressor's results are given names, and the rest of the library is
//! proved for whatever those names stand for.

use flate2::read::ZlibDecoder;
use flate2::write::ZlibEncoder;
use flate2::Compression;
use std::io::Read;
use std::io::Write;
use vstd::prelude::*;

use crate::error::CodecError;

verus! {

/// `std::io::Error`, of which only the presence is looked at.
#[verifier::external_type_specification]
#[verifier::external_body]
pub struct ExIoError(std::io::Error);

/// The zlib stream that the compressor writes for `data` at its default
/// level, or `None` where it reports an error.
pub uninterp spec fn zlib_deflated(data: Seq<u8>) -> Option<Seq<u8>>;

/// The bytes that the decompressor reads out of `stream`, or `None` where it
/// reports an error.
pub uninterp spec fn zlib_inflated(stream: Seq<u8>) -> Option<Seq<u8>>;

/// Runs a `flate2::write::ZlibEncoder` over `data`, into a fresh vector, at
/// `Compression::default()`. Trusted: the outcome depends on `data` alone, and
/// a stream that was written decompresses to `data` again.
#[verifier::external_body]
fn deflate(data: &[u8]) -> (res: Result<Vec<u8>, std::io::Error>)
    ensures
        res matches Ok(stream) ==> zlib_deflated(data@) == Some(stream@),
        res matches Ok(stream) ==> zlib_inflated(stream@) == Some(data@),
        res is Err ==> zlib_deflated(data@) is None,
{
    let mut encoder = ZlibEncoder::new(Vec::new(), Compression::default());
    encoder.write_all(data)?;
    encoder.finish()
}

/// Reads a `flate2::read::ZlibDecoder` over `stream` to its end. Trusted: the
/// outcome depends on `stream` alone.
#[verifier::external_body]
fn inflate(stream: &[u8]) -> (res: Result<Vec<u8>, std::io::Error>)
    ensures
        res matches Ok(data) ==> zlib_inflated(stream@) == Some(data@),
        res is Err ==> zlib_inflated(stream@) is None,
{
    let mut decoder = ZlibDecoder::new(stream);
    let mut data = Vec::new();
    decoder.read_to_end(&mut data)?;
    Ok(data)
}

/// Compresses `data` into a zlib stream.
pub fn compress_data(data: &[u8]) -> (res: Result<Vec<u8>, CodecError>)
    ensures
        match res {
            Ok(stream) => zlib_deflated(data@) == Some(stream@) && zlib_inflated(stream@) == Some(
                data@,
            ),
            Err(e) => e == CodecError::CompressionFailed && zlib_deflated(data@) is None,
        },
{
    match deflate(data) {
        Ok(stream) => Ok(stream),
        Err(_) => Err(CodecError::CompressionFailed),
    }
}

/// Decompresses a zlib stream; anything else is a `DecompressionError`.
pub fn decompress_data(data: &[u8]) -> (res: Result<Vec<u8>, CodecError>)
    ensures
        match res {
            Ok(raw) => zlib_inflated(data@) == Some(raw@),
            Err(e) => e == CodecError::DecompressionError && zlib_inflated(data@) is None,
        },
{
    match inflate(data) {
        Ok(raw) => Ok(raw),
        Err(_) => Err(CodecError::DecompressionError),
    }
}

} // verus!
