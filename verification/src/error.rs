//! The ways in which encoding or decoding a token can fail.

use vstd::prelude::*;

verus! {

/// Why a token could not be produced or read.
#[derive(Debug, Clone, Copy, PartialEq, Eq, Structural)]
pub enum CodecError {
    /// The token does not begin with `vpn://`.
    InvalidScheme,
    /// The text after the scheme is not unpadded URL-safe base64.
    InvalidEncoding,
    /// Fewer than four bytes are available where the length header should be.
    TruncatedHeader,
    /// The bytes after the header are not a zlib stream.
    DecompressionError,
    /// The header announces one length and the decompressed payload has another.
    IntegrityMismatch { expected: u32, actual: usize },
    /// The payload is not UTF-8 text.
    InvalidUtf8,
    /// The text is not a JSON document.
    InvalidDocument,
    /// The serialized document is longer than the header can record.
    LengthOverflow,
    /// The document could not be written out as text.
    SerializationFailed,
    /// The compressor reported a failure.
    CompressionFailed,
}

} // verus!
