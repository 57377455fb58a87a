//! Compact `vpn://` tokens for structured configuration documents.

pub mod base64url;
pub mod codec;
pub mod detect;
pub mod document;
pub mod error;
pub mod header;
pub mod input;
pub mod zlib;

pub use crate::codec::decode;
pub use crate::codec::encode;
pub use crate::error::CodecError;
