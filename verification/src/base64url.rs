//! URL-safe base64 without padding.
//!
//! The encoding is stated here in full; the `base64` crate does the work, and
//! the two functions that call it are trusted to agree with that statement.

use base64::engine::general_purpose::URL_SAFE_NO_PAD;
use base64::Engine;
use vstd::prelude::*;

use crate::error::CodecError;

verus! {

/// `base64::DecodeError`, of which only the presence is looked at.
#[verifier::external_type_specification]
#[verifier::external_body]
pub struct ExDecodeError(base64::DecodeError);

/// The character that stands for the six-bit value `v`: `A`-`Z`, `a`-`z`,
/// `0`-`9`, `-`, `_`.
pub open spec fn sextet_char(v: int) -> char
    recommends
        0 <= v < 64,
{
    if v < 26 {
        ((0x41 + v) as u8) as char
    } else if v < 52 {
        ((0x61 + v - 26) as u8) as char
    } else if v < 62 {
        ((0x30 + v - 52) as u8) as char
    } else if v == 62 {
        '-'
    } else {
        '_'
    }
}

/// The encoding of `bytes`: every three bytes become four characters, a last
/// single byte becomes two and a last pair three, with the unused low bits zero.
pub open spec fn base64url(bytes: Seq<u8>) -> Seq<char>
    decreases bytes.len(),
{
    if bytes.len() == 0 {
        Seq::empty()
    } else if bytes.len() == 1 {
        let b0 = bytes[0] as int;
        seq![sextet_char(b0 / 4), sextet_char(b0 % 4 * 16)]
    } else if bytes.len() == 2 {
        let (b0, b1) = (bytes[0] as int, bytes[1] as int);
        seq![
            sextet_char(b0 / 4),
            sextet_char(b0 % 4 * 16 + b1 / 16),
            sextet_char(b1 % 16 * 4),
        ]
    } else {
        let (b0, b1, b2) = (bytes[0] as int, bytes[1] as int, bytes[2] as int);
        seq![
            sextet_char(b0 / 4),
            sextet_char(b0 % 4 * 16 + b1 / 16),
            sextet_char(b1 % 16 * 4 + b2 / 64),
            sextet_char(b2 % 64),
        ] + base64url(bytes.skip(3))
    }
}

/// The bytes that `text` encodes, if it is the encoding of any.
pub open spec fn base64url_decoded(text: Seq<char>) -> Option<Seq<u8>> {
    if exists|bytes: Seq<u8>| #[trigger] base64url(bytes) == text {
        Some(choose|bytes: Seq<u8>| #[trigger] base64url(bytes) == text)
    } else {
        None
    }
}

/// The length of an encoding, from the length of what it encodes.
pub open spec fn encoded_len(n: nat) -> nat {
    n / 3 * 4 + if n % 3 == 0 {
        0nat
    } else {
        n % 3 + 1
    }
}

proof fn lemma_sextet_char_injective(a: int, b: int)
    requires
        0 <= a < 64,
        0 <= b < 64,
        sextet_char(a) == sextet_char(b),
    ensures
        a == b,
{
}

/// An encoding of `n` bytes has `encoded_len(n)` characters.
pub proof fn lemma_base64url_len(bytes: Seq<u8>)
    ensures
        base64url(bytes).len() == encoded_len(bytes.len()),
    decreases bytes.len(),
{
    if bytes.len() >= 3 {
        lemma_base64url_len(bytes.skip(3));
    }
}

/// Different byte strings have different encodings.
pub proof fn lemma_base64url_injective(a: Seq<u8>, b: Seq<u8>)
    requires
        base64url(a) == base64url(b),
    ensures
        a == b,
    decreases a.len(),
{
    lemma_base64url_len(a);
    lemma_base64url_len(b);
    assert(a.len() == b.len());
    let ea = base64url(a);
    let eb = base64url(b);
    if a.len() == 0 {
    } else if a.len() == 1 {
        let (a0, b0) = (a[0] as int, b[0] as int);
        assert(ea[0] == eb[0] && ea[1] == eb[1]);
        lemma_sextet_char_injective(a0 / 4, b0 / 4);
        lemma_sextet_char_injective(a0 % 4 * 16, b0 % 4 * 16);
    } else if a.len() == 2 {
        let (a0, a1, b0, b1) = (a[0] as int, a[1] as int, b[0] as int, b[1] as int);
        assert(ea[0] == eb[0] && ea[1] == eb[1] && ea[2] == eb[2]);
        lemma_sextet_char_injective(a0 / 4, b0 / 4);
        lemma_sextet_char_injective(a0 % 4 * 16 + a1 / 16, b0 % 4 * 16 + b1 / 16);
        lemma_sextet_char_injective(a1 % 16 * 4, b1 % 16 * 4);
    } else {
        let (a0, a1, a2) = (a[0] as int, a[1] as int, a[2] as int);
        let (b0, b1, b2) = (b[0] as int, b[1] as int, b[2] as int);
        let ra = base64url(a.skip(3));
        let rb = base64url(b.skip(3));
        assert(ea[0] == eb[0] && ea[1] == eb[1] && ea[2] == eb[2] && ea[3] == eb[3]);
        lemma_sextet_char_injective(a0 / 4, b0 / 4);
        lemma_sextet_char_injective(a0 % 4 * 16 + a1 / 16, b0 % 4 * 16 + b1 / 16);
        lemma_sextet_char_injective(a1 % 16 * 4 + a2 / 64, b1 % 16 * 4 + b2 / 64);
        lemma_sextet_char_injective(a2 % 64, b2 % 64);
        assert(ra =~= ea.skip(4));
        assert(rb =~= eb.skip(4));
        lemma_base64url_injective(a.skip(3), b.skip(3));
        assert forall|i: int| 0 <= i < a.len() implies a[i] == b[i] by {
            if i >= 3 {
                assert(a[i] == a.skip(3)[i - 3]);
                assert(b[i] == b.skip(3)[i - 3]);
            }
        }
    }
    assert(a =~= b);
}

/// Decoding undoes encoding.
pub proof fn lemma_base64url_round_trip(bytes: Seq<u8>)
    ensures
        base64url_decoded(base64url(bytes)) == Some(bytes),
{
    let back = choose|other: Seq<u8>| #[trigger] base64url(other) == base64url(bytes);
    lemma_base64url_injective(back, bytes);
}

/// Calls `Engine::encode` on `URL_SAFE_NO_PAD`. Trusted: the string returned
/// is the encoding stated by [`base64url`]. The call panics only where the
/// encoded length would not fit in `usize`, which no slice is long enough for.
#[verifier::external_body]
fn url_safe_encode(data: &[u8]) -> (text: String)
    ensures
        text@ == base64url(data@),
{
    URL_SAFE_NO_PAD.encode(data)
}

/// Calls `Engine::decode` on `URL_SAFE_NO_PAD`. Trusted: the decoder accepts
/// exactly the strings that are an encoding as stated by [`base64url`] (no
/// padding, no character outside the alphabet, no stray low bits), and returns
/// the bytes that were encoded.
#[verifier::external_body]
fn url_safe_decode(text: &str) -> (res: Result<Vec<u8>, base64::DecodeError>)
    ensures
        res matches Ok(bytes) ==> base64url(bytes@) == text@,
        res is Err ==> forall|bytes: Seq<u8>| #[trigger] base64url(bytes) != text@,
{
    URL_SAFE_NO_PAD.decode(text)
}

/// Encodes `data` as unpadded URL-safe base64.
pub fn encode_base64(data: &[u8]) -> (text: String)
    ensures
        text@ == base64url(data@),
        base64url_decoded(text@) == Some(data@),
{
    proof {
        lemma_base64url_round_trip(data@);
    }
    url_safe_encode(data)
}

/// Decodes unpadded URL-safe base64; any other text is `InvalidEncoding`.
pub fn decode_base64(data: &str) -> (res: Result<Vec<u8>, CodecError>)
    ensures
        match res {
            Ok(bytes) => base64url_decoded(data@) == Some(bytes@),
            Err(e) => e == CodecError::InvalidEncoding && base64url_decoded(data@) is None,
        },
{
    match url_safe_decode(data) {
        Ok(bytes) => {
            proof {
                lemma_base64url_round_trip(bytes@);
            }
            Ok(bytes)
        },
        Err(_) => Err(CodecError::InvalidEncoding),
    }
}

} // verus!
