//! The four-byte length header that precedes the compressed payload.

use vstd::prelude::*;

verus! {

/// The big-endian value of four bytes.
pub open spec fn header_value(bytes: Seq<u8>) -> nat
    recommends
        bytes.len() >= 4,
{
    (bytes[0] as nat) * 0x100_0000 + (bytes[1] as nat) * 0x1_0000 + (bytes[2] as nat) * 0x100
        + (bytes[3] as nat)
}

/// The four bytes that spell `length` in big-endian order.
pub open spec fn header_bytes(length: nat) -> Seq<u8>
    recommends
        length <= u32::MAX,
{
    seq![
        (length / 0x100_0000) as u8,
        (length / 0x1_0000 % 0x100) as u8,
        (length / 0x100 % 0x100) as u8,
        (length % 0x100) as u8,
    ]
}

/// Reading a header that was written for `length` gives `length` back.
pub proof fn lemma_header_round_trip(length: nat)
    requires
        length <= u32::MAX,
    ensures
        header_bytes(length).len() == 4,
        header_value(header_bytes(length)) == length,
{
}

/// Builds the header for a payload of `length` bytes.
pub fn create_header(length: u32) -> (header: [u8; 4])
    ensures
        header@ == header_bytes(length as nat),
{
    let b0: u8 = (length >> 24) as u8;
    let b1: u8 = ((length >> 16) & 0xff) as u8;
    let b2: u8 = ((length >> 8) & 0xff) as u8;
    let b3: u8 = (length & 0xff) as u8;
    assert(b0 == length / 0x100_0000 && b1 == length / 0x1_0000 % 0x100 && b2 == length / 0x100
        % 0x100 && b3 == length % 0x100) by (bit_vector)
        requires
            b0 == (length >> 24) as u8,
            b1 == ((length >> 16) & 0xff) as u8,
            b2 == ((length >> 8) & 0xff) as u8,
            b3 == (length & 0xff) as u8,
    ;
    let header: [u8; 4] = [b0, b1, b2, b3];
    assert(header@ =~= header_bytes(length as nat));
    header
}

/// Reads the length that the first four bytes of `header` record.
pub fn read_header(header: &[u8]) -> (length: u32)
    requires
        header@.len() >= 4,
    ensures
        length == header_value(header@),
{
    let b0: u32 = header[0] as u32;
    let b1: u32 = header[1] as u32;
    let b2: u32 = header[2] as u32;
    let b3: u32 = header[3] as u32;
    b0 * 0x100_0000 + b1 * 0x1_0000 + b2 * 0x100 + b3
}

} // verus!
