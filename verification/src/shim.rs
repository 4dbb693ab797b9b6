//! How the 64-bit identities of the chat platform (messages, users,
//! channels) are written into records: as two signed 32-bit integers, the
//! high half first, since the log's integers are signed.

use byteorder::ByteOrder;
use byteorder::BE;
use vstd::prelude::*;

verus! {

/// A 64-bit identity as the log keeps it: its high and its low 32 bits, each
/// read as a signed integer.
#[derive(Clone, Copy, Debug, PartialEq, Eq)]
pub struct Required(pub i32, pub i32);

/// The eight bytes of a 64-bit integer, most significant first.
pub open spec fn be_bytes_u64(value: u64) -> Seq<u8> {
    seq![
        (value >> 56) as u8,
        (value >> 48) as u8,
        (value >> 40) as u8,
        (value >> 32) as u8,
        (value >> 24) as u8,
        (value >> 16) as u8,
        (value >> 8) as u8,
        value as u8,
    ]
}

/// The four bytes of a 32-bit integer, most significant first.
pub open spec fn be_bytes_u32(value: u32) -> Seq<u8> {
    seq![(value >> 24) as u8, (value >> 16) as u8, (value >> 8) as u8, value as u8]
}

/// The 32-bit integer that four bytes spell, most significant first.
pub open spec fn be_u32(bytes: Seq<u8>) -> u32 {
    (bytes[0] as u32) << 24 | (bytes[1] as u32) << 16 | (bytes[2] as u32) << 8 | (bytes[3] as u32)
}

/// The 64-bit integer that eight bytes spell, most significant first.
pub open spec fn be_u64(bytes: Seq<u8>) -> u64 {
    (bytes[0] as u64) << 56 | (bytes[1] as u64) << 48 | (bytes[2] as u64) << 40 | (bytes[3] as u64)
        << 32 | (bytes[4] as u64) << 24 | (bytes[5] as u64) << 16 | (bytes[6] as u64) << 8 | (
    bytes[7] as u64)
}

/// Trusted: `BigEndian::write_u64` fills eight bytes with the integer, most
/// significant byte first.
#[verifier::external_body]
fn write_u64(value: u64) -> (bytes: [u8; 8])
    ensures
        bytes@ == be_bytes_u64(value),
{
    let mut bytes = [0u8; 8];
    BE::write_u64(&mut bytes, value);
    bytes
}

/// Trusted: `BigEndian::write_i32` fills four bytes with the integer in two's
/// complement, most significant byte first.
#[verifier::external_body]
fn write_i32(value: i32) -> (bytes: [u8; 4])
    ensures
        bytes@ == be_bytes_u32(value as u32),
{
    let mut bytes = [0u8; 4];
    BE::write_i32(&mut bytes, value);
    bytes
}

/// Trusted: `BigEndian::read_i32` reads the first four bytes, most
/// significant first, as an integer in two's complement. It panics on fewer
/// than four bytes, which the precondition excludes.
#[verifier::external_body]
fn read_i32(bytes: &[u8]) -> (value: i32)
    requires
        bytes@.len() >= 4,
    ensures
        value == be_u32(bytes@.subrange(0, 4)) as i32,
{
    BE::read_i32(bytes)
}

/// Trusted: `BigEndian::read_u64` reads the first eight bytes, most
/// significant first. It panics on fewer than eight bytes, which the
/// precondition excludes.
#[verifier::external_body]
fn read_u64(bytes: &[u8]) -> (value: u64)
    requires
        bytes@.len() >= 8,
    ensures
        value == be_u64(bytes@.subrange(0, 8)),
{
    BE::read_u64(bytes)
}

impl Required {
    /// The two halves of `value`.
    pub open spec fn split(value: u64) -> Required {
        Required((value >> 32) as i32, value as i32)
    }

    /// The identity whose halves these are.
    pub open spec fn joined(self) -> u64 {
        ((self.0 as u32) as u64) << 32 | ((self.1 as u32) as u64)
    }
}

impl From<u64> for Required {
    fn from(value: u64) -> (halves: Required) {
        let bytes = write_u64(value);
        let (high, low) = bytes.as_slice().split_at(4);
        proof {
            let b = be_bytes_u64(value);
            lemma_halves(value);
        }
        Required(read_i32(high), read_i32(low))
    }
}

impl vstd::std_specs::convert::FromSpecImpl<u64> for Required {
    open spec fn obeys_from_spec() -> bool {
        true
    }

    open spec fn from_spec(value: u64) -> Required {
        Required::split(value)
    }
}

impl From<Required> for u64 {
    fn from(halves: Required) -> (value: u64) {
        let high = write_i32(halves.0);
        let low = write_i32(halves.1);
        let bytes = [high[0], high[1], high[2], high[3], low[0], low[1], low[2], low[3]];
        proof {
            lemma_whole(halves.0 as u32, halves.1 as u32);
        }
        read_u64(bytes.as_slice())
    }
}

impl vstd::std_specs::convert::FromSpecImpl<Required> for u64 {
    open spec fn obeys_from_spec() -> bool {
        true
    }

    open spec fn from_spec(halves: Required) -> u64 {
        halves.joined()
    }
}

/// Reading the first and the last four bytes of a 64-bit integer gives its
/// high and its low half.
proof fn lemma_halves(value: u64)
    ensures
        be_u32(be_bytes_u64(value).subrange(0, 4)) == (value >> 32) as u32,
        be_u32(be_bytes_u64(value).subrange(4, 8)) == value as u32,
        be_u32(be_bytes_u64(value).subrange(0, 4)) as i32 == (value >> 32) as i32,
        be_u32(be_bytes_u64(value).subrange(4, 8)) as i32 == value as i32,
{
    let b0 = (value >> 56) as u8;
    let b1 = (value >> 48) as u8;
    let b2 = (value >> 40) as u8;
    let b3 = (value >> 32) as u8;
    let b4 = (value >> 24) as u8;
    let b5 = (value >> 16) as u8;
    let b6 = (value >> 8) as u8;
    let b7 = value as u8;
    assert((b0 as u32) << 24 | (b1 as u32) << 16 | (b2 as u32) << 8 | (b3 as u32) == (value >> 32) as u32) by (bit_vector)
        requires
            b0 == (value >> 56) as u8,
            b1 == (value >> 48) as u8,
            b2 == (value >> 40) as u8,
            b3 == (value >> 32) as u8,
    ;
    assert((b4 as u32) << 24 | (b5 as u32) << 16 | (b6 as u32) << 8 | (b7 as u32) == value as u32) by (bit_vector)
        requires
            b4 == (value >> 24) as u8,
            b5 == (value >> 16) as u8,
            b6 == (value >> 8) as u8,
            b7 == value as u8,
    ;
    let high = (value >> 32) as u32;
    let low = value as u32;
    assert(high as i32 == (value >> 32) as i32) by (bit_vector)
        requires
            high == (value >> 32) as u32,
    ;
    assert(low as i32 == value as i32) by (bit_vector)
        requires
            low == value as u32,
    ;
}

/// Reading the bytes of two 32-bit integers, one after the other, as one
/// 64-bit integer puts the first into the high half and the second into the
/// low half.
proof fn lemma_whole(high: u32, low: u32)
    ensures
        be_u64(be_bytes_u32(high) + be_bytes_u32(low)) == (high as u64) << 32 | (low as u64),
{
    let b0 = (high >> 24) as u8;
    let b1 = (high >> 16) as u8;
    let b2 = (high >> 8) as u8;
    let b3 = high as u8;
    let b4 = (low >> 24) as u8;
    let b5 = (low >> 16) as u8;
    let b6 = (low >> 8) as u8;
    let b7 = low as u8;
    let bytes = be_bytes_u32(high) + be_bytes_u32(low);
    assert((b0 as u64) << 56 | (b1 as u64) << 48 | (b2 as u64) << 40 | (b3 as u64) << 32 | (b4 as u64)
        << 24 | (b5 as u64) << 16 | (b6 as u64) << 8 | (b7 as u64) == (high as u64) << 32 | (
    low as u64)) by (bit_vector)
        requires
            b0 == (high >> 24) as u8,
            b1 == (high >> 16) as u8,
            b2 == (high >> 8) as u8,
            b3 == high as u8,
            b4 == (low >> 24) as u8,
            b5 == (low >> 16) as u8,
            b6 == (low >> 8) as u8,
            b7 == low as u8,
    ;
}

/// Splitting an identity and joining the halves gives the identity back.
pub proof fn law_split_then_join(value: u64)
    ensures
        Required::split(value).joined() == value,
{
    let high = (value >> 32) as i32;
    let low = value as i32;
    assert(((high as u32) as u64) << 32 | ((low as u32) as u64) == value) by (bit_vector)
        requires
            high == (value >> 32) as i32,
            low == value as i32,
    ;
}

/// Joining two halves and splitting the identity gives the halves back.
pub proof fn law_join_then_split(halves: Required)
    ensures
        Required::split(halves.joined()) == halves,
{
    let high = halves.0;
    let low = halves.1;
    let value = ((high as u32) as u64) << 32 | ((low as u32) as u64);
    assert((value >> 32) as i32 == high && value as i32 == low) by (bit_vector)
        requires
            value == ((high as u32) as u64) << 32 | ((low as u32) as u64),
    ;
}

} // verus!
