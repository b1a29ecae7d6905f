//! The sample block as it comes off the bus: six bytes, two for each of three
//! signed 16-bit values.

use byteorder::BigEndian;
use byteorder::ByteOrder;
use byteorder::LittleEndian;
use vstd::prelude::*;
use vstd::slice::slice_subrange;

use crate::errors::ErrorKind;

verus! {

/// The number of bytes in a sample block.
pub const SAMPLE_LENGTH: u8 = 6;

/// Three signed 16-bit values in the order in which the chip sends them,
/// which need not be the order of the axes.
#[derive(Clone, Copy, Debug, PartialEq, Eq, Structural)]
pub struct RawSample {
    pub first: i16,
    pub second: i16,
    pub third: i16,
}

/// The signed 16-bit integer whose two's complement form has `high` as its
/// upper and `low` as its lower byte.
pub open spec fn i16_from_bytes(high: u8, low: u8) -> int {
    let unsigned: int = high as int * 256 + low as int;
    if unsigned < 0x8000 {
        unsigned
    } else {
        unsigned - 0x1_0000
    }
}

/// The sample that the first six bytes of `block` hold with the upper byte of
/// each value first.
pub open spec fn big_endian_sample(block: Seq<u8>) -> RawSample
    recommends
        block.len() >= 6,
{
    RawSample {
        first: i16_from_bytes(block[0], block[1]) as i16,
        second: i16_from_bytes(block[2], block[3]) as i16,
        third: i16_from_bytes(block[4], block[5]) as i16,
    }
}

/// The sample that the first six bytes of `block` hold with the lower byte of
/// each value first.
pub open spec fn little_endian_sample(block: Seq<u8>) -> RawSample
    recommends
        block.len() >= 6,
{
    RawSample {
        first: i16_from_bytes(block[1], block[0]) as i16,
        second: i16_from_bytes(block[3], block[2]) as i16,
        third: i16_from_bytes(block[5], block[4]) as i16,
    }
}

/// `byteorder::BigEndian::read_i16`: the first two bytes of `bytes` read as a
/// signed 16-bit integer, upper byte first. It panics on fewer than two bytes.
#[verifier::external_body]
fn read_i16_big_endian(bytes: &[u8]) -> (value: i16)
    requires
        bytes@.len() >= 2,
    ensures
        value == i16_from_bytes(bytes@[0], bytes@[1]),
{
    BigEndian::read_i16(bytes)
}

/// `byteorder::LittleEndian::read_i16`: the first two bytes of `bytes` read as
/// a signed 16-bit integer, lower byte first. It panics on fewer than two
/// bytes.
#[verifier::external_body]
fn read_i16_little_endian(bytes: &[u8]) -> (value: i16)
    requires
        bytes@.len() >= 2,
    ensures
        value == i16_from_bytes(bytes@[1], bytes@[0]),
{
    LittleEndian::read_i16(bytes)
}

/// Reads a sample block whose values come upper byte first. A block of fewer
/// than six bytes is refused; bytes after the sixth are ignored.
pub fn decode_big_endian(block: &[u8]) -> (sample: Result<RawSample, ErrorKind>)
    ensures
        block@.len() < 6 ==> sample == Err::<RawSample, ErrorKind>(ErrorKind::NotEnoughData),
        block@.len() >= 6 ==> sample == Ok::<RawSample, ErrorKind>(big_endian_sample(block@)),
{
    if block.len() < 6 {
        return Err(ErrorKind::NotEnoughData);
    }
    let first: i16 = read_i16_big_endian(slice_subrange(block, 0, 2));
    let second: i16 = read_i16_big_endian(slice_subrange(block, 2, 4));
    let third: i16 = read_i16_big_endian(slice_subrange(block, 4, 6));
    Ok(RawSample { first, second, third })
}

/// Reads a sample block whose values come lower byte first. A block of fewer
/// than six bytes is refused; bytes after the sixth are ignored.
pub fn decode_little_endian(block: &[u8]) -> (sample: Result<RawSample, ErrorKind>)
    ensures
        block@.len() < 6 ==> sample == Err::<RawSample, ErrorKind>(ErrorKind::NotEnoughData),
        block@.len() >= 6 ==> sample == Ok::<RawSample, ErrorKind>(little_endian_sample(block@)),
{
    if block.len() < 6 {
        return Err(ErrorKind::NotEnoughData);
    }
    let first: i16 = read_i16_little_endian(slice_subrange(block, 0, 2));
    let second: i16 = read_i16_little_endian(slice_subrange(block, 2, 4));
    let third: i16 = read_i16_little_endian(slice_subrange(block, 4, 6));
    Ok(RawSample { first, second, third })
}

} // verus!
