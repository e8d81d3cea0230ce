//! Bounds-checked fixed-width reads over an immutable byte buffer.
//!
//! Every offset-based read of the container parsers goes through these
//! primitives, which validate `offset + width <= buffer.len()` and return a
//! typed `OutOfBounds` failure instead of trapping on a bad index.

use vstd::prelude::*;

use crate::error::RawError;

verus! {

/// The two byte orders a TIFF file header may declare.
#[derive(Clone, Copy, Debug, PartialEq, Eq, Structural)]
pub enum ByteOrder {
    LittleEndian,
    BigEndian,
}

/// The 16-bit value stored little-endian at `b[i..i + 2]`.
pub open spec fn u16_le(b: Seq<u8>, i: int) -> u16
    recommends
        0 <= i,
        i + 2 <= b.len(),
{
    (b[i] + 0x100 * b[i + 1]) as u16
}

/// The 16-bit value stored big-endian at `b[i..i + 2]`.
pub open spec fn u16_be(b: Seq<u8>, i: int) -> u16
    recommends
        0 <= i,
        i + 2 <= b.len(),
{
    (b[i + 1] + 0x100 * b[i]) as u16
}

/// The 32-bit value stored little-endian at `b[i..i + 4]`.
pub open spec fn u32_le(b: Seq<u8>, i: int) -> u32
    recommends
        0 <= i,
        i + 4 <= b.len(),
{
    (b[i] + 0x100 * b[i + 1] + 0x10000 * b[i + 2] + 0x1000000 * b[i + 3]) as u32
}

/// The 32-bit value stored big-endian at `b[i..i + 4]`.
pub open spec fn u32_be(b: Seq<u8>, i: int) -> u32
    recommends
        0 <= i,
        i + 4 <= b.len(),
{
    (b[i + 3] + 0x100 * b[i + 2] + 0x10000 * b[i + 1] + 0x1000000 * b[i]) as u32
}

/// The 16-bit value at `b[i..i + 2]` in the given byte order.
pub open spec fn u16_at(b: Seq<u8>, i: int, order: ByteOrder) -> u16 {
    match order {
        ByteOrder::LittleEndian => u16_le(b, i),
        ByteOrder::BigEndian => u16_be(b, i),
    }
}

/// The 32-bit value at `b[i..i + 4]` in the given byte order.
pub open spec fn u32_at(b: Seq<u8>, i: int, order: ByteOrder) -> u32 {
    match order {
        ByteOrder::LittleEndian => u32_le(b, i),
        ByteOrder::BigEndian => u32_be(b, i),
    }
}

/// Reads a 16-bit integer at `offset`, or `OutOfBounds` if the two bytes do
/// not lie inside the buffer.
pub fn read_u16(buffer: &[u8], offset: usize, order: ByteOrder) -> (r: Result<u16, RawError>)
    ensures
        match r {
            Ok(v) => offset + 2 <= buffer@.len() && v == u16_at(buffer@, offset as int, order),
            Err(e) => e == RawError::OutOfBounds && offset + 2 > buffer@.len(),
        },
{
    if buffer.len() >= 2 && offset <= buffer.len() - 2 {
        let b0 = buffer[offset] as u16;
        let b1 = buffer[offset + 1] as u16;
        match order {
            ByteOrder::LittleEndian => Ok(b0 + 0x100 * b1),
            ByteOrder::BigEndian => Ok(b1 + 0x100 * b0),
        }
    } else {
        Err(RawError::OutOfBounds)
    }
}

/// Reads a 32-bit integer at `offset`, or `OutOfBounds` if the four bytes do
/// not lie inside the buffer.
pub fn read_u32(buffer: &[u8], offset: usize, order: ByteOrder) -> (r: Result<u32, RawError>)
    ensures
        match r {
            Ok(v) => offset + 4 <= buffer@.len() && v == u32_at(buffer@, offset as int, order),
            Err(e) => e == RawError::OutOfBounds && offset + 4 > buffer@.len(),
        },
{
    if buffer.len() >= 4 && offset <= buffer.len() - 4 {
        let b0 = buffer[offset] as u32;
        let b1 = buffer[offset + 1] as u32;
        let b2 = buffer[offset + 2] as u32;
        let b3 = buffer[offset + 3] as u32;
        match order {
            ByteOrder::LittleEndian => Ok(b0 + 0x100 * b1 + 0x10000 * b2 + 0x1000000 * b3),
            ByteOrder::BigEndian => Ok(b3 + 0x100 * b2 + 0x10000 * b1 + 0x1000000 * b0),
        }
    } else {
        Err(RawError::OutOfBounds)
    }
}

/// Copies `buffer[offset..offset + length]` out, or `OutOfBounds` if that
/// range reads past the buffer end.
pub fn slice_bytes(buffer: &[u8], offset: usize, length: usize) -> (r: Result<Vec<u8>, RawError>)
    ensures
        match r {
            Ok(v) => offset + length <= buffer@.len() && v@ == buffer@.subrange(
                offset as int,
                offset + length,
            ),
            Err(e) => e == RawError::OutOfBounds && offset + length > buffer@.len(),
        },
{
    let n: usize = buffer.len();
    if length <= n && offset <= n - length {
        let mut out: Vec<u8> = Vec::new();
        let mut i: usize = 0;
        while i < length
            invariant
                i <= length,
                offset + length <= n,
                n == buffer@.len(),
                out@ == buffer@.subrange(offset as int, offset + i),
            decreases length - i,
        {
            out.push(buffer[offset + i]);
            i = i + 1;
            proof {
                assert(out@ =~= buffer@.subrange(offset as int, offset + i));
            }
        }
        Ok(out)
    } else {
        Err(RawError::OutOfBounds)
    }
}

} // verus!
