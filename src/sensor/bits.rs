//! Facts about shifts and byte packing shared by the device modules.
use vstd::prelude::*;

verus! {

/// The little-endian value of two bytes.
pub open spec fn le16(lo: u8, hi: u8) -> int {
    lo as int + 256 * hi as int
}

/// A 16-bit pattern read as a two's-complement number.
pub open spec fn signed16(x: int) -> int {
    if x >= 0x8000 {
        x - 0x1_0000
    } else {
        x
    }
}

/// An 8-bit pattern read as a two's-complement number.
pub open spec fn signed8(x: int) -> int {
    if x >= 0x80 {
        x - 0x100
    } else {
        x
    }
}

pub open spec fn fits_i32(x: int) -> bool {
    i32::MIN <= x <= i32::MAX
}

pub open spec fn fits_i64(x: int) -> bool {
    i64::MIN <= x <= i64::MAX
}

/// An unsigned 16-bit word from its little-endian bytes.
pub fn u16_le(lo: u8, hi: u8) -> (r: u16)
    ensures
        r == le16(lo, hi),
{
    assert(((lo as u16) | ((hi as u16) << 8u16)) == lo as int + 256 * hi as int) by (bit_vector);
    (lo as u16) | ((hi as u16) << 8u16)
}

/// A signed 16-bit word from its little-endian bytes.
pub fn i16_le(lo: u8, hi: u8) -> (r: i16)
    ensures
        r == signed16(le16(lo, hi)),
{
    let u = u16_le(lo, hi);
    assert((u as i16) as int == if u >= 0x8000 { u as int - 0x1_0000 } else { u as int }) by (bit_vector);
    u as i16
}

/// Arithmetic right shifts of a 32-bit value are floor divisions.
pub proof fn lemma_shr_i32(x: i32)
    by (bit_vector)
    ensures
        (x >> 3u32) as int == x as int / 8,
        (x >> 4u32) as int == x as int / 16,
        (x >> 7u32) as int == x as int / 128,
        (x >> 10u32) as int == x as int / 1024,
        (x >> 11u32) as int == x as int / 2048,
        (x >> 12u32) as int == x as int / 4096,
        (x >> 14u32) as int == x as int / 16384,
        (x >> 15u32) as int == x as int / 32768,
{
}

/// Arithmetic right shifts of a 64-bit value are floor divisions.
pub proof fn lemma_shr_i64(x: i64)
    by (bit_vector)
    ensures
        (x >> 8u32) as int == x as int / 256,
        (x >> 13u32) as int == x as int / 8192,
        (x >> 19u32) as int == x as int / 524288,
        (x >> 25u32) as int == x as int / 33554432,
        (x >> 33u32) as int == x as int / 8589934592,
{
}

} // verus!
