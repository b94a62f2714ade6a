//! Width and signedness conversions between the native field types and the
//! public field types of the snapshots.
use vstd::prelude::*;

verus! {

/// The byte that a native `char` cell holds, read as unsigned.
pub open spec fn byte_of(c: i8) -> u8 {
    if c < 0 {
        (c + 256) as u8
    } else {
        c as u8
    }
}

/// The low 32 bits of a 64-bit value.
pub open spec fn low_u32(x: u64) -> u32 {
    (x % 0x1_0000_0000) as u32
}

/// The low 32 bits of a 64-bit value, read as a two's complement integer.
pub open spec fn low_i32(x: u64) -> i32 {
    let low = x % 0x1_0000_0000;
    if low >= 0x8000_0000 {
        (low - 0x1_0000_0000) as i32
    } else {
        low as i32
    }
}

/// Reads a native `char` cell as an unsigned byte.
pub fn char_to_u8(c: i8) -> (r: u8)
    ensures
        r == byte_of(c),
{
    if c < 0 {
        (c as i16 + 256) as u8
    } else {
        c as u8
    }
}

/// Narrows a 64-bit unsigned value to 32 bits, dropping the high bits.
pub fn u64_to_u32(x: u64) -> (r: u32)
    ensures
        r == low_u32(x),
{
    let low: u64 = x & 0xffff_ffff;
    assert(low == x % 0x1_0000_0000) by (bit_vector)
        requires
            low == x & 0xffff_ffff,
    ;
    low as u32
}

/// Narrows a 64-bit unsigned value to a 32-bit signed one, dropping the high
/// bits and reading bit 31 as the sign.
pub fn u64_to_i32(x: u64) -> (r: i32)
    ensures
        r == low_i32(x),
{
    let low: u64 = x & 0xffff_ffff;
    assert(low == x % 0x1_0000_0000) by (bit_vector)
        requires
            low == x & 0xffff_ffff,
    ;
    if low >= 0x8000_0000 {
        (low as i64 - 0x1_0000_0000) as i32
    } else {
        low as i32
    }
}

} // verus!
