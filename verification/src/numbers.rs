//! Conversions between integers of different widths that keep the low bits.
use vstd::prelude::*;

verus! {

/// The 32-bit signed number with the same low 32 bits.
pub open spec fn low_i32(n: int) -> i32 {
    let m = n % 0x1_0000_0000;
    if m < 0x8000_0000 {
        m as i32
    } else {
        (m - 0x1_0000_0000) as i32
    }
}

/// The 64-bit signed number with the same low 64 bits.
pub open spec fn low_i64(n: int) -> i64 {
    let m = n % 0x1_0000_0000_0000_0000;
    if m < 0x8000_0000_0000_0000 {
        m as i64
    } else {
        (m - 0x1_0000_0000_0000_0000) as i64
    }
}

/// Keeps the low 32 bits of a number.
pub fn truncate_u32(n: u32) -> (r: i32)
    ensures
        r == low_i32(n as int),
{
    if n < 0x8000_0000 {
        n as i32
    } else {
        (n as i64 - 0x1_0000_0000) as i32
    }
}

/// Keeps the low 32 bits of a number.
pub fn truncate_i64(n: i64) -> (r: i32)
    ensures
        r == low_i32(n as int),
{
    let wide: i128 = n as i128 + 0x8000_0000_0000_0000;
    assert(wide % 0x1_0000_0000 == (n as int) % 0x1_0000_0000) by (nonlinear_arith)
        requires
            wide == n + 0x8000_0000_0000_0000,
    ;
    let low: u32 = ((wide as u64) % 0x1_0000_0000) as u32;
    truncate_u32(low)
}

/// Reads the bits of a number as a signed number.
pub fn truncate_u64(n: u64) -> (r: i64)
    ensures
        r == low_i64(n as int),
{
    if n < 0x8000_0000_0000_0000 {
        n as i64
    } else {
        (n as i128 - 0x1_0000_0000_0000_0000) as i64
    }
}

} // verus!
