//! Integer conversions used when reading node RPC replies, each stated as
//! the Rust operation it performs.

use vstd::prelude::*;

verus! {

/// `i64::try_into::<u64>().unwrap_or(0)`: the value when it is not negative, else zero.
pub fn nonneg_or_zero(x: i64) -> (r: u64)
    ensures
        r == (if x >= 0 { x as int } else { 0 }),
{
    if x >= 0 {
        x as u64
    } else {
        0
    }
}

/// `i64::try_into::<u64>().ok()`: the value when it is not negative.
pub fn nonneg(x: i64) -> (r: Option<u64>)
    ensures
        r == (if x >= 0 { Some(x as u64) } else { None::<u64> }),
{
    if x >= 0 {
        Some(x as u64)
    } else {
        None
    }
}

/// `x as u64` for an `i64`: the value itself when not negative, else the
/// value plus 2^64.
pub fn wrap_to_u64(x: i64) -> (r: u64)
    ensures
        r == x as u64,
        x >= 0 ==> r == x,
        x < 0 ==> r == x + 0x1_0000_0000_0000_0000,
{
    let r = x as u64;
    assert(x < 0 ==> (x as u64) == x + 0x1_0000_0000_0000_0000) by (bit_vector);
    r
}

/// `x as i64` for a `u64`: the value itself when it fits, else the value
/// minus 2^64.
pub fn wrap_to_i64(x: u64) -> (r: i64)
    ensures
        r == x as i64,
        x <= i64::MAX ==> r == x,
        x > i64::MAX ==> r == x - 0x1_0000_0000_0000_0000,
{
    let r = x as i64;
    assert(x <= 0x7fff_ffff_ffff_ffff ==> (x as i64) == x) by (bit_vector);
    assert(x > 0x7fff_ffff_ffff_ffff ==> (x as i64) == x - 0x1_0000_0000_0000_0000) by (bit_vector);
    r
}

/// `x as u16` for a `u32`: the low 16 bits.
pub fn u32_low16(x: u32) -> (r: u16)
    ensures
        r == x % 0x1_0000,
{
    assert((x as u16) == x % 0x1_0000) by (bit_vector);
    x as u16
}

/// `x as u16` for an `i32`: the low 16 bits of its two's complement form.
pub fn i32_low16(x: i32) -> (r: u16)
    ensures
        r == x as u16,
        0 <= x < 0x1_0000 ==> r == x,
{
    assert(0 <= x < 0x1_0000 ==> (x as u16) == x) by (bit_vector);
    x as u16
}

/// Integer division rounding toward zero, as Rust's `/` on signed integers.
pub open spec fn trunc_div(x: int, d: int) -> int {
    if x >= 0 {
        x / d
    } else {
        -((-x) / d)
    }
}

/// `x / d` for an `i64` and a positive `d`, rounding toward zero.
pub fn div_toward_zero(x: i64, d: i64) -> (r: i64)
    requires
        d > 1,
    ensures
        r == trunc_div(x as int, d as int),
{
    if x >= 0 {
        x / d
    } else {
        let y: i128 = -(x as i128);
        let q: i128 = y / (d as i128);
        assert(q <= y);
        (-q) as i64
    }
}

/// The larger of two values.
pub open spec fn max_u64(a: u64, b: u64) -> u64 {
    if a >= b {
        a
    } else {
        b
    }
}

} // verus!
