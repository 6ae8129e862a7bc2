//! Saturating arithmetic on the balance and block-number types, with its meaning over `int`.
use vstd::prelude::*;

verus! {

/// `x` clamped into the range of `u128`.
pub open spec fn clamp_u128(x: int) -> u128 {
    if x > u128::MAX {
        u128::MAX
    } else if x < 0 {
        0
    } else {
        x as u128
    }
}

/// `x` clamped into the range of `u64`.
pub open spec fn clamp_u64(x: int) -> u64 {
    if x > u64::MAX {
        u64::MAX
    } else if x < 0 {
        0
    } else {
        x as u64
    }
}

/// `x` clamped into the range of `u32`.
pub open spec fn clamp_u32(x: int) -> u32 {
    if x > u32::MAX {
        u32::MAX
    } else if x < 0 {
        0
    } else {
        x as u32
    }
}

/// Saturating multiplication of two balances.
pub fn sat_mul_u128(a: u128, b: u128) -> (r: u128)
    ensures
        r == clamp_u128(a * b),
{
    proof {
        assert(0 <= a * b) by (nonlinear_arith);
    }
    match a.checked_mul(b) {
        Some(v) => v,
        None => u128::MAX,
    }
}

/// Saturating multiplication of two `u32` values.
pub fn sat_mul_u32(a: u32, b: u32) -> (r: u32)
    ensures
        r == clamp_u32(a * b),
{
    proof {
        assert(0 <= a * b) by (nonlinear_arith);
    }
    match a.checked_mul(b) {
        Some(v) => v,
        None => u32::MAX,
    }
}

/// Saturating addition of two balances.
pub fn sat_add_u128(a: u128, b: u128) -> (r: u128)
    ensures
        r == clamp_u128(a + b),
{
    a.saturating_add(b)
}

/// Saturating subtraction of two balances.
pub fn sat_sub_u128(a: u128, b: u128) -> (r: u128)
    ensures
        r == clamp_u128(a - b),
{
    a.saturating_sub(b)
}

/// Saturating addition of two block numbers.
pub fn sat_add_u64(a: u64, b: u64) -> (r: u64)
    ensures
        r == clamp_u64(a + b),
{
    a.saturating_add(b)
}

/// Saturating subtraction of two block numbers.
pub fn sat_sub_u64(a: u64, b: u64) -> (r: u64)
    ensures
        r == clamp_u64(a - b),
{
    a.saturating_sub(b)
}

/// Saturating addition of two counters.
pub fn sat_add_u32(a: u32, b: u32) -> (r: u32)
    ensures
        r == clamp_u32(a + b),
{
    a.saturating_add(b)
}

/// Saturating subtraction of two counters.
pub fn sat_sub_u32(a: u32, b: u32) -> (r: u32)
    ensures
        r == clamp_u32(a - b),
{
    a.saturating_sub(b)
}

} // verus!
