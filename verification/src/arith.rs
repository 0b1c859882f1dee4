//! Arithmetic helpers on the amounts of the marketplace, for sums that are
//! known to stay in range.
use vstd::prelude::*;

verus! {

/// Adds two token amounts whose sum fits an `i128`.
pub fn checked_add_i128(a: i128, b: i128) -> (r: i128)
    requires
        i128::MIN <= a + b <= i128::MAX,
    ensures
        r == a + b,
{
    a + b
}

/// Subtracts `b` from `a` where the difference fits an `i128`.
pub fn checked_sub_i128(a: i128, b: i128) -> (r: i128)
    requires
        i128::MIN <= a - b <= i128::MAX,
    ensures
        r == a - b,
{
    a - b
}

/// Multiplies two token amounts whose product fits an `i128`.
pub fn checked_mul_i128(a: i128, b: i128) -> (r: i128)
    requires
        i128::MIN <= a * b <= i128::MAX,
    ensures
        r == a * b,
{
    a * b
}

/// Adds two share counts whose sum fits a `u32`.
pub fn checked_add_u32(a: u32, b: u32) -> (r: u32)
    requires
        a + b <= u32::MAX,
    ensures
        r == a + b,
{
    a + b
}

/// Subtracts share count `b` from `a`, where `b <= a`.
pub fn checked_sub_u32(a: u32, b: u32) -> (r: u32)
    requires
        b <= a,
    ensures
        r == a - b,
{
    a - b
}

} // verus!
