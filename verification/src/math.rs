//! Overflow-checked fixed-point arithmetic shared by every ledger operation.
//!
//! Products are formed in 128 bits, divided, and only then narrowed back to
//! 64 bits. Division truncates, so rounding dust never reaches a participant.

use vstd::prelude::*;
use crate::error::CustomError;

verus! {

/// Scale of the cumulative reward-per-share accumulator.
pub const REWARD_MULTIPLIER: u64 = 1_000_000_000;

/// Denominator of a rate given in basis points.
pub const BASIS_POINTS: u64 = 10_000;

/// Denominator of a multiplier given in percent.
pub const PERCENT: u64 = 100;

/// `floor(a * b / d)` narrowed to 64 bits; an overflow when it does not fit.
pub open spec fn mul_div_spec(a: u64, b: u64, d: u64) -> Result<u64, CustomError> {
    let q = (a as int * b as int) / (d as int);
    if q <= u64::MAX {
        Ok(q as u64)
    } else {
        Err(CustomError::MathOverflow)
    }
}

/// Sum of two amounts; an overflow when it exceeds 64 bits.
pub open spec fn checked_add_spec(a: u64, b: u64) -> Result<u64, CustomError> {
    if a + b <= u64::MAX {
        Ok((a + b) as u64)
    } else {
        Err(CustomError::MathOverflow)
    }
}

/// Difference of two amounts; an overflow when it would be negative.
pub open spec fn checked_sub_spec(a: u64, b: u64) -> Result<u64, CustomError> {
    if a >= b {
        Ok((a - b) as u64)
    } else {
        Err(CustomError::MathOverflow)
    }
}

/// The product of two 64-bit values fits in 128 bits.
pub proof fn lemma_product_fits(a: u64, b: u64)
    ensures
        0 <= a as int * b as int <= u128::MAX,
{
    assert(0 <= a as int * b as int <= 0xFFFF_FFFF_FFFF_FFFF * 0xFFFF_FFFF_FFFF_FFFF)
        by (nonlinear_arith)
        requires
            0 <= a as int <= 0xFFFF_FFFF_FFFF_FFFF,
            0 <= b as int <= 0xFFFF_FFFF_FFFF_FFFF,
    ;
}

/// Computes `a * b / d` through a 128-bit intermediate.
pub fn mul_div(a: u64, b: u64, d: u64) -> (r: Result<u64, CustomError>)
    requires
        d > 0,
    ensures
        r == mul_div_spec(a, b, d),
{
    proof {
        lemma_product_fits(a, b);
    }
    let wide: u128 = (a as u128) * (b as u128);
    let q: u128 = wide / (d as u128);
    if q > u64::MAX as u128 {
        Err(CustomError::MathOverflow)
    } else {
        Ok(q as u64)
    }
}

/// Adds two amounts, refusing to wrap.
pub fn checked_add(a: u64, b: u64) -> (r: Result<u64, CustomError>)
    ensures
        r == checked_add_spec(a, b),
{
    a.checked_add(b).ok_or(CustomError::MathOverflow)
}

/// Subtracts `b` from `a`, refusing to wrap.
pub fn checked_sub(a: u64, b: u64) -> (r: Result<u64, CustomError>)
    ensures
        r == checked_sub_spec(a, b),
{
    a.checked_sub(b).ok_or(CustomError::MathOverflow)
}

/// Seconds from `earlier` to `later`, exact for every pair of timestamps.
pub open spec fn elapsed_spec(later: i64, earlier: i64) -> int {
    later - earlier
}

/// Seconds from `earlier` to `later`, widened so the difference cannot wrap.
pub fn elapsed(later: i64, earlier: i64) -> (r: i128)
    ensures
        r == elapsed_spec(later, earlier),
{
    (later as i128) - (earlier as i128)
}

} // verus!
