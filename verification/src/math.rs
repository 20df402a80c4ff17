//! The arithmetic utility layer.
//!
//! Every addition, subtraction, multiplication and narrowing used in a
//! monetary or time computation goes through one of these checked operations,
//! which fail with an explicit error instead of wrapping or truncating.
//! Multiplicative reward formulas widen to 128 bits first and narrow back
//! only after all divisions.

use vstd::prelude::*;

use crate::errors::StakeError;

verus! {

/// Checked 64-bit addition; overflow is reported, never wrapped.
pub fn checked_add_u64(a: u64, b: u64) -> (r: Result<u64, StakeError>)
    ensures
        r == (if a + b <= u64::MAX {
            Ok::<u64, StakeError>((a + b) as u64)
        } else {
            Err::<u64, StakeError>(StakeError::Overflow)
        }),
{
    match a.checked_add(b) {
        Some(s) => Ok(s),
        None => Err(StakeError::Overflow),
    }
}

/// Checked 64-bit subtraction; going negative is reported, never wrapped.
pub fn checked_sub_u64(a: u64, b: u64) -> (r: Result<u64, StakeError>)
    ensures
        r == (if a >= b {
            Ok::<u64, StakeError>((a - b) as u64)
        } else {
            Err::<u64, StakeError>(StakeError::Underflow)
        }),
{
    match a.checked_sub(b) {
        Some(d) => Ok(d),
        None => Err(StakeError::Underflow),
    }
}

/// Checked 128-bit multiplication for wide intermediate products.
pub fn checked_mul_u128(a: u128, b: u128) -> (r: Result<u128, StakeError>)
    ensures
        r == (if a * b <= u128::MAX {
            Ok::<u128, StakeError>((a * b) as u128)
        } else {
            Err::<u128, StakeError>(StakeError::Overflow)
        }),
{
    match a.checked_mul(b) {
        Some(p) => Ok(p),
        None => Err(StakeError::Overflow),
    }
}

/// Checked 128-bit division; a zero divisor is reported.
pub fn checked_div_u128(a: u128, b: u128) -> (r: Result<u128, StakeError>)
    ensures
        r == (if b != 0 {
            Ok::<u128, StakeError>(a / b)
        } else {
            Err::<u128, StakeError>(StakeError::Overflow)
        }),
{
    match a.checked_div(b) {
        Some(q) => Ok(q),
        None => Err(StakeError::Overflow),
    }
}

/// Checked 128-bit subtraction, the last step of the debt-model formula.
pub fn checked_sub_u128(a: u128, b: u128) -> (r: Result<u128, StakeError>)
    ensures
        r == (if a >= b {
            Ok::<u128, StakeError>((a - b) as u128)
        } else {
            Err::<u128, StakeError>(StakeError::Underflow)
        }),
{
    match a.checked_sub(b) {
        Some(d) => Ok(d),
        None => Err(StakeError::Underflow),
    }
}

/// Narrows a wide intermediate back to 64 bits after all divisions are done;
/// a value that does not fit is reported, never truncated.
pub fn narrow_u128_to_u64(a: u128) -> (r: Result<u64, StakeError>)
    ensures
        r == (if a <= u64::MAX {
            Ok::<u64, StakeError>(a as u64)
        } else {
            Err::<u64, StakeError>(StakeError::Overflow)
        }),
{
    if a <= u64::MAX as u128 {
        Ok(a as u64)
    } else {
        Err(StakeError::Overflow)
    }
}

/// Wall-clock seconds elapsed between two readings; a clock that appears to
/// run backward is reported as a time regression.
pub fn elapsed_seconds(now: i64, last: i64) -> (r: Result<u64, StakeError>)
    ensures
        r == (if now >= last {
            Ok::<u64, StakeError>((now - last) as u64)
        } else {
            Err::<u64, StakeError>(StakeError::TimeRegression)
        }),
{
    if now >= last {
        let wide: i128 = (now as i128) - (last as i128);
        Ok(wide as u64)
    } else {
        Err(StakeError::TimeRegression)
    }
}

/// Ordinal slots elapsed between two readings; a reading before the recorded
/// one is reported as a time regression.
pub fn elapsed_slots(now: u64, last: u64) -> (r: Result<u64, StakeError>)
    ensures
        r == (if now >= last {
            Ok::<u64, StakeError>((now - last) as u64)
        } else {
            Err::<u64, StakeError>(StakeError::TimeRegression)
        }),
{
    if now >= last {
        Ok(now - last)
    } else {
        Err(StakeError::TimeRegression)
    }
}

} // verus!
