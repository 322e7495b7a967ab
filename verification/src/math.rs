//! Overflow-checked arithmetic in the widened domain.

use crate::error::ErrorCode;
use vstd::prelude::*;

verus! {

/// `floor(a * b / d)`, with the product taken before the division so that no
/// precision is lost.  The whole computation stays within 128 bits: a product
/// that does not fit, or a zero divisor, is rejected rather than wrapped or
/// saturated.
pub fn checked_mul_div(a: u128, b: u128, d: u128) -> (r: Result<u128, ErrorCode>)
    ensures
        r is Ok <==> a * b <= u128::MAX && d != 0,
        r matches Ok(q) ==> q == (a * b) / (d as int),
        r matches Err(e) ==> e == ErrorCode::MathOverflow,
{
    let numerator = match a.checked_mul(b) {
        Some(n) => n,
        None => {
            return Err(ErrorCode::MathOverflow);
        },
    };
    match numerator.checked_div(d) {
        Some(q) => Ok(q),
        None => Err(ErrorCode::MathOverflow),
    }
}

/// Brings a widened quantity back to 64 bits, rejecting what does not fit.
pub fn narrow(q: u128) -> (r: Result<u64, ErrorCode>)
    ensures
        r is Ok <==> q <= u64::MAX,
        r matches Ok(n) ==> n == q,
        r matches Err(e) ==> e == ErrorCode::MathOverflow,
{
    if q > u64::MAX as u128 {
        Err(ErrorCode::MathOverflow)
    } else {
        Ok(q as u64)
    }
}

/// The product of two 64-bit quantities always fits the widened domain.
pub proof fn lemma_product_fits_u128(a: u64, b: u64)
    ensures
        a * b <= u128::MAX,
{
    assert(a * b <= 0xFFFF_FFFF_FFFF_FFFF * 0xFFFF_FFFF_FFFF_FFFF) by (nonlinear_arith)
        requires
            0 <= a <= 0xFFFF_FFFF_FFFF_FFFF,
            0 <= b <= 0xFFFF_FFFF_FFFF_FFFF,
    ;
}

} // verus!
