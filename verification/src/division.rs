use vstd::prelude::*;

use crate::outcome::Outcome;

verus! {

/// Marker error: the divisor of a division compared exactly equal to zero.
/// It carries no state; its existence is the whole signal.
#[derive(Debug)]
pub struct DivisionByZeroError;

/// The two bit patterns a double-precision number may carry while comparing
/// exactly equal to zero: positive zero and negative zero. Every other
/// pattern compares unequal to zero, however tiny its magnitude.
pub open spec fn is_zero_pattern(bits: u64) -> bool {
    bits == 0u64 || bits == 0x8000_0000_0000_0000u64
}

/// True exactly when `divisor_bits` is the pattern of positive or of
/// negative zero. Exact comparison, no epsilon tolerance: a subnormal
/// divisor is not zero.
pub fn divisor_is_zero(divisor_bits: u64) -> (r: bool)
    ensures
        r == is_zero_pattern(divisor_bits),
{
    divisor_bits == 0u64 || divisor_bits == 0x8000_0000_0000_0000u64
}

/// Decides the outcome of a checked division. The divisor arrives as its
/// raw bit pattern, so the zero test is decided here; the quotient arrives
/// as whatever value the caller's arithmetic produced. When the divisor is
/// either zero, the quotient is discarded in favour of the zero-division
/// error; otherwise it is returned untouched.
pub fn divide<V>(divisor_bits: u64, quotient: V) -> (r: Outcome<V, DivisionByZeroError>)
    ensures
        is_zero_pattern(divisor_bits) ==> r == Outcome::<V, DivisionByZeroError>::Failure(
            DivisionByZeroError,
        ),
        !is_zero_pattern(divisor_bits) ==> r == Outcome::<V, DivisionByZeroError>::Success(quotient),
{
    if divisor_is_zero(divisor_bits) {
        Outcome::Failure(DivisionByZeroError)
    } else {
        Outcome::Success(quotient)
    }
}

} // verus!
