//! First guess of the fast inverse square root.
//!
//! The approximation of `1 / sqrt(x)` starts from a guess that is computed
//! on the bits of `x`, read as an integer: halving them halves the exponent,
//! and taking them off a constant changes its sign. The caller refines the
//! guess in single precision.

use vstd::prelude::*;

verus! {

/// The constant that the halved bits are taken off.
pub const INVERSE_SQRT_MAGIC: i32 = 0x5F1F1412;

/// Bits of the first guess of `1 / sqrt(x)`, from the bits of `x`.
///
/// The sign bit of `x` has to be clear, which it is for every sum of
/// squares that is a number.
pub fn fusion_fast_inverse_sqrt_seed(bits: i32) -> (seed: i32)
    requires
        bits >= 0,
    ensures
        seed == INVERSE_SQRT_MAGIC - bits / 2,
{
    assert(bits >> 1 == bits / 2) by (bit_vector)
        requires
            bits >= 0,
    ;
    INVERSE_SQRT_MAGIC - (bits >> 1)
}

} // verus!
