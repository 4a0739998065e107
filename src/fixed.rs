//! Unsigned fixed-point numbers with 32 fractional bits, held as their raw bits.
use vstd::prelude::*;

verus! {

/// The scale of the fractional part: a value is `bits / FRAC_SCALE`.
pub const FRAC_SCALE: u128 = 4294967296;

/// A bound on the raw value of every price that the registry keeps: `2^96 - 1`.
pub const MAX_PRICE_BITS: u128 = 79228162514264337593543950335;

/// An unsigned fixed-point number with 96 integer bits and 32 fractional bits.
#[derive(Clone, Copy, Debug, PartialEq, Eq, Structural)]
pub struct Fixed {
    pub bits: u128,
}

/// The integer part of `bits / FRAC_SCALE`, clamped to the `u64` range.
pub open spec fn saturating_int_part(bits: u128) -> int {
    let q = bits as int / FRAC_SCALE as int;
    if q > u64::MAX as int {
        u64::MAX as int
    } else {
        q
    }
}

/// The raw bits of `num / den`, truncated toward zero.
pub open spec fn ratio_bits(num: u64, den: u64) -> int
    recommends
        den > 0,
{
    (num as int * FRAC_SCALE as int) / den as int
}

impl Fixed {
    pub fn zero() -> (r: Fixed)
        ensures
            r.bits == 0,
    {
        Fixed { bits: 0 }
    }

    pub fn one() -> (r: Fixed)
        ensures
            r.bits == FRAC_SCALE,
    {
        Fixed { bits: FRAC_SCALE }
    }

    /// The quotient `num / den`, truncated to 32 fractional bits.
    pub fn from_ratio(num: u64, den: u64) -> (r: Fixed)
        requires
            den > 0,
        ensures
            r.bits == ratio_bits(num, den),
    {
        assert(num as int * FRAC_SCALE as int <= u64::MAX as int * FRAC_SCALE as int)
            by (nonlinear_arith);
        let scaled: u128 = (num as u128) * FRAC_SCALE;
        Fixed { bits: scaled / (den as u128) }
    }

    /// The integer part of the value, truncated, and `u64::MAX` where it does not fit.
    pub fn saturating_to_u64(&self) -> (r: u64)
        ensures
            r == saturating_int_part(self.bits),
    {
        let q: u128 = self.bits / FRAC_SCALE;
        if q > u64::MAX as u128 {
            u64::MAX
        } else {
            q as u64
        }
    }
}


/// A ratio of two equal positive amounts is exactly one.
pub proof fn lemma_ratio_of_equal_is_one(x: u64)
    requires
        x > 0,
    ensures
        ratio_bits(x, x) == FRAC_SCALE,
{
    assert((x as int * FRAC_SCALE as int) / x as int == FRAC_SCALE as int) by (nonlinear_arith)
        requires
            x > 0,
    ;
}

} // verus!
