//! Fixed-point scalars.
//!
//! Every length, velocity, radius and hue of the simulation is a signed count of
//! raw units, `2^32` of which make one whole unit. A draw of the generator is a
//! `u32` word `r` that stands for the fraction `r / 2^32`, so a draw is itself a
//! scalar in `[0, 1)`, written in raw units.

use vstd::prelude::*;

verus! {

/// Raw units in one whole unit: scalars carry 32 fractional bits.
pub const ONE: i64 = 0x1_0000_0000;

/// The product of the fraction `fraction / 2^32` and `scalar`, rounded down to a
/// raw unit.
pub open spec fn scaled(fraction: u32, scalar: int) -> int {
    (fraction * scalar) / 0x1_0000_0000
}

/// A scaled value is the exact product less a rounding loss of under one raw
/// unit, and it lies between zero and the scalar, on the scalar's side of zero.
pub proof fn lemma_scaled_range(fraction: u32, scalar: int)
    ensures
        0x1_0000_0000 * scaled(fraction, scalar) <= fraction * scalar < 0x1_0000_0000 * (scaled(
            fraction,
            scalar,
        ) + 1),
        scalar >= 0 ==> 0 <= scaled(fraction, scalar) <= scalar,
        scalar <= 0 ==> scalar <= scaled(fraction, scalar) <= 0,
{
    let f: int = fraction as int;
    let d: int = 0x1_0000_0000;
    let q: int = (f * scalar) / d;
    assert(f * scalar == d * q + (f * scalar) % d && 0 <= (f * scalar) % d < d) by {
        vstd::arithmetic::div_mod::lemma_fundamental_div_mod(f * scalar, d);
    }
    if scalar >= 0 {
        assert(0 <= f * scalar <= d * scalar) by (nonlinear_arith)
            requires
                0 <= f < d,
                scalar >= 0,
        ;
        assert(0 <= q <= scalar) by (nonlinear_arith)
            requires
                0 <= f * scalar <= d * scalar,
                f * scalar - d < d * q <= f * scalar,
                d > 0,
        ;
    }
    if scalar <= 0 {
        assert(d * scalar <= f * scalar <= 0) by (nonlinear_arith)
            requires
                0 <= f < d,
                scalar <= 0,
        ;
        assert(scalar <= q <= 0) by (nonlinear_arith)
            requires
                d * scalar <= f * scalar <= 0,
                f * scalar - d < d * q <= f * scalar,
                d > 0,
        ;
    }
}

/// Multiplies a scalar by a fraction in `[0, 1)`, rounding down.
pub fn scale(fraction: u32, scalar: i64) -> (r: i64)
    ensures
        r == scaled(fraction, scalar as int),
{
    proof {
        lemma_scaled_range(fraction, scalar as int);
    }
    if scalar >= 0 {
        assert(0 <= fraction * scalar <= 0xffff_ffff * 0x7fff_ffff_ffff_ffff) by (nonlinear_arith)
            requires
                0 <= fraction <= 0xffff_ffff,
                0 <= scalar <= 0x7fff_ffff_ffff_ffff,
        ;
        let product: i128 = (fraction as i128) * (scalar as i128);
        (product / 0x1_0000_0000) as i64
    } else {
        // Division of a negative number rounds towards zero, so the quotient is
        // taken on the magnitude, rounded up, and then negated.
        assert(0 <= fraction * (-scalar) <= 0xffff_ffff * 0x8000_0000_0000_0000) by (nonlinear_arith)
            requires
                0 <= fraction <= 0xffff_ffff,
                0 < -scalar <= 0x8000_0000_0000_0000,
        ;
        let magnitude: i128 = (fraction as i128) * (-(scalar as i128));
        let quotient: i128 = (magnitude + 0xffff_ffff) / 0x1_0000_0000;
        proof {
            let d: int = 0x1_0000_0000;
            let a: int = magnitude as int;
            let c: int = quotient as int;
            assert(a == -(fraction * scalar)) by (nonlinear_arith)
                requires
                    a == fraction * (-scalar),
            ;
            vstd::arithmetic::div_mod::lemma_fundamental_div_mod(a + 0xffff_ffff, d);
            vstd::arithmetic::div_mod::lemma_fundamental_div_mod_converse(
                -a,
                d,
                -c,
                d * c - a,
            );
        }
        (-quotient) as i64
    }
}

} // verus!
