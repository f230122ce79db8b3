//! Decoding the device's exponent/mantissa result format into an
//! illuminance value.

use vstd::prelude::*;

verus! {

use vstd::arithmetic::power2::{lemma2_to64, lemma_pow2_strictly_increases, pow2};
use vstd::bits::lemma_u32_shl_is_mul;

/// The illuminance a raw (exponent, mantissa) pair stands for, in
/// hundredths of a lux: `mantissa * 2^exponent` exactly.
///
/// One lux is one hundred of these units, so the physical value is
/// `0.01 * mantissa * 2^exponent` lux; the device's maximum reading,
/// exponent 11 with mantissa 4095, comes to 8386560 here, or 83865.60 lux.
/// The integer result is exact; scaling it into lux is left to the caller,
/// so that the decoding itself stays free of floating point.
pub fn raw_to_centilux(exponent: u8, mantissa: u16) -> (centilux: u32)
    requires
        exponent <= 0xF,
        mantissa <= 0xFFF,
    ensures
        centilux == mantissa * pow2(exponent as nat),
{
    proof {
        lemma2_to64();
        if exponent < 0xF {
            lemma_pow2_strictly_increases(exponent as nat, 15);
        }
        assert(mantissa * pow2(exponent as nat) <= 0xFFF * pow2(15)) by (nonlinear_arith)
            requires
                mantissa <= 0xFFF,
                pow2(exponent as nat) <= pow2(15),
        ;
        lemma_u32_shl_is_mul(mantissa as u32, exponent as u32);
    }
    (mantissa as u32) << (exponent as u32)
}

} // verus!
