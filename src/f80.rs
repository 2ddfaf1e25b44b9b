//! Conversion of x87 80-bit extended-precision values to IEEE-754 double
//! precision bit patterns.
//!
//! Layout of the extended format, from the least significant bit: 63 bits of
//! fraction, 1 explicit integer bit, 15 bits of biased exponent (bias 16383),
//! 1 sign bit. The result is the bit pattern of a double (bias 1023, 52-bit
//! mantissa). Every step rounds toward zero:
//! - exponent 0 (zero or extended denormal) gives a signed zero;
//! - exponent 0x7FFF gives infinity, or a quiet NaN that keeps the top of the
//!   payload;
//! - a magnitude above the double range gives the largest finite double;
//! - a magnitude below the normal double range gives a double denormal
//!   (possibly zero) built from the full 64-bit significand;
//! - otherwise the exponent is re-biased and the fraction truncated to 52
//!   bits. The explicit integer bit is not consulted for normal values.
use vstd::prelude::*;

verus! {

/// One more than the largest 80-bit pattern.
pub const F80_LIMIT: u128 = 0x1_0000_0000_0000_0000_0000;

pub open spec fn f80_sign(x: u128) -> u64 {
    ((x >> 79u128) & 1) as u64
}

pub open spec fn f80_exponent(x: u128) -> u64 {
    ((x >> 64u128) & 0x7fff) as u64
}

/// The 63 fraction bits below the explicit integer bit.
pub open spec fn f80_fraction(x: u128) -> u64 {
    (x & 0x7fff_ffff_ffff_ffff) as u64
}

/// The full 64-bit significand, integer bit included.
pub open spec fn f80_significand(x: u128) -> u64 {
    (x & 0xffff_ffff_ffff_ffff) as u64
}

/// A double's bit pattern from its sign, biased exponent and mantissa fields.
pub open spec fn f64_pattern(sign: u64, exp: u64, mant: u64) -> u64 {
    (sign << 63u64) | (exp << 52u64) | mant
}

/// The double that `x` converts to, as a bit pattern.
pub open spec fn f80_to_f64_spec(x: u128) -> u64 {
    let s = f80_sign(x);
    let e = f80_exponent(x);
    let frac = f80_fraction(x);
    if e == 0 {
        f64_pattern(s, 0, 0)
    } else if e == 0x7fff {
        if frac == 0 {
            f64_pattern(s, 0x7ff, 0)
        } else {
            f64_pattern(s, 0x7ff, (frac >> 11u64) | 0x8_0000_0000_0000)
        }
    } else if e > 16383 + 1023 {
        f64_pattern(s, 0x7fe, 0xf_ffff_ffff_ffff)
    } else if e >= 16383 - 1022 {
        f64_pattern(s, (e + 1023 - 16383) as u64, frac >> 11u64)
    } else {
        let shift = (16383 - 1022 + 11 - e) as u64;
        if shift >= 64 {
            f64_pattern(s, 0, 0)
        } else {
            f64_pattern(s, 0, f80_significand(x) >> shift)
        }
    }
}

/// Converts an 80-bit extended-precision value to the bit pattern of the
/// double it stands for, rounding toward zero.
pub fn f80_to_f64_bits(input: u128) -> (r: u64)
    requires
        input < F80_LIMIT,
    ensures
        r == f80_to_f64_spec(input),
{
    assert(input & 0xffff_ffff_ffff_ffff <= 0xffff_ffff_ffff_ffff) by (bit_vector);
    assert((input >> 64u128) & 0x7fff <= 0x7fff) by (bit_vector);
    assert((input >> 79u128) & 1 <= 1) by (bit_vector);
    assert(input & 0x7fff_ffff_ffff_ffff <= 0x7fff_ffff_ffff_ffff) by (bit_vector);
    let frac: u64 = (input & 0x7fff_ffff_ffff_ffff) as u64;
    let significand: u64 = (input & 0xffff_ffff_ffff_ffff) as u64;
    let exp: u64 = ((input >> 64u128) & 0x7fff) as u64;
    let sign: u64 = ((input >> 79u128) & 1) as u64;
    let (out_exp, mant): (u64, u64) = if exp == 0 {
        (0, 0)
    } else if exp == 0x7fff {
        if frac == 0 {
            (0x7ff, 0)
        } else {
            (0x7ff, (frac >> 11u64) | 0x8_0000_0000_0000)
        }
    } else if exp > 16383 + 1023 {
        (0x7fe, 0xf_ffff_ffff_ffff)
    } else if exp >= 16383 - 1022 {
        (exp + 1023 - 16383, frac >> 11u64)
    } else {
        let shift: u64 = 16383 - 1022 + 11 - exp;
        if shift >= 64 {
            (0, 0)
        } else {
            (0, significand >> shift)
        }
    };
    (sign << 63u64) | (out_exp << 52u64) | mant
}

} // verus!
