//! IEEE 754 binary64 numbers, read through their bit patterns.
//!
//! A provider's payload is made of double-precision numbers. Verified code does
//! no floating-point arithmetic: it receives each number as the 64 bits of its
//! interchange format and reads sign, exponent and fraction from them.
//!
//! A pattern with exponent field `e` (0 < e < 2047) and fraction field `f`
//! denotes the number `(-1)^sign * (2^52 + f) * 2^(e - 1075)`; with `e == 0` it
//! denotes `(-1)^sign * f * 2^(-1074)`; with `e == 2047` an infinity or a NaN.
use vstd::arithmetic::div_mod::lemma_fundamental_div_mod;
use vstd::arithmetic::mul::lemma_mul_is_commutative;
use vstd::arithmetic::power2::{lemma_pow2_pos, pow2};
use vstd::bits::{lemma_u64_shl_is_mul, lemma_u64_shr_is_div};
use vstd::prelude::*;

verus! {

/// Two to the 52nd: the weight of the bit that a normal number's significand
/// holds above its fraction field.
pub const HIDDEN_BIT: u64 = 0x10_0000_0000_0000;

/// The exponent field of infinities and NaNs.
pub const EXPONENT_SPECIAL: u64 = 0x7ff;

/// The exponent field of the numbers in `[1, 2)`.
pub const EXPONENT_ONE: u64 = 1023;

/// The exponent field of the numbers in `[2^52, 2^53)`, whose significand is
/// their magnitude.
pub const EXPONENT_UNIT: u64 = 1075;

/// The sign bit: set for negative numbers and for negative zero.
pub open spec fn sign_bit(bits: u64) -> bool {
    bits >= 0x8000_0000_0000_0000
}

/// The 11-bit exponent field.
pub open spec fn exponent_field(bits: u64) -> u64 {
    (bits / 0x10_0000_0000_0000) % 0x800
}

/// The 52-bit fraction field.
pub open spec fn fraction_field(bits: u64) -> u64 {
    bits % 0x10_0000_0000_0000
}

/// The pattern denotes a number: neither an infinity nor a NaN.
pub open spec fn is_finite(bits: u64) -> bool {
    exponent_field(bits) != EXPONENT_SPECIAL
}

/// The pattern denotes zero, of either sign.
pub open spec fn is_zero(bits: u64) -> bool {
    exponent_field(bits) == 0 && fraction_field(bits) == 0
}

/// The pattern denotes a number that is not below zero.
pub open spec fn is_non_negative(bits: u64) -> bool {
    is_finite(bits) && (!sign_bit(bits) || is_zero(bits))
}

/// The whole number that the pattern denotes, if it denotes one of magnitude
/// below 2^53, the range in which every whole number has a pattern of its own.
///
/// A normal number with exponent field `e` is `(2^52 + f) / 2^(1075 - e)` in
/// magnitude. Below `e == 1023` that is under one, above `e == 1075` it is
/// 2^53 or more.
pub open spec fn whole_value(bits: u64) -> Option<int> {
    let e: u64 = exponent_field(bits);
    let m: nat = (HIDDEN_BIT + fraction_field(bits)) as nat;
    if is_zero(bits) {
        Some(0)
    } else if e < EXPONENT_ONE || e > EXPONENT_UNIT {
        None
    } else {
        let unit: nat = pow2((EXPONENT_UNIT - e) as nat);
        if m % unit != 0 {
            None
        } else if sign_bit(bits) {
            Some(-((m / unit) as int))
        } else {
            Some((m / unit) as int)
        }
    }
}

/// What a pattern with a whole value says of its fields: the significand is the
/// magnitude scaled by the power of two that the exponent field names, and the
/// sign bit is set for every value below zero.
pub proof fn lemma_whole_value_meaning(bits: u64, n: int)
    requires
        whole_value(bits) == Some(n),
    ensures
        is_finite(bits),
        -0x20_0000_0000_0000 < n < 0x20_0000_0000_0000,
        n < 0 ==> sign_bit(bits),
        n > 0 ==> !sign_bit(bits),
        n == 0 ==> is_zero(bits),
        n != 0 ==> EXPONENT_ONE <= exponent_field(bits) <= EXPONENT_UNIT,
        n != 0 ==> HIDDEN_BIT + fraction_field(bits) == (if n < 0 { -n } else { n }) * pow2(
            (EXPONENT_UNIT - exponent_field(bits)) as nat,
        ),
{
    if !is_zero(bits) {
        let e: u64 = exponent_field(bits);
        let m: nat = (HIDDEN_BIT + fraction_field(bits)) as nat;
        let unit: nat = pow2((EXPONENT_UNIT - e) as nat);
        lemma_pow2_pos((EXPONENT_UNIT - e) as nat);
        lemma_fundamental_div_mod(m as int, unit as int);
        lemma_mul_is_commutative(unit as int, (m / unit) as int);
        assert(m / unit <= m) by (nonlinear_arith)
            requires
                unit >= 1,
                m >= 0,
        ;
        assert(m / unit >= 1) by (nonlinear_arith)
            requires
                unit >= 1,
                m >= 1,
                m == unit * (m / unit) + m % unit,
                m % unit == 0,
        ;
    }
}

/// Whether the pattern denotes a number that is not below zero.
pub fn non_negative(bits: u64) -> (b: bool)
    ensures
        b == is_non_negative(bits),
{
    let e: u64 = (bits >> 52) & 0x7ff;
    let f: u64 = bits & 0xf_ffff_ffff_ffff;
    let negative: bool = (bits >> 63) == 1;
    proof {
        assert((bits >> 52) & 0x7ff == (bits / 0x10_0000_0000_0000) % 0x800) by (bit_vector);
        assert(bits & 0xf_ffff_ffff_ffff == bits % 0x10_0000_0000_0000) by (bit_vector);
        assert(((bits >> 63) == 1) == (bits >= 0x8000_0000_0000_0000)) by (bit_vector);
    }
    e != EXPONENT_SPECIAL && (!negative || (e == 0 && f == 0))
}

/// The whole number that the pattern denotes, if it denotes one of magnitude
/// below 2^53; `None` for every other pattern: a fraction, a larger number, an
/// infinity, a NaN.
pub fn whole_number(bits: u64) -> (n: Option<i64>)
    ensures
        n matches Some(v) ==> whole_value(bits) == Some(v as int),
        n is None ==> whole_value(bits) is None,
{
    let e: u64 = (bits >> 52) & 0x7ff;
    let f: u64 = bits & 0xf_ffff_ffff_ffff;
    let negative: bool = (bits >> 63) == 1;
    proof {
        assert((bits >> 52) & 0x7ff == (bits / 0x10_0000_0000_0000) % 0x800) by (bit_vector);
        assert(bits & 0xf_ffff_ffff_ffff == bits % 0x10_0000_0000_0000) by (bit_vector);
        assert(((bits >> 63) == 1) == (bits >= 0x8000_0000_0000_0000)) by (bit_vector);
    }
    if e == 0 && f == 0 {
        return Some(0);
    }
    if e < EXPONENT_ONE || e > EXPONENT_UNIT {
        return None;
    }
    let m: u64 = HIDDEN_BIT + f;
    let shift: u64 = EXPONENT_UNIT - e;
    let q: u64 = m >> shift;
    proof {
        let unit: nat = pow2(shift as nat);
        lemma_pow2_pos(shift as nat);
        lemma_u64_shr_is_div(m, shift);
        lemma_fundamental_div_mod(m as int, unit as int);
        lemma_mul_is_commutative(unit as int, q as int);
        assert(q * unit <= m) by (nonlinear_arith)
            requires
                m == unit * q + (m as nat % unit),
                m as nat % unit >= 0,
        ;
        lemma_u64_shl_is_mul(q, shift);
        assert(q <= m) by (nonlinear_arith)
            requires
                q * unit <= m,
                unit >= 1,
                q >= 0,
        ;
    }
    if (q << shift) != m {
        None
    } else if negative {
        Some(-(q as i64))
    } else {
        Some(q as i64)
    }
}

} // verus!
