//! IEEE 754 bit patterns.

use vstd::arithmetic::power2::{lemma_pow2_adds, lemma_pow2_unfold, pow2};
use vstd::prelude::*;

use crate::message::NonFinite;

verus! {

/// What is not finite about a 16-bit float.
pub open spec fn float16_class(bits: u16) -> Option<NonFinite> {
    if bits / 0x400 % 0x20 != 0x1f {
        None
    } else if bits % 0x400 != 0 {
        Some(NonFinite::NaN)
    } else if bits < 0x8000 {
        Some(NonFinite::Infinity)
    } else {
        Some(NonFinite::NegativeInfinity)
    }
}

/// What is not finite about a 32-bit float.
pub open spec fn float32_class(bits: u32) -> Option<NonFinite> {
    if bits / 0x80_0000 % 0x100 != 0xff {
        None
    } else if bits % 0x80_0000 != 0 {
        Some(NonFinite::NaN)
    } else if bits < 0x8000_0000 {
        Some(NonFinite::Infinity)
    } else {
        Some(NonFinite::NegativeInfinity)
    }
}

/// What is not finite about a 64-bit float.
pub open spec fn float64_class(bits: u64) -> Option<NonFinite> {
    if bits / 0x10_0000_0000_0000 % 0x800 != 0x7ff {
        None
    } else if bits % 0x10_0000_0000_0000 != 0 {
        Some(NonFinite::NaN)
    } else if bits < 0x8000_0000_0000_0000 {
        Some(NonFinite::Infinity)
    } else {
        Some(NonFinite::NegativeInfinity)
    }
}

/// Returns what is not finite about a 16-bit float.
pub fn classify_float16(bits: u16) -> (class: Option<NonFinite>)
    ensures
        class == float16_class(bits),
{
    if bits / 0x400 % 0x20 != 0x1f {
        None
    } else if bits % 0x400 != 0 {
        Some(NonFinite::NaN)
    } else if bits < 0x8000 {
        Some(NonFinite::Infinity)
    } else {
        Some(NonFinite::NegativeInfinity)
    }
}

/// Returns what is not finite about a 32-bit float.
pub fn classify_float32(bits: u32) -> (class: Option<NonFinite>)
    ensures
        class == float32_class(bits),
{
    if bits / 0x80_0000 % 0x100 != 0xff {
        None
    } else if bits % 0x80_0000 != 0 {
        Some(NonFinite::NaN)
    } else if bits < 0x8000_0000 {
        Some(NonFinite::Infinity)
    } else {
        Some(NonFinite::NegativeInfinity)
    }
}

/// Returns what is not finite about a 64-bit float.
pub fn classify_float64(bits: u64) -> (class: Option<NonFinite>)
    ensures
        class == float64_class(bits),
{
    if bits / 0x10_0000_0000_0000 % 0x800 != 0x7ff {
        None
    } else if bits % 0x10_0000_0000_0000 != 0 {
        Some(NonFinite::NaN)
    } else if bits < 0x8000_0000_0000_0000 {
        Some(NonFinite::Infinity)
    } else {
        Some(NonFinite::NegativeInfinity)
    }
}

/// The magnitude of a finite 16-bit float, in units of `2^-24`.
pub open spec fn float16_units(bits: u16) -> nat {
    let exponent = (bits / 0x400 % 0x20) as nat;
    let fraction = (bits % 0x400) as nat;
    if exponent == 0 {
        fraction
    } else {
        (0x400 + fraction) * pow2((exponent - 1) as nat)
    }
}

/// The magnitude of a finite 32-bit float, in units of `2^-149`.
pub open spec fn float32_units(bits: u32) -> nat {
    let exponent = (bits / 0x80_0000 % 0x100) as nat;
    let fraction = (bits % 0x80_0000) as nat;
    if exponent == 0 {
        fraction
    } else {
        (0x80_0000 + fraction) * pow2((exponent - 1) as nat)
    }
}

/// The 32-bit float with a sign, an exponent field and a fraction field.
proof fn lemma_float32_fields(sign: u32, exponent: u32, fraction: u32)
    requires
        sign <= 1,
        exponent < 0x100,
        fraction < 0x80_0000,
    ensures
        sign * 0x8000_0000 + exponent * 0x80_0000 + fraction <= u32::MAX,
        ({
            let bits = (sign * 0x8000_0000 + exponent * 0x80_0000 + fraction) as u32;
            &&& bits / 0x80_0000 % 0x100 == exponent
            &&& bits % 0x80_0000 == fraction
            &&& bits / 0x8000_0000 == sign
        }),
{
}

/// Whether a 32-bit float is finite and has sign and value of a 16-bit float.
pub open spec fn has_value_of_float16(wide: u32, narrow: u16) -> bool {
    &&& float32_class(wide) is None
    &&& wide / 0x8000_0000 == (narrow / 0x8000) as u32
    &&& float32_units(wide) == float16_units(narrow) * pow2(125)
}

/// The 32-bit float with sign and value of a finite 16-bit float.
pub open spec fn widened_float16(bits: u16) -> u32 {
    choose|wide: u32| has_value_of_float16(wide, bits)
}

/// Larger bit patterns of the same sign stand for larger magnitudes.
pub proof fn law_float32_magnitudes_follow_bits(low: u32, high: u32)
    requires
        low < high,
        low / 0x8000_0000 == high / 0x8000_0000,
    ensures
        float32_units(low) < float32_units(high),
{
    let low_exponent = (low / 0x80_0000 % 0x100) as nat;
    let high_exponent = (high / 0x80_0000 % 0x100) as nat;
    let low_fraction = (low % 0x80_0000) as nat;
    let high_fraction = (high % 0x80_0000) as nat;
    vstd::arithmetic::power2::lemma2_to64();
    if high_exponent > 0 {
        vstd::arithmetic::power2::lemma_pow2_pos((high_exponent - 1) as nat);
    }
    if low_exponent == high_exponent {
        if low_exponent > 0 {
            assert((0x80_0000 + low_fraction) * pow2((low_exponent - 1) as nat) < (0x80_0000
                + high_fraction) * pow2((low_exponent - 1) as nat)) by (nonlinear_arith)
                requires
                    low_fraction < high_fraction,
                    0 < pow2((low_exponent - 1) as nat),
            ;
        }
    } else {
        assert(0x80_0000 * pow2((high_exponent - 1) as nat) <= (0x80_0000 + high_fraction) * pow2(
            (high_exponent - 1) as nat,
        )) by (nonlinear_arith);
        if low_exponent == 0 {
            assert(0x80_0000 <= 0x80_0000 * pow2((high_exponent - 1) as nat)) by (nonlinear_arith)
                requires
                    1 <= pow2((high_exponent - 1) as nat),
            ;
        } else {
            let gap = (high_exponent - 1 - low_exponent) as nat;
            vstd::arithmetic::power2::lemma_pow2_pos((low_exponent - 1) as nat);
            vstd::arithmetic::power2::lemma_pow2_pos(gap);
            lemma_pow2_unfold(low_exponent);
            lemma_pow2_adds(low_exponent, gap);
            assert((0x80_0000 + low_fraction) * pow2((low_exponent - 1) as nat) < 0x100_0000 * pow2(
                (low_exponent - 1) as nat,
            )) by (nonlinear_arith)
                requires
                    low_fraction < 0x80_0000,
                    0 < pow2((low_exponent - 1) as nat),
            ;
            assert(pow2(low_exponent) <= pow2(low_exponent) * pow2(gap)) by (nonlinear_arith)
                requires
                    0 < pow2(gap),
                    0 <= pow2(low_exponent),
            ;
        }
    }
}

/// At most one 32-bit float has sign and value of a 16-bit float.
proof fn lemma_widening_is_unique(bits: u16, one: u32, other: u32)
    requires
        has_value_of_float16(one, bits),
        has_value_of_float16(other, bits),
    ensures
        one == other,
{
    if one < other {
        law_float32_magnitudes_follow_bits(one, other);
    } else if other < one {
        law_float32_magnitudes_follow_bits(other, one);
    }
}

/// The fields of the 32-bit float that a finite 16-bit float is widened to: those of the value for
/// a normal number and for zero, and those of the number `0x400 + ..` that the fraction is shifted
/// to for any other, whose highest bit is bit `top`.
proof fn lemma_widened_at(bits: u16, top: nat)
    requires
        bits / 0x400 % 0x20 != 0x1f,
        bits / 0x400 % 0x20 == 0 && bits % 0x400 > 0 ==> top < 10 && pow2(top) <= bits % 0x400 < 2
            * pow2(top),
    ensures
        ({
            let wide = widened_float16(bits);
            let exponent = bits / 0x400 % 0x20;
            let fraction = bits % 0x400;
            &&& wide / 0x8000_0000 == bits / 0x8000
            &&& exponent > 0 ==> wide / 0x80_0000 % 0x100 == exponent + 112 && wide % 0x80_0000
                == fraction * 0x2000
            &&& exponent == 0 && fraction == 0 ==> wide / 0x80_0000 % 0x100 == 0 && wide % 0x80_0000
                == 0
            &&& exponent == 0 && top < 10 && pow2(top) <= fraction < 2 * pow2(top) ==> wide
                / 0x80_0000 % 0x100 == 103 + top && 0x80_0000 + wide % 0x80_0000 == fraction * pow2(
                (23 - top) as nat,
            )
        }),
{
    let sign = (bits / 0x8000) as u32;
    let exponent = (bits / 0x400 % 0x20) as u32;
    let fraction = (bits % 0x400) as u32;
    vstd::arithmetic::power2::lemma2_to64();
    if exponent != 0 {
        lemma_float32_fields(sign, (exponent + 112) as u32, (fraction * 0x2000) as u32);
        let wide = (sign * 0x8000_0000 + (exponent + 112) * 0x80_0000 + fraction * 0x2000) as u32;
        lemma_pow2_adds((exponent - 1) as nat, 125);
        lemma_pow2_adds(13, (exponent + 111) as nat);
        assert((0x80_0000 + fraction * 0x2000) * pow2((exponent + 111) as nat) == (0x400
            + fraction) * pow2((exponent - 1) as nat) * pow2(125)) by (nonlinear_arith)
            requires
                pow2((exponent - 1 + 125) as nat) == pow2((exponent - 1) as nat) * pow2(125),
                pow2((13 + exponent + 111) as nat) == 0x2000 * pow2((exponent + 111) as nat),
                exponent - 1 + 125 == 13 + exponent + 111,
        ;
        assert(has_value_of_float16(wide, bits));
        lemma_widening_is_unique(bits, wide, widened_float16(bits));
        assert(wide / 0x80_0000 % 0x100 == exponent + 112);
    } else if fraction == 0 {
        lemma_float32_fields(sign, 0, 0);
        let wide = (sign * 0x8000_0000) as u32;
        assert(has_value_of_float16(wide, bits)) by {
            assert(0 * pow2(125) == 0);
        }
        lemma_widening_is_unique(bits, wide, widened_float16(bits));
    } else if top < 10 && pow2(top) <= fraction < 2 * pow2(top) {
        let scaled = fraction * pow2((23 - top) as nat);
        lemma_pow2_adds(top, (23 - top) as nat);
        vstd::arithmetic::power2::lemma_pow2_pos((23 - top) as nat);
        assert(0x80_0000 <= scaled < 0x100_0000) by (nonlinear_arith)
            requires
                scaled == fraction * pow2((23 - top) as nat),
                pow2(top) <= fraction < 2 * pow2(top),
                pow2(top) * pow2((23 - top) as nat) == 0x80_0000,
                0 < pow2((23 - top) as nat),
        ;
        lemma_float32_fields(sign, (103 + top) as u32, (scaled - 0x80_0000) as u32);
        let wide = (sign * 0x8000_0000 + (103 + top) * 0x80_0000 + (scaled - 0x80_0000)) as u32;
        lemma_pow2_adds((23 - top) as nat, (102 + top) as nat);
        assert(scaled * pow2((102 + top) as nat) == fraction * pow2(125)) by (nonlinear_arith)
            requires
                scaled == fraction * pow2((23 - top) as nat),
                pow2(125) == pow2((23 - top) as nat) * pow2((102 + top) as nat),
        ;
        assert(has_value_of_float16(wide, bits));
        lemma_widening_is_unique(bits, wide, widened_float16(bits));
        assert(wide / 0x80_0000 % 0x100 == 103 + top);
        assert(0x80_0000 + wide % 0x80_0000 == scaled);
    }
}

/// The fields of the 32-bit float that a finite 16-bit float is widened to: those of the value for
/// a normal number and for zero, and those of the number `0x400 + ..` that the fraction is shifted
/// to for any other, whose highest bit is bit `top`.
pub proof fn lemma_widened_fields(bits: u16, top: nat)
    requires
        bits / 0x400 % 0x20 != 0x1f,
    ensures
        ({
            let wide = widened_float16(bits);
            let exponent = bits / 0x400 % 0x20;
            let fraction = bits % 0x400;
            &&& wide / 0x8000_0000 == bits / 0x8000
            &&& exponent > 0 ==> wide / 0x80_0000 % 0x100 == exponent + 112 && wide % 0x80_0000
                == fraction * 0x2000
            &&& exponent == 0 && fraction == 0 ==> wide / 0x80_0000 % 0x100 == 0 && wide % 0x80_0000
                == 0
            &&& exponent == 0 && top < 10 && pow2(top) <= fraction < 2 * pow2(top) ==> wide
                / 0x80_0000 % 0x100 == 103 + top && 0x80_0000 + wide % 0x80_0000 == fraction * pow2(
                (23 - top) as nat,
            )
        }),
{
    vstd::arithmetic::power2::lemma2_to64();
    let fraction = bits % 0x400;
    let found: nat = if fraction < 2 {
        0
    } else if fraction < 4 {
        1
    } else if fraction < 8 {
        2
    } else if fraction < 16 {
        3
    } else if fraction < 32 {
        4
    } else if fraction < 64 {
        5
    } else if fraction < 128 {
        6
    } else if fraction < 256 {
        7
    } else if fraction < 512 {
        8
    } else {
        9
    };
    lemma_widened_at(bits, found);
    if top < 10 && pow2(top) <= fraction < 2 * pow2(top) {
        lemma_widened_at(bits, top);
    }
}

/// Widens a finite 16-bit float to the 32-bit float of the same value.
pub fn float32_from_float16(bits: u16) -> (result: u32)
    requires
        float16_class(bits) is None,
    ensures
        result == widened_float16(bits),
        has_value_of_float16(result, bits),
{
    let result: u32 = widen(bits);
    proof {
        lemma_widening_is_unique(bits, result, widened_float16(bits));
    }
    result
}

/// Widens a finite 16-bit float: a normal number keeps its fraction, any other is normalized.
fn widen(bits: u16) -> (result: u32)
    requires
        float16_class(bits) is None,
    ensures
        has_value_of_float16(result, bits),
{
    let sign: u32 = (bits / 0x8000) as u32;
    let exponent: u32 = (bits / 0x400 % 0x20) as u32;
    let fraction: u32 = (bits % 0x400) as u32;
    if exponent != 0 {
        proof {
            lemma_float32_fields(sign, (exponent + 112) as u32, (fraction * 0x2000) as u32);
            lemma_pow2_adds((exponent - 1) as nat, 125);
            lemma_pow2_adds(13, (exponent + 111) as nat);
            vstd::arithmetic::power2::lemma2_to64();
            assert((0x80_0000 + fraction * 0x2000) * pow2((exponent + 111) as nat) == (0x400
                + fraction) * pow2((exponent - 1) as nat) * pow2(125)) by (nonlinear_arith)
                requires
                    pow2((exponent - 1 + 125) as nat) == pow2((exponent - 1) as nat) * pow2(125),
                    pow2((13 + exponent + 111) as nat) == 0x2000 * pow2((exponent + 111) as nat),
                    exponent - 1 + 125 == 13 + exponent + 111,
            ;
        }
        return sign * 0x8000_0000 + (exponent + 112) * 0x80_0000 + fraction * 0x2000;
    }
    if fraction == 0 {
        proof {
            lemma_float32_fields(sign, 0, 0);
        }
        return sign * 0x8000_0000;
    }
    let mut significand: u32 = fraction;
    let mut shift: u32 = 0;
    proof {
        vstd::arithmetic::power2::lemma2_to64();
    }
    while significand < 0x400
        invariant
            0 < fraction < 0x400,
            0 < significand < 0x800,
            shift <= 10,
            significand >= pow2(shift as nat),
            pow2(10) == 0x400,
            significand == fraction * pow2(shift as nat),
        decreases 0x800 - significand,
    {
        proof {
            lemma_pow2_unfold((shift + 1) as nat);
            if shift >= 10 {
                assert(false);
            }
            assert(fraction * pow2((shift + 1) as nat) == 2 * (fraction * pow2(shift as nat)))
                by (nonlinear_arith)
                requires
                    pow2((shift + 1) as nat) == 2 * pow2(shift as nat),
            ;
        }
        significand = significand * 2;
        shift = shift + 1;
    }
    proof {
        lemma_float32_fields(
            sign,
            (113 - shift) as u32,
            ((significand - 0x400) * 0x2000) as u32,
        );
        lemma_pow2_adds(shift as nat, (112 - shift) as nat);
        lemma_pow2_adds(13, 112);
        assert((0x80_0000 + (significand - 0x400) * 0x2000) * pow2((112 - shift) as nat)
            == fraction * pow2(125)) by (nonlinear_arith)
            requires
                significand == fraction * pow2(shift as nat),
                pow2(112) == pow2(shift as nat) * pow2((112 - shift) as nat),
                pow2(125) == 0x2000 * pow2(112),
        ;
    }
    sign * 0x8000_0000 + (113 - shift) * 0x80_0000 + (significand - 0x400) * 0x2000
}

} // verus!
