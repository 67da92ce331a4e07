//! Word-level utilities for the AGC's ones'-complement arithmetic: 15/16-bit
//! addition with end-around carry, overflow adjustment, sign extension, and
//! translation between AGC words and host signed integers.

use vstd::prelude::*;

verus! {

/// Overflow correction applied when a 16-bit accumulator value is stored to a
/// 15-bit location: negative overflow (top bits 10) is sign-extended, positive
/// overflow (top bits 01) is masked off, and all other values pass unchanged.
pub open spec fn spec_adjust_overflow(v: u16) -> u16 {
    if v & 0xC000 == 0x8000 {
        v | 0xC000
    } else if v & 0xC000 == 0x4000 {
        v & 0x3FFF
    } else {
        v
    }
}

/// Widens a 15-bit word to the 16-bit register format: bit 15 is made a copy
/// of the sign bit (bit 14).
pub open spec fn spec_extend_sign_bits(v: u16) -> u16 {
    if v & 0x4000 != 0 {
        v | 0x8000
    } else {
        v & 0x7FFF
    }
}

/// Ones'-complement to two's-complement conversion on a 15-bit word.
pub open spec fn spec_ones_to_twos_complement(v: u16) -> u16 {
    if v & 0x4000 != 0 {
        ((((v + 1) as u32) & 0x7FFF) as u16)
    } else {
        v & 0x7FFF
    }
}

/// Masking with a constant bounds the result by that constant.
pub proof fn lemma_u16_and_le(x: u16, m: u16)
    by (bit_vector)
    ensures
        x & m <= m,
{
}

/// Masking with a constant bounds the result by that constant.
pub proof fn lemma_u32_and_le(x: u32, m: u32)
    by (bit_vector)
    ensures
        x & m <= m,
{
}


/// 15-bit ones'-complement sum with end-around carry: when the raw sum sets
/// bit 15, one is added back in, and the low 15 bits are kept.
pub open spec fn spec_add_s15(a: u16, b: u16) -> u16 {
    let s = (a + b) as u32;
    let s2 = if s & 0x8000 != 0 {
        (s + 1) as u32
    } else {
        s
    };
    (s2 & 0x7FFF) as u16
}

/// 16-bit ones'-complement sum with end-around carry on the 17th bit.
pub open spec fn spec_add_s16(a: u16, b: u16) -> u16 {
    let s = (a + b) as u32;
    let s2 = if s & 0xFFFF0000 != 0 {
        (s + 1) as u32
    } else {
        s
    };
    (s2 & 0xFFFF) as u16
}

/// 29-bit double-width ones'-complement sum: carries beyond bit 28 are folded
/// back into the low bit.
pub open spec fn spec_double_width_add(a: u32, b: u32) -> u32 {
    let s = vstd::wrapping::u32_specs::wrapping_add(a, b);
    if s & 0xE0000000 != 0 {
        vstd::wrapping::u32_specs::wrapping_add(s, 1)
    } else {
        s
    }
}

/// Host signed integer to AGC ones'-complement word: a negative value maps to
/// the bitwise complement of its absolute value.
pub open spec fn spec_translate_to_agc_format(v: i16) -> u16 {
    if v < 0 {
        !((-(v as int)) as u16)
    } else {
        v as u16
    }
}

/// AGC ones'-complement word to host signed integer.
pub open spec fn spec_translate_from_agc_format(v: u16) -> i16 {
    if v & 0x4000 != 0 {
        (-(((!v) & 0x3FFF) as int)) as i16
    } else {
        v as i16
    }
}

/// AGC 29-bit double word to host signed integer.
pub open spec fn spec_convert_agc_double_to_cpu(v: u32) -> i32 {
    if v & 0x20000000 != 0 {
        (-(((!v) & 0x1FFFFFFF) as int)) as i32
    } else {
        v as i32
    }
}

/// Adjusts overflow bits when storing a 16-bit accumulator value into a
/// 15-bit slot.
pub fn adjust_overflow(input: u16) -> (r: u16)
    ensures
        r == spec_adjust_overflow(input),
{
    if input & 0xC000 == 0x8000 {
        input | 0xC000
    } else if input & 0xC000 == 0x4000 {
        input & 0x3FFF
    } else {
        input
    }
}

/// Extends the sign bit of a 15-bit value into bit 15.
pub fn extend_sign_bits(value: u16) -> (r: u16)
    ensures
        r == spec_extend_sign_bits(value),
{
    if (value & 0x4000) != 0 {
        value | 0x8000
    } else {
        value & 0x7FFF
    }
}

/// Converts a ones'-complement word to two's-complement format.
pub fn convert_ones_to_twos_complement(value: u16) -> (r: u16)
    ensures
        r == spec_ones_to_twos_complement(value),
{
    if value & 0x4000 != 0 {
        let widened: u32 = value as u32 + 1;
        (widened & 0x7FFF) as u16
    } else {
        value & 0x7FFF
    }
}

/// 15-bit signed addition with end-around carry.
pub fn add_s15(op1: u16, op2: u16) -> (r: u16)
    ensures
        r == spec_add_s15(op1, op2),
{
    let mut sum: u32 = op1 as u32 + op2 as u32;
    if (sum & 0x8000) != 0 {
        sum = sum + 1;
    }
    (sum & 0x7FFF) as u16
}

/// 16-bit signed addition with end-around carry.
pub fn add_s16(left: u16, right: u16) -> (r: u16)
    ensures
        r == spec_add_s16(left, right),
{
    let mut total: u32 = left as u32 + right as u32;
    if (total & 0xFFFF0000) != 0 {
        total = total + 1;
    }
    (total & 0xFFFF) as u16
}

/// Double-width addition for 29-bit AGC values.
pub fn double_width_add(num1: u32, num2: u32) -> (r: u32)
    ensures
        r == spec_double_width_add(num1, num2),
{
    let mut result: u32 = num1.wrapping_add(num2);
    if (result & 0xE0000000) != 0 {
        result = result.wrapping_add(1);
    }
    result
}

/// Converts a signed host value into AGC ones'-complement format.
pub fn translate_to_agc_format(cpu_value: i16) -> (r: u16)
    ensures
        r == spec_translate_to_agc_format(cpu_value),
{
    if cpu_value < 0 {
        let mag: i32 = -(cpu_value as i32);
        !(mag as u16)
    } else {
        cpu_value as u16
    }
}

/// Converts an AGC ones'-complement word to a signed host value.
pub fn translate_from_agc_format(agc_value: u16) -> (r: i16)
    ensures
        r == spec_translate_from_agc_format(agc_value),
{
    if (agc_value & 0x4000) != 0 {
        let mag: u16 = (!agc_value) & 0x3FFF;
        proof {
            lemma_u16_and_le(!agc_value, 0x3FFF);
        }
        -(mag as i16)
    } else {
        agc_value as i16
    }
}

/// Converts a 29-bit AGC double word to a signed host value.
pub fn convert_agc_double_to_cpu(agc_double: u32) -> (r: i32)
    ensures
        r == spec_convert_agc_double_to_cpu(agc_double),
{
    if (agc_double & 0x20000000) != 0 {
        let mag: u32 = (!agc_double) & 0x1FFFFFFF;
        proof {
            lemma_u32_and_le(!agc_double, 0x1FFFFFFF);
        }
        -(mag as i32)
    } else {
        agc_double as i32
    }
}

/// Law: adding positive zero to a 15-bit word is the identity, and adding
/// negative zero (0x7FFF) is the identity on every nonzero 15-bit word.
/// Positive zero itself maps to negative zero under a negative-zero addend.
pub proof fn lemma_add_s15_zero_identity(a: u16)
    requires
        a < 0x8000,
    ensures
        spec_add_s15(a, 0) == a,
        a != 0 ==> spec_add_s15(a, 0x7FFF) == a,
        spec_add_s15(0, 0x7FFF) == 0x7FFF,
{
    assert(spec_add_s15(a, 0) == a && (a != 0 ==> spec_add_s15(a, 0x7FFF) == a)
        && spec_add_s15(0, 0x7FFF) == 0x7FFF) by (bit_vector)
        requires
            a < 0x8000,
    ;
}

/// Law: overflow adjustment is idempotent; applying it twice equals applying
/// it once.
pub proof fn lemma_adjust_overflow_idempotent(v: u16)
    ensures
        spec_adjust_overflow(spec_adjust_overflow(v)) == spec_adjust_overflow(v),
{
    assert(spec_adjust_overflow(spec_adjust_overflow(v)) == spec_adjust_overflow(v))
        by (bit_vector);
}

/// Law: sign extension of a 15-bit value preserves the 15-bit magnitude and
/// sets bit 15 exactly when bit 14 is set.
pub proof fn lemma_extend_sign_bits_masked(v: u16)
    ensures
        spec_extend_sign_bits(v & 0x7FFF) & 0x7FFF == v & 0x7FFF,
        (spec_extend_sign_bits(v & 0x7FFF) & 0x8000 != 0) <==> (v & 0x4000 != 0),
{
    assert((spec_extend_sign_bits(v & 0x7FFF) & 0x7FFF == v & 0x7FFF)
        && ((spec_extend_sign_bits(v & 0x7FFF) & 0x8000 != 0) <==> (v & 0x4000 != 0)))
        by (bit_vector);
}

} // verus!
