//! Tests of the word utilities and the seven-segment encoding.

use ragc::seven_seg::get_7seg;
use ragc::seven_seg::get_7seg_value;
use ragc::utils::add_s15;
use ragc::utils::add_s16;
use ragc::utils::adjust_overflow;
use ragc::utils::convert_agc_double_to_cpu;
use ragc::utils::convert_ones_to_twos_complement;
use ragc::utils::double_width_add;
use ragc::utils::extend_sign_bits;
use ragc::utils::translate_from_agc_format;
use ragc::utils::translate_to_agc_format;

#[test]
fn test_pos_overflow() {
    for value in 0x4000..0x7FFF {
        let result = adjust_overflow(value);
        assert_eq!(value & 0x3FFF, result);
    }
}

#[test]
fn test_neg_overflow() {
    for value in 0x8000..0xBFFF {
        let result = adjust_overflow(value);
        assert_eq!(value | 0xC000, result);
    }
}

#[test]
fn test_interrupt_stubs() {}

#[test]
fn adjust_overflow_is_idempotent_on_samples() {
    for value in [0u16, 0x1234, 0x4123, 0x8123, 0xC123, 0xFFFF] {
        assert_eq!(adjust_overflow(adjust_overflow(value)), adjust_overflow(value));
    }
}

#[test]
fn adjust_overflow_leaves_plain_values() {
    assert_eq!(adjust_overflow(0x0005), 0x0005);
    assert_eq!(adjust_overflow(0xC005), 0xC005);
}

#[test]
fn extend_sign_bits_matches_bit_14() {
    assert_eq!(extend_sign_bits(0x4000), 0xC000);
    assert_eq!(extend_sign_bits(0x3FFF), 0x3FFF);
    for value in [0u16, 1, 0x4001, 0x7FFF, 0xABCD] {
        let r = extend_sign_bits(value & 0x7FFF);
        assert_eq!(r & 0x7FFF, value & 0x7FFF);
        assert_eq!(r & 0x8000 != 0, value & 0x4000 != 0);
    }
}

#[test]
fn add_s15_zero_identities() {
    for a in [1u16, 5, 0x3FFF, 0x7FFE] {
        assert_eq!(add_s15(a, 0), a);
        assert_eq!(add_s15(a, 0x7FFF), a);
    }
    assert_eq!(add_s15(0, 0), 0);
    assert_eq!(add_s15(0, 0x7FFF), 0x7FFF);
}

#[test]
fn add_s15_end_around_carry() {
    // +1 plus -1 (ones' complement 0x7FFE) gives -0.
    assert_eq!(add_s15(1, 0x7FFE), 0x7FFF);
    // 0x4000 + 0x4000 wraps bit 15 back into bit 0.
    assert_eq!(add_s15(0x4000, 0x4000), 0x0001);
}

#[test]
fn add_s16_end_around_carry() {
    assert_eq!(add_s16(3, 5), 8);
    assert_eq!(add_s16(0xFFFF, 1), 1);
    assert_eq!(add_s16(0x8000, 0x8000), 1);
}

#[test]
fn double_width_add_carries_past_bit_28() {
    assert_eq!(double_width_add(3, 5), 8);
    assert_eq!(double_width_add(0x1FFFFFFF, 1), 0x20000001);
}

#[test]
fn ones_to_twos_complement_values() {
    assert_eq!(convert_ones_to_twos_complement(5), 5);
    assert_eq!(convert_ones_to_twos_complement(0o77777), 0);
    assert_eq!(convert_ones_to_twos_complement(0o77776), 0o77777);
}

#[test]
fn translate_round_trip() {
    assert_eq!(translate_to_agc_format(5), 5);
    assert_eq!(translate_to_agc_format(-5), !5u16);
    assert_eq!(translate_from_agc_format(5), 5);
    assert_eq!(translate_from_agc_format(0o77772), -5);
    for v in [-16383i16, -5, -1, 0, 1, 5, 16383] {
        assert_eq!(translate_from_agc_format(translate_to_agc_format(v) & 0x7FFF), v);
    }
}

#[test]
fn agc_double_to_cpu_values() {
    assert_eq!(convert_agc_double_to_cpu(15), 15);
    assert_eq!(convert_agc_double_to_cpu(!15u32 & 0x3FFFFFFF), -15);
}

#[test]
fn seven_seg_digits() {
    assert_eq!(get_7seg(21), 0x3F);
    assert_eq!(get_7seg(3), 0x06);
    assert_eq!(get_7seg(31), 0x6F);
    assert_eq!(get_7seg(0), 0x00);
    assert_eq!(get_7seg(99), 0x00);
    assert_eq!(get_7seg_value(21, 3), 0x3F06);
}
