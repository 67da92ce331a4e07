//! Seven-segment display encoding for DSKY digit values.

use vstd::prelude::*;

verus! {

/// The seven-segment pattern a DSKY digit value lights: unknown values and
/// zero show a blank display.
pub open spec fn spec_7seg(agc_val: u8) -> u8 {
    if agc_val == 21 {
        0x3F
    } else if agc_val == 3 {
        0x06
    } else if agc_val == 25 {
        0x5B
    } else if agc_val == 27 {
        0x4F
    } else if agc_val == 15 {
        0x66
    } else if agc_val == 30 {
        0x6D
    } else if agc_val == 28 {
        0x7D
    } else if agc_val == 19 {
        0x07
    } else if agc_val == 29 {
        0x7F
    } else if agc_val == 31 {
        0x6F
    } else {
        0x00
    }
}

/// The seven-segment pattern for one DSKY digit value.
pub fn get_7seg(agc_val: u8) -> (r: u8)
    ensures
        r == spec_7seg(agc_val),
{
    match agc_val {
        21 => 0x3F,
        3 => 0x06,
        25 => 0x5B,
        27 => 0x4F,
        15 => 0x66,
        30 => 0x6D,
        28 => 0x7D,
        19 => 0x07,
        29 => 0x7F,
        31 => 0x6F,
        _ => 0x00,
    }
}

/// Packs two digit patterns into one word, the first in the high byte.
pub fn get_7seg_value(c: u8, d: u8) -> (r: u16)
    ensures
        r == ((spec_7seg(c) as u16) << 8) | (spec_7seg(d) as u16),
{
    let mut res: u16 = get_7seg(c) as u16;
    res = (res << 8u16) | (get_7seg(d) as u16);
    res
}

} // verus!
