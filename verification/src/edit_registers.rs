//! Edit-on-write registers: four addresses whose writes perform a shift and
//! whose reads observe the shifted value. Cycle-right (0o20), arithmetic
//! shift (0o21), cycle-left (0o22), and the 7-bit edit-op extractor (0o23).

use vstd::prelude::*;

verus! {

/// Address of the cycle-right register.
pub const SPECIAL_REGISTER_CYCLE_RIGHT: usize = 0o20;

/// Address of the arithmetic-shift register.
pub const SPECIAL_REGISTER_SHIFT: usize = 0o21;

/// Address of the cycle-left register.
pub const SPECIAL_REGISTER_CYCLE_LEFT: usize = 0o22;

/// Address of the edit-op register.
pub const SPECIAL_REGISTER_EDIT_OP: usize = 0o23;

/// The four edit-on-write shift registers.
#[derive(Clone, Copy, Debug, PartialEq, Eq, Structural)]
pub struct EditRegisters {
    pub cycle_right: u16,
    pub shift_reg: u16,
    pub cycle_left: u16,
    pub edit_op: u16,
}

/// Value observed at an edit address; other addresses read zero.
pub open spec fn spec_edit_read(e: EditRegisters, address: int) -> u16 {
    if address == 0o22 {
        e.cycle_left
    } else if address == 0o20 {
        e.cycle_right
    } else if address == 0o21 {
        e.shift_reg
    } else if address == 0o23 {
        e.edit_op
    } else {
        0
    }
}

/// Edit state after a write: the value is masked to 15 bits, then cycle-left
/// wraps bit 14 into bit 0, cycle-right wraps bit 0 into bit 14, the
/// arithmetic shift keeps the sign bit in place, and edit-op extracts bits
/// 7..13. Writes elsewhere change nothing.
pub open spec fn spec_edit_write(e: EditRegisters, address: int, value: u16) -> EditRegisters {
    let m = value & 0x7FFF;
    if address == 0o22 {
        EditRegisters { cycle_left: ((m << 1) & 0x7FFF) | ((m & 0x4000) >> 14), ..e }
    } else if address == 0o20 {
        EditRegisters { cycle_right: (m >> 1) | ((m & 0x1) << 14), ..e }
    } else if address == 0o21 {
        EditRegisters { shift_reg: (m >> 1) | (m & 0o40000), ..e }
    } else if address == 0o23 {
        EditRegisters { edit_op: (m >> 7) & 0o177, ..e }
    } else {
        e
    }
}

impl EditRegisters {
    /// All four shift registers cleared.
    pub fn new() -> (r: EditRegisters)
        ensures
            r == (EditRegisters { cycle_right: 0, shift_reg: 0, cycle_left: 0, edit_op: 0 }),
    {
        EditRegisters { cycle_left: 0, cycle_right: 0, shift_reg: 0, edit_op: 0 }
    }

    /// Clears all four shift registers.
    pub fn reset(&mut self)
        ensures
            *final(self) == (EditRegisters {
                cycle_right: 0,
                shift_reg: 0,
                cycle_left: 0,
                edit_op: 0,
            }),
    {
        self.cycle_left = 0;
        self.cycle_right = 0;
        self.shift_reg = 0;
        self.edit_op = 0;
    }

    /// Reads the value most recently produced at an edit address.
    pub fn read(&self, _bank: usize, address: usize) -> (r: u16)
        ensures
            r == spec_edit_read(*self, address as int),
    {
        if address == SPECIAL_REGISTER_CYCLE_LEFT {
            self.cycle_left
        } else if address == SPECIAL_REGISTER_CYCLE_RIGHT {
            self.cycle_right
        } else if address == SPECIAL_REGISTER_SHIFT {
            self.shift_reg
        } else if address == SPECIAL_REGISTER_EDIT_OP {
            self.edit_op
        } else {
            0
        }
    }

    /// Writes a value to an edit address, performing its shift.
    pub fn write(&mut self, _bank: usize, address: usize, value: u16)
        ensures
            *final(self) == spec_edit_write(*old(self), address as int, value),
    {
        let masked_value: u16 = value & 0x7FFF;

        if address == SPECIAL_REGISTER_CYCLE_LEFT {
            let sign_bit: u16 = masked_value & 0x4000;
            self.cycle_left = (masked_value << 1u16) & 0x7FFF;
            self.cycle_left = self.cycle_left | (sign_bit >> 14u16);
        } else if address == SPECIAL_REGISTER_CYCLE_RIGHT {
            let low_bit: u16 = masked_value & 0x1;
            self.cycle_right = (masked_value >> 1u16) | (low_bit << 14u16);
        } else if address == SPECIAL_REGISTER_SHIFT {
            let sign_bit: u16 = masked_value & 0o40000;
            self.shift_reg = (masked_value >> 1u16) | sign_bit;
        } else if address == SPECIAL_REGISTER_EDIT_OP {
            self.edit_op = (masked_value >> 7u16) & 0o177;
        }
    }
}

} // verus!
