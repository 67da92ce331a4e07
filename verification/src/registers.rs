//! CPU register file: sixteen addressed slots (stored in a 32-slot array),
//! plus the erasable-bank and fixed-bank latches. The three bank registers
//! (erasable 0o3, fixed 0o4, combined 0o6) are projections of the
//! (erasable_bank, fixed_bank) pair and are refreshed together on every
//! bank-register write.

use vstd::prelude::*;

verus! {

/// Register index of the accumulator.
pub const REGISTER_ACCUMULATOR: usize = 0x0;

/// Register index of the link register.
pub const REGISTER_LINK: usize = 0x1;

/// Register index of the multiplier/return register.
pub const REGISTER_MULTIPLIER: usize = 0x2;

/// Register index of the return register (alias of the multiplier slot).
pub const REGISTER_RETURN: usize = 0x2;

/// Register index of the erasable-bank register.
pub const REGISTER_ERASABLE_BANK: usize = 0x3;

/// Register index of the fixed-bank register.
pub const REGISTER_FIXED_BANK: usize = 0x4;

/// Register index of the zero/counter register (the program counter).
pub const REGISTER_ZERO: usize = 0x5;

/// Register index of the program counter (alias of the zero register).
pub const REGISTER_COUNTER: usize = 0x5;

/// Register index of the combined-bank register.
pub const REGISTER_COMBINED_BANK: usize = 0x6;

/// Register index of the always-zero null register.
pub const REGISTER_NULL: usize = 0x7;

/// Register index of the program-counter backup slot.
pub const REGISTER_COUNTER_BACKUP: usize = 0xD;

/// Register index of the instruction-register backup slot.
pub const REGISTER_INSTRUCTION: usize = 0xF;

/// Number of addressable CPU registers.
pub const REGISTER_MAX: usize = 0x10;

/// Ghost state of the register file.
pub ghost struct RegV {
    pub registers: Seq<u16>,
    pub fixed_bank: usize,
    pub erasable_bank: usize,
}

/// The bank latches stay inside their fields: three bits of erasable bank,
/// five bits of fixed bank.
pub open spec fn spec_reg_wf(r: RegV) -> bool {
    r.registers.len() == 32 && r.erasable_bank < 8 && r.fixed_bank < 32
}

/// The three bank-register slots after a refresh from the latch pair.
pub open spec fn spec_refresh_bank_registers(r: RegV) -> RegV {
    let erasable_value = (((r.erasable_bank & 0x7) << 8) as u16);
    let fixed_value = (((r.fixed_bank & 0x1F) << 10) as u16);
    let combined_value = (erasable_value >> 8) | fixed_value;
    RegV {
        registers: r.registers.update(3, erasable_value).update(4, fixed_value).update(
            6,
            combined_value,
        ),
        ..r
    }
}

/// Value read from a register: the accumulator and multiplier keep 16 bits,
/// the zero/counter register is masked to 12 bits, the null register reads
/// zero, and everything else is masked to 15 bits.
pub open spec fn spec_reg_read(r: RegV, off: int) -> u16 {
    if off == 0 || off == 2 {
        r.registers[off]
    } else if off == 5 {
        r.registers[off] & 0o7777
    } else if off == 7 {
        0
    } else {
        r.registers[off] & 0o77777
    }
}

/// Register file after a write: a write to a bank register updates the latch
/// pair and refreshes all three projections; a write to the null register is
/// discarded; any other slot stores the raw value (masking is applied on
/// read).
pub open spec fn spec_reg_write(r: RegV, off: int, v: u16) -> RegV {
    if off == 6 {
        spec_refresh_bank_registers(
            RegV {
                erasable_bank: (v & 0x7) as usize,
                fixed_bank: ((v & 0x7C00) >> 10) as usize,
                ..r
            },
        )
    } else if off == 4 {
        spec_refresh_bank_registers(RegV { fixed_bank: ((v & 0x7C00) >> 10) as usize, ..r })
    } else if off == 3 {
        spec_refresh_bank_registers(RegV { erasable_bank: ((v & 0x0700) >> 8) as usize, ..r })
    } else if off == 7 {
        r
    } else {
        RegV { registers: r.registers.update(off, v), ..r }
    }
}

/// The three bank-register slots agree with the latch pair.
pub open spec fn spec_banks_consistent(r: RegV) -> bool {
    let erasable_value = (((r.erasable_bank & 0x7) << 8) as u16);
    let fixed_value = (((r.fixed_bank & 0x1F) << 10) as u16);
    &&& r.registers[3] == erasable_value
    &&& r.registers[4] == fixed_value
    &&& r.registers[6] == (erasable_value >> 8) | fixed_value
}

/// The CPU register file.
pub struct Registers {
    pub registers: [u16; 32],
    pub fixed_bank: usize,
    pub erasable_bank: usize,
}

impl View for Registers {
    type V = RegV;

    open spec fn view(&self) -> RegV {
        RegV {
            registers: self.registers@,
            fixed_bank: self.fixed_bank,
            erasable_bank: self.erasable_bank,
        }
    }
}

/// The bank subfields of a register word stay inside the latch ranges.
proof fn lemma_bank_fields(v: u16)
    by (bit_vector)
    ensures
        (v & 0x7C00) >> 10 <= 0x1F,
        (v & 0x0700) >> 8 <= 7,
        v & 0x7 <= 7,
{
}

impl Registers {
    /// All registers and both bank latches cleared.
    pub fn new() -> (r: Registers)
        ensures
            spec_reg_wf(r@),
            forall|i: int| 0 <= i < 32 ==> r@.registers[i] == 0,
            r@.fixed_bank == 0,
            r@.erasable_bank == 0,
    {
        Registers { registers: [0u16; 32], fixed_bank: 0, erasable_bank: 0 }
    }

    /// Clears all registers and both bank latches.
    pub fn reset(&mut self)
        ensures
            spec_reg_wf(final(self)@),
            forall|i: int| 0 <= i < 32 ==> final(self)@.registers[i] == 0,
            final(self)@.fixed_bank == 0,
            final(self)@.erasable_bank == 0,
    {
        self.registers = [0u16; 32];
        self.fixed_bank = 0;
        self.erasable_bank = 0;
    }

    /// Rewrites the three bank-register slots from the latch pair.
    fn refresh_bank_registers(&mut self)
        ensures
            final(self)@ == spec_refresh_bank_registers(old(self)@),
    {
        let erasable_value: u16 = ((self.erasable_bank & 0x7) << 8) as u16;
        let fixed_value: u16 = ((self.fixed_bank & 0x1F) << 10) as u16;

        let combined_bank_value: u16 = (erasable_value >> 8u16) | fixed_value;

        self.registers[REGISTER_ERASABLE_BANK] = erasable_value;
        self.registers[REGISTER_FIXED_BANK] = fixed_value;
        self.registers[REGISTER_COMBINED_BANK] = combined_bank_value;
    }

    /// Reads a register, applying the slot's read mask.
    pub fn read(&self, _bank_index: usize, address_offset: usize) -> (r: u16)
        requires
            address_offset < 32,
        ensures
            r == spec_reg_read(self@, address_offset as int),
    {
        if address_offset == REGISTER_ACCUMULATOR || address_offset == REGISTER_MULTIPLIER {
            self.registers[address_offset]
        } else if address_offset == REGISTER_ZERO {
            self.registers[address_offset] & 0o7777
        } else if address_offset == REGISTER_NULL {
            0o00000
        } else {
            self.registers[address_offset] & 0o77777
        }
    }

    /// Writes a register; bank-register writes refresh all three bank
    /// projections from the latch pair.
    pub fn write(&mut self, _bank_index: usize, address_offset: usize, new_value: u16)
        requires
            address_offset < 32,
        ensures
            final(self)@ == spec_reg_write(old(self)@, address_offset as int, new_value),
            spec_reg_wf(old(self)@) ==> spec_reg_wf(final(self)@),
    {
        proof {
            lemma_bank_fields(new_value);
        }
        if address_offset == REGISTER_COMBINED_BANK {
            self.erasable_bank = (new_value & 0x7) as usize;
            self.fixed_bank = ((new_value & 0x7C00) >> 10u16) as usize;
            self.refresh_bank_registers();
            return ;
        }
        if address_offset == REGISTER_FIXED_BANK {
            self.fixed_bank = ((new_value & 0x7C00) >> 10u16) as usize;
            self.refresh_bank_registers();
            return ;
        }
        if address_offset == REGISTER_ERASABLE_BANK {
            self.erasable_bank = ((new_value & 0x0700) >> 8u16) as usize;
            self.refresh_bank_registers();
            return ;
        }
        if address_offset == REGISTER_NULL {
            return ;
        }
        self.registers[address_offset] = new_value;
    }
}

/// Law: writing any one of the three bank registers leaves all three
/// register slots consistent projections of the (erasable_bank, fixed_bank)
/// pair.
pub proof fn lemma_bank_write_consistent(r: RegV, off: int, v: u16)
    requires
        r.registers.len() == 32,
        off == 3 || off == 4 || off == 6,
    ensures
        spec_banks_consistent(spec_reg_write(r, off, v)),
{
}

} // verus!
