//! Erasable memory: eight banks of 256 fifteen-bit words, stored flat. Bank 0
//! offsets 0 and 2 (the accumulator and multiplier slots) keep all 16 bits;
//! every other word is masked to 15 bits.

use vstd::prelude::*;

verus! {

/// Number of erasable banks.
pub const MEMORY_SEGMENTS: usize = 8;

/// Words per erasable bank.
pub const MEMORY_SEGMENT_SIZE: usize = 256;

/// Value read from an erasable slot: full 16 bits for bank 0 offsets 0 and 2,
/// 15 bits elsewhere.
pub open spec fn spec_ram_read(ram: Seq<u16>, bank: int, off: int) -> u16 {
    if bank == 0 && (off == 0 || off == 2) {
        ram[bank * 256 + off]
    } else {
        ram[bank * 256 + off] & 0x7FFF
    }
}

/// Erasable contents after a write: the accumulator and multiplier slots take
/// all 16 bits, every other slot is truncated to 15.
pub open spec fn spec_ram_write(ram: Seq<u16>, bank: int, off: int, value: u16) -> Seq<u16> {
    if bank == 0 && (off == 0 || off == 2) {
        ram.update(bank * 256 + off, value)
    } else {
        ram.update(bank * 256 + off, value & 0x7FFF)
    }
}

/// Eight 256-word banks of erasable storage.
pub struct Ram {
    pub banks: [u16; 2048],
}

impl View for Ram {
    type V = Seq<u16>;

    open spec fn view(&self) -> Seq<u16> {
        self.banks@
    }
}

impl Ram {
    /// All-zero erasable storage.
    pub fn new() -> (r: Ram)
        ensures
            r@.len() == 2048,
            forall|i: int| 0 <= i < 2048 ==> r@[i] == 0,
    {
        Ram { banks: [0u16; 2048] }
    }

    /// Clears every erasable word.
    pub fn reset(&mut self)
        ensures
            final(self)@.len() == 2048,
            forall|i: int| 0 <= i < 2048 ==> final(self)@[i] == 0,
    {
        self.banks = [0u16; 2048];
    }

    /// Reads one erasable word.
    pub fn read(&self, bank_index: usize, address_offset: usize) -> (r: u16)
        requires
            bank_index < 8,
            address_offset < 256,
        ensures
            r == spec_ram_read(self@, bank_index as int, address_offset as int),
    {
        let value: u16 = if bank_index == 0 && address_offset == 0 {
            self.banks[bank_index * 256 + address_offset]
        } else if bank_index == 0 && address_offset == 2 {
            self.banks[bank_index * 256 + address_offset]
        } else {
            self.banks[bank_index * 256 + address_offset] & 0x7FFF
        };
        value
    }

    /// Writes one erasable word.
    pub fn write(&mut self, bank_index: usize, address_offset: usize, value: u16)
        requires
            bank_index < 8,
            address_offset < 256,
        ensures
            final(self)@ == spec_ram_write(
                old(self)@,
                bank_index as int,
                address_offset as int,
                value,
            ),
    {
        if bank_index == 0 && address_offset == 0 {
            self.banks[bank_index * 256 + address_offset] = value;
        } else if bank_index == 0 && address_offset == 2 {
            self.banks[bank_index * 256 + address_offset] = value;
        } else {
            let masked_value: u16 = value & 0x7FFF;
            self.banks[bank_index * 256 + address_offset] = masked_value;
        }
    }
}

} // verus!
