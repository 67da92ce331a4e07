//! Fixed memory: thirty-six banks of 1024 words. Words are stored big-endian
//! with a parity bit in the lowest position; a read swaps the bytes, drops
//! the parity bit, and masks to 15 bits. Logical banks 0..3 are permuted to
//! physical banks 2, 3, 0, 1; the rest map identically. Writes are ignored.

use vstd::prelude::*;

verus! {

/// Number of fixed banks.
pub const STORAGE_SEGMENTS: usize = 36;

/// Words per fixed bank.
pub const STORAGE_SEGMENT_SIZE: usize = 1024;

/// The logical-to-physical permutation of the fixed banks.
pub open spec fn spec_bank_mapping(bank: int) -> int {
    if bank == 0 {
        2
    } else if bank == 1 {
        3
    } else if bank == 2 {
        0
    } else if bank == 3 {
        1
    } else {
        bank
    }
}

/// Byte swap of a stored big-endian word.
pub open spec fn spec_word_swap(w: u16) -> u16 {
    (w >> 8) | ((w & 0xFF) << 8)
}

/// Value read from fixed memory: out-of-range banks or offsets and a missing
/// image read as zero; otherwise the stored word is byte-swapped, shifted
/// right to drop the parity bit, and masked to 15 bits.
pub open spec fn spec_rom_read(rom: Option<Seq<u16>>, bank: int, off: int) -> u16 {
    if bank < 0 || bank >= 36 || off < 0 || off >= 1024 {
        0
    } else {
        match rom {
            Some(data) => (spec_word_swap(data[spec_bank_mapping(bank) * 1024 + off]) >> 1)
                & 0x7FFF,
            None => 0,
        }
    }
}

/// Fixed (read-only) memory, optionally loaded with a program image.
pub struct ReadOnlyMemory {
    pub banks: Option<[u16; 36864]>,
}

impl View for ReadOnlyMemory {
    type V = Option<Seq<u16>>;

    open spec fn view(&self) -> Option<Seq<u16>> {
        match self.banks {
            Some(data) => Some(data@),
            None => None,
        }
    }
}

/// The logical-to-physical fixed-bank permutation.
fn bank_mapping(bank: usize) -> (r: usize)
    requires
        bank < 36,
    ensures
        r == spec_bank_mapping(bank as int),
        r < 36,
{
    if bank == 0 {
        2
    } else if bank == 1 {
        3
    } else if bank == 2 {
        0
    } else if bank == 3 {
        1
    } else {
        bank
    }
}

impl ReadOnlyMemory {
    /// Fixed memory holding the given image, stored as 36 banks of 1024
    /// big-endian words laid out flat.
    pub fn new(storage: [u16; 36864]) -> (r: ReadOnlyMemory)
        ensures
            r@ == Some(storage@),
    {
        ReadOnlyMemory { banks: Some(storage) }
    }

    /// Fixed memory with no image attached; every read yields zero.
    pub fn empty() -> (r: ReadOnlyMemory)
        ensures
            r@ is None,
    {
        ReadOnlyMemory { banks: None }
    }

    /// Reads one fixed-memory word.
    pub fn read(&self, memory_bank: usize, bank_address: usize) -> (r: u16)
        ensures
            r == spec_rom_read(self@, memory_bank as int, bank_address as int),
    {
        if memory_bank >= STORAGE_SEGMENTS || bank_address >= STORAGE_SEGMENT_SIZE {
            return 0;
        }
        match &self.banks {
            Some(memory_data) => {
                let physical: usize = bank_mapping(memory_bank);
                let word: u16 = memory_data[physical * 1024 + bank_address];
                let swapped: u16 = (word >> 8) | ((word & 0xFF) << 8);
                (swapped >> 1) & 0x7FFF
            },
            None => 0,
        }
    }

    /// Fixed memory is read-only: a write changes nothing.
    pub fn write(&mut self, memory_bank: usize, bank_address: usize, _data_value: u16)
        ensures
            *final(self) == *old(self),
    {
        if memory_bank >= STORAGE_SEGMENTS || bank_address >= STORAGE_SEGMENT_SIZE {
            return;
        }
    }
}

} // verus!
