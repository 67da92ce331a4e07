//! Instruction descriptors: the mnemonic set, the decoded-instruction record,
//! and the field accessors used by the decoder and the execution engine.

use vstd::prelude::*;

verus! {

/// 12-bit mask for the basic instruction data field.
pub const MASK: u16 = 0o7777;

/// 10-bit mask for erasable-space (RAM) operand addresses.
pub const MASK_RAM: u16 = 0o1777;

/// Mask for the 3-bit primary opcode.
pub const OPCODE_MASK: u16 = 0o7;

/// Bit position of the primary opcode.
pub const OPCODE_OFFSET: u16 = 12;

/// Bit pattern marking an extended instruction.
pub const OPCODE_EXTEND: u16 = 0o100000;

/// AGC instruction mnemonics. Not every mnemonic has an execution handler;
/// the rest fall through to a no-op that clears the extend flag.
#[derive(Clone, Copy, Debug, PartialEq, Eq, Structural)]
pub enum Mnemonic {
    AD,
    ADS,
    AUG,
    BZF,
    BZMF,
    CA,
    CS,
    CCS,
    DAS,
    DCA,
    DCS,
    DIM,
    DV,
    DXCH,
    EDRUPT,
    EXTEND,
    INCR,
    INDEX,
    INHINT,
    LXCH,
    MASK,
    MP,
    MSU,
    QXCH,
    RAND,
    READ,
    RELINT,
    RESUME,
    ROR,
    RXOR,
    SU,
    TC,
    TCF,
    TS,
    WAND,
    WOR,
    WRITE,
    XCH,
    INVALID,
}

/// A decoded AGC instruction: the program counter it was fetched at, the raw
/// 16-bit word (extend flag in bit 15), the mnemonic, the optional extrabits
/// subfield, and the declared cycle count.
#[derive(Clone, Copy, Debug, PartialEq, Eq, Structural)]
pub struct Instructions {
    pub pc: u16,
    pub mnem: Mnemonic,
    pub data: u16,
    pub extrabits: Option<u8>,
    pub mct: u8,
}

impl Instructions {
    /// An empty descriptor: placeholder mnemonic and a one-cycle cost.
    pub fn new() -> (r: Instructions)
        ensures
            r == (Instructions {
                pc: 0,
                data: 0,
                mnem: Mnemonic::INVALID,
                extrabits: None::<u8>,
                mct: 1,
            }),
    {
        Instructions { pc: 0o00000, data: 0o00000, mnem: Mnemonic::INVALID, extrabits: None, mct: 1 }
    }

    /// The 3-bit primary opcode (bits 12..14).
    pub fn get_opcode(&self) -> (r: u8)
        ensures
            r == ((self.data >> 12) & 0x7) as u8,
    {
        ((self.data >> OPCODE_OFFSET) & OPCODE_MASK) as u8
    }

    /// The 12-bit data field (bits 0..11).
    pub fn get_data(&self) -> (r: u16)
        ensures
            r == (self.data & 0o7777),
    {
        self.data & MASK
    }

    /// The operand address taken from the full 12-bit field.
    pub fn get_address(&self) -> (r: usize)
        ensures
            r == (self.data & 0o7777) as usize,
    {
        (self.data & MASK) as usize
    }

    /// The operand address taken from the 10-bit field, for erasable-space
    /// operations.
    pub fn get_address_ram(&self) -> (r: usize)
        ensures
            r == (self.data & 0o1777) as usize,
    {
        (self.data & MASK_RAM) as usize
    }

    /// Whether the word carries the extend prefix (bit 15).
    pub fn is_extended(&self) -> (r: bool)
        ensures
            r == (self.data & 0x8000 == 0x8000),
    {
        (self.data & OPCODE_EXTEND) == OPCODE_EXTEND
    }
}

} // verus!
