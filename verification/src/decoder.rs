//! Two-mode instruction decoder: the extend flag (bit 15 of the instruction
//! word) selects between the basic and the extended opcode table. The only
//! rejected words are extended opcode 2 with extrabits 0 or 1.

use vstd::prelude::*;

use crate::instructions::Instructions;
use crate::instructions::Mnemonic;

verus! {

/// Whether a raw instruction word decodes to a descriptor. Only extended
/// opcode 2 with extrabits 0 or 1 is rejected.
pub open spec fn spec_decode_ok(data: u16) -> bool {
    !(data & 0x8000 == 0x8000 && ((data >> 12) & 0x7) as u8 == 2 && ((((data & 0x0C00) >> 10)
        as u8) < 2))
}

/// The descriptor produced for a word of the extended opcode table.
pub open spec fn spec_decode_extended(pc: u16, data: u16) -> Instructions {
    let op = ((data >> 12) & 0x7) as u8;
    if op == 0 {
        let exb = ((data & 0x0E00) >> 9) as u8;
        Instructions {
            pc,
            data,
            extrabits: Some(exb),
            mnem: if exb == 0 {
                Mnemonic::READ
            } else if exb == 1 {
                Mnemonic::WRITE
            } else if exb == 2 {
                Mnemonic::RAND
            } else if exb == 3 {
                Mnemonic::WAND
            } else if exb == 4 {
                Mnemonic::ROR
            } else if exb == 5 {
                Mnemonic::WOR
            } else if exb == 6 {
                Mnemonic::RXOR
            } else {
                Mnemonic::EDRUPT
            },
            mct: if exb == 1 {
                2
            } else {
                1
            },
        }
    } else if op == 1 {
        Instructions {
            pc,
            data,
            extrabits: Some(((data & 0x0C00) >> 10) as u8),
            mnem: Mnemonic::INVALID,
            mct: 1,
        }
    } else if op == 2 {
        let exb = ((data & 0x0C00) >> 10) as u8;
        Instructions {
            pc,
            data,
            extrabits: Some(exb),
            mnem: if exb == 2 {
                Mnemonic::AUG
            } else {
                Mnemonic::DIM
            },
            mct: 1,
        }
    } else if op == 3 {
        Instructions { pc, data, extrabits: None, mnem: Mnemonic::DCA, mct: 1 }
    } else if op == 4 {
        Instructions { pc, data, extrabits: None, mnem: Mnemonic::DCS, mct: 1 }
    } else if op == 5 {
        Instructions { pc, data, extrabits: None, mnem: Mnemonic::INDEX, mct: 1 }
    } else if op == 6 {
        let exb = ((data & 0x0C00) >> 10) as u8;
        Instructions {
            pc,
            data,
            extrabits: Some(exb),
            mnem: if exb == 0 {
                Mnemonic::SU
            } else {
                Mnemonic::BZMF
            },
            mct: 1,
        }
    } else {
        Instructions { pc, data, extrabits: None, mnem: Mnemonic::MP, mct: 1 }
    }
}

/// The descriptor produced for a word of the basic opcode table.
pub open spec fn spec_decode_simple(pc: u16, data: u16) -> Instructions {
    let op = ((data >> 12) & 0x7) as u8;
    if op == 0 {
        Instructions {
            pc,
            data,
            extrabits: None,
            mnem: if data & 0xFFF == 3 {
                Mnemonic::RELINT
            } else if data & 0xFFF == 4 {
                Mnemonic::INHINT
            } else if data & 0xFFF == 6 {
                Mnemonic::EXTEND
            } else {
                Mnemonic::TC
            },
            mct: 1,
        }
    } else if op == 1 {
        let exb = ((data & 0x0C00) >> 10) as u8;
        Instructions {
            pc,
            data,
            extrabits: Some(exb),
            mnem: if exb == 0 {
                Mnemonic::CCS
            } else {
                Mnemonic::TCF
            },
            mct: 1,
        }
    } else if op == 2 {
        let exb = ((data & 0x0C00) >> 10) as u8;
        Instructions {
            pc,
            data,
            extrabits: Some(exb),
            mnem: if exb == 0 {
                Mnemonic::DAS
            } else if exb == 1 {
                Mnemonic::LXCH
            } else if exb == 2 {
                Mnemonic::INCR
            } else {
                Mnemonic::ADS
            },
            mct: 1,
        }
    } else if op == 3 {
        Instructions { pc, data, extrabits: None, mnem: Mnemonic::CA, mct: 2 }
    } else if op == 4 {
        Instructions { pc, data, extrabits: None, mnem: Mnemonic::CS, mct: 2 }
    } else if op == 5 {
        let exb = ((data & 0x0C00) >> 10) as u8;
        Instructions {
            pc,
            data,
            extrabits: Some(exb),
            mnem: if exb == 0 {
                if data & 0o7777 == 0o17 {
                    Mnemonic::RESUME
                } else {
                    Mnemonic::INDEX
                }
            } else if exb == 1 {
                Mnemonic::DXCH
            } else if exb == 2 {
                Mnemonic::TS
            } else {
                Mnemonic::XCH
            },
            mct: if exb == 2 {
                2
            } else {
                1
            },
        }
    } else if op == 6 {
        Instructions { pc, data, extrabits: None, mnem: Mnemonic::AD, mct: 2 }
    } else {
        Instructions { pc, data, extrabits: None, mnem: Mnemonic::MASK, mct: 1 }
    }
}

/// The descriptor for any decodable word: extended table when bit 15 is set,
/// basic table otherwise.
pub open spec fn spec_decode(pc: u16, data: u16) -> Instructions {
    if data & 0x8000 == 0x8000 {
        spec_decode_extended(pc, data)
    } else {
        spec_decode_simple(pc, data)
    }
}

/// The two-bit extrabits field (bits 10..11) never exceeds 3.
proof fn lemma_two_bit_field(x: u16)
    by (bit_vector)
    ensures
        (((x & 0x0C00) >> 10) as u8) <= 3,
{
}

/// Decodes an extended-table word.
fn decoder_extended(i: Instructions) -> (r: Result<Instructions, &'static str>)
    requires
        i.mnem == Mnemonic::INVALID,
        i.extrabits is None,
        i.mct == 1,
        i.data & 0x8000 == 0x8000,
    ensures
        r is Ok <==> spec_decode_ok(i.data),
        r is Ok ==> r == Ok::<Instructions, &'static str>(spec_decode_extended(i.pc, i.data)),
{
    let mut i = i;
    let opbits: u8 = i.get_opcode();

    match opbits {
        0 => {
            let exb: u8 = ((i.data & 0x0E00) >> 9) as u8;
            i.extrabits = Some(exb);

            match exb {
                0 => i.mnem = Mnemonic::READ,
                1 => {
                    i.mnem = Mnemonic::WRITE;
                    i.mct = 2;
                },
                2 => i.mnem = Mnemonic::RAND,
                3 => i.mnem = Mnemonic::WAND,
                4 => i.mnem = Mnemonic::ROR,
                5 => i.mnem = Mnemonic::WOR,
                6 => i.mnem = Mnemonic::RXOR,
                _ => i.mnem = Mnemonic::EDRUPT,
            }
            return Ok(i);
        },
        1 => {
            let exb: u8 = ((i.data & 0x0C00) >> 10) as u8;
            i.extrabits = Some(exb);
        },
        2 => {
            let exb: u8 = ((i.data & 0x0C00) >> 10) as u8;
            i.extrabits = Some(exb);
            proof {
                lemma_two_bit_field(i.data);
            }

            match exb {
                2 => i.mnem = Mnemonic::AUG,
                3 => i.mnem = Mnemonic::DIM,
                _ => {
                    return Err("Invalid Extrabits Encoding");
                },
            }
            return Ok(i);
        },
        3 => i.mnem = Mnemonic::DCA,
        4 => i.mnem = Mnemonic::DCS,
        5 => i.mnem = Mnemonic::INDEX,
        6 => {
            let exb: u8 = ((i.data & 0x0C00) >> 10) as u8;
            i.extrabits = Some(exb);
            i.mnem = if exb == 0 {
                Mnemonic::SU
            } else {
                Mnemonic::BZMF
            };
        },
        _ => {
            i.mnem = Mnemonic::MP;
        },
    }

    Ok(i)
}

/// Decodes a basic-table word.
fn decoder_simple(i: Instructions) -> (r: Result<Instructions, &'static str>)
    requires
        i.mnem == Mnemonic::INVALID,
        i.extrabits is None,
        i.mct == 1,
    ensures
        r is Ok,
        r == Ok::<Instructions, &'static str>(spec_decode_simple(i.pc, i.data)),
{
    let mut i = i;
    let opbits: u8 = i.get_opcode();

    match opbits {
        0 => {
            i.mnem = match i.data & 0xFFF {
                3 => Mnemonic::RELINT,
                4 => Mnemonic::INHINT,
                6 => Mnemonic::EXTEND,
                _ => Mnemonic::TC,
            };
        },
        1 => {
            let exb: u8 = ((i.data & 0x0C00) >> 10) as u8;
            i.extrabits = Some(exb);
            i.mnem = if exb == 0 {
                Mnemonic::CCS
            } else {
                Mnemonic::TCF
            };
        },
        2 => {
            let exb: u8 = ((i.data & 0x0C00) >> 10) as u8;
            i.extrabits = Some(exb);

            match exb {
                0 => i.mnem = Mnemonic::DAS,
                1 => i.mnem = Mnemonic::LXCH,
                2 => i.mnem = Mnemonic::INCR,
                _ => i.mnem = Mnemonic::ADS,
            }
        },
        3 => {
            i.mnem = Mnemonic::CA;
            i.mct = 2;
        },
        4 => {
            i.mnem = Mnemonic::CS;
            i.mct = 2;
        },
        5 => {
            let exb: u8 = ((i.data & 0x0C00) >> 10) as u8;
            i.extrabits = Some(exb);

            match exb {
                0 => {
                    if i.data & 0o07777 == 0o00017 {
                        i.mnem = Mnemonic::RESUME;
                    } else {
                        i.mnem = Mnemonic::INDEX;
                    }
                },
                1 => i.mnem = Mnemonic::DXCH,
                2 => {
                    i.mnem = Mnemonic::TS;
                    i.mct = 2;
                },
                _ => i.mnem = Mnemonic::XCH,
            }
        },
        6 => {
            i.mnem = Mnemonic::AD;
            i.mct = 2;
        },
        _ => {
            i.mnem = Mnemonic::MASK;
        },
    }

    Ok(i)
}

/// Decodes a raw instruction word fetched at `pc`: selects the extended or
/// the basic table by bit 15 and returns the descriptor, or rejects the word
/// when the extrabits combination is unassigned.
pub fn decoder(pc: u16, data: u16) -> (r: Result<Instructions, &'static str>)
    ensures
        r is Ok <==> spec_decode_ok(data),
        r is Ok ==> r == Ok::<Instructions, &'static str>(spec_decode(pc, data)),
{
    let i = Instructions { pc, data, mnem: Mnemonic::INVALID, extrabits: None, mct: 1 };

    if i.is_extended() {
        decoder_extended(i)
    } else {
        decoder_simple(i)
    }
}

} // verus!
