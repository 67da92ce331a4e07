//! The execution engine: one handler per implemented mnemonic, each
//! returning its cycle cost. Every handler's effect is stated as a full
//! state transition over the CPU's ghost state.

use vstd::prelude::*;

use crate::cpu::Cpu;
use crate::cpu::CpuV;
use crate::cpu::spec_after_read;
use crate::cpu::spec_after_write;
use crate::cpu::spec_check_editing;
use crate::cpu::spec_cpu_wf;
use crate::cpu::spec_read_s15_val;
use crate::cpu::spec_read_s16_val;
use crate::cpu::spec_update_pc;
use crate::cpu::spec_write_dp;
use crate::cpu::spec_write_s15;
use crate::cpu::spec_write_s16;
use crate::instructions::Instructions;
use crate::memory::spec_io_read;
use crate::memory::spec_io_read_det;
use crate::memory::spec_io_write;
use crate::memory::spec_mem_read;
use crate::periph::IoPeriph;
use crate::utils::spec_add_s16;
use crate::utils::spec_adjust_overflow;
use crate::utils::spec_extend_sign_bits;

verus! {

/// The operand address taken from the full 12-bit field.
pub open spec fn spec_addr(cmd: Instructions) -> usize {
    (cmd.data & 0o7777) as usize
}

/// The operand address taken from the 10-bit erasable field.
pub open spec fn spec_addr_ram(cmd: Instructions) -> usize {
    (cmd.data & 0o1777) as usize
}

/// The I/O channel number taken from the low 9 bits of the data field.
pub open spec fn spec_port(cmd: Instructions) -> usize {
    ((cmd.data & 0o7777) & 0x1FF) as usize
}

/// The slot one below the operand address, wrapping at zero as the
/// double-precision instructions do.
pub open spec fn spec_base_addr(cmd: Instructions) -> usize {
    if spec_addr(cmd) == 0 {
        usize::MAX
    } else {
        (spec_addr(cmd) - 1) as usize
    }
}

/// State and cycles of AD: accumulator plus memory word under 16-bit
/// end-around-carry addition, into the accumulator.
pub open spec fn spec_ad(c: CpuV, cmd: Instructions) -> (CpuV, u16) {
    let addr = spec_addr(cmd);
    let a = spec_read_s16_val(c, 0);
    let c1 = spec_after_read(c, 0);
    let b = spec_read_s16_val(c1, addr);
    let c2 = spec_after_read(c1, addr);
    let c3 = spec_write_s16(c2, 0, spec_add_s16(a, b));
    (spec_check_editing(c3, addr), 2)
}

/// State and cycles of ADS: as AD, with the sum also stored back to the
/// erasable operand.
pub open spec fn spec_ads(c: CpuV, cmd: Instructions) -> (CpuV, u16) {
    let addr = spec_addr_ram(cmd);
    let x = spec_read_s16_val(c, 0);
    let c1 = spec_after_read(c, 0);
    let y = spec_read_s16_val(c1, addr);
    let c2 = spec_after_read(c1, addr);
    let res = spec_add_s16(x, y);
    let c3 = spec_write_s16(c2, 0, res);
    (spec_write_s16(c3, addr, res), 2)
}

/// The 14-bit magnitude of a 15-bit ones'-complement word.
pub open spec fn spec_mag15(v: u16) -> u16 {
    if v & 0o40000 != 0 {
        (!v) & 0o37777
    } else {
        v & 0o37777
    }
}

/// The 29-bit product MP leaves across the accumulator and link: the
/// magnitudes multiply, and a sign disagreement complements the product,
/// with zero magnitudes keeping the appropriate zero representation.
pub open spec fn spec_mp_product(val1: u16, val2: u16) -> u32 {
    let s1 = val1 & 0o40000;
    let s2 = val2 & 0o40000;
    let mag1 = spec_mag15(val1);
    let mag2 = spec_mag15(val2);
    let output = (((mag1 as u32) * (mag2 as u32)) as u32) & 0o1777777777;
    if s2 != s1 {
        if output == 0 || output == 0o1777777777 {
            if (mag1 | mag2) == 0 {
                0
            } else {
                0o3777777777
            }
        } else {
            (!output) & 0o3777777777
        }
    } else {
        output
    }
}

/// State and cycles of MP: the ones'-complement product of the accumulator
/// and the memory word, written double-precision across the accumulator and
/// link.
pub open spec fn spec_mp(c: CpuV, cmd: Instructions) -> (CpuV, u16) {
    let addr = spec_addr(cmd);
    let val1 = spec_read_s15_val(c, 0);
    let c1 = spec_after_read(c, 0);
    let val2 = spec_read_s15_val(c1, addr);
    let c2 = spec_after_read(c1, addr);
    (spec_write_dp(c2, 0, spec_mp_product(val1, val2)), 3)
}

/// State and cycles of SU: accumulator plus the complement of the memory
/// word under 16-bit end-around-carry addition.
pub open spec fn spec_su(c: CpuV, cmd: Instructions) -> (CpuV, u16) {
    let addr = spec_addr_ram(cmd);
    let a = spec_read_s16_val(c, 0);
    let c1 = spec_after_read(c, 0);
    let b = !spec_read_s16_val(c1, addr);
    let c2 = spec_after_read(c1, addr);
    let c3 = spec_write_s16(c2, 0, spec_add_s16(a, b));
    (spec_check_editing(c3, addr), 2)
}

/// The successor a circular increment leaves in a slot: 16-bit rollovers
/// for the accumulator and multiplier, 15-bit rollovers (skipping negative
/// zero) elsewhere.
pub open spec fn spec_incr_next(reg: usize, curr: u32) -> u32 {
    if reg == 0 || reg == 2 {
        if curr == 0o077777 {
            curr & 0o177777
        } else if curr == 0o177777 {
            0o000001
        } else {
            ((curr + 1) as u32) & 0o177777
        }
    } else {
        if curr == 0o37777 {
            0
        } else if curr == 0o77777 {
            1
        } else {
            ((curr + 1) as u32) & 0o77777
        }
    }
}

/// State and cycles of INCR: a circular increment of the erasable operand.
pub open spec fn spec_incr(c: CpuV, cmd: Instructions) -> (CpuV, u16) {
    let reg = spec_addr_ram(cmd);
    let curr = spec_mem_read(c.mem, reg) as u32;
    let c1 = spec_after_read(c, reg);
    let next = spec_incr_next(reg, curr);
    (spec_after_write(c1, reg, next as u16), 2)
}

/// State and cycles of DIM: decrement the magnitude of the operand, leaving
/// both zeros alone and mapping a positive one down to negative zero.
pub open spec fn spec_dim(c: CpuV, cmd: Instructions) -> (CpuV, u16) {
    let addr = spec_addr_ram(cmd);
    let val = spec_read_s16_val(c, addr);
    let c1 = spec_after_read(c, addr);
    if val == 0o177777 || val == 0 {
        (c1, 2)
    } else if val & 0o40000 != 0 {
        (spec_write_s16(c1, addr, (val + 1) as u16), 2)
    } else {
        (
            spec_write_s16(
                c1,
                addr,
                if val - 1 == 0 {
                    0o177777
                } else {
                    (val - 1) as u16
                },
            ),
            2,
        )
    }
}

/// State and cycles of DV: on a null dividend the accumulator takes
/// positive max when the signs agree and 0o40000 otherwise; a non-null
/// dividend leaves the accumulator alone.
pub open spec fn spec_dv(c: CpuV, cmd: Instructions) -> (CpuV, u16) {
    let addr = spec_addr_ram(cmd);
    let d = spec_read_s15_val(c, addr);
    let c1 = spec_after_read(c, addr);
    let num_high = spec_read_s15_val(c1, 0);
    let c2 = spec_after_read(c1, 0);
    let num_low = spec_read_s15_val(c2, 1);
    let c3 = spec_after_read(c2, 1);
    let s_div = d & 0o40000;
    let high_null = num_high == 0o77777 || num_high == 0;
    let s_num = if high_null {
        num_low & 0o40000
    } else {
        num_high & 0o40000
    };
    if high_null && (num_low == 0o77777 || num_low == 0) {
        (
            spec_write_s15(
                c3,
                0,
                if s_num ^ s_div == 0 {
                    0o37777
                } else {
                    0o40000
                },
            ),
            6,
        )
    } else {
        (c3, 6)
    }
}

/// State and cycles of CS: the bitwise complement of the memory word,
/// loaded into the accumulator.
pub open spec fn spec_cs(c: CpuV, cmd: Instructions) -> (CpuV, u16) {
    let location = spec_addr(cmd);
    let inv = !spec_read_s16_val(c, location) & 0xFFFF;
    let c1 = spec_after_read(c, location);
    let c2 = spec_write_s16(c1, 0, inv);
    (spec_check_editing(c2, location), 2)
}

/// State and cycles of CA: the memory word loaded into the accumulator.
pub open spec fn spec_ca(c: CpuV, cmd: Instructions) -> (CpuV, u16) {
    let source = spec_addr(cmd);
    let data = spec_read_s16_val(c, source);
    let c1 = spec_after_read(c, source);
    let c2 = spec_write_s16(c1, 0, data);
    (spec_check_editing(c2, source), 2)
}

/// State and cycles of DCS: the complements of two consecutive words
/// (high word at the lower address) loaded raw into the accumulator and
/// link.
pub open spec fn spec_dcs(c: CpuV, cmd: Instructions) -> (CpuV, u16) {
    let addr = spec_addr(cmd);
    let base = spec_base_addr(cmd);
    let negated_low = !spec_read_s16_val(c, addr) & 0xFFFF;
    let c1 = spec_after_read(c, addr);
    let c2 = spec_after_write(c1, 1, negated_low);
    let negated_high = !spec_read_s16_val(c2, base) & 0xFFFF;
    let c3 = spec_after_read(c2, base);
    let c4 = spec_after_write(c3, 0, negated_high);
    let c5 = spec_check_editing(c4, addr);
    (spec_check_editing(c5, base), 3)
}

/// State and cycles of DCA: two consecutive words (high word at the lower
/// address) loaded into the accumulator and link.
pub open spec fn spec_dca(c: CpuV, cmd: Instructions) -> (CpuV, u16) {
    let addr = spec_addr(cmd);
    let base = spec_base_addr(cmd);
    let low_word = spec_read_s16_val(c, addr);
    let c1 = spec_after_read(c, addr);
    let c2 = spec_write_s16(c1, 1, low_word);
    let high_word = spec_read_s16_val(c2, base);
    let c3 = spec_after_read(c2, base);
    let c4 = spec_write_s16(c3, 0, high_word);
    let c5 = spec_check_editing(c4, addr);
    (spec_check_editing(c5, base), 3)
}

/// State and cycles of LXCH: exchange the link register with the erasable
/// operand.
pub open spec fn spec_lxch(c: CpuV, cmd: Instructions) -> (CpuV, u16) {
    let swap_addr = spec_addr_ram(cmd);
    let l_val = spec_read_s16_val(c, 1);
    let c1 = spec_after_read(c, 1);
    let mem_val = spec_read_s16_val(c1, swap_addr);
    let c2 = spec_after_read(c1, swap_addr);
    let c3 = spec_write_s16(c2, 1, mem_val);
    (spec_write_s16(c3, swap_addr, l_val), 2)
}

/// State and cycles of QXCH: exchange the return register with the
/// erasable operand.
pub open spec fn spec_qxch(c: CpuV, cmd: Instructions) -> (CpuV, u16) {
    let target = spec_addr_ram(cmd);
    let temp = spec_read_s16_val(c, target);
    let c1 = spec_after_read(c, target);
    let lr = spec_read_s16_val(c1, 2);
    let c2 = spec_after_read(c1, 2);
    let c3 = spec_write_s16(c2, target, lr);
    (spec_write_s16(c3, 2, temp), 2)
}

/// State and cycles of XCH: exchange the accumulator with the erasable
/// operand, overflow-adjusting the stored value.
pub open spec fn spec_xch(c: CpuV, cmd: Instructions) -> (CpuV, u16) {
    let ex = spec_addr_ram(cmd);
    let mem_data = spec_read_s16_val(c, ex);
    let c1 = spec_after_read(c, ex);
    let a_val = spec_read_s16_val(c1, 0);
    let c2 = spec_after_read(c1, 0);
    let c3 = spec_write_s16(c2, ex, spec_adjust_overflow(a_val));
    (spec_write_s16(c3, 0, mem_data), 2)
}

/// State and cycles of BZF: when the accumulator holds either zero
/// representation, jump to the 12-bit target (one cycle); otherwise fall
/// through (two cycles). The extend flag clears either way.
pub open spec fn spec_bzf(c: CpuV, cmd: Instructions) -> (CpuV, u16) {
    let c0 = CpuV { ec_flag: false, ..c };
    let reg_a = spec_mem_read(c0.mem, 0);
    if reg_a == 0 || reg_a == 0xFFFF {
        let destination = (cmd.data & 0o7777) & 0xFFF;
        (spec_update_pc(c0, destination), 1)
    } else {
        (c0, 2)
    }
}

/// State and cycles of BZMF: as BZF, but the branch is taken when the
/// accumulator is zero or negative (bit 15 set).
pub open spec fn spec_bzmf(c: CpuV, cmd: Instructions) -> (CpuV, u16) {
    let c0 = CpuV { ec_flag: false, ..c };
    let reg_a = spec_mem_read(c0.mem, 0);
    if reg_a == 0 || reg_a & 0x8000 != 0 {
        let destination = (cmd.data & 0o7777) & 0xFFF;
        (spec_update_pc(c0, destination), 1)
    } else {
        (c0, 2)
    }
}

/// State and cycles of TCF: an unconditional jump that clears the extend
/// flag.
pub open spec fn spec_tcf(c: CpuV, cmd: Instructions) -> (CpuV, u16) {
    let jump_target = cmd.data & 0o7777;
    (CpuV { ec_flag: false, ..spec_update_pc(c, jump_target) }, 1)
}

/// State and cycles of TC: a subroutine call; the return register takes
/// the current counter, the counter takes the target.
pub open spec fn spec_tc(c: CpuV, cmd: Instructions) -> (CpuV, u16) {
    let new_pc = cmd.data & 0o7777;
    let current_pc = spec_mem_read(c.mem, 5);
    let c1 = spec_update_pc(c, new_pc);
    let c2 = spec_after_write(c1, 2, current_pc);
    (CpuV { ec_flag: false, ..c2 }, 1)
}

/// State and cycles of INHINT: clear the global interrupt enable.
pub open spec fn spec_inhint(c: CpuV, cmd: Instructions) -> (CpuV, u16) {
    (CpuV { gint: false, ..c }, 1)
}

/// State and cycles of RELINT: set the global interrupt enable.
pub open spec fn spec_relint(c: CpuV, cmd: Instructions) -> (CpuV, u16) {
    (CpuV { gint: true, ..c }, 1)
}

/// State and cycles of EDRUPT: clear the global interrupt enable.
pub open spec fn spec_edrupt(c: CpuV, cmd: Instructions) -> (CpuV, u16) {
    (CpuV { gint: false, ..c }, 3)
}

/// State and cycles of RESUME: the counter restores from its backup less
/// one (the pre-fetch reasserts), the instruction register restores from
/// its backup, the index clears, interrupts re-enable, and the in-interrupt
/// flag clears.
pub open spec fn spec_resume(c: CpuV, cmd: Instructions) -> (CpuV, u16) {
    let shadow_pc = vstd::wrapping::u16_specs::wrapping_sub(spec_mem_read(c.mem, 0xD), 1);
    let c1 = spec_after_write(c, 5, shadow_pc);
    let c2 = CpuV { ir: spec_mem_read(c1.mem, 0xF), idx_val: 0, gint: true, is_irupt: false, ..c1 };
    (c2, 2)
}

/// State and cycles of ROR: OR the channel word into the accumulator.
pub open spec fn spec_ror(c: CpuV, cmd: Instructions, pv: u16) -> (CpuV, u16) {
    let port = spec_port(cmd);
    let port_value = spec_io_read(c.mem, port, pv);
    if port == 2 {
        let result = spec_read_s16_val(c, 0) | port_value;
        (spec_write_s16(spec_after_read(c, 0), 0, result), 2)
    } else {
        let masked_result = spec_read_s15_val(c, 0) | (port_value & 0x7FFF);
        (spec_write_s15(spec_after_read(c, 0), 0, masked_result & 0x7FFF), 2)
    }
}

/// State and cycles of RAND: AND the channel word into the accumulator.
pub open spec fn spec_rand(c: CpuV, cmd: Instructions, pv: u16) -> (CpuV, u16) {
    let port = spec_port(cmd);
    let port_value = spec_io_read(c.mem, port, pv);
    if port == 2 {
        let result = spec_read_s16_val(c, 0) & port_value;
        (spec_write_s16(spec_after_read(c, 0), 0, result), 2)
    } else {
        let masked_result = spec_read_s15_val(c, 0) & (port_value & 0x7FFF);
        (spec_write_s15(spec_after_read(c, 0), 0, masked_result & 0x7FFF), 2)
    }
}

/// State and cycles of RXOR: XOR the channel word into the accumulator.
pub open spec fn spec_rxor(c: CpuV, cmd: Instructions, pv: u16) -> (CpuV, u16) {
    let port = spec_port(cmd);
    let port_value = spec_io_read(c.mem, port, pv);
    if port == 2 {
        let result = spec_read_s16_val(c, 0) ^ port_value;
        (spec_write_s16(spec_after_read(c, 0), 0, result), 2)
    } else {
        let xor_result = spec_read_s15_val(c, 0) ^ (port_value & 0x7FFF);
        (spec_write_s15(spec_after_read(c, 0), 0, xor_result & 0x7FFF), 2)
    }
}

/// State and cycles of WOR: OR the channel word into the accumulator and
/// write the combined value back to the channel.
pub open spec fn spec_wor(c: CpuV, cmd: Instructions, pv: u16) -> (CpuV, u16) {
    let port = spec_port(cmd);
    let port_data = spec_io_read(c.mem, port, pv);
    if port == 2 {
        let new_value = spec_read_s16_val(c, 0) | port_data;
        let c1 = spec_write_s16(spec_after_read(c, 0), 0, new_value);
        (CpuV { mem: spec_io_write(c1.mem, port, new_value), ..c1 }, 2)
    } else {
        let masked_value = spec_read_s15_val(c, 0) | (port_data & 0x7FFF);
        let c1 = spec_write_s15(spec_after_read(c, 0), 0, masked_value);
        (CpuV { mem: spec_io_write(c1.mem, port, masked_value & 0x7FFF), ..c1 }, 2)
    }
}

/// State and cycles of WAND: AND the channel word into the accumulator and
/// write the combined value back to the channel.
pub open spec fn spec_wand(c: CpuV, cmd: Instructions, pv: u16) -> (CpuV, u16) {
    let port = spec_port(cmd);
    let port_data = spec_io_read(c.mem, port, pv);
    if port == 2 {
        let new_value = spec_read_s16_val(c, 0) & port_data;
        let c1 = spec_write_s16(spec_after_read(c, 0), 0, new_value);
        (CpuV { mem: spec_io_write(c1.mem, port, new_value), ..c1 }, 2)
    } else {
        let masked_value = spec_read_s15_val(c, 0) & (port_data & 0x7FFF);
        let c1 = spec_write_s15(spec_after_read(c, 0), 0, masked_value);
        (CpuV { mem: spec_io_write(c1.mem, port, masked_value & 0x7FFF), ..c1 }, 2)
    }
}

/// State and cycles of READ: load the channel word into the accumulator,
/// sign-extending it except on the 16-bit channel 2.
pub open spec fn spec_read_instr(c: CpuV, cmd: Instructions, pv: u16) -> (CpuV, u16) {
    let port = spec_port(cmd);
    let raw = spec_io_read(c.mem, port, pv);
    let input_data = if port == 2 {
        raw
    } else {
        spec_extend_sign_bits(raw)
    };
    (spec_write_s16(c, 0, input_data), 2)
}

/// State and cycles of WRITE: store the accumulator to the channel,
/// overflow-adjusted to 15 bits except on the 16-bit channel 2.
pub open spec fn spec_write_instr(c: CpuV, cmd: Instructions) -> (CpuV, u16) {
    let port = spec_port(cmd);
    let data = spec_read_s16_val(c, 0);
    let c1 = spec_after_read(c, 0);
    if port == 2 {
        (CpuV { mem: spec_io_write(c1.mem, port, data), ..c1 }, 2)
    } else {
        (
            CpuV {
                mem: spec_io_write(c1.mem, port, spec_adjust_overflow(data) & 0x7FFF),
                ..c1
            },
            2,
        )
    }
}

impl<D: IoPeriph, K: IoPeriph> Cpu<D, K> {
    /// AD: 16-bit end-around-carry addition of the accumulator and the
    /// memory word.
    pub fn ad(&mut self, cmd: &Instructions) -> (r: u16)
        requires
            spec_cpu_wf(old(self)@),
        ensures
            spec_cpu_wf(final(self)@),
            (final(self)@, r) == spec_ad(old(self)@, *cmd),
    {
        let a: u16 = self.read_s16(crate::registers::REGISTER_ACCUMULATOR);
        let b: u16 = self.read_s16(cmd.get_address());
        let c: u16 = crate::utils::add_s16(a, b);

        self.write_s16(crate::registers::REGISTER_ACCUMULATOR, c);
        self.check_editing(cmd.get_address());
        2
    }

    /// ADS: as AD, storing the sum back to the erasable operand as well.
    pub fn ads(&mut self, cmd: &Instructions) -> (r: u16)
        requires
            spec_cpu_wf(old(self)@),
        ensures
            spec_cpu_wf(final(self)@),
            (final(self)@, r) == spec_ads(old(self)@, *cmd),
    {
        let x: u16 = self.read_s16(crate::registers::REGISTER_ACCUMULATOR);
        let y: u16 = self.read_s16(cmd.get_address_ram());
        let res: u16 = crate::utils::add_s16(x, y);

        self.write_s16(crate::registers::REGISTER_ACCUMULATOR, res);
        self.write_s16(cmd.get_address_ram(), res);
        2
    }

    /// MP: ones'-complement multiply into the accumulator/link pair.
    pub fn mp(&mut self, cmd: &Instructions) -> (r: u16)
        requires
            spec_cpu_wf(old(self)@),
        ensures
            spec_cpu_wf(final(self)@),
            (final(self)@, r) == spec_mp(old(self)@, *cmd),
    {
        let val1: u16 = self.read_s15(crate::registers::REGISTER_ACCUMULATOR);
        let s1: u16 = val1 & 0o40000;
        let mag1: u16 = if s1 != 0 {
            (!val1) & 0o37777
        } else {
            val1 & 0o37777
        };

        let val2: u16 = self.read_s15(cmd.get_address());
        let s2: u16 = val2 & 0o40000;
        let mag2: u16 = if s2 != 0 {
            (!val2) & 0o37777
        } else {
            val2 & 0o37777
        };

        proof {
            crate::utils::lemma_u16_and_le(!val1, 0o37777);
            crate::utils::lemma_u16_and_le(val1, 0o37777);
            crate::utils::lemma_u16_and_le(!val2, 0o37777);
            crate::utils::lemma_u16_and_le(val2, 0o37777);
            assert(mag1 as u32 * mag2 as u32 <= 0o37777u32 * 0o37777u32) by (nonlinear_arith)
                requires
                    mag1 <= 0o37777,
                    mag2 <= 0o37777,
            ;
        }
        let mut output: u32 = (mag1 as u32 * mag2 as u32) & 0o1777777777;
        if s2 != s1 {
            if output == 0o0000000000 || output == 0o1777777777 {
                output = if (mag1 | mag2) == 0 {
                    0
                } else {
                    0o3777777777
                };
            } else {
                output = (!output) & 0o3777777777;
            }
        }
        self.write_dp(crate::registers::REGISTER_ACCUMULATOR, output);
        3
    }

    /// INCR: circular increment of the erasable operand.
    pub fn incr(&mut self, cmd: &Instructions) -> (r: u16)
        requires
            spec_cpu_wf(old(self)@),
        ensures
            spec_cpu_wf(final(self)@),
            (final(self)@, r) == spec_incr(old(self)@, *cmd),
    {
        let reg: usize = cmd.get_address_ram();
        let curr: u32 = self.read(reg) as u32;

        let next: u32 = if reg == crate::registers::REGISTER_ACCUMULATOR || reg
            == crate::registers::REGISTER_MULTIPLIER {
            if curr == 0o077777 {
                curr & 0o177777
            } else if curr == 0o177777 {
                0o000001
            } else {
                (curr + 1) & 0o177777
            }
        } else {
            if curr == 0o37777 {
                0
            } else if curr == 0o77777 {
                1
            } else {
                (curr + 1) & 0o77777
            }
        };

        self.write(reg, next as u16);
        2
    }

    /// SU: ones'-complement subtraction, accumulator minus the erasable
    /// operand.
    pub fn su(&mut self, cmd: &Instructions) -> (r: u16)
        requires
            spec_cpu_wf(old(self)@),
        ensures
            spec_cpu_wf(final(self)@),
            (final(self)@, r) == spec_su(old(self)@, *cmd),
    {
        let a: u16 = self.read_s16(crate::registers::REGISTER_ACCUMULATOR);
        let m: u16 = self.read_s16(cmd.get_address_ram());
        let b: u16 = !m;
        let c: u16 = crate::utils::add_s16(a, b);
        self.write_s16(crate::registers::REGISTER_ACCUMULATOR, c);
        self.check_editing(cmd.get_address_ram());
        2
    }

    /// DIM: decrement the operand's magnitude, leaving both zeros alone.
    pub fn dim(&mut self, cmd: &Instructions) -> (r: u16)
        requires
            spec_cpu_wf(old(self)@),
        ensures
            spec_cpu_wf(final(self)@),
            (final(self)@, r) == spec_dim(old(self)@, *cmd),
    {
        let addr: usize = cmd.get_address_ram();
        let val: u16 = self.read_s16(addr);

        if val == 0o177777 || val == 0 {
        } else if val & 0o40000 != 0 {
            self.write_s16(addr, val + 1);
        } else {
            self.write_s16(
                addr,
                if val - 1 == 0 {
                    0o177777
                } else {
                    val - 1
                },
            );
        }
        2
    }

    /// DV: on a null dividend, load the accumulator with the signed
    /// saturation value; otherwise leave it alone.
    pub fn dv(&mut self, cmd: &Instructions) -> (r: u16)
        requires
            spec_cpu_wf(old(self)@),
        ensures
            spec_cpu_wf(final(self)@),
            (final(self)@, r) == spec_dv(old(self)@, *cmd),
    {
        let d: u16 = self.read_s15(cmd.get_address_ram());
        let num_high: u16 = self.read_s15(crate::registers::REGISTER_ACCUMULATOR);
        let num_low: u16 = self.read_s15(crate::registers::REGISTER_LINK);

        let s_div: u16 = d & 0o40000;
        let high_null: bool = num_high == 0o77777 || num_high == 0;
        let s_num: u16 = if high_null {
            num_low & 0o40000
        } else {
            num_high & 0o40000
        };

        if high_null && (num_low == 0o77777 || num_low == 0) {
            self.write_s15(
                crate::registers::REGISTER_ACCUMULATOR,
                if s_num ^ s_div == 0 {
                    0o37777
                } else {
                    0o40000
                },
            );
        }
        6
    }

    /// CS: load the bitwise complement of the memory word into the
    /// accumulator.
    pub fn cs(&mut self, cmd: &Instructions) -> (r: u16)
        requires
            spec_cpu_wf(old(self)@),
        ensures
            spec_cpu_wf(final(self)@),
            (final(self)@, r) == spec_cs(old(self)@, *cmd),
    {
        let location: usize = cmd.get_data() as usize;
        let read_value: u16 = self.read_s16(location);
        let inverted_value: u16 = !read_value & 0xFFFF;
        self.write_s16(crate::registers::REGISTER_ACCUMULATOR, inverted_value);
        self.check_editing(cmd.get_address());
        2
    }

    /// CA: load the memory word into the accumulator.
    pub fn ca(&mut self, cmd: &Instructions) -> (r: u16)
        requires
            spec_cpu_wf(old(self)@),
        ensures
            spec_cpu_wf(final(self)@),
            (final(self)@, r) == spec_ca(old(self)@, *cmd),
    {
        let source: usize = cmd.get_data() as usize;
        let data: u16 = self.read_s16(source);
        self.write_s16(crate::registers::REGISTER_ACCUMULATOR, data);
        self.check_editing(source);
        2
    }

    /// DCS: load the complements of two consecutive words into the
    /// accumulator and link.
    pub fn dcs(&mut self, cmd: &Instructions) -> (r: u16)
        requires
            spec_cpu_wf(old(self)@),
        ensures
            spec_cpu_wf(final(self)@),
            (final(self)@, r) == spec_dcs(old(self)@, *cmd),
    {
        let addr: usize = cmd.get_address();
        let base_addr: usize = if addr == 0 {
            usize::MAX
        } else {
            addr - 1
        };

        let low_read: u16 = self.read_s16(addr);
        let negated_low: u16 = !low_read & 0xFFFF;
        self.write(crate::registers::REGISTER_LINK, negated_low);

        let high_read: u16 = self.read_s16(base_addr);
        let negated_high: u16 = !high_read & 0xFFFF;
        self.write(crate::registers::REGISTER_ACCUMULATOR, negated_high);

        self.check_editing(addr);
        self.check_editing(base_addr);
        3
    }

    /// DCA: load two consecutive words into the accumulator and link.
    pub fn dca(&mut self, cmd: &Instructions) -> (r: u16)
        requires
            spec_cpu_wf(old(self)@),
        ensures
            spec_cpu_wf(final(self)@),
            (final(self)@, r) == spec_dca(old(self)@, *cmd),
    {
        let addr: usize = cmd.get_address();
        let base_address: usize = if addr == 0 {
            usize::MAX
        } else {
            addr - 1
        };

        let low_word: u16 = self.read_s16(addr);
        self.write_s16(crate::registers::REGISTER_LINK, low_word);

        let high_word: u16 = self.read_s16(base_address);
        self.write_s16(crate::registers::REGISTER_ACCUMULATOR, high_word);

        self.check_editing(addr);
        self.check_editing(base_address);
        3
    }

    /// LXCH: exchange the link register with the erasable operand.
    pub fn lxch(&mut self, cmd: &Instructions) -> (r: u16)
        requires
            spec_cpu_wf(old(self)@),
        ensures
            spec_cpu_wf(final(self)@),
            (final(self)@, r) == spec_lxch(old(self)@, *cmd),
    {
        let swap_addr: usize = cmd.get_address_ram();

        let l_reg_value: u16 = self.read_s16(crate::registers::REGISTER_LINK);
        let mem_value: u16 = self.read_s16(swap_addr);

        self.write_s16(crate::registers::REGISTER_LINK, mem_value);
        self.write_s16(swap_addr, l_reg_value);
        2
    }

    /// QXCH: exchange the return register with the erasable operand.
    pub fn qxch(&mut self, cmd: &Instructions) -> (r: u16)
        requires
            spec_cpu_wf(old(self)@),
        ensures
            spec_cpu_wf(final(self)@),
            (final(self)@, r) == spec_qxch(old(self)@, *cmd),
    {
        let target_addr: usize = cmd.get_address_ram();
        let temp_value: u16 = self.read_s16(target_addr);
        let lr_value: u16 = self.read_s16(crate::registers::REGISTER_RETURN);

        self.write_s16(target_addr, lr_value);
        self.write_s16(crate::registers::REGISTER_RETURN, temp_value);
        2
    }

    /// XCH: exchange the accumulator with the erasable operand, applying
    /// overflow adjustment to the stored value.
    pub fn xch(&mut self, cmd: &Instructions) -> (r: u16)
        requires
            spec_cpu_wf(old(self)@),
        ensures
            spec_cpu_wf(final(self)@),
            (final(self)@, r) == spec_xch(old(self)@, *cmd),
    {
        let exchange_addr: usize = cmd.get_address_ram();
        let mem_data: u16 = self.read_s16(exchange_addr);
        let a_reg_value: u16 = self.read_s16(crate::registers::REGISTER_ACCUMULATOR);

        let adjusted: u16 = crate::utils::adjust_overflow(a_reg_value);
        self.write_s16(exchange_addr, adjusted);
        self.write_s16(crate::registers::REGISTER_ACCUMULATOR, mem_data);
        2
    }

    /// BZF: branch to fixed memory when the accumulator holds either zero.
    pub fn bzf(&mut self, cmd: &Instructions) -> (r: u16)
        requires
            spec_cpu_wf(old(self)@),
        ensures
            spec_cpu_wf(final(self)@),
            (final(self)@, r) == spec_bzf(old(self)@, *cmd),
    {
        self.ec_flag = false;

        let reg_a: u16 = self.read(crate::registers::REGISTER_ACCUMULATOR);
        if reg_a == 0 || reg_a == 0xFFFF {
            let destination: u16 = cmd.get_data() & 0xFFF;
            self.write(crate::registers::REGISTER_COUNTER, destination);
            self.ir = self.read(destination as usize);
            1
        } else {
            2
        }
    }

    /// BZMF: branch to fixed memory when the accumulator is zero or minus.
    pub fn bzmf(&mut self, cmd: &Instructions) -> (r: u16)
        requires
            spec_cpu_wf(old(self)@),
        ensures
            spec_cpu_wf(final(self)@),
            (final(self)@, r) == spec_bzmf(old(self)@, *cmd),
    {
        self.ec_flag = false;

        let reg_a: u16 = self.read(crate::registers::REGISTER_ACCUMULATOR);
        if reg_a == 0 || reg_a & 0x8000 != 0 {
            let destination: u16 = cmd.get_data() & 0xFFF;
            self.write(crate::registers::REGISTER_COUNTER, destination);
            self.ir = self.read(destination as usize);
            1
        } else {
            2
        }
    }

    /// TCF: an unconditional jump clearing the extend flag.
    pub fn tcf(&mut self, cmd: &Instructions) -> (r: u16)
        requires
            spec_cpu_wf(old(self)@),
        ensures
            spec_cpu_wf(final(self)@),
            (final(self)@, r) == spec_tcf(old(self)@, *cmd),
    {
        let jump_target: u16 = cmd.get_data();
        self.update_pc(jump_target);
        self.ec_flag = false;
        1
    }

    /// TC: a subroutine call storing the return address.
    pub fn tc(&mut self, cmd: &Instructions) -> (r: u16)
        requires
            spec_cpu_wf(old(self)@),
        ensures
            spec_cpu_wf(final(self)@),
            (final(self)@, r) == spec_tc(old(self)@, *cmd),
    {
        let new_pc: u16 = cmd.get_data();
        let current_pc: u16 = self.read(crate::registers::REGISTER_COUNTER);

        self.update_pc(new_pc);
        self.write(crate::registers::REGISTER_RETURN, current_pc);
        self.ec_flag = false;

        1
    }

    /// INHINT: inhibit interrupts.
    pub fn inhint(&mut self, cmd: &Instructions) -> (r: u16)
        requires
            spec_cpu_wf(old(self)@),
        ensures
            spec_cpu_wf(final(self)@),
            (final(self)@, r) == spec_inhint(old(self)@, *cmd),
    {
        self.gint = false;
        1
    }

    /// RELINT: release interrupts.
    pub fn relint(&mut self, cmd: &Instructions) -> (r: u16)
        requires
            spec_cpu_wf(old(self)@),
        ensures
            spec_cpu_wf(final(self)@),
            (final(self)@, r) == spec_relint(old(self)@, *cmd),
    {
        self.gint = true;
        1
    }

    /// EDRUPT: inhibit interrupts during emergency handling.
    pub fn edrupt(&mut self, cmd: &Instructions) -> (r: u16)
        requires
            spec_cpu_wf(old(self)@),
        ensures
            spec_cpu_wf(final(self)@),
            (final(self)@, r) == spec_edrupt(old(self)@, *cmd),
    {
        self.gint = false;
        3
    }

    /// RESUME: return from an interrupt, restoring the pre-interrupt state
    /// from the backup registers.
    pub fn resume(&mut self, cmd: &Instructions) -> (r: u16)
        requires
            spec_cpu_wf(old(self)@),
        ensures
            spec_cpu_wf(final(self)@),
            (final(self)@, r) == spec_resume(old(self)@, *cmd),
    {
        let backup: u16 = self.read(crate::registers::REGISTER_COUNTER_BACKUP);
        let shadow_pc: u16 = backup.wrapping_sub(1);
        self.write(crate::registers::REGISTER_COUNTER, shadow_pc);
        self.ir = self.read(crate::registers::REGISTER_INSTRUCTION);
        self.idx_val = 0;

        self.gint = true;
        self.is_irupt = false;

        2
    }

    /// ROR: OR a channel word into the accumulator.
    pub fn ror(&mut self, cmd: &Instructions) -> (r: u16)
        requires
            spec_cpu_wf(old(self)@),
        ensures
            spec_cpu_wf(final(self)@),
            spec_io_read_det(old(self)@.mem, spec_port(*cmd)) ==> (final(self)@, r) == spec_ror(
                old(self)@,
                *cmd,
                0,
            ),
            exists|pv: u16| (final(self)@, r) == spec_ror(old(self)@, *cmd, pv),
    {
        let ghost c0 = self@;
        let port: u16 = cmd.get_data() & 0x1FF;
        let port_value: u16 = self.read_io(port as usize);
        let ghost pv = if spec_io_read_det(c0.mem, spec_port(*cmd)) {
            0u16
        } else {
            choose|pv: u16| port_value == spec_io_read(c0.mem, spec_port(*cmd), pv)
        };

        if port == 2 {
            let a: u16 = self.read_s16(crate::registers::REGISTER_ACCUMULATOR);
            let result: u16 = a | port_value;
            self.write_s16(crate::registers::REGISTER_ACCUMULATOR, result);
        } else {
            let a: u16 = self.read_s15(crate::registers::REGISTER_ACCUMULATOR);
            let masked_result: u16 = a | (port_value & 0x7FFF);
            self.write_s15(crate::registers::REGISTER_ACCUMULATOR, masked_result & 0x7FFF);
        }
        proof {
            assert((self@, 2u16) == spec_ror(c0, *cmd, pv));
        }
        2
    }

    /// RAND: AND a channel word into the accumulator.
    pub fn rand(&mut self, cmd: &Instructions) -> (r: u16)
        requires
            spec_cpu_wf(old(self)@),
        ensures
            spec_cpu_wf(final(self)@),
            spec_io_read_det(old(self)@.mem, spec_port(*cmd)) ==> (final(self)@, r) == spec_rand(
                old(self)@,
                *cmd,
                0,
            ),
            exists|pv: u16| (final(self)@, r) == spec_rand(old(self)@, *cmd, pv),
    {
        let ghost c0 = self@;
        let port: u16 = cmd.get_data() & 0x1FF;
        let port_value: u16 = self.read_io(port as usize);
        let ghost pv = if spec_io_read_det(c0.mem, spec_port(*cmd)) {
            0u16
        } else {
            choose|pv: u16| port_value == spec_io_read(c0.mem, spec_port(*cmd), pv)
        };

        if port == 2 {
            let a: u16 = self.read_s16(crate::registers::REGISTER_ACCUMULATOR);
            let result: u16 = a & port_value;
            self.write_s16(crate::registers::REGISTER_ACCUMULATOR, result);
        } else {
            let a: u16 = self.read_s15(crate::registers::REGISTER_ACCUMULATOR);
            let masked_result: u16 = a & (port_value & 0x7FFF);
            self.write_s15(crate::registers::REGISTER_ACCUMULATOR, masked_result & 0x7FFF);
        }
        proof {
            assert((self@, 2u16) == spec_rand(c0, *cmd, pv));
        }
        2
    }

    /// RXOR: XOR a channel word into the accumulator.
    pub fn rxor(&mut self, cmd: &Instructions) -> (r: u16)
        requires
            spec_cpu_wf(old(self)@),
        ensures
            spec_cpu_wf(final(self)@),
            spec_io_read_det(old(self)@.mem, spec_port(*cmd)) ==> (final(self)@, r) == spec_rxor(
                old(self)@,
                *cmd,
                0,
            ),
            exists|pv: u16| (final(self)@, r) == spec_rxor(old(self)@, *cmd, pv),
    {
        let ghost c0 = self@;
        let port: u16 = cmd.get_data() & 0x1FF;
        let port_value: u16 = self.read_io(port as usize);
        let ghost pv = if spec_io_read_det(c0.mem, spec_port(*cmd)) {
            0u16
        } else {
            choose|pv: u16| port_value == spec_io_read(c0.mem, spec_port(*cmd), pv)
        };

        if port == 2 {
            let a: u16 = self.read_s16(crate::registers::REGISTER_ACCUMULATOR);
            let result: u16 = a ^ port_value;
            self.write_s16(crate::registers::REGISTER_ACCUMULATOR, result);
        } else {
            let a: u16 = self.read_s15(crate::registers::REGISTER_ACCUMULATOR);
            let xor_result: u16 = a ^ (port_value & 0x7FFF);
            self.write_s15(crate::registers::REGISTER_ACCUMULATOR, xor_result & 0x7FFF);
        }
        proof {
            assert((self@, 2u16) == spec_rxor(c0, *cmd, pv));
        }
        2
    }

    /// WOR: OR a channel word into the accumulator and write the result
    /// back to the channel.
    pub fn wor(&mut self, cmd: &Instructions) -> (r: u16)
        requires
            spec_cpu_wf(old(self)@),
        ensures
            spec_cpu_wf(final(self)@),
            spec_io_read_det(old(self)@.mem, spec_port(*cmd)) ==> (final(self)@, r) == spec_wor(
                old(self)@,
                *cmd,
                0,
            ),
            exists|pv: u16| (final(self)@, r) == spec_wor(old(self)@, *cmd, pv),
    {
        let ghost c0 = self@;
        let port: usize = (cmd.get_data() & 0x1FF) as usize;
        let port_data: u16 = self.read_io(port);
        let ghost pv = if spec_io_read_det(c0.mem, spec_port(*cmd)) {
            0u16
        } else {
            choose|pv: u16| port_data == spec_io_read(c0.mem, spec_port(*cmd), pv)
        };

        if port == 2 {
            let a: u16 = self.read_s16(crate::registers::REGISTER_ACCUMULATOR);
            let new_value: u16 = a | port_data;
            self.write_s16(crate::registers::REGISTER_ACCUMULATOR, new_value);
            self.write_io(port, new_value);
        } else {
            let a: u16 = self.read_s15(crate::registers::REGISTER_ACCUMULATOR);
            let masked_value: u16 = a | (port_data & 0x7FFF);
            self.write_s15(crate::registers::REGISTER_ACCUMULATOR, masked_value);
            self.write_io(port, masked_value & 0x7FFF);
        }
        proof {
            assert((self@, 2u16) == spec_wor(c0, *cmd, pv));
        }
        2
    }

    /// WAND: AND a channel word into the accumulator and write the result
    /// back to the channel.
    pub fn wand(&mut self, cmd: &Instructions) -> (r: u16)
        requires
            spec_cpu_wf(old(self)@),
        ensures
            spec_cpu_wf(final(self)@),
            spec_io_read_det(old(self)@.mem, spec_port(*cmd)) ==> (final(self)@, r) == spec_wand(
                old(self)@,
                *cmd,
                0,
            ),
            exists|pv: u16| (final(self)@, r) == spec_wand(old(self)@, *cmd, pv),
    {
        let ghost c0 = self@;
        let port: usize = (cmd.get_data() & 0x1FF) as usize;
        let port_data: u16 = self.read_io(port);
        let ghost pv = if spec_io_read_det(c0.mem, spec_port(*cmd)) {
            0u16
        } else {
            choose|pv: u16| port_data == spec_io_read(c0.mem, spec_port(*cmd), pv)
        };

        if port == 2 {
            let a: u16 = self.read_s16(crate::registers::REGISTER_ACCUMULATOR);
            let new_value: u16 = a & port_data;
            self.write_s16(crate::registers::REGISTER_ACCUMULATOR, new_value);
            self.write_io(port, new_value);
        } else {
            let a: u16 = self.read_s15(crate::registers::REGISTER_ACCUMULATOR);
            let masked_value: u16 = a & (port_data & 0x7FFF);
            self.write_s15(crate::registers::REGISTER_ACCUMULATOR, masked_value);
            self.write_io(port, masked_value & 0x7FFF);
        }
        proof {
            assert((self@, 2u16) == spec_wand(c0, *cmd, pv));
        }
        2
    }

    /// READ: load a channel word into the accumulator.
    pub fn read_instr(&mut self, cmd: &Instructions) -> (r: u16)
        requires
            spec_cpu_wf(old(self)@),
        ensures
            spec_cpu_wf(final(self)@),
            spec_io_read_det(old(self)@.mem, spec_port(*cmd)) ==> (final(self)@, r)
                == spec_read_instr(old(self)@, *cmd, 0),
            exists|pv: u16| (final(self)@, r) == spec_read_instr(old(self)@, *cmd, pv),
    {
        let ghost c0 = self@;
        let port: u16 = cmd.get_data() & 0x1FF;
        let raw: u16 = self.read_io(port as usize);
        let ghost pv = if spec_io_read_det(c0.mem, spec_port(*cmd)) {
            0u16
        } else {
            choose|pv: u16| raw == spec_io_read(c0.mem, spec_port(*cmd), pv)
        };
        let input_data: u16 = if port == 2 {
            raw
        } else {
            crate::utils::extend_sign_bits(raw)
        };
        self.write_s16(crate::registers::REGISTER_ACCUMULATOR, input_data);
        proof {
            assert((self@, 2u16) == spec_read_instr(c0, *cmd, pv));
        }
        2
    }

    /// WRITE: store the accumulator to a channel.
    pub fn write_instr(&mut self, cmd: &Instructions) -> (r: u16)
        requires
            spec_cpu_wf(old(self)@),
        ensures
            spec_cpu_wf(final(self)@),
            (final(self)@, r) == spec_write_instr(old(self)@, *cmd),
    {
        let port: u16 = cmd.get_data() & 0x1FF;
        let data: u16 = self.read_s16(crate::registers::REGISTER_ACCUMULATOR);
        if port == 2 {
            self.write_io(port as usize, data);
        } else {
            let adjusted: u16 = crate::utils::adjust_overflow(data);
            self.write_io(port as usize, adjusted & 0x7FFF);
        }
        2
    }
}

} // verus!
