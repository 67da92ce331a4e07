//! The CPU: instruction register, extend and interrupt flags, the
//! unprogrammed-sequence queue, and the fetch/decode/execute/step loop over
//! the memory map it owns.

use vstd::prelude::*;

use crate::decoder::decoder;
use crate::decoder::spec_decode;
use crate::decoder::spec_decode_ok;
use crate::instructions::Instructions;
use crate::instructions::Mnemonic;
use crate::memory::MemV;
use crate::memory::MemoryMap;
use crate::memory::spec_io_read;
use crate::memory::spec_io_read_det;
use crate::memory::spec_io_write;
use crate::memory::spec_mem_read;
use crate::memory::spec_mem_wf;
use crate::memory::spec_mem_write;
use crate::periph::IoPeriph;
use crate::utils::spec_add_s15;
use crate::utils::spec_adjust_overflow;
use crate::utils::spec_extend_sign_bits;

verus! {

/// Interrupt index of the reset interrupt.
pub const INTERRUPT_RESET: u8 = 0x0;

/// Interrupt index of the T3 timer interrupt.
pub const INTERRUPT_TIMER3: u8 = 0x3;

/// Interrupt index of the T4 timer interrupt.
pub const INTERRUPT_TIMER4: u8 = 0x4;

/// Interrupt index of the first keypress interrupt.
pub const INTERRUPT_KEYPRESS1: u8 = 0x5;

/// Interrupt index of the second keypress interrupt.
pub const INTERRUPT_KEYPRESS2: u8 = 0x6;

/// Interrupt index of the uplink interrupt.
pub const INTERRUPT_UPLINK: u8 = 0x7;

/// Interrupt index of the downlink interrupt.
pub const INTERRUPT_DOWNLINK: u8 = 0x8;

/// Interrupt index of the radar interrupt.
pub const INTERRUPT_RADAR: u8 = 0x9;

/// Interrupt index of the manual interrupt.
pub const INTERRUPT_MANUAL: u8 = 0xA;

/// Unprogrammed hardware sequences that preempt normal instruction fetch.
#[derive(Clone, Copy, Debug, PartialEq, Eq, Structural)]
pub enum UnprogSequence {
    PINC,
    PCDU,
    MINC,
    MCDU,
    DINC,
    SHINC,
    SHANC,
    INOTRD,
    INOTLD,
    FETCH,
    STORE,
    GOJ,
    TCSAJ,
    RUPT,
}

/// Overflow state of the accumulator.
#[derive(Clone, Copy, Debug, PartialEq, Eq, Structural)]
pub enum Overflow {
    NoOverflow,
    Positive,
    Negative,
}

/// The queue tag of an unprogrammed sequence.
pub open spec fn spec_seq_code(s: UnprogSequence) -> u8 {
    match s {
        UnprogSequence::PINC => 0,
        UnprogSequence::PCDU => 1,
        UnprogSequence::MINC => 2,
        UnprogSequence::MCDU => 3,
        UnprogSequence::DINC => 4,
        UnprogSequence::SHINC => 5,
        UnprogSequence::SHANC => 6,
        UnprogSequence::INOTRD => 7,
        UnprogSequence::INOTLD => 8,
        UnprogSequence::FETCH => 9,
        UnprogSequence::STORE => 10,
        UnprogSequence::GOJ => 11,
        UnprogSequence::TCSAJ => 12,
        UnprogSequence::RUPT => 13,
    }
}

/// Turns an unprogrammed sequence into its queue tag.
pub fn seq_code(s: UnprogSequence) -> (r: u8)
    ensures
        r == spec_seq_code(s),
{
    match s {
        UnprogSequence::PINC => 0,
        UnprogSequence::PCDU => 1,
        UnprogSequence::MINC => 2,
        UnprogSequence::MCDU => 3,
        UnprogSequence::DINC => 4,
        UnprogSequence::SHINC => 5,
        UnprogSequence::SHANC => 6,
        UnprogSequence::INOTRD => 7,
        UnprogSequence::INOTLD => 8,
        UnprogSequence::FETCH => 9,
        UnprogSequence::STORE => 10,
        UnprogSequence::GOJ => 11,
        UnprogSequence::TCSAJ => 12,
        UnprogSequence::RUPT => 13,
    }
}

/// The cycle budget an unprogrammed sequence draws: two for GOJ, TCSAJ,
/// STORE, FETCH and RUPT, one for the counter sequences.
pub open spec fn spec_unprog_cycles(code: u8) -> u16 {
    if code == 9 || code == 10 || code == 11 || code == 12 || code == 13 {
        2
    } else {
        1
    }
}

#[verifier::external_type_specification]
#[verifier::external_body]
#[verifier::reject_recursive_types(T)]
pub struct ExDeque<T, const N: usize>(heapless::Deque<T, N>);

/// The items a queue holds, front first.
pub uninterp spec fn deque_items(q: heapless::Deque<u8, 8>) -> Seq<u8>;

/// Relies on heapless::Deque::new: a fresh deque holds nothing.
#[verifier::external_body]
fn deque_new() -> (r: heapless::Deque<u8, 8>)
    ensures
        deque_items(r) == Seq::<u8>::empty(),
{
    heapless::Deque::new()
}

/// Relies on heapless::Deque::len: the number of items held.
#[verifier::external_body]
fn deque_len(q: &heapless::Deque<u8, 8>) -> (r: usize)
    ensures
        r == deque_items(*q).len(),
{
    q.len()
}

/// Relies on heapless::Deque::push_back: appends the item while fewer than
/// the capacity of 8 are held, and hands it back once full.
#[verifier::external_body]
fn deque_push_back(q: &mut heapless::Deque<u8, 8>, item: u8) -> (r: Result<(), u8>)
    ensures
        r == if deque_items(*old(q)).len() < 8 {
            Ok::<(), u8>(())
        } else {
            Err::<(), u8>(item)
        },
        deque_items(*final(q)) == if deque_items(*old(q)).len() < 8 {
            deque_items(*old(q)).push(item)
        } else {
            deque_items(*old(q))
        },
{
    q.push_back(item)
}

/// Relies on heapless::Deque::pop_front: removes and returns the front item,
/// or returns nothing when empty.
#[verifier::external_body]
fn deque_pop_front(q: &mut heapless::Deque<u8, 8>) -> (r: Option<u8>)
    ensures
        r == if deque_items(*old(q)).len() > 0 {
            Some(deque_items(*old(q))[0])
        } else {
            None::<u8>
        },
        deque_items(*final(q)) == if deque_items(*old(q)).len() > 0 {
            deque_items(*old(q)).drop_first()
        } else {
            deque_items(*old(q))
        },
{
    q.pop_front()
}

/// Ghost state of the CPU.
pub ghost struct CpuV {
    pub mem: MemV,
    pub ir: u16,
    pub idx_val: u16,
    pub ec_flag: bool,
    pub total_cycles: usize,
    pub timer_counter: u8,
    pub gint: bool,
    pub is_irupt: bool,
    pub unprog: Seq<u8>,
    pub rupt: u16,
    pub nightwatch: u16,
    pub nightwatch_cycles: u32,
    pub tc_count: u32,
    pub non_tc_count: u32,
    pub ruptlock_count: i32,
}

/// Well-formedness of the CPU state: its memory map is well-formed.
pub open spec fn spec_cpu_wf(c: CpuV) -> bool {
    spec_mem_wf(c.mem)
}

/// Whether every step of this CPU is determined by its own state: true when
/// no peripheral is attached.
pub open spec fn spec_cpu_det(c: CpuV) -> bool {
    !c.mem.io.has_display && !c.mem.io.has_downlink
}

/// The Apollo Guidance Computer CPU.
pub struct Cpu<D: IoPeriph, K: IoPeriph> {
    pub mem: MemoryMap<D, K>,
    pub ir: u16,
    pub idx_val: u16,
    pub ec_flag: bool,
    pub total_cycles: usize,
    pub timer_counter: u8,
    pub gint: bool,
    pub is_irupt: bool,
    pub unprog: heapless::Deque<u8, 8>,
    pub rupt: u16,
    pub nightwatch: u16,
    pub nightwatch_cycles: u32,
    pub tc_count: u32,
    pub non_tc_count: u32,
    pub ruptlock_count: i32,
}

impl<D: IoPeriph, K: IoPeriph> View for Cpu<D, K> {
    type V = CpuV;

    open spec fn view(&self) -> CpuV {
        CpuV {
            mem: self.mem@,
            ir: self.ir,
            idx_val: self.idx_val,
            ec_flag: self.ec_flag,
            total_cycles: self.total_cycles,
            timer_counter: self.timer_counter,
            gint: self.gint,
            is_irupt: self.is_irupt,
            unprog: deque_items(self.unprog),
            rupt: self.rupt,
            nightwatch: self.nightwatch,
            nightwatch_cycles: self.nightwatch_cycles,
            tc_count: self.tc_count,
            non_tc_count: self.non_tc_count,
            ruptlock_count: self.ruptlock_count,
        }
    }
}

/// The instruction word handed to the decoder: the index register added to
/// the instruction register under 15-bit semantics, with bit 15 carrying the
/// extend flag.
pub open spec fn spec_instr_data(c: CpuV) -> u16 {
    let inst_data = spec_add_s15(c.ir, c.idx_val);
    if c.ec_flag {
        inst_data | 0x8000
    } else {
        inst_data
    }
}

/// CPU state after a raw memory read: reading the nightwatch slot bumps its
/// counter, nothing else changes.
pub open spec fn spec_after_read(c: CpuV, idx: usize) -> CpuV {
    if idx == 0o067 {
        CpuV { nightwatch: vstd::wrapping::u16_specs::wrapping_add(c.nightwatch, 1), ..c }
    } else {
        c
    }
}

/// CPU state after a raw memory write: the nightwatch counter bumps on its
/// slot, and the word lands in the memory map.
pub open spec fn spec_after_write(c: CpuV, idx: usize, val: u16) -> CpuV {
    let c2 = spec_after_read(c, idx);
    CpuV { mem: spec_mem_write(c2.mem, idx, val), ..c2 }
}

/// Value of a 16-bit read: the accumulator and multiplier slots read raw,
/// every other slot is sign-extended from 15 bits.
pub open spec fn spec_read_s16_val(c: CpuV, idx: usize) -> u16 {
    if idx == 0 || idx == 2 {
        spec_mem_read(c.mem, idx)
    } else {
        spec_extend_sign_bits(spec_mem_read(c.mem, idx))
    }
}

/// Value of a 15-bit read: the accumulator and multiplier are
/// overflow-adjusted down to 15 bits, every other slot is masked.
pub open spec fn spec_read_s15_val(c: CpuV, idx: usize) -> u16 {
    if idx == 0 || idx == 2 {
        spec_adjust_overflow(spec_mem_read(c.mem, idx)) & 0x7FFF
    } else {
        spec_mem_read(c.mem, idx) & 0x7FFF
    }
}

/// CPU state after a 16-bit write: the accumulator and multiplier take the
/// raw word, every other slot takes the overflow-adjusted 15-bit value.
pub open spec fn spec_write_s16(c: CpuV, idx: usize, value: u16) -> CpuV {
    if idx == 0 || idx == 2 {
        spec_after_write(c, idx, value)
    } else {
        spec_after_write(c, idx, spec_adjust_overflow(value) & 0o77777)
    }
}

/// CPU state after a 15-bit write: the accumulator and multiplier take the
/// sign-extended word, every other slot takes the masked value.
pub open spec fn spec_write_s15(c: CpuV, idx: usize, value: u16) -> CpuV {
    if idx == 0 || idx == 2 {
        spec_after_write(c, idx, spec_extend_sign_bits(value))
    } else {
        spec_after_write(c, idx, value & 0o77777)
    }
}

/// CPU state after a double-precision write: the high word goes to `idx`,
/// the low word (carrying the high word's sign bit) to the next slot.
pub open spec fn spec_write_dp(c: CpuV, idx: usize, val: u32) -> CpuV {
    let upper = ((val >> 14) & 0o77777) as u16;
    let lower = (val & 0o37777) as u16 | (upper & 0o40000);
    spec_write_s15(spec_write_s15(c, idx, upper), (idx + 1) as usize, lower)
}

/// The 29-bit double-precision value read from two consecutive slots: when
/// the sign bits agree the magnitudes concatenate; when they disagree a
/// ones'-complement renormalization is applied.
pub open spec fn spec_read_dp_val(c: CpuV, idx: usize) -> u32 {
    let upper = spec_read_s15_val(c, idx) as u32;
    let c1 = spec_after_read(c, idx);
    let lower = spec_read_s15_val(c1, (idx + 1) as usize) as u32;
    if (upper & 0o40000) == (lower & 0o40000) {
        (upper << 14) | (lower & 0o37777)
    } else {
        let res = if lower & 0o40000 == 0o40000 {
            vstd::wrapping::u32_specs::wrapping_add(upper << 14, lower | 0o3777740000)
        } else {
            vstd::wrapping::u32_specs::wrapping_add(
                vstd::wrapping::u32_specs::wrapping_add(upper, 1) << 14,
                vstd::wrapping::u32_specs::wrapping_sub(lower, 1),
            )
        };
        if res & 0o4000000000 == 0o4000000000 {
            vstd::wrapping::u32_specs::wrapping_add(res, 1) & 0o3777777777
        } else {
            res & 0o3777777777
        }
    }
}

/// CPU state after the program counter moves: the counter register takes the
/// new value and the instruction register is pre-fetched from it.
pub open spec fn spec_update_pc(c: CpuV, val: u16) -> CpuV {
    let c1 = spec_after_write(c, 5, val);
    let c2 = spec_after_read(c1, val as usize);
    CpuV { ir: spec_mem_read(c1.mem, val as usize), ..c2 }
}

/// CPU state after the edit-register refresh: a store to an edit address is
/// read back and rewritten so the edit side effect applies to it.
pub open spec fn spec_check_editing(c: CpuV, k: usize) -> CpuV {
    if k == 0o20 || k == 0o21 || k == 0o22 || k == 0o23 {
        let v = spec_read_s15_val(c, k);
        spec_write_s15(spec_after_read(c, k), k, v)
    } else {
        c
    }
}

/// Whether the accumulator is in overflow: its top two bits differ.
pub open spec fn spec_is_overflow(c: CpuV) -> bool {
    let a = spec_mem_read(c.mem, 0);
    a & 0xC000 != 0xC000 && a & 0xC000 != 0x0000
}

/// Whether interrupt delivery is blocked: by the extend flag, a cleared
/// global enable, an interrupt already in service, or accumulator overflow.
pub open spec fn spec_interrupt_disabled(c: CpuV) -> bool {
    c.ec_flag || !c.gint || c.is_irupt || spec_is_overflow(c)
}

/// The lowest pending interrupt index, or 10 when none of the first ten
/// bits is set.
pub open spec fn spec_lowest_rupt(rupt: u16) -> u16 {
    if rupt & 0x1 != 0 {
        0
    } else if rupt & 0x2 != 0 {
        1
    } else if rupt & 0x4 != 0 {
        2
    } else if rupt & 0x8 != 0 {
        3
    } else if rupt & 0x10 != 0 {
        4
    } else if rupt & 0x20 != 0 {
        5
    } else if rupt & 0x40 != 0 {
        6
    } else if rupt & 0x80 != 0 {
        7
    } else if rupt & 0x100 != 0 {
        8
    } else if rupt & 0x200 != 0 {
        9
    } else {
        10
    }
}

/// CPU state after interrupt dispatch: the global enable clears, the backup
/// registers take the incremented counter and the composite instruction
/// word, the index clears, the program counter jumps to the vector of the
/// lowest pending index, and that pending bit clears.
pub open spec fn spec_handle_interrupt(c: CpuV) -> CpuV {
    let i = spec_lowest_rupt(c.rupt);
    if i == 10 {
        c
    } else {
        let c1 = CpuV { gint: false, ..c };
        let pcval = spec_mem_read(c1.mem, 5);
        let c2 = spec_after_write(c1, 0xD, (pcval + 1) as u16);
        let c3 = spec_after_write(c2, 0xF, spec_instr_data(c2));
        let c4 = CpuV { idx_val: 0, ..c3 };
        let c5 = spec_update_pc(c4, (0x800 + i * 4) as u16);
        CpuV { rupt: c5.rupt ^ (1u16 << i), ..c5 }
    }
}

/// CPU state after the GOJ unprogrammed sequence: nine output channels
/// zero, the warning bit clears in channel 0o33, interrupts and the
/// TC/non-TC counters clear, and the CPU restarts. `pv` stands for the
/// display's word on channel 0o163 during the restart.
pub open spec fn spec_goj(c: CpuV, pv: u16) -> CpuV {
    let m1 = spec_io_write(c.mem, 0o05, 0);
    let m2 = spec_io_write(m1, 0o06, 0);
    let m3 = spec_io_write(m2, 0o10, 0);
    let m4 = spec_io_write(m3, 0o11, 0);
    let m5 = spec_io_write(m4, 0o12, 0);
    let m6 = spec_io_write(m5, 0o13, 0);
    let m7 = spec_io_write(m6, 0o14, 0);
    let m8 = spec_io_write(m7, 0o34, 0);
    let m9 = spec_io_write(m8, 0o35, 0);
    let val = spec_io_read(m9, 0o33, 0);
    let m10 = spec_io_write(m9, 0o33, val & 0o75777);
    let c1 = CpuV { mem: m10, gint: false, is_irupt: false, tc_count: 0, non_tc_count: 0, ..c };
    spec_restart(c1, pv)
}

/// The TC/non-TC instruction counters after one instruction: a transfer
/// instruction bumps the TC streak and clears the other, anything else
/// does the reverse.
pub open spec fn spec_exec_counts(c: CpuV, inst: Instructions) -> CpuV {
    if inst.mnem == Mnemonic::TC || inst.mnem == Mnemonic::TCF {
        CpuV {
            non_tc_count: 0,
            tc_count: vstd::wrapping::u32_specs::wrapping_add(c.tc_count, 1),
            ..c
        }
    } else {
        CpuV {
            tc_count: 0,
            non_tc_count: vstd::wrapping::u32_specs::wrapping_add(c.non_tc_count, 1),
            ..c
        }
    }
}

/// Whether executing this instruction depends only on the CPU state: false
/// only for the channel-reading instructions on a delegating channel with
/// its peripheral attached.
pub open spec fn spec_execute_det(c: CpuV, inst: Instructions) -> bool {
    match inst.mnem {
        Mnemonic::ROR | Mnemonic::RAND | Mnemonic::RXOR | Mnemonic::WOR | Mnemonic::WAND
            | Mnemonic::READ => spec_io_read_det(c.mem, crate::handlers::spec_port(inst)),
        _ => true,
    }
}

/// State and cycles after executing one decoded instruction: the TC
/// counters update, then the mnemonic's handler runs. EXTEND sets the
/// extend flag, INDEX loads the index accumulator without touching the
/// extend flag, and an unhandled mnemonic clears the extend flag and the
/// index at no cycle cost. `pv` stands for the peripheral's word on a
/// delegating channel read.
pub open spec fn spec_execute(c: CpuV, inst: Instructions, pv: u16) -> (CpuV, u16) {
    let c0 = spec_exec_counts(c, inst);
    match inst.mnem {
        Mnemonic::AD => crate::handlers::spec_ad(c0, inst),
        Mnemonic::ADS => crate::handlers::spec_ads(c0, inst),
        Mnemonic::BZF => crate::handlers::spec_bzf(c0, inst),
        Mnemonic::BZMF => crate::handlers::spec_bzmf(c0, inst),
        Mnemonic::CA => crate::handlers::spec_ca(c0, inst),
        Mnemonic::CS => crate::handlers::spec_cs(c0, inst),
        Mnemonic::DCA => crate::handlers::spec_dca(c0, inst),
        Mnemonic::DCS => crate::handlers::spec_dcs(c0, inst),
        Mnemonic::DIM => crate::handlers::spec_dim(c0, inst),
        Mnemonic::DV => crate::handlers::spec_dv(c0, inst),
        Mnemonic::EDRUPT => crate::handlers::spec_edrupt(c0, inst),
        Mnemonic::EXTEND => (CpuV { ec_flag: true, idx_val: 0, ..c0 }, 1),
        Mnemonic::INCR => crate::handlers::spec_incr(c0, inst),
        Mnemonic::INDEX => (
            CpuV {
                idx_val: spec_read_s15_val(c0, crate::handlers::spec_addr(inst)),
                ..spec_after_read(c0, crate::handlers::spec_addr(inst))
            },
            2,
        ),
        Mnemonic::INHINT => crate::handlers::spec_inhint(c0, inst),
        Mnemonic::LXCH => crate::handlers::spec_lxch(c0, inst),
        Mnemonic::MP => crate::handlers::spec_mp(c0, inst),
        Mnemonic::QXCH => crate::handlers::spec_qxch(c0, inst),
        Mnemonic::RELINT => crate::handlers::spec_relint(c0, inst),
        Mnemonic::RESUME => crate::handlers::spec_resume(c0, inst),
        Mnemonic::ROR => crate::handlers::spec_ror(c0, inst, pv),
        Mnemonic::RAND => crate::handlers::spec_rand(c0, inst, pv),
        Mnemonic::READ => crate::handlers::spec_read_instr(c0, inst, pv),
        Mnemonic::RXOR => crate::handlers::spec_rxor(c0, inst, pv),
        Mnemonic::SU => crate::handlers::spec_su(c0, inst),
        Mnemonic::TC => crate::handlers::spec_tc(c0, inst),
        Mnemonic::TCF => crate::handlers::spec_tcf(c0, inst),
        Mnemonic::WAND => crate::handlers::spec_wand(c0, inst, pv),
        Mnemonic::WOR => crate::handlers::spec_wor(c0, inst, pv),
        Mnemonic::WRITE => crate::handlers::spec_write_instr(c0, inst),
        Mnemonic::XCH => crate::handlers::spec_xch(c0, inst),
        _ => (CpuV { ec_flag: false, idx_val: 0, ..c0 }, 0),
    }
}

/// Whether an interrupt would be taken at the next instruction boundary.
pub open spec fn spec_interrupt_taken(c: CpuV) -> bool {
    !spec_interrupt_disabled(c) && c.rupt != 0
}

/// State and cycles of one programmed step: a deliverable interrupt
/// dispatches at no cost; otherwise the word at the program counter is
/// decoded and executed, the counter moves on, the index clears, and the
/// extend flag clears unless the instruction is INDEX.
pub open spec fn spec_step_programmed(c: CpuV, pv: u16) -> (CpuV, u16) {
    if spec_interrupt_taken(c) {
        (CpuV { is_irupt: true, ..spec_handle_interrupt(c) }, 0)
    } else {
        let inst_data = spec_instr_data(c);
        let addr = (spec_mem_read(c.mem, 5) & 0xFFFF) as usize;
        let i = spec_decode(addr as u16, inst_data);
        let next_pc = (((addr + 1) as usize) & 0xFFFF) as u16;
        let c1 = spec_update_pc(c, next_pc);
        let c2 = CpuV { idx_val: 0, ..c1 };
        let c3 = if c2.ec_flag && i.mnem != Mnemonic::INDEX {
            CpuV { ec_flag: false, ..c2 }
        } else {
            c2
        };
        let step = spec_execute(c3, i, pv);
        (
            CpuV {
                total_cycles: vstd::wrapping::usize_specs::wrapping_add(
                    step.0.total_cycles,
                    step.1 as usize,
                ),
                ..step.0
            },
            step.1,
        )
    }
}

/// State and cycles of one unprogrammed step: the front queue entry is
/// drawn and charged; GOJ runs its reset, every other sequence polls the
/// peripherals for interrupts and dispatches a deliverable one. `irq`
/// stands for the peripherals' aggregated interrupt mask.
pub open spec fn spec_step_unprogrammed(c: CpuV, pv: u16, irq: u16) -> (CpuV, u16) {
    let code = c.unprog[0];
    let c1 = CpuV { unprog: c.unprog.drop_first(), ..c };
    let cycles = spec_unprog_cycles(code);
    let c2 = CpuV {
        total_cycles: vstd::wrapping::usize_specs::wrapping_add(c1.total_cycles, cycles as usize),
        ..c1
    };
    if code == 11 {
        (spec_goj(c2, pv), cycles)
    } else {
        if !spec_interrupt_disabled(c2) {
            let c3 = CpuV { rupt: c2.rupt | irq, ..c2 };
            if c3.rupt != 0 {
                (CpuV { is_irupt: true, ..spec_handle_interrupt(c3) }, cycles)
            } else {
                (c3, cycles)
            }
        } else {
            (c2, cycles)
        }
    }
}

/// Whether a step can run without hitting a decode rejection: an
/// unprogrammed step or an interrupt dispatch always can; otherwise the
/// fetched word must decode.
pub open spec fn spec_step_decodable(c: CpuV) -> bool {
    c.unprog.len() > 0 || spec_interrupt_taken(c) || spec_decode_ok(spec_instr_data(c))
}

/// State and cycles of one step: an unprogrammed step when the queue holds
/// anything, a programmed step otherwise.
pub open spec fn spec_step(c: CpuV, pv: u16, irq: u16) -> (CpuV, u16) {
    if c.unprog.len() > 0 {
        spec_step_unprogrammed(c, pv, irq)
    } else {
        spec_step_programmed(c, pv)
    }
}

/// A freshly constructed CPU around a memory map, before the reset: only
/// the downlink interrupt is pending.
pub open spec fn spec_initial_cpu(m: MemV) -> CpuV {
    CpuV {
        mem: m,
        ir: 0,
        idx_val: 0,
        ec_flag: false,
        total_cycles: 0,
        timer_counter: 0,
        gint: false,
        is_irupt: false,
        unprog: Seq::empty(),
        rupt: 0x100,
        nightwatch: 0,
        nightwatch_cycles: 0,
        tc_count: 0,
        non_tc_count: 0,
        ruptlock_count: 0,
    }
}

/// CPU state after a reset: the program counter moves to 0x800 (octal
/// 04000) and the global interrupt enable clears.
pub open spec fn spec_reset(c: CpuV) -> CpuV {
    CpuV { gint: false, ..spec_update_pc(c, 0x800) }
}

/// CPU state after a restart: a reset, plus the restart bit 0o200 raised in
/// channel 0o163. `pv` stands for the display's word on that channel.
pub open spec fn spec_restart(c: CpuV, pv: u16) -> CpuV {
    let c1 = spec_reset(c);
    let io_val = spec_io_read(c1.mem, 0o163, pv);
    CpuV { mem: spec_io_write(c1.mem, 0o163, 0o200 | io_val), ..c1 }
}

impl<D: IoPeriph, K: IoPeriph> Cpu<D, K> {
    /// The raw instruction word for the decoder: instruction register plus
    /// index under 15-bit addition, extend flag in bit 15.
    fn calculate_instr_data(&self) -> (r: u16)
        ensures
            r == spec_instr_data(self@),
    {
        let mut inst_data: u16 = crate::utils::add_s15(self.ir, self.idx_val);
        if self.ec_flag {
            inst_data = inst_data | 0x8000;
        }
        inst_data
    }

    /// A CPU around the given memory map, reset to the boot state: program
    /// counter at 0x800, instruction register pre-fetched from it, global
    /// interrupts off, the downlink interrupt pending.
    pub fn new(memmap: MemoryMap<D, K>) -> (r: Cpu<D, K>)
        requires
            spec_mem_wf(memmap@),
        ensures
            spec_cpu_wf(r@),
            r@ == spec_reset(spec_initial_cpu(memmap@)),
    {
        let mut cpu = Cpu {
            mem: memmap,
            ir: 0x0,
            ec_flag: false,
            idx_val: 0x0,
            unprog: deque_new(),
            total_cycles: 0,
            timer_counter: 0,
            gint: false,
            is_irupt: false,
            rupt: 1u16 << (INTERRUPT_DOWNLINK as u16),
            nightwatch: 0,
            nightwatch_cycles: 0,
            tc_count: 0,
            non_tc_count: 0,
            ruptlock_count: 0,
        };
        proof {
            assert(1u16 << 8u16 == 0x100) by (bit_vector);
            assert(cpu@ == spec_initial_cpu(memmap@));
        }
        cpu.reset();
        cpu
    }

    /// Resets the CPU: program counter to 0x800, global interrupts off.
    pub fn reset(&mut self)
        requires
            spec_cpu_wf(old(self)@),
        ensures
            spec_cpu_wf(final(self)@),
            final(self)@ == spec_reset(old(self)@),
    {
        self.update_pc(0x800);
        self.gint = false;
    }

    /// Restarts the CPU: a reset that also tells the DSKY by raising the
    /// restart bit in channel 0o163.
    fn restart(&mut self)
        requires
            spec_cpu_wf(old(self)@),
        ensures
            spec_cpu_wf(final(self)@),
            spec_cpu_det(old(self)@) ==> final(self)@ == spec_restart(old(self)@, 0),
            exists|pv: u16| final(self)@ == spec_restart(old(self)@, pv),
    {
        let ghost c0 = self@;
        self.update_pc(0x800);
        self.gint = false;

        let io_val: u16 = self.read_io(0o163);
        proof {
            if spec_io_read_det(self@.mem, 0o163) {
                assert(io_val == spec_io_read(self@.mem, 0o163, 0));
            }
        }
        let ghost pv = if spec_io_read_det(self@.mem, 0o163) {
            0u16
        } else {
            choose|pv: u16| io_val == spec_io_read(self@.mem, 0o163, pv)
        };
        self.write_io(0o163, 0o200 | io_val);
        proof {
            assert(self@ == spec_restart(c0, pv));
        }
    }

    /// Moves the program counter and pre-fetches the instruction register
    /// from the new address.
    pub fn update_pc(&mut self, val: u16)
        requires
            spec_cpu_wf(old(self)@),
        ensures
            spec_cpu_wf(final(self)@),
            final(self)@ == spec_update_pc(old(self)@, val),
    {
        self.write(crate::registers::REGISTER_COUNTER, val);
        self.ir = self.read(val as usize);
    }

    /// Re-reads and rewrites an edit address so the edit side effect is
    /// applied to a value just stored there.
    pub fn check_editing(&mut self, k: usize)
        requires
            spec_cpu_wf(old(self)@),
        ensures
            spec_cpu_wf(final(self)@),
            final(self)@ == spec_check_editing(old(self)@, k),
    {
        if k == 0o20 || k == 0o21 || k == 0o22 || k == 0o23 {
            let val: u16 = self.read_s15(k);
            self.write_s15(k, val);
        }
    }

    /// Reads a linear memory address, counting nightwatch accesses.
    pub fn read(&mut self, idx: usize) -> (r: u16)
        requires
            spec_cpu_wf(old(self)@),
        ensures
            spec_cpu_wf(final(self)@),
            final(self)@ == spec_after_read(old(self)@, idx),
            r == spec_mem_read(old(self)@.mem, idx),
    {
        if idx == 0o067 {
            self.nightwatch = self.nightwatch.wrapping_add(1);
        }
        self.mem.read(idx)
    }

    /// Reads a 16-bit value: raw from the accumulator and multiplier,
    /// sign-extended from everywhere else.
    pub fn read_s16(&mut self, idx: usize) -> (r: u16)
        requires
            spec_cpu_wf(old(self)@),
        ensures
            spec_cpu_wf(final(self)@),
            final(self)@ == spec_after_read(old(self)@, idx),
            r == spec_read_s16_val(old(self)@, idx),
    {
        if idx == crate::registers::REGISTER_ACCUMULATOR || idx
            == crate::registers::REGISTER_MULTIPLIER {
            self.read(idx)
        } else {
            let v: u16 = self.read(idx);
            crate::utils::extend_sign_bits(v)
        }
    }

    /// Reads a 15-bit value: the accumulator and multiplier are
    /// overflow-adjusted, everything else is masked.
    pub fn read_s15(&mut self, idx: usize) -> (r: u16)
        requires
            spec_cpu_wf(old(self)@),
        ensures
            spec_cpu_wf(final(self)@),
            final(self)@ == spec_after_read(old(self)@, idx),
            r == spec_read_s15_val(old(self)@, idx),
    {
        if idx == crate::registers::REGISTER_ACCUMULATOR || idx
            == crate::registers::REGISTER_MULTIPLIER {
            let v: u16 = self.read(idx);
            crate::utils::adjust_overflow(v) & 0x7FFF
        } else {
            let v: u16 = self.read(idx);
            v & 0x7FFF
        }
    }

    /// Writes a 16-bit value: raw to the accumulator and multiplier,
    /// overflow-adjusted to 15 bits everywhere else.
    pub fn write_s16(&mut self, idx: usize, value: u16)
        requires
            spec_cpu_wf(old(self)@),
        ensures
            spec_cpu_wf(final(self)@),
            final(self)@ == spec_write_s16(old(self)@, idx, value),
    {
        if idx == crate::registers::REGISTER_ACCUMULATOR || idx
            == crate::registers::REGISTER_MULTIPLIER {
            self.write(idx, value);
        } else {
            let v: u16 = crate::utils::adjust_overflow(value);
            self.write(idx, v & 0o77777);
        }
    }

    /// Writes a 15-bit value: sign-extended into the accumulator and
    /// multiplier, masked everywhere else.
    pub fn write_s15(&mut self, idx: usize, value: u16)
        requires
            spec_cpu_wf(old(self)@),
        ensures
            spec_cpu_wf(final(self)@),
            final(self)@ == spec_write_s15(old(self)@, idx, value),
    {
        if idx == crate::registers::REGISTER_ACCUMULATOR || idx
            == crate::registers::REGISTER_MULTIPLIER {
            let v: u16 = crate::utils::extend_sign_bits(value);
            self.write(idx, v);
        } else {
            self.write(idx, value & 0o77777);
        }
    }

    /// Writes a linear memory address, counting nightwatch accesses.
    pub fn write(&mut self, idx: usize, val: u16)
        requires
            spec_cpu_wf(old(self)@),
        ensures
            spec_cpu_wf(final(self)@),
            final(self)@ == spec_after_write(old(self)@, idx, val),
    {
        if idx == 0o067 {
            self.nightwatch = self.nightwatch.wrapping_add(1);
        }
        self.mem.write(idx, val)
    }

    /// Writes a 29-bit double-precision value across two 15-bit slots,
    /// big-endian, the low word carrying the high word's sign.
    pub fn write_dp(&mut self, idx: usize, val: u32)
        requires
            spec_cpu_wf(old(self)@),
            idx < 0xFFFF,
        ensures
            spec_cpu_wf(final(self)@),
            final(self)@ == spec_write_dp(old(self)@, idx, val),
    {
        let upper: u16 = ((val >> 14u32) & 0o77777) as u16;
        let lower: u16 = (val & 0o37777) as u16 | (upper & 0o40000);

        self.write_s15(idx, upper);
        self.write_s15(idx + 1, lower);
    }

    /// Reads an I/O channel.
    pub fn read_io(&mut self, idx: usize) -> (r: u16)
        requires
            spec_cpu_wf(old(self)@),
        ensures
            spec_cpu_wf(final(self)@),
            final(self)@ == old(self)@,
            spec_io_read_det(old(self)@.mem, idx) ==> r == spec_io_read(old(self)@.mem, idx, 0),
            !spec_io_read_det(old(self)@.mem, idx) ==> exists|pv: u16|
                r == spec_io_read(old(self)@.mem, idx, pv),
    {
        self.mem.read_io(idx)
    }

    /// Writes an I/O channel.
    pub fn write_io(&mut self, idx: usize, val: u16)
        requires
            spec_cpu_wf(old(self)@),
        ensures
            spec_cpu_wf(final(self)@),
            final(self)@ == (CpuV { mem: spec_io_write(old(self)@.mem, idx, val), ..old(self)@ }),
    {
        self.mem.write_io(idx, val)
    }

    /// Whether the accumulator is in overflow (top two bits differ).
    fn is_overflow(&mut self) -> (r: bool)
        requires
            spec_cpu_wf(old(self)@),
        ensures
            final(self)@ == old(self)@,
            r == spec_is_overflow(old(self)@),
    {
        let a: u16 = self.read(crate::registers::REGISTER_ACCUMULATOR);
        a & 0xC000 != 0xC000 && a & 0xC000 != 0x0000
    }

    /// Whether interrupt delivery is currently blocked.
    fn interrupt_disabled(&mut self) -> (r: bool)
        requires
            spec_cpu_wf(old(self)@),
        ensures
            final(self)@ == old(self)@,
            r == spec_interrupt_disabled(old(self)@),
    {
        self.ec_flag || !self.gint || self.is_irupt || self.is_overflow()
    }

    /// Whether any interrupt bit is pending.
    fn interrupt_pending(&self) -> (r: bool)
        ensures
            r == (self.rupt != 0),
    {
        self.rupt != 0
    }

    /// Dispatches the lowest pending interrupt, if any of the first ten
    /// bits is set.
    fn handle_interrupt(&mut self)
        requires
            spec_cpu_wf(old(self)@),
        ensures
            spec_cpu_wf(final(self)@),
            final(self)@ == spec_handle_interrupt(old(self)@),
    {
        let i: u16 = if self.rupt & 0x1 != 0 {
            0
        } else if self.rupt & 0x2 != 0 {
            1
        } else if self.rupt & 0x4 != 0 {
            2
        } else if self.rupt & 0x8 != 0 {
            3
        } else if self.rupt & 0x10 != 0 {
            4
        } else if self.rupt & 0x20 != 0 {
            5
        } else if self.rupt & 0x40 != 0 {
            6
        } else if self.rupt & 0x80 != 0 {
            7
        } else if self.rupt & 0x100 != 0 {
            8
        } else if self.rupt & 0x200 != 0 {
            9
        } else {
            10
        };
        if i < 10 {
            let mask: u16 = 1u16 << i;
            self.gint = false;
            let pcval: u16 = self.read(crate::registers::REGISTER_COUNTER);
            proof {
                crate::utils::lemma_u16_and_le(old(self)@.mem.regs.registers[5], 0o7777);
            }
            self.write(crate::registers::REGISTER_COUNTER_BACKUP, pcval + 1);
            let composite: u16 = self.calculate_instr_data();
            self.write(crate::registers::REGISTER_INSTRUCTION, composite);
            self.idx_val = 0;

            let new_pc: u16 = 0x800 + (i * 4);
            self.update_pc(new_pc);

            self.rupt = self.rupt ^ mask;
        }
    }

    /// Charges executed cycles against the running total.
    fn update_cycles(&mut self, cycles: u16)
        ensures
            final(self)@ == (CpuV {
                total_cycles: vstd::wrapping::usize_specs::wrapping_add(
                    old(self)@.total_cycles,
                    cycles as usize,
                ),
                ..old(self)@
            }),
    {
        self.total_cycles = self.total_cycles.wrapping_add(cycles as usize);
    }

    /// Reads a 29-bit double-precision value from two consecutive slots,
    /// renormalizing when the two sign bits disagree.
    pub fn read_dp(&mut self, idx: usize) -> (r: u32)
        requires
            spec_cpu_wf(old(self)@),
            idx < 0xFFFF,
        ensures
            spec_cpu_wf(final(self)@),
            final(self)@ == spec_after_read(spec_after_read(old(self)@, idx), (idx + 1) as usize),
            r == spec_read_dp_val(old(self)@, idx),
    {
        let upper: u32 = self.read_s15(idx) as u32;
        let lower: u32 = self.read_s15(idx + 1) as u32;

        if (upper & 0o40000) == (lower & 0o40000) {
            (upper << 14u32) | (lower & 0o37777)
        } else {
            let res: u32 = if lower & 0o40000 == 0o40000 {
                let val: u32 = upper << 14u32;
                val.wrapping_add(lower | 0o3777740000)
            } else {
                let val: u32 = (upper.wrapping_add(1)) << 14u32;
                val.wrapping_add(lower.wrapping_sub(1))
            };

            if res & 0o4000000000 == 0o4000000000 {
                res.wrapping_add(1) & 0o3777777777
            } else {
                res & 0o3777777777
            }
        }
    }

    /// GOJ: zero the jet and alarm output channels, clear the warning bit
    /// in channel 0o33, clear the interrupt flags and the TC counters, and
    /// restart.
    fn handle_goj(&mut self) -> (r: u16)
        requires
            spec_cpu_wf(old(self)@),
        ensures
            spec_cpu_wf(final(self)@),
            r == 2,
            spec_cpu_det(old(self)@) ==> final(self)@ == spec_goj(old(self)@, 0),
            exists|pv: u16| final(self)@ == spec_goj(old(self)@, pv),
    {
        let ghost c0 = self@;
        self.write_io(crate::io::CHANNEL_PYJETS, 0);
        self.write_io(crate::io::CHANNEL_ROLLJETS, 0);
        self.write_io(crate::io::CHANNEL_DSKY, 0);
        self.write_io(crate::io::CHANNEL_DSALMOUT, 0);
        self.write_io(crate::io::CHANNEL_CHAN12, 0);
        self.write_io(crate::io::CHANNEL_CHAN13, 0);
        self.write_io(crate::io::CHANNEL_CHAN14, 0);
        self.write_io(crate::io::CHANNEL_CHAN34, 0);
        self.write_io(crate::io::CHANNEL_CHAN35, 0);

        let val: u16 = self.read_io(crate::io::CHANNEL_CHAN33);
        self.write_io(crate::io::CHANNEL_CHAN33, val & 0o75777);

        self.gint = false;
        self.is_irupt = false;

        self.tc_count = 0;
        self.non_tc_count = 0;

        let ghost c1 = self@;
        self.restart();
        proof {
            let pv = choose|pv: u16| self@ == spec_restart(c1, pv);
            assert(self@ == spec_goj(c0, pv));
        }

        2
    }

    /// Executes one decoded instruction and returns its cycle cost.
    pub fn execute(&mut self, inst: &Instructions) -> (r: u16)
        requires
            spec_cpu_wf(old(self)@),
        ensures
            spec_cpu_wf(final(self)@),
            spec_execute_det(old(self)@, *inst) ==> (final(self)@, r) == spec_execute(
                old(self)@,
                *inst,
                0,
            ),
            exists|pv: u16| (final(self)@, r) == spec_execute(old(self)@, *inst, pv),
    {
        let ghost c0 = self@;
        match inst.mnem {
            Mnemonic::TC | Mnemonic::TCF => {
                self.non_tc_count = 0;
                self.tc_count = self.tc_count.wrapping_add(1);
            },
            _ => {
                self.tc_count = 0;
                self.non_tc_count = self.non_tc_count.wrapping_add(1);
            },
        }
        let ghost c1 = self@;
        proof {
            assert(c1 == spec_exec_counts(c0, *inst));
        }

        let cycles: u16 = match inst.mnem {
            Mnemonic::AD => self.ad(inst),
            Mnemonic::ADS => self.ads(inst),
            Mnemonic::BZF => self.bzf(inst),
            Mnemonic::BZMF => self.bzmf(inst),
            Mnemonic::CA => self.ca(inst),
            Mnemonic::CS => self.cs(inst),
            Mnemonic::DCA => self.dca(inst),
            Mnemonic::DCS => self.dcs(inst),
            Mnemonic::DIM => self.dim(inst),
            Mnemonic::DV => self.dv(inst),
            Mnemonic::EDRUPT => self.edrupt(inst),
            Mnemonic::EXTEND => {
                self.ec_flag = true;
                self.idx_val = 0x0;
                1
            },
            Mnemonic::INCR => self.incr(inst),
            Mnemonic::INDEX => {
                let v: u16 = self.read_s15(inst.get_address());
                self.idx_val = v;
                2
            },
            Mnemonic::INHINT => self.inhint(inst),
            Mnemonic::LXCH => self.lxch(inst),
            Mnemonic::MP => self.mp(inst),
            Mnemonic::QXCH => self.qxch(inst),
            Mnemonic::RELINT => self.relint(inst),
            Mnemonic::RESUME => self.resume(inst),
            Mnemonic::ROR => self.ror(inst),
            Mnemonic::RAND => self.rand(inst),
            Mnemonic::READ => self.read_instr(inst),
            Mnemonic::RXOR => self.rxor(inst),
            Mnemonic::SU => self.su(inst),
            Mnemonic::TC => self.tc(inst),
            Mnemonic::TCF => self.tcf(inst),
            Mnemonic::WAND => self.wand(inst),
            Mnemonic::WOR => self.wor(inst),
            Mnemonic::WRITE => self.write_instr(inst),
            Mnemonic::XCH => self.xch(inst),
            _ => {
                self.ec_flag = false;
                self.idx_val = 0x0;
                0
            },
        };
        proof {
            match inst.mnem {
                Mnemonic::ROR => {
                    let pv = choose|pv: u16|
                        (self@, cycles) == crate::handlers::spec_ror(c1, *inst, pv);
                    assert((self@, cycles) == spec_execute(c0, *inst, pv));
                },
                Mnemonic::RAND => {
                    let pv = choose|pv: u16|
                        (self@, cycles) == crate::handlers::spec_rand(c1, *inst, pv);
                    assert((self@, cycles) == spec_execute(c0, *inst, pv));
                },
                Mnemonic::RXOR => {
                    let pv = choose|pv: u16|
                        (self@, cycles) == crate::handlers::spec_rxor(c1, *inst, pv);
                    assert((self@, cycles) == spec_execute(c0, *inst, pv));
                },
                Mnemonic::WOR => {
                    let pv = choose|pv: u16|
                        (self@, cycles) == crate::handlers::spec_wor(c1, *inst, pv);
                    assert((self@, cycles) == spec_execute(c0, *inst, pv));
                },
                Mnemonic::WAND => {
                    let pv = choose|pv: u16|
                        (self@, cycles) == crate::handlers::spec_wand(c1, *inst, pv);
                    assert((self@, cycles) == spec_execute(c0, *inst, pv));
                },
                Mnemonic::READ => {
                    let pv = choose|pv: u16|
                        (self@, cycles) == crate::handlers::spec_read_instr(c1, *inst, pv);
                    assert((self@, cycles) == spec_execute(c0, *inst, pv));
                },
                _ => {
                    assert((self@, cycles) == spec_execute(c0, *inst, 0));
                },
            }
        }
        cycles
    }

    /// Runs the front entry of the unprogrammed queue.
    fn step_unprogrammed(&mut self) -> (r: u16)
        requires
            spec_cpu_wf(old(self)@),
            old(self)@.unprog.len() > 0,
        ensures
            spec_cpu_wf(final(self)@),
            spec_cpu_det(old(self)@) ==> (final(self)@, r) == spec_step_unprogrammed(
                old(self)@,
                0,
                0,
            ),
            exists|pv: u16, irq: u16| (final(self)@, r) == spec_step_unprogrammed(
                old(self)@,
                pv,
                irq,
            ),
    {
        let ghost c0 = self@;
        let code: u8 = match deque_pop_front(&mut self.unprog) {
            Some(c) => c,
            None => {
                proof {
                    assert(false);
                }
                vstd::pervasive::unreached()
            },
        };
        let cycles: u16 = if code == 9 || code == 10 || code == 11 || code == 12 || code == 13 {
            2
        } else {
            1
        };

        self.update_cycles(cycles);
        let ghost c2 = self@;

        if code == 11 {
            self.handle_goj();
            proof {
                let pv = choose|pv: u16| self@ == spec_goj(c2, pv);
                assert((self@, cycles) == spec_step_unprogrammed(c0, pv, 0));
            }
            return cycles;
        }

        let disabled: bool = self.interrupt_disabled();
        let ghost irq_witness: u16 = 0;
        if !disabled {
            let irq: u16 = self.mem.check_interrupts();
            proof {
                irq_witness = irq;
            }
            self.rupt = self.rupt | irq;
            if self.interrupt_pending() {
                self.handle_interrupt();
                self.is_irupt = true;
            }
        }
        proof {
            assert((self@, cycles) == spec_step_unprogrammed(c0, 0, irq_witness));
        }

        cycles
    }

    /// Runs one programmed instruction: dispatches a deliverable interrupt
    /// at no cost, else fetches, decodes, and executes the word at the
    /// program counter.
    fn step_programmed(&mut self) -> (r: u16)
        requires
            spec_cpu_wf(old(self)@),
            spec_interrupt_taken(old(self)@) || spec_decode_ok(spec_instr_data(old(self)@)),
        ensures
            spec_cpu_wf(final(self)@),
            spec_cpu_det(old(self)@) ==> (final(self)@, r) == spec_step_programmed(old(self)@, 0),
            exists|pv: u16| (final(self)@, r) == spec_step_programmed(old(self)@, pv),
    {
        let ghost c0 = self@;
        let disabled: bool = self.interrupt_disabled();
        if !disabled && self.interrupt_pending() {
            self.handle_interrupt();
            self.is_irupt = true;
            proof {
                assert((self@, 0u16) == spec_step_programmed(c0, 0));
            }
            return 0;
        }

        let inst_data: u16 = self.calculate_instr_data();
        let pc_word: u16 = self.read(crate::registers::REGISTER_COUNTER);
        let addr: usize = (pc_word & 0xFFFF) as usize;
        let i: Instructions = match decoder(addr as u16, inst_data) {
            Ok(i) => i,
            Err(_) => {
                proof {
                    assert(false);
                }
                vstd::pervasive::unreached()
            },
        };
        let next_pc: u16 = ((addr + 1) & 0xFFFF) as u16;
        self.update_pc(next_pc);

        self.idx_val = 0;

        if self.ec_flag {
            if !(matches!(i.mnem, Mnemonic::INDEX)) {
                self.ec_flag = false;
            }
        }
        let ghost c3 = self@;

        let cycles: u16 = self.execute(&i);
        let ghost c4 = self@;
        self.update_cycles(cycles);
        proof {
            let pv = choose|pv: u16| (c4, cycles) == spec_execute(c3, i, pv);
            assert((self@, cycles) == spec_step_programmed(c0, pv));
        }
        cycles
    }

    /// Runs one step: the front unprogrammed sequence when any is queued,
    /// otherwise one programmed instruction.
    pub fn step(&mut self) -> (r: u16)
        requires
            spec_cpu_wf(old(self)@),
            spec_step_decodable(old(self)@),
        ensures
            spec_cpu_wf(final(self)@),
            spec_cpu_det(old(self)@) ==> (final(self)@, r) == spec_step(old(self)@, 0, 0),
            exists|pv: u16, irq: u16| (final(self)@, r) == spec_step(old(self)@, pv, irq),
    {
        let ghost c0 = self@;
        if deque_len(&self.unprog) > 0 {
            let r: u16 = self.step_unprogrammed();
            proof {
                let (pv, irq) = choose|pv: u16, irq: u16|
                    (self@, r) == spec_step_unprogrammed(c0, pv, irq);
                assert((self@, r) == spec_step(c0, pv, irq));
            }
            r
        } else {
            let r: u16 = self.step_programmed();
            proof {
                let pv = choose|pv: u16| (self@, r) == spec_step_programmed(c0, pv);
                assert((self@, r) == spec_step(c0, pv, 0));
            }
            r
        }
    }

    /// Whether the next step is free of decode rejections; a caller may
    /// test this before stepping.
    pub fn step_decodable(&self) -> (b: bool)
        requires
            spec_cpu_wf(self@),
        ensures
            b == spec_step_decodable(self@),
    {
        if deque_len(&self.unprog) > 0 {
            return true;
        }
        let a: u16 = self.mem.read(crate::registers::REGISTER_ACCUMULATOR);
        let overflow: bool = a & 0xC000 != 0xC000 && a & 0xC000 != 0x0000;
        let disabled: bool = self.ec_flag || !self.gint || self.is_irupt || overflow;
        if !disabled && self.rupt != 0 {
            return true;
        }
        let inst_data: u16 = self.calculate_instr_data();
        !(inst_data & 0x8000 == 0x8000 && ((inst_data >> 12u16) & 0x7) as u8 == 2 && ((((inst_data
            & 0x0C00) >> 10u16) as u8) < 2))
    }

    /// Whether the CPU state is well-formed; a caller may test this before
    /// stepping.
    pub fn is_well_formed(&self) -> (b: bool)
        ensures
            b == spec_cpu_wf(self@),
    {
        self.mem.regs.erasable_bank < 8 && self.mem.regs.fixed_bank < 32
    }

    /// Queues an unprogrammed sequence; hands back false when the queue of
    /// eight is full.
    pub fn request_unprogrammed(&mut self, seq: UnprogSequence) -> (r: bool)
        ensures
            old(self)@.unprog.len() < 8 ==> r && final(self)@ == (CpuV {
                unprog: old(self)@.unprog.push(spec_seq_code(seq)),
                ..old(self)@
            }),
            old(self)@.unprog.len() >= 8 ==> !r && final(self)@ == old(self)@,
    {
        let code: u8 = seq_code(seq);
        match deque_push_back(&mut self.unprog, code) {
            Ok(_) => true,
            Err(_) => false,
        }
    }
}

} // verus!
