//! The memory map: dispatches a single linear address space over the CPU
//! registers, the edit-on-write registers, the timers, the special
//! registers, banked erasable memory, and banked fixed memory, and routes
//! channel I/O between the register file, the timers, and the I/O
//! controller.

use vstd::prelude::*;

use crate::clock::Clocks;
use crate::clock::spec_clock_read;
use crate::clock::spec_clock_write;
use crate::clock::spec_update_interrupt_flags;
use crate::edit_registers::EditRegisters;
use crate::edit_registers::spec_edit_read;
use crate::edit_registers::spec_edit_write;
use crate::io::IoController;
use crate::io::IoV;
use crate::io::spec_initial_ports;
use crate::io::spec_io_wf;
use crate::io::spec_port_read_det;
use crate::io::spec_read_port;
use crate::io::spec_write_port;
use crate::periph::IoPeriph;
use crate::ram::Ram;
use crate::ram::spec_ram_read;
use crate::ram::spec_ram_write;
use crate::registers::RegV;
use crate::registers::Registers;
use crate::registers::spec_reg_read;
use crate::registers::spec_reg_wf;
use crate::registers::spec_reg_write;
use crate::rom::ReadOnlyMemory;
use crate::rom::spec_rom_read;
use crate::special_registers::SpecialRegisters;
use crate::special_registers::spec_special_read;

verus! {

/// First linear address of erasable memory.
pub const VOLATILE_START: usize = 0o61;

/// Last linear address of erasable memory.
pub const VOLATILE_END: usize = 0x3FF;

/// First linear address of fixed memory.
pub const PERSISTENT_START: usize = 0x400;

/// Last linear address of fixed memory.
pub const PERSISTENT_END: usize = 0xFFF;

/// Ghost state of the memory map.
pub ghost struct MemV {
    pub ram: Seq<u16>,
    pub rom: Option<Seq<u16>>,
    pub io: IoV,
    pub edit: EditRegisters,
    pub special: SpecialRegisters,
    pub timers: Clocks,
    pub regs: RegV,
}

/// Well-formedness of the map: the register file's bank latches are in
/// range, the storage sequences have their fixed sizes.
pub open spec fn spec_mem_wf(m: MemV) -> bool {
    &&& spec_reg_wf(m.regs)
    &&& m.ram.len() == 2048
    &&& spec_io_wf(m.io)
    &&& (m.rom is Some ==> m.rom->Some_0.len() == 36864)
}

/// Value read at a linear address: registers, edit registers, timers, and
/// special registers in their windows; banked erasable memory (bank 3
/// replaced by the erasable-bank latch); banked fixed memory (bank 1
/// replaced by the fixed-bank latch); zero outside the map.
pub open spec fn spec_mem_read(m: MemV, idx: usize) -> u16 {
    if idx <= 0o17 {
        spec_reg_read(m.regs, idx as int)
    } else if idx <= 0o23 {
        spec_edit_read(m.edit, idx as int)
    } else if idx <= 0o31 {
        spec_clock_read(m.timers, idx as int)
    } else if idx <= 0o60 {
        spec_special_read(m.special, 0, idx as int)
    } else if idx <= 0x3FF {
        let bank = idx >> 8;
        let off = idx & 0xff;
        if bank == 3 {
            spec_ram_read(m.ram, m.regs.erasable_bank as int, off as int)
        } else {
            spec_ram_read(m.ram, bank as int, off as int)
        }
    } else if idx <= 0xFFF {
        let bank = idx >> 10;
        let off = idx & 0x3ff;
        if bank == 1 {
            spec_rom_read(m.rom, m.regs.fixed_bank as int, off as int)
        } else {
            spec_rom_read(m.rom, bank as int, off as int)
        }
    } else {
        0
    }
}

/// Memory state after a write to a linear address: register, edit, and
/// timer writes land in their blocks; special-register writes, fixed-memory
/// writes, and writes outside the map change nothing; erasable writes land
/// in the selected bank.
pub open spec fn spec_mem_write(m: MemV, idx: usize, val: u16) -> MemV {
    if idx <= 0o17 {
        MemV { regs: spec_reg_write(m.regs, idx as int, val), ..m }
    } else if idx <= 0o23 {
        MemV { edit: spec_edit_write(m.edit, idx as int, val), ..m }
    } else if idx <= 0o31 {
        MemV { timers: spec_clock_write(m.timers, idx as int, val), ..m }
    } else if idx <= 0o60 {
        m
    } else if idx <= 0x3FF {
        let bank = idx >> 8;
        let off = idx & 0xff;
        if bank == 3 {
            MemV { ram: spec_ram_write(m.ram, m.regs.erasable_bank as int, off as int, val), ..m }
        } else {
            MemV { ram: spec_ram_write(m.ram, bank as int, off as int, val), ..m }
        }
    } else {
        m
    }
}

/// Whether a channel read is determined by the memory state alone.
pub open spec fn spec_io_read_det(m: MemV, idx: usize) -> bool {
    if idx == 0o01 || idx == 0o02 || idx == 0o03 || idx == 0o04 {
        true
    } else {
        spec_port_read_det(m.io, idx as int)
    }
}

/// Value of a channel read: the link and return registers back channels 1
/// and 2, the master counter backs the scalar channels, and the I/O
/// controller serves the rest. `pv` stands for the peripheral's word on the
/// delegating channels.
pub open spec fn spec_io_read(m: MemV, idx: usize, pv: u16) -> u16 {
    if idx == 0o01 {
        spec_reg_read(m.regs, 1)
    } else if idx == 0o02 {
        spec_reg_read(m.regs, 2)
    } else if idx == 0o03 {
        ((m.timers.counter >> 14) & 0o37777) as u16
    } else if idx == 0o04 {
        (m.timers.counter & 0o37777) as u16
    } else {
        spec_read_port(m.io, idx as int, pv)
    }
}

/// Memory state after a channel write: channels 1 and 2 write the link and
/// return registers; channels 34 and 35 update the interrupt-flag pair and
/// store; every other channel stores through the I/O controller.
pub open spec fn spec_io_write(m: MemV, idx: usize, val: u16) -> MemV {
    if idx == 0o01 {
        MemV { regs: spec_reg_write(m.regs, 1, val), ..m }
    } else if idx == 0o02 {
        MemV { regs: spec_reg_write(m.regs, 2, val), ..m }
    } else if idx == 0o34 {
        MemV {
            timers: spec_update_interrupt_flags(m.timers, 1),
            io: IoV { ports: spec_write_port(m.io.ports, idx as int, val), ..m.io },
            ..m
        }
    } else if idx == 0o35 {
        MemV {
            timers: spec_update_interrupt_flags(m.timers, 2),
            io: IoV { ports: spec_write_port(m.io.ports, idx as int, val), ..m.io },
            ..m
        }
    } else {
        MemV { io: IoV { ports: spec_write_port(m.io.ports, idx as int, val), ..m.io }, ..m }
    }
}

/// Address subfields stay inside the bank and offset ranges of the two
/// banked regions.
proof fn lemma_mem_addr_fields(x: usize)
    by (bit_vector)
    ensures
        x & 0xff <= 0xff,
        x & 0x3ff <= 0x3ff,
        x <= 0o17 ==> x & 0xff == x,
        x <= 0x3FF ==> x >> 8 <= 3,
        x <= 0xFFF ==> x >> 10 <= 3,
{
}

/// The memory map owning every storage block and the I/O controller.
pub struct MemoryMap<D: IoPeriph, K: IoPeriph> {
    pub ram: Ram,
    pub rom: ReadOnlyMemory,
    pub io: IoController<D, K>,
    pub edit: EditRegisters,
    pub special: SpecialRegisters,
    pub timers: Clocks,
    pub regs: Registers,
}

impl<D: IoPeriph, K: IoPeriph> View for MemoryMap<D, K> {
    type V = MemV;

    open spec fn view(&self) -> MemV {
        MemV {
            ram: self.ram@,
            rom: self.rom@,
            io: self.io@,
            edit: self.edit,
            special: self.special,
            timers: self.timers,
            regs: self.regs@,
        }
    }
}

impl<D: IoPeriph, K: IoPeriph> MemoryMap<D, K> {
    /// A blank memory map: no fixed-memory image and no peripherals.
    pub fn new_blank() -> (r: MemoryMap<D, K>)
        ensures
            spec_mem_wf(r@),
            forall|i: int| 0 <= i < 2048 ==> r@.ram[i] == 0,
            r@.rom is None,
            r@.io.ports == spec_initial_ports(),
            !r@.io.has_downlink,
            !r@.io.has_display,
            r@.edit == (EditRegisters { cycle_right: 0, shift_reg: 0, cycle_left: 0, edit_op: 0 }),
            r@.timers == (Clocks {
                counter: 0,
                mct_counter: 0,
                rupt_counter: 1,
                interrupt_flags: 0,
                timer1: 0,
                timer3: 0,
                timer4: 0,
            }),
            forall|i: int| 0 <= i < 32 ==> r@.regs.registers[i] == 0,
            r@.regs.fixed_bank == 0,
            r@.regs.erasable_bank == 0,
    {
        MemoryMap {
            ram: Ram::new(),
            rom: ReadOnlyMemory::empty(),
            io: IoController::empty(),
            edit: EditRegisters::new(),
            special: SpecialRegisters::new(),
            timers: Clocks::new(),
            regs: Registers::new(),
        }
    }

    /// An operational memory map: the fixed-memory image and the two
    /// peripherals are attached, all mutable storage is zeroed.
    pub fn new(program: [u16; 36864], downrupt: D, dsky: K) -> (r: MemoryMap<D, K>)
        ensures
            spec_mem_wf(r@),
            forall|i: int| 0 <= i < 2048 ==> r@.ram[i] == 0,
            r@.rom == Some(program@),
            r@.io.ports == spec_initial_ports(),
            r@.io.has_downlink,
            r@.io.has_display,
            r@.edit == (EditRegisters { cycle_right: 0, shift_reg: 0, cycle_left: 0, edit_op: 0 }),
            r@.timers == (Clocks {
                counter: 0,
                mct_counter: 0,
                rupt_counter: 1,
                interrupt_flags: 0,
                timer1: 0,
                timer3: 0,
                timer4: 0,
            }),
            forall|i: int| 0 <= i < 32 ==> r@.regs.registers[i] == 0,
            r@.regs.fixed_bank == 0,
            r@.regs.erasable_bank == 0,
    {
        MemoryMap {
            ram: Ram::new(),
            rom: ReadOnlyMemory::new(program),
            edit: EditRegisters::new(),
            io: IoController::new(downrupt, dsky),
            special: SpecialRegisters::new(),
            timers: Clocks::new(),
            regs: Registers::new(),
        }
    }

    /// Clears erasable memory and the timers.
    pub fn reset(&mut self)
        requires
            spec_mem_wf(old(self)@),
        ensures
            spec_mem_wf(final(self)@),
            forall|i: int| 0 <= i < 2048 ==> final(self)@.ram[i] == 0,
            final(self)@.timers == (Clocks {
                timer1: 0,
                timer3: 0,
                timer4: 0,
                ..old(self)@.timers
            }),
            final(self)@.rom == old(self)@.rom,
            final(self)@.io == old(self)@.io,
            final(self)@.edit == old(self)@.edit,
            final(self)@.regs == old(self)@.regs,
    {
        self.ram.reset();
        self.timers.reset();
    }

    /// Borrows the timing state.
    pub fn fetch_clocks(&mut self) -> (ret: &mut Clocks)
        ensures
            *ret == old(self)@.timers,
            final(self)@ == (MemV { timers: *final(ret), ..old(self)@ }),
    {
        &mut self.timers
    }

    /// Writes an I/O channel.
    pub fn write_io(&mut self, idx: usize, value: u16)
        requires
            spec_mem_wf(old(self)@),
        ensures
            spec_mem_wf(final(self)@),
            final(self)@ == spec_io_write(old(self)@, idx, value),
    {
        if idx == crate::io::CHANNEL_L {
            self.regs.write(0, crate::registers::REGISTER_LINK, value);
        } else if idx == crate::io::CHANNEL_Q {
            self.regs.write(0, crate::registers::REGISTER_MULTIPLIER, value);
        } else if idx == crate::io::CHANNEL_CHAN34 {
            self.timers.update_interrupt_flags(1);
            self.io.write_port(idx, value);
        } else if idx == crate::io::CHANNEL_CHAN35 {
            self.timers.update_interrupt_flags(2);
            self.io.write_port(idx, value);
        } else {
            self.io.write_port(idx, value);
        }
    }

    /// Reads an I/O channel. On the delegating channels the result is
    /// whatever the attached peripheral returned; everywhere else it is
    /// determined by the memory state.
    pub fn read_io(&self, idx: usize) -> (r: u16)
        requires
            spec_mem_wf(self@),
        ensures
            spec_io_read_det(self@, idx) ==> r == spec_io_read(self@, idx, 0),
            !spec_io_read_det(self@, idx) ==> exists|pv: u16| r == spec_io_read(self@, idx, pv),
    {
        if idx == crate::io::CHANNEL_L {
            self.regs.read(0, crate::registers::REGISTER_LINK)
        } else if idx == crate::io::CHANNEL_Q {
            self.regs.read(0, crate::registers::REGISTER_MULTIPLIER)
        } else if idx == crate::io::CHANNEL_HISCALAR {
            let result: u32 = self.timers.get_counter_value();
            ((result >> 14u32) & 0o37777) as u16
        } else if idx == crate::io::CHANNEL_LOSCALAR {
            let result: u32 = self.timers.get_counter_value();
            (result & 0o37777) as u16
        } else {
            let r: u16 = self.io.read_port(idx);
            proof {
                if !spec_io_read_det(self@, idx) {
                    let pv = choose|pv: u16| r == spec_read_port(self@.io, idx as int, pv);
                    assert(r == spec_io_read(self@, idx, pv));
                }
            }
            r
        }
    }

    /// Writes a linear memory address.
    pub fn write(&mut self, idx: usize, val: u16)
        requires
            spec_mem_wf(old(self)@),
        ensures
            spec_mem_wf(final(self)@),
            final(self)@ == spec_mem_write(old(self)@, idx, val),
    {
        proof {
            lemma_mem_addr_fields(idx);
        }
        if idx <= 0o17 {
            self.regs.write(0, idx, val);
        } else if idx <= 0o23 {
            self.edit.write(0, idx, val);
        } else if idx <= 0o31 {
            self.timers.write(0, idx, val);
        } else if idx <= 0o60 {
            self.special.write(0, idx, val);
        } else if idx <= VOLATILE_END {
            if (idx >> 8) == 3 {
                self.ram.write(self.regs.erasable_bank, idx & 0xff, val);
            } else {
                self.ram.write(idx >> 8, idx & 0xff, val);
            }
        } else if idx <= PERSISTENT_END {
            let bank_idx: usize = idx >> 10;
            if bank_idx == 1 {
                self.rom.write(self.regs.fixed_bank, idx & 0x3ff, val);
            } else {
                self.rom.write(bank_idx, idx & 0x3ff, val);
            }
        }
    }

    /// Reads a linear memory address.
    pub fn read(&self, idx: usize) -> (r: u16)
        requires
            spec_mem_wf(self@),
        ensures
            r == spec_mem_read(self@, idx),
    {
        proof {
            lemma_mem_addr_fields(idx);
        }
        if idx <= 0o17 {
            self.regs.read(0, idx & 0xff)
        } else if idx <= 0o23 {
            self.edit.read(0, idx)
        } else if idx <= 0o31 {
            self.timers.read(0, idx)
        } else if idx <= 0o60 {
            self.special.read(0, idx)
        } else if idx <= VOLATILE_END {
            if (idx >> 8) == 3 {
                self.ram.read(self.regs.erasable_bank, idx & 0xff)
            } else {
                self.ram.read(idx >> 8, idx & 0xff)
            }
        } else if idx <= PERSISTENT_END {
            if (idx >> 10) == 1 {
                self.rom.read(self.regs.fixed_bank, idx & 0x3ff)
            } else {
                self.rom.read(idx >> 10, idx & 0x3ff)
            }
        } else {
            0
        }
    }

    /// Whether the map is well-formed; a caller may test this before using
    /// the map.
    pub fn is_well_formed(&self) -> (b: bool)
        ensures
            b == spec_mem_wf(self@),
    {
        self.regs.erasable_bank < 8 && self.regs.fixed_bank < 32
    }

    /// Aggregates the pending-interrupt masks of the attached peripherals;
    /// zero when none is attached.
    pub fn check_interrupts(&mut self) -> (r: u16)
        ensures
            final(self)@ == old(self)@,
            !old(self)@.io.has_display && !old(self)@.io.has_downlink ==> r == 0,
    {
        self.io.get_interrupt_status()
    }
}

/// Law: a write anywhere in the fixed-memory window is a no-op, and a
/// subsequent read still returns the fixed-memory-derived value.
pub proof fn lemma_rom_write_noop(m: MemV, idx: usize, val: u16)
    requires
        0x400 <= idx <= 0xFFF,
    ensures
        spec_mem_write(m, idx, val) == m,
        spec_mem_read(spec_mem_write(m, idx, val), idx) == spec_mem_read(m, idx),
{
}

/// Law: the null register (address 7) reads zero in every state, and a
/// write to it changes nothing.
pub proof fn lemma_null_register_reads_zero(m: MemV, val: u16)
    requires
        spec_mem_wf(m),
    ensures
        spec_mem_read(m, 0o7) == 0,
        spec_mem_write(m, 0o7, val) == m,
{
    assert(0o7usize & 0xff == 0o7) by (bit_vector);
    assert(m.regs.registers.update(7, val) == m.regs.registers.update(7, val));
    assert(spec_mem_write(m, 0o7, val).regs =~= m.regs);
    assert(spec_mem_write(m, 0o7, val) =~= m);
}

/// Law: the zero/counter register (address 5) always reads its stored word
/// zero-extended to 12 bits, in every state and after every write to it.
pub proof fn lemma_counter_register_masked(m: MemV, val: u16)
    requires
        spec_mem_wf(m),
    ensures
        spec_mem_read(m, 0o5) == m.regs.registers[5] & 0o7777,
        spec_mem_read(m, 0o5) <= 0o7777,
        spec_mem_read(spec_mem_write(m, 0o5, val), 0o5) == val & 0o7777,
{
    assert(0o5usize & 0xff == 0o5) by (bit_vector);
    crate::utils::lemma_u16_and_le(m.regs.registers[5], 0o7777);
}

} // verus!
