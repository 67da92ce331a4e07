//! Tests of the memory map, the register file, the timers, the I/O
//! controller, and full instruction execution through the CPU.

use ragc::clock::Clocks;
use ragc::cpu::Cpu;
use ragc::cpu::UnprogSequence;
use ragc::instructions::Instructions;
use ragc::instructions::Mnemonic;
use ragc::memory::MemoryMap;
use ragc::periph::NullPeriph;
use ragc::rom::ReadOnlyMemory;

/// A blank CPU with no program image and no peripherals.
fn blank_cpu() -> Cpu<NullPeriph, NullPeriph> {
    Cpu::new(MemoryMap::new_blank())
}

/// Encodes an instruction word the way the fixed-memory image stores it:
/// shifted left past the parity bit, big-endian.
fn rom_word(x: u16) -> u16 {
    (x << 1).swap_bytes()
}

/// A CPU whose fixed memory holds the given words starting at the boot
/// address 0x800.
fn cpu_with_program(words: &[u16]) -> Cpu<NullPeriph, NullPeriph> {
    let mut image = [0u16; 36864];
    // Linear 0x800 is logical bank 2, which the permutation maps to
    // physical bank 0, the start of the image.
    for (i, w) in words.iter().enumerate() {
        image[i] = rom_word(*w);
    }
    Cpu::new(MemoryMap::new(image, NullPeriph {}, NullPeriph {}))
}

#[test]
fn boot_state() {
    let mut cpu = blank_cpu();
    assert_eq!(cpu.read(0o5), 0x800);
    assert!(!cpu.gint);
    assert!(!cpu.is_irupt);
    assert_eq!(cpu.rupt, 1 << 8);
    assert_eq!(cpu.mem.io.port_map[0o30], 0o37777);
    assert_eq!(cpu.mem.io.port_map[0o31], 0o77777);
    assert_eq!(cpu.mem.io.port_map[0o32], 0o77777);
    assert_eq!(cpu.mem.io.port_map[0o33], 0o77777);
}

#[test]
fn bank_registers_stay_consistent() {
    let mut cpu = blank_cpu();
    // Write the combined-bank register: erasable bank 5, fixed bank 9.
    cpu.write(0o6, (9 << 10) | 5);
    assert_eq!(cpu.read(0o3), 5 << 8);
    assert_eq!(cpu.read(0o4), 9 << 10);
    assert_eq!(cpu.read(0o6), (9 << 10) | 5);
    // Write the erasable-bank register alone; the other two refresh.
    cpu.write(0o3, 3 << 8);
    assert_eq!(cpu.read(0o3), 3 << 8);
    assert_eq!(cpu.read(0o4), 9 << 10);
    assert_eq!(cpu.read(0o6), (9 << 10) | 3);
    // Write the fixed-bank register alone.
    cpu.write(0o4, 20 << 10);
    assert_eq!(cpu.read(0o3), 3 << 8);
    assert_eq!(cpu.read(0o4), 20 << 10);
    assert_eq!(cpu.read(0o6), (20 << 10) | 3);
}

#[test]
fn rom_write_is_noop() {
    let mut cpu = cpu_with_program(&[0o60100]);
    assert_eq!(cpu.read(0x800), 0o60100);
    cpu.write(0x800, 0x1234);
    assert_eq!(cpu.read(0x800), 0o60100);
}

#[test]
fn null_register_reads_zero() {
    let mut cpu = blank_cpu();
    cpu.write(0o7, 0o1234);
    assert_eq!(cpu.read(0o7), 0);
}

#[test]
fn counter_register_masked_to_12_bits() {
    let mut cpu = blank_cpu();
    cpu.write(0o5, 0xFFFF);
    assert_eq!(cpu.read(0o5), 0xFFF);
}

#[test]
fn edit_register_cycle_left() {
    let mut cpu = blank_cpu();
    cpu.write(0o22, 0x4001);
    assert_eq!(cpu.read(0o22), 0x0003);
}

#[test]
fn edit_register_cycle_right_shift_and_edit_op() {
    let mut cpu = blank_cpu();
    cpu.write(0o20, 0x0003);
    assert_eq!(cpu.read(0o20), 0x4001);
    cpu.write(0o21, 0x4002);
    assert_eq!(cpu.read(0o21), 0x6001);
    cpu.write(0o23, 0x7FFF);
    assert_eq!(cpu.read(0o23), 0x7F);
}

#[test]
fn erasable_memory_round_trip() {
    let mut cpu = blank_cpu();
    cpu.write(0o100, 0o12345);
    assert_eq!(cpu.read(0o100), 0o12345);
    // A 16-bit value is truncated to 15 bits in plain erasable storage.
    cpu.write(0o200, 0xFFFF);
    assert_eq!(cpu.read(0o200), 0x7FFF);
}

#[test]
fn erasable_bank_switching() {
    let mut cpu = blank_cpu();
    // Select erasable bank 5 and write through the switchable window
    // (addresses 0o1400..0o1777 are bank 3, replaced by the latch).
    cpu.write(0o3, 5 << 8);
    cpu.write(0o1420, 0o4321);
    assert_eq!(cpu.read(0o1420), 0o4321);
    // Under a different bank the same window shows different storage.
    cpu.write(0o3, 6 << 8);
    assert_eq!(cpu.read(0o1420), 0);
}

#[test]
fn rom_bank_permutation() {
    let mut image = [0u16; 36864];
    // Logical bank 0 reads physical bank 2.
    image[2 * 1024] = rom_word(0o1111);
    let rom = ReadOnlyMemory::new(image);
    assert_eq!(rom.read(0, 0), 0o1111);
    assert_eq!(rom.read(2, 0), 0);
    // Out-of-range banks and offsets read zero.
    assert_eq!(rom.read(36, 0), 0);
    assert_eq!(rom.read(0, 1024), 0);
    assert_eq!(ReadOnlyMemory::empty().read(0, 0), 0);
}

#[test]
fn io_channel_defaults() {
    let mut cpu = blank_cpu();
    assert_eq!(cpu.read_io(0o31), 0o77777);
    assert_eq!(cpu.read_io(0o33), 0o77777);
    assert_eq!(cpu.read_io(0o16), 0);
    // Channel 13 reads through its defined-bit mask.
    cpu.write_io(0o13, 0x7FFF);
    assert_eq!(cpu.read_io(0o13), 0x7FFF & 0x47CF);
    // Channel 32 is read-only.
    cpu.write_io(0o32, 0);
    assert_eq!(cpu.mem.io.port_map[0o32], 0o77777);
}

#[test]
fn io_scalar_channels_split_master_counter() {
    let mut cpu = blank_cpu();
    cpu.mem.timers.counter = 0o1234567012;
    assert_eq!(cpu.read_io(0o3), ((0o1234567012u32 >> 14) & 0o37777) as u16);
    assert_eq!(cpu.read_io(0o4), (0o1234567012u32 & 0o37777) as u16);
}

#[test]
fn io_register_channels_alias_link_and_return() {
    let mut cpu = blank_cpu();
    cpu.write_io(0o1, 0o1234);
    cpu.write_io(0o2, 0o4321);
    assert_eq!(cpu.read(0o1), 0o1234);
    assert_eq!(cpu.read_io(0o1), 0o1234);
    assert_eq!(cpu.read_io(0o2), 0o4321);
}

#[test]
fn timer_registers() {
    let mut cpu = blank_cpu();
    cpu.write(0o26, 0o1234);
    assert_eq!(cpu.read(0o26), 0o1234);
    cpu.write(0o27, 0xFFFF);
    assert_eq!(cpu.read(0o27), 0o77777);
    // Timer 1 reads back only 14 bits.
    cpu.write(0o25, 0o77777);
    assert_eq!(cpu.read(0o25), 0o37777);
    // Timer 2's address is not backed; it reads zero.
    cpu.write(0o24, 0o123);
    assert_eq!(cpu.read(0o24), 0);
}

#[test]
fn timer4_overflow_raises_interrupt_bit() {
    let mut clocks = Clocks::new();
    clocks.set_time_value(ragc::clock::ClockType::TIMER4, 0o37777);
    assert_eq!(clocks.process_timer4(), 1 << 4);
    assert_eq!(clocks.timer4, 0);
    assert_eq!(clocks.process_timer4(), 0);
    assert_eq!(clocks.timer4, 1);
}

#[test]
fn interrupt_flag_pair_clears_together() {
    let mut clocks = Clocks::new();
    assert_eq!(clocks.rupt_counter, 1);
    clocks.update_interrupt_flags(1);
    assert_eq!(clocks.interrupt_flags, 1);
    clocks.update_interrupt_flags(2);
    assert_eq!(clocks.interrupt_flags, 0);
    assert_eq!(clocks.rupt_counter, 0);
}

#[test]
fn scenario_ad_then_store() {
    // AD 0o100 then XCH 0o101, with A = +3 and M[0o100] = +5.
    let mut cpu = cpu_with_program(&[0o60100, 0o56101]);
    cpu.write(0, 0x0003);
    cpu.write(0o100, 0x0005);

    let cycles = cpu.step();
    assert_eq!(cycles, 2);
    assert_eq!(cpu.read(0), 8);

    let cycles = cpu.step();
    assert_eq!(cycles, 2);
    assert_eq!(cpu.read(0), 0);
    assert_eq!(cpu.read(0o101), 8);
}

#[test]
fn scenario_bzf_zero_representations() {
    let inst = Instructions { pc: 0, data: 0o12123, mnem: Mnemonic::BZF, extrabits: None, mct: 1 };

    // Negative zero in the 16-bit accumulator: branch taken.
    let mut cpu = blank_cpu();
    cpu.write(0, 0xFFFF);
    assert_eq!(cpu.bzf(&inst), 1);
    assert_eq!(cpu.read(0o5), 0o2123);

    // Positive zero: branch taken.
    let mut cpu = blank_cpu();
    cpu.write(0, 0);
    assert_eq!(cpu.bzf(&inst), 1);
    assert_eq!(cpu.read(0o5), 0o2123);

    // Nonzero: fall through at a cost of two cycles.
    let mut cpu = blank_cpu();
    cpu.write(0, 0x0001);
    assert_eq!(cpu.bzf(&inst), 2);
    assert_eq!(cpu.read(0o5), 0x800);
}

#[test]
fn scenario_extend_persists_through_index() {
    // EXTEND, then INDEX 0o100, then MP 0o101: the extend flag must survive
    // the INDEX so the third word decodes as extended MP.
    let mut cpu = cpu_with_program(&[0o000006, 0o50100, 0o70101]);
    cpu.write(0, 0x0003);
    cpu.write(0o101, 0x0005);

    cpu.step();
    assert!(cpu.ec_flag);

    cpu.step();
    assert!(cpu.ec_flag);

    cpu.step();
    assert!(!cpu.ec_flag);
    // MP wrote +15 double-precision across A and L.
    assert_eq!(cpu.read(0), 0);
    assert_eq!(cpu.read(1), 15);
}

#[test]
fn scenario_interrupt_priority() {
    let mut cpu = cpu_with_program(&[0o00000]);
    cpu.rupt = (1 << 4) | (1 << 8);
    cpu.gint = true;

    let cycles = cpu.step();
    assert_eq!(cycles, 0);
    assert_eq!(cpu.read(0o5), 0x810);
    assert_eq!(cpu.rupt, 1 << 8);
    assert!(cpu.is_irupt);
    assert!(!cpu.gint);
    // Backup registers hold the incremented counter and the composite word.
    assert_eq!(cpu.read(0o15), 0x801);
    assert_eq!(cpu.read(0o17), 0);
}

#[test]
fn scenario_goj_restart() {
    let mut cpu = blank_cpu();
    cpu.write_io(0o5, 0o123);
    cpu.write_io(0o13, 0o456);
    cpu.gint = true;
    cpu.is_irupt = true;

    assert!(cpu.request_unprogrammed(UnprogSequence::GOJ));
    let cycles = cpu.step();
    assert_eq!(cycles, 2);

    for port in [0o5usize, 0o6, 0o10, 0o11, 0o12, 0o13, 0o14, 0o34, 0o35] {
        assert_eq!(cpu.mem.io.port_map[port], 0, "channel {port:o} not cleared");
    }
    assert_eq!(cpu.mem.io.port_map[0o33] & 0o2000, 0);
    assert!(!cpu.gint);
    assert!(!cpu.is_irupt);
    assert_eq!(cpu.read(0o5), 0x800);
    assert_eq!(cpu.mem.io.port_map[0o163] & 0o200, 0o200);
}

#[test]
fn unprogrammed_queue_order_and_capacity() {
    let mut cpu = blank_cpu();
    assert!(cpu.request_unprogrammed(UnprogSequence::PINC));
    assert!(cpu.request_unprogrammed(UnprogSequence::FETCH));
    // The counter sequence costs one cycle, the fetch two, in queue order.
    assert_eq!(cpu.step(), 1);
    assert_eq!(cpu.step(), 2);

    for _ in 0..8 {
        assert!(cpu.request_unprogrammed(UnprogSequence::PINC));
    }
    assert!(!cpu.request_unprogrammed(UnprogSequence::PINC));
}

#[test]
fn resume_restores_interrupt_state() {
    let mut cpu = blank_cpu();
    cpu.write(0o15, 0x812);
    cpu.write(0o17, 0o1234);
    let inst = Instructions { pc: 0, data: 0o50017, mnem: Mnemonic::RESUME, extrabits: None, mct: 1 };
    cpu.is_irupt = true;
    assert_eq!(cpu.resume(&inst), 2);
    assert_eq!(cpu.read(0o5), 0x811);
    assert_eq!(cpu.ir, 0o1234);
    assert!(cpu.gint);
    assert!(!cpu.is_irupt);
}

#[test]
fn step_costs_follow_instruction_table() {
    // TC 0o123: one cycle; the return register holds the caller.
    let mut cpu = cpu_with_program(&[0o01234]);
    assert_eq!(cpu.step(), 1);
    assert_eq!(cpu.read(0o5), 0o1234);
    assert_eq!(cpu.read(0o2), 0x801);
    assert_eq!(cpu.total_cycles, 1);
}
