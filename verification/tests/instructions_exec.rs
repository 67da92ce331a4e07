//! Tests of individual instruction handlers and their side effects.

use ragc::cpu::Cpu;
use ragc::instructions::Instructions;
use ragc::instructions::Mnemonic;
use ragc::memory::MemoryMap;
use ragc::periph::NullPeriph;

fn blank_cpu() -> Cpu<NullPeriph, NullPeriph> {
    Cpu::new(MemoryMap::new_blank())
}

fn inst(mnem: Mnemonic, data: u16) -> Instructions {
    Instructions { pc: 0, data, mnem, extrabits: None, mct: 1 }
}

#[test]
fn ca_from_edit_address_reapplies_the_shift() {
    let mut cpu = blank_cpu();
    // The cycle-left register holds 3 after this write.
    cpu.write(0o22, 0x4001);
    // CA 0o22 loads the 3 and, through the edit side effect, rewrites it:
    // the re-written 3 cycles left to 6.
    assert_eq!(cpu.ca(&inst(Mnemonic::CA, 0o30022)), 2);
    assert_eq!(cpu.read(0), 3);
    assert_eq!(cpu.read(0o22), 6);
}

#[test]
fn incr_rollovers() {
    let mut cpu = blank_cpu();
    cpu.write(0o150, 5);
    cpu.incr(&inst(Mnemonic::INCR, 0o24150));
    assert_eq!(cpu.read(0o150), 6);

    cpu.write(0o150, 0o37777);
    cpu.incr(&inst(Mnemonic::INCR, 0o24150));
    assert_eq!(cpu.read(0o150), 0);

    cpu.write(0o150, 0o77777);
    cpu.incr(&inst(Mnemonic::INCR, 0o24150));
    assert_eq!(cpu.read(0o150), 1);
}

#[test]
fn dim_decrements_magnitude() {
    let mut cpu = blank_cpu();
    cpu.write(0o150, 5);
    cpu.dim(&inst(Mnemonic::DIM, 0o26150));
    assert_eq!(cpu.read(0o150), 4);

    // A positive one decrements to negative zero.
    cpu.write(0o150, 1);
    cpu.dim(&inst(Mnemonic::DIM, 0o26150));
    assert_eq!(cpu.read(0o150), 0o77777);

    // Both zeros stay put.
    cpu.write(0o150, 0);
    cpu.dim(&inst(Mnemonic::DIM, 0o26150));
    assert_eq!(cpu.read(0o150), 0);
}

#[test]
fn su_subtracts_by_complement() {
    let mut cpu = blank_cpu();
    cpu.write(0, 5);
    cpu.write(0o150, 3);
    assert_eq!(cpu.su(&inst(Mnemonic::SU, 0o60150)), 2);
    assert_eq!(cpu.read(0), 2);
}

#[test]
fn dv_null_dividend_saturates_accumulator() {
    let mut cpu = blank_cpu();
    cpu.write(0, 0);
    cpu.write(1, 0);
    cpu.write(0o150, 5);
    assert_eq!(cpu.dv(&inst(Mnemonic::DV, 0o150)), 6);
    assert_eq!(cpu.read(0), 0o37777);

    // Disagreeing signs give the negative marker instead.
    let mut cpu = blank_cpu();
    cpu.write(0, 0);
    cpu.write(1, 0);
    cpu.write(0o150, 0o40007);
    cpu.dv(&inst(Mnemonic::DV, 0o150));
    assert_eq!(cpu.read(0) & 0x7FFF, 0o40000);
}

#[test]
fn cs_loads_complement() {
    let mut cpu = blank_cpu();
    cpu.write(0o150, 5);
    cpu.cs(&inst(Mnemonic::CS, 0o40150));
    // The 15-bit 5 sign-extends, complements, and lands as a 16-bit word.
    assert_eq!(cpu.read(0), !5u16);
}

#[test]
fn dca_loads_big_endian_pair() {
    let mut cpu = blank_cpu();
    cpu.write(0o150, 0o1111);
    cpu.write(0o151, 0o2222);
    cpu.dca(&inst(Mnemonic::DCA, 0o30151));
    assert_eq!(cpu.read(0), 0o1111);
    assert_eq!(cpu.read(1), 0o2222);
}

#[test]
fn lxch_and_qxch_exchange() {
    let mut cpu = blank_cpu();
    cpu.write(1, 0o111);
    cpu.write(0o150, 0o222);
    cpu.lxch(&inst(Mnemonic::LXCH, 0o22150));
    assert_eq!(cpu.read(1), 0o222);
    assert_eq!(cpu.read(0o150), 0o111);

    let mut cpu = blank_cpu();
    cpu.write(2, 0o333);
    cpu.write(0o150, 0o444);
    cpu.qxch(&inst(Mnemonic::QXCH, 0o150));
    assert_eq!(cpu.read(2), 0o444);
    assert_eq!(cpu.read(0o150), 0o333);
}

#[test]
fn read_instr_sign_extends_channel_word() {
    let mut cpu = blank_cpu();
    // Channel 0o31 always reads 0o77777; sign extension fills bit 15.
    cpu.read_instr(&inst(Mnemonic::READ, 0o31));
    assert_eq!(cpu.read(0), 0xFFFF);
}

#[test]
fn write_instr_stores_accumulator_to_channel() {
    let mut cpu = blank_cpu();
    cpu.write(0, 0x1234);
    cpu.write_instr(&inst(Mnemonic::WRITE, 0o12));
    assert_eq!(cpu.mem.io.port_map[0o12], 0x1234);
}

#[test]
fn wor_combines_and_writes_back() {
    let mut cpu = blank_cpu();
    cpu.write(0, 0x5);
    cpu.write_io(0o12, 0x3);
    cpu.wor(&inst(Mnemonic::WOR, 0o12));
    assert_eq!(cpu.read(0), 0x7);
    assert_eq!(cpu.mem.io.port_map[0o12], 0x7);
}

#[test]
fn wand_combines_and_writes_back() {
    let mut cpu = blank_cpu();
    cpu.write(0, 0x5);
    cpu.write_io(0o12, 0x3);
    cpu.wand(&inst(Mnemonic::WAND, 0o12));
    assert_eq!(cpu.read(0), 0x1);
    assert_eq!(cpu.mem.io.port_map[0o12], 0x1);
}

#[test]
fn rxor_flips_matching_bits() {
    let mut cpu = blank_cpu();
    cpu.write(0, 0x5);
    cpu.write_io(0o12, 0x3);
    cpu.rxor(&inst(Mnemonic::RXOR, 0o12));
    assert_eq!(cpu.read(0), 0x6);
}

#[test]
fn write_dp_splits_29_bit_values() {
    let mut cpu = blank_cpu();
    // A negative double word: both halves carry the sign bit.
    cpu.write_dp(0o150, 0o3777777770);
    assert_eq!(cpu.read(0o150), 0o77777);
    assert_eq!(cpu.read(0o151), 0o77770);
    assert_eq!(cpu.read_dp(0o150), 0o3777777770);

    let mut cpu = blank_cpu();
    cpu.write_dp(0o150, 15);
    assert_eq!(cpu.read(0o150), 0);
    assert_eq!(cpu.read(0o151), 15);
    assert_eq!(cpu.read_dp(0o150), 15);
}
