//! Tests of the DSKY wire codec and the instruction decoder.

use ragc::decoder::decoder;
use ragc::dsky::Packet;
use ragc::dsky::generate_dsky_packet;
use ragc::dsky::parse_dsky_packet;
use ragc::instructions::Instructions;
use ragc::instructions::Mnemonic;

#[test]
fn dsky_packet_framing() {
    let bytes = generate_dsky_packet(0o163, 0o12345);
    assert_eq!(bytes[0] & 0xC0, 0x00);
    assert_eq!(bytes[1] & 0xC0, 0x40);
    assert_eq!(bytes[2] & 0xC0, 0x80);
    assert_eq!(bytes[3] & 0xC0, 0xC0);
    let (addr, value) = parse_dsky_packet(bytes).unwrap();
    assert_eq!(addr, 0o163);
    assert_eq!(value, 0o12345);
}

#[test]
fn dsky_parse_generate_round_trip() {
    for addr in [0usize, 1, 0o77, 0o163, 255] {
        for value in [0u16, 1, 0o12345, 0x7FFF] {
            let bytes = generate_dsky_packet(addr, value);
            assert_eq!(parse_dsky_packet(bytes), Some((addr as u16, value)));
        }
    }
}

#[test]
fn dsky_generate_parse_round_trip() {
    let bytes = [0x1Fu8, 0x5A, 0xBF, 0xC1];
    let (addr, value) = parse_dsky_packet(bytes).unwrap();
    assert_eq!(generate_dsky_packet(addr as usize, value), bytes);
}

#[test]
fn dsky_parse_rejects_bad_framing() {
    assert_eq!(parse_dsky_packet([0x40, 0x40, 0x80, 0xC0]), None);
    assert_eq!(parse_dsky_packet([0x00, 0x00, 0x80, 0xC0]), None);
    assert_eq!(parse_dsky_packet([0x00, 0x40, 0x00, 0xC0]), None);
    assert_eq!(parse_dsky_packet([0x00, 0x40, 0x80, 0x80]), None);
}

#[test]
fn dsky_packet_type_round_trip() {
    let bytes = generate_dsky_packet(0o15, 0o54321);
    let packet = Packet::new(&bytes);
    assert_eq!(packet.serialize(), bytes);

    let bad = Packet::new(&[0xFF, 0xFF, 0xFF, 0xFF]);
    assert_eq!(bad.io_addr, 0);
    assert_eq!(bad.io_value, 0);
}

#[test]
fn decoder_basic_table() {
    assert_eq!(decoder(0, 0o00003).unwrap().mnem, Mnemonic::RELINT);
    assert_eq!(decoder(0, 0o00004).unwrap().mnem, Mnemonic::INHINT);
    assert_eq!(decoder(0, 0o00006).unwrap().mnem, Mnemonic::EXTEND);
    assert_eq!(decoder(0, 0o01234).unwrap().mnem, Mnemonic::TC);
    assert_eq!(decoder(0, 0o10123).unwrap().mnem, Mnemonic::CCS);
    assert_eq!(decoder(0, 0o12123).unwrap().mnem, Mnemonic::TCF);
    assert_eq!(decoder(0, 0o20123).unwrap().mnem, Mnemonic::DAS);
    assert_eq!(decoder(0, 0o22123).unwrap().mnem, Mnemonic::LXCH);
    assert_eq!(decoder(0, 0o24123).unwrap().mnem, Mnemonic::INCR);
    assert_eq!(decoder(0, 0o26123).unwrap().mnem, Mnemonic::ADS);
    let ca = decoder(0, 0o30123).unwrap();
    assert_eq!(ca.mnem, Mnemonic::CA);
    assert_eq!(ca.mct, 2);
    assert_eq!(decoder(0, 0o40123).unwrap().mnem, Mnemonic::CS);
    assert_eq!(decoder(0, 0o50017).unwrap().mnem, Mnemonic::RESUME);
    assert_eq!(decoder(0, 0o50020).unwrap().mnem, Mnemonic::INDEX);
    assert_eq!(decoder(0, 0o52123).unwrap().mnem, Mnemonic::DXCH);
    let ts = decoder(0, 0o54123).unwrap();
    assert_eq!(ts.mnem, Mnemonic::TS);
    assert_eq!(ts.mct, 2);
    assert_eq!(decoder(0, 0o56123).unwrap().mnem, Mnemonic::XCH);
    assert_eq!(decoder(0, 0o60123).unwrap().mnem, Mnemonic::AD);
    assert_eq!(decoder(0, 0o70123).unwrap().mnem, Mnemonic::MASK);
}

#[test]
fn decoder_extended_table() {
    let ext = 0o100000u16;
    assert_eq!(decoder(0, ext | 0o00123).unwrap().mnem, Mnemonic::READ);
    let w = decoder(0, ext | 0o01123).unwrap();
    assert_eq!(w.mnem, Mnemonic::WRITE);
    assert_eq!(w.mct, 2);
    assert_eq!(decoder(0, ext | 0o02123).unwrap().mnem, Mnemonic::RAND);
    assert_eq!(decoder(0, ext | 0o03123).unwrap().mnem, Mnemonic::WAND);
    assert_eq!(decoder(0, ext | 0o04123).unwrap().mnem, Mnemonic::ROR);
    assert_eq!(decoder(0, ext | 0o05123).unwrap().mnem, Mnemonic::WOR);
    assert_eq!(decoder(0, ext | 0o06123).unwrap().mnem, Mnemonic::RXOR);
    assert_eq!(decoder(0, ext | 0o07123).unwrap().mnem, Mnemonic::EDRUPT);
    assert_eq!(decoder(0, ext | 0o24123).unwrap().mnem, Mnemonic::AUG);
    assert_eq!(decoder(0, ext | 0o26123).unwrap().mnem, Mnemonic::DIM);
    assert_eq!(decoder(0, ext | 0o30123).unwrap().mnem, Mnemonic::DCA);
    assert_eq!(decoder(0, ext | 0o40123).unwrap().mnem, Mnemonic::DCS);
    assert_eq!(decoder(0, ext | 0o50123).unwrap().mnem, Mnemonic::INDEX);
    assert_eq!(decoder(0, ext | 0o60123).unwrap().mnem, Mnemonic::SU);
    assert_eq!(decoder(0, ext | 0o62123).unwrap().mnem, Mnemonic::BZMF);
    assert_eq!(decoder(0, ext | 0o70123).unwrap().mnem, Mnemonic::MP);
}

#[test]
fn decoder_rejects_unassigned_extrabits() {
    // Extended opcode 2 with extrabits 0 or 1 is the only rejected shape.
    let ext = 0o100000u16;
    assert!(decoder(0, ext | 0o20123).is_err());
    assert!(decoder(0, ext | 0o22123).is_err());
    assert_eq!(decoder(0, ext | 0o20123).unwrap_err(), "Invalid Extrabits Encoding");
}

#[test]
fn instruction_field_accessors() {
    let i = Instructions { pc: 7, data: 0o23456, mnem: Mnemonic::INVALID, extrabits: None, mct: 1 };
    assert_eq!(i.get_opcode(), 2);
    assert_eq!(i.get_data(), 0o3456);
    assert_eq!(i.get_address(), 0o3456);
    assert_eq!(i.get_address_ram(), 0o1456);
    assert!(!i.is_extended());
    let fresh = Instructions::new();
    assert_eq!(fresh.mct, 1);
    assert_eq!(fresh.extrabits, None);
}
