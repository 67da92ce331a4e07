//! DSKY telemetry wire codec: a 4-byte framed packet carrying an 11-bit
//! channel address and a 15-bit value. The four bytes are tagged 00/01/10/11
//! in their top two bits, in that order.

use vstd::prelude::*;

verus! {

/// First packet byte: tag 00 and address bits 3..7.
pub open spec fn spec_gen_byte0(addr: usize, v: u16) -> u8 {
    ((addr >> 3) & 0x1F) as u8
}

/// Second packet byte: tag 01, address bits 0..2, value bits 12..14.
pub open spec fn spec_gen_byte1(addr: usize, v: u16) -> u8 {
    0x40u8 | (((addr & 0x7) << 3) as u8) | (((v >> 12) & 0x7) as u8)
}

/// Third packet byte: tag 10 and value bits 6..11.
pub open spec fn spec_gen_byte2(addr: usize, v: u16) -> u8 {
    0x80u8 | (((v >> 6) & 0x3F) as u8)
}

/// Fourth packet byte: tag 11 and value bits 0..5.
pub open spec fn spec_gen_byte3(addr: usize, v: u16) -> u8 {
    0xC0u8 | ((v & 0x3F) as u8)
}

/// A packet is well-framed when the top two bits of its bytes read 00, 01,
/// 10, 11 in order.
pub open spec fn spec_packet_valid(b0: u8, b1: u8, b2: u8, b3: u8) -> bool {
    &&& b0 & 0xC0 == 0x00
    &&& b1 & 0xC0 == 0x40
    &&& b2 & 0xC0 == 0x80
    &&& b3 & 0xC0 == 0xC0
}

/// The 11-bit address carried by a well-framed packet.
pub open spec fn spec_packet_addr(b0: u8, b1: u8) -> u16 {
    (((b0 as u16) & 0x3F) << 3) | (((b1 as u16) >> 3) & 0x07)
}

/// The 15-bit value carried by a well-framed packet.
pub open spec fn spec_packet_value(b1: u8, b2: u8, b3: u8) -> u16 {
    (((b1 as u16) & 0x07) << 12) | (((b2 as u16) & 0x3F) << 6) | ((b3 as u16) & 0x3F)
}

/// Serializes a channel address and value into the 4-byte wire format.
pub fn generate_dsky_packet(addr: usize, data_val: u16) -> (r: [u8; 4])
    ensures
        r[0] == spec_gen_byte0(addr, data_val),
        r[1] == spec_gen_byte1(addr, data_val),
        r[2] == spec_gen_byte2(addr, data_val),
        r[3] == spec_gen_byte3(addr, data_val),
{
    let header: u8 = ((addr >> 3) & 0x1F) as u8;
    let upper_bits: u8 = 0x40 | (((addr & 0x7) << 3) as u8) | (((data_val >> 12) & 0x7) as u8);
    let middle: u8 = 0x80 | (((data_val >> 6) & 0x3F) as u8);
    let lower: u8 = 0xC0 | ((data_val & 0x3F) as u8);
    [header, upper_bits, middle, lower]
}

/// Parses a 4-byte wire packet into its address and value; rejects packets
/// whose framing tags do not read 00/01/10/11.
pub fn parse_dsky_packet(packet: [u8; 4]) -> (r: Option<(u16, u16)>)
    ensures
        r is Some <==> spec_packet_valid(packet[0], packet[1], packet[2], packet[3]),
        r is Some ==> r == Some(
            (
                spec_packet_addr(packet[0], packet[1]),
                spec_packet_value(packet[1], packet[2], packet[3]),
            ),
        ),
{
    let b0: u8 = packet[0];
    let b1: u8 = packet[1];
    let b2: u8 = packet[2];
    let b3: u8 = packet[3];

    let valid: bool = (b0 & 0xC0 == 0x00) && (b1 & 0xC0 == 0x40) && (b2 & 0xC0 == 0x80) && (b3
        & 0xC0 == 0xC0);

    if !valid {
        return None;
    }

    let combined: u16 = (((b1 as u16) & 0x07) << 12) | (((b2 as u16) & 0x3F) << 6) | ((b3 as u16)
        & 0x3F);
    let addr: u16 = (((b0 as u16) & 0x3F) << 3) | (((b1 as u16) >> 3) & 0x07);

    Some((addr, combined))
}

/// A parsed DSKY telemetry packet: an 11-bit channel address and a 15-bit
/// value. A packet that fails the framing check parses as all-zero.
pub struct Packet {
    pub _hw_packet: bool,
    pub io_addr: usize,
    pub io_value: u16,
}

impl Packet {
    /// Builds a packet from raw wire bytes; a framing failure yields the
    /// zero packet.
    pub fn new(input: &[u8; 4]) -> (r: Packet)
        ensures
            spec_packet_valid(input[0], input[1], input[2], input[3]) ==> r.io_addr
                == spec_packet_addr(input[0], input[1]) as usize && r.io_value
                == spec_packet_value(input[1], input[2], input[3]),
            !spec_packet_valid(input[0], input[1], input[2], input[3]) ==> r.io_addr == 0
                && r.io_value == 0,
            !r._hw_packet,
    {
        let parsed: Option<(u16, u16)> = parse_dsky_packet(*input);
        if let Some((addr_part, val_part)) = parsed {
            Packet { _hw_packet: false, io_addr: addr_part as usize, io_value: val_part }
        } else {
            Packet { io_value: 0, io_addr: 0, _hw_packet: false }
        }
    }

    /// Turns the packet back into the 4-byte wire format.
    pub fn serialize(&self) -> (r: [u8; 4])
        ensures
            r[0] == spec_gen_byte0(self.io_addr, self.io_value),
            r[1] == spec_gen_byte1(self.io_addr, self.io_value),
            r[2] == spec_gen_byte2(self.io_addr, self.io_value),
            r[3] == spec_gen_byte3(self.io_addr, self.io_value),
    {
        generate_dsky_packet(self.io_addr, self.io_value)
    }
}

/// Law: parsing a serialized packet recovers the address and value, for
/// every 15-bit value and every address whose bits fit the five-bit field of
/// the first byte (the serializer keeps address bits 3..7 only, so addresses
/// of eight bits or fewer survive the trip).
pub proof fn lemma_parse_generate_roundtrip(addr: usize, value: u16)
    requires
        addr < 256,
        value < 32768,
    ensures
        spec_packet_valid(
            spec_gen_byte0(addr, value),
            spec_gen_byte1(addr, value),
            spec_gen_byte2(addr, value),
            spec_gen_byte3(addr, value),
        ),
        spec_packet_addr(spec_gen_byte0(addr, value), spec_gen_byte1(addr, value)) == addr as u16,
        spec_packet_value(
            spec_gen_byte1(addr, value),
            spec_gen_byte2(addr, value),
            spec_gen_byte3(addr, value),
        ) == value,
{
    assert(spec_packet_valid(
        spec_gen_byte0(addr, value),
        spec_gen_byte1(addr, value),
        spec_gen_byte2(addr, value),
        spec_gen_byte3(addr, value),
    ) && spec_packet_addr(spec_gen_byte0(addr, value), spec_gen_byte1(addr, value))
        == addr as u16 && spec_packet_value(
        spec_gen_byte1(addr, value),
        spec_gen_byte2(addr, value),
        spec_gen_byte3(addr, value),
    ) == value) by (bit_vector)
        requires
            addr < 256,
            value < 32768,
    ;
}

/// Law: serializing a successfully parsed packet reproduces the original
/// bytes, provided the first byte's payload fits the serializer's five-bit
/// address field (bit 5 clear).
pub proof fn lemma_generate_parse_roundtrip(b0: u8, b1: u8, b2: u8, b3: u8)
    requires
        spec_packet_valid(b0, b1, b2, b3),
        b0 & 0x20 == 0,
    ensures
        spec_gen_byte0(spec_packet_addr(b0, b1) as usize, spec_packet_value(b1, b2, b3)) == b0,
        spec_gen_byte1(spec_packet_addr(b0, b1) as usize, spec_packet_value(b1, b2, b3)) == b1,
        spec_gen_byte2(spec_packet_addr(b0, b1) as usize, spec_packet_value(b1, b2, b3)) == b2,
        spec_gen_byte3(spec_packet_addr(b0, b1) as usize, spec_packet_value(b1, b2, b3)) == b3,
{
    assert(spec_gen_byte0(spec_packet_addr(b0, b1) as usize, spec_packet_value(b1, b2, b3)) == b0
        && spec_gen_byte1(spec_packet_addr(b0, b1) as usize, spec_packet_value(b1, b2, b3)) == b1
        && spec_gen_byte2(spec_packet_addr(b0, b1) as usize, spec_packet_value(b1, b2, b3)) == b2
        && spec_gen_byte3(spec_packet_addr(b0, b1) as usize, spec_packet_value(b1, b2, b3)) == b3)
        by (bit_vector)
        requires
            spec_packet_valid(b0, b1, b2, b3),
            b0 & 0x20 == 0,
    ;
}

} // verus!
