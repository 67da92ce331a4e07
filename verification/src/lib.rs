//! Emulator core for the Apollo Guidance Computer (AGC) Block II: a 15-bit,
//! ones'-complement, single-accumulator machine with banked memory, memory-mapped
//! I/O channels, and a 4-byte DSKY telemetry wire format.

pub mod clock;
pub mod cpu;
pub mod decoder;
pub mod dsky;
pub mod edit_registers;
pub mod handlers;
pub mod instructions;
pub mod io;
pub mod memory;
pub mod periph;
pub mod ram;
pub mod registers;
pub mod rom;
pub mod seven_seg;
pub mod special_registers;
pub mod utils;
