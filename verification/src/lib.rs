//! Instruction-accurate CPU core of a 32-bit little-endian MIPS R3000A-class
//! console emulator.
//!
//! The crate models the processor (register file, delay slots, COP0 and
//! precise exceptions), the address-space router that maps virtual addresses
//! onto BIOS, RAM and memory-mapped I/O windows, and the two memory devices
//! themselves.  Every public operation carries a contract describing its
//! exact effect on the machine state.

pub mod access;
pub mod bios;
pub mod bus;
pub mod config;
pub mod cop0;
pub mod cpu;
pub mod errors;
pub mod exception;
pub mod instruction;
pub mod map;
pub mod psx;
pub mod ram;
