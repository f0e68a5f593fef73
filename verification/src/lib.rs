//! A verified core for a PlayStation (PSX) emulator: a MIPS R3000A
//! interpreter, the memory interconnect that routes loads and stores to
//! BIOS, RAM and memory-mapped devices, a seven-channel DMA engine, and
//! the GPU command ports.
//!
//! Emulated exceptions (overflow, misaligned loads and stores, syscalls)
//! are control transfers inside the machine; emulator errors (an access
//! that no device claims, an unrecognized opcode) are reported as
//! [`errors::EmuError`] values and end the run.

pub mod bios;
pub mod bytes;
pub mod channel;
pub mod cpu;
pub mod dma;
pub mod errors;
pub mod gpu;
pub mod instruction;
pub mod interconnect;
pub mod memmap;
pub mod ram;
