//! A CHIP-8 virtual machine: bit-exact instruction decoding, the CPU
//! execution engine with per-opcode semantics, the dual-clock timing model,
//! and the peripheral capability interface the engine drives.

pub mod emulator;
