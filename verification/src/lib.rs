//! Instruction-execution core of a 6502-class 8-bit processor emulator.
//!
//! [`cpu`] holds the executable machine, [`opcodes`] the instruction table,
//! and [`machine`] the mathematical model that their contracts are stated
//! over.

pub mod cpu;
pub mod laws;
pub mod machine;
pub mod opcodes;
