//! The instruction table: which operation, addressing mode and operand
//! length each opcode byte stands for.

use vstd::prelude::*;
use crate::cpu::AddressingMode;

verus! {

/// What an instruction does, apart from how it finds its operand.
#[derive(Debug, Clone, Copy, PartialEq, Eq, Structural)]
pub enum Operation {
    /// Halt the execution loop.
    BRK,
    /// Load the accumulator from the operand.
    LDA,
    /// Copy the accumulator into the X register.
    TAX,
    /// Increment the X register.
    INX,
}

/// One entry of the instruction table.
#[derive(Debug, Clone, Copy, PartialEq, Eq, Structural)]
pub struct OpCode {
    /// The operation to perform.
    pub operation: Operation,
    /// How the operand bytes are turned into an effective address.
    pub mode: AddressingMode,
    /// Number of operand bytes that follow the opcode byte.
    pub operand_len: u8,
}

/// The table entry for the opcode byte `code`, if the table has one.
pub open spec fn spec_lookup(code: u8) -> Option<OpCode> {
    match code {
        0x00u8 => Some(
            OpCode {
                operation: Operation::BRK,
                mode: AddressingMode::NoneAddressing,
                operand_len: 0,
            },
        ),
        0xA9u8 => Some(
            OpCode {
                operation: Operation::LDA,
                mode: AddressingMode::Immediate,
                operand_len: 1,
            },
        ),
        0xAAu8 => Some(
            OpCode {
                operation: Operation::TAX,
                mode: AddressingMode::NoneAddressing,
                operand_len: 0,
            },
        ),
        0xE8u8 => Some(
            OpCode {
                operation: Operation::INX,
                mode: AddressingMode::NoneAddressing,
                operand_len: 0,
            },
        ),
        _ => None,
    }
}

/// Looks `code` up in the instruction table. `None` means that no instruction
/// is registered for the byte.
#[verifier::when_used_as_spec(spec_lookup)]
pub fn lookup(code: u8) -> (entry: Option<OpCode>)
    ensures
        entry == spec_lookup(code),
        entry is Some <==> code == 0x00 || code == 0xA9 || code == 0xAA || code == 0xE8,
{
    match code {
        0x00 => Some(
            OpCode {
                operation: Operation::BRK,
                mode: AddressingMode::NoneAddressing,
                operand_len: 0,
            },
        ),
        0xA9 => Some(
            OpCode {
                operation: Operation::LDA,
                mode: AddressingMode::Immediate,
                operand_len: 1,
            },
        ),
        0xAA => Some(
            OpCode {
                operation: Operation::TAX,
                mode: AddressingMode::NoneAddressing,
                operand_len: 0,
            },
        ),
        0xE8 => Some(
            OpCode {
                operation: Operation::INX,
                mode: AddressingMode::NoneAddressing,
                operand_len: 0,
            },
        ),
        _ => None,
    }
}

} // verus!
