//! The mathematical model of the processor: a plain record of the registers
//! and a 64 KiB sequence of bytes, with every state transition written as a
//! function from one record to the next.

use vstd::prelude::*;
use crate::cpu::{AddressingMode, CpuError, RunState};
use crate::opcodes::{OpCode, Operation, lookup};

verus! {

/// Number of addressable bytes: every `u16` is a valid address.
pub const MEMORY_SIZE: usize = 0x10000;

/// Address at which programs are installed.
pub const PROGRAM_BASE: u16 = 0x8000;

/// Address of the little-endian word that holds the address execution
/// starts from after a reset.
pub const RESET_VECTOR: u16 = 0xFFFC;

/// Status bit that is set when the last flag-affecting result was zero.
pub const ZERO_FLAG: u8 = 0b0000_0010;

/// Status bit that mirrors bit 7 of the last flag-affecting result.
pub const NEGATIVE_FLAG: u8 = 0b1000_0000;

/// The address that follows `addr`; the address space is a ring, so the
/// successor of `0xFFFF` is `0x0000`.
pub open spec fn next_address(addr: u16) -> u16 {
    if addr == 0xFFFF {
        0
    } else {
        (addr + 1) as u16
    }
}

/// The 16-bit value whose low byte is `lo` and whose high byte is `hi`.
pub open spec fn word(lo: u8, hi: u8) -> u16 {
    (lo + 256 * hi) as u16
}

/// Low byte of a 16-bit value.
pub open spec fn low_byte(value: u16) -> u8 {
    (value % 256) as u8
}

/// High byte of a 16-bit value.
pub open spec fn high_byte(value: u16) -> u8 {
    (value / 256) as u8
}

/// The status byte after a flag-affecting instruction produced `result`:
/// the zero bit says whether `result` is zero, the negative bit is bit 7 of
/// `result`, and the six remaining bits are those of `status`.
pub open spec fn status_after(status: u8, result: u8) -> u8 {
    (status & 0b0111_1101) | (if result == 0 { ZERO_FLAG } else { 0u8 }) | (result & NEGATIVE_FLAG)
}

/// Whether the zero bit of `status` is set.
pub open spec fn zero_flag(status: u8) -> bool {
    status & ZERO_FLAG != 0
}

/// Whether the negative bit of `status` is set.
pub open spec fn negative_flag(status: u8) -> bool {
    status & NEGATIVE_FLAG != 0
}

/// The sum of two bytes, wrapped to a byte.
pub open spec fn wrap8(sum: int) -> u8 {
    (sum % 0x100) as u8
}

/// A sum of addresses, wrapped to the address space.
pub open spec fn wrap16(sum: int) -> u16 {
    (sum % 0x10000) as u16
}

/// Whether a program of `len` bytes fits between the load address and the
/// top of memory.
pub open spec fn program_fits(len: nat) -> bool {
    PROGRAM_BASE + len <= MEMORY_SIZE
}

/// Snapshot of everything the processor can observe or change.
pub struct CpuState {
    pub a: u8,
    pub x: u8,
    pub y: u8,
    pub status: u8,
    pub pc: u16,
    pub memory: Seq<u8>,
}

impl CpuState {
    /// A snapshot is well formed when its memory covers the whole address space.
    pub open spec fn wf(self) -> bool {
        self.memory.len() == MEMORY_SIZE
    }

    /// The byte stored at `addr`.
    pub open spec fn read(self, addr: u16) -> u8 {
        self.memory[addr as int]
    }

    /// The snapshot after storing `value` at `addr`.
    pub open spec fn write(self, addr: u16, value: u8) -> CpuState {
        CpuState { memory: self.memory.update(addr as int, value), ..self }
    }

    /// The little-endian 16-bit value stored at `addr` and its successor.
    pub open spec fn read16(self, addr: u16) -> u16 {
        word(self.read(addr), self.read(next_address(addr)))
    }

    /// The snapshot after storing `value` little-endian at `addr` and its
    /// successor.
    pub open spec fn write16(self, addr: u16, value: u16) -> CpuState {
        self.write(addr, low_byte(value)).write(next_address(addr), high_byte(value))
    }

    /// The effective address of the instruction whose first operand byte the
    /// program counter points at.
    ///
    /// The zero-page modes add the index register to the operand byte in
    /// eight bits and so never leave page zero; the absolute modes add it in
    /// sixteen bits. `Indirect_X` reads its pointer as an ordinary word at
    /// the indexed zero-page address, so a pointer at `0x00FF` has its high
    /// byte at `0x0100`; `Indirect_Y` keeps both pointer bytes in page zero,
    /// so a pointer at `0x00FF` has its high byte at `0x0000`.
    pub open spec fn operand_address(self, mode: AddressingMode) -> Result<u16, CpuError> {
        let operand = self.read(self.pc);
        match mode {
            AddressingMode::Immediate => Ok(self.pc),
            AddressingMode::ZeroPage => Ok(operand as u16),
            AddressingMode::ZeroPage_X => Ok(wrap8(operand + self.x) as u16),
            AddressingMode::ZeroPage_Y => Ok(wrap8(operand + self.y) as u16),
            AddressingMode::Absolute => Ok(self.read16(self.pc)),
            AddressingMode::Absolute_X => Ok(wrap16(self.read16(self.pc) + self.x)),
            AddressingMode::Absolute_Y => Ok(wrap16(self.read16(self.pc) + self.y)),
            AddressingMode::Indirect_X => Ok(self.read16(wrap8(operand + self.x) as u16)),
            AddressingMode::Indirect_Y => {
                let lo = self.read(operand as u16);
                let hi = self.read(wrap8(operand + 1) as u16);
                Ok(wrap16(word(lo, hi) + self.y))
            },
            AddressingMode::NoneAddressing => Err(CpuError::UnsupportedAddressingMode(mode)),
        }
    }

    /// The snapshot after the zero and negative flags were recomputed from
    /// `result`.
    pub open spec fn set_flags(self, result: u8) -> CpuState {
        CpuState { status: status_after(self.status, result), ..self }
    }

    /// The snapshot after loading `value` into the accumulator.
    pub open spec fn lda(self, value: u8) -> CpuState {
        CpuState { a: value, ..self }.set_flags(value)
    }

    /// The snapshot after copying the accumulator into X.
    pub open spec fn tax(self) -> CpuState {
        CpuState { x: self.a, ..self }.set_flags(self.a)
    }

    /// The snapshot after incrementing X, with `0xFF` wrapping to `0x00`.
    pub open spec fn inx(self) -> CpuState {
        CpuState { x: wrap8(self.x + 1), ..self }.set_flags(wrap8(self.x + 1))
    }

    /// The snapshot after a reset: accumulator, X and status are zero, the
    /// program counter is the word at the reset vector, and Y and memory are
    /// as before.
    pub open spec fn reset(self) -> CpuState {
        CpuState { a: 0, x: 0, status: 0, pc: self.read16(RESET_VECTOR), ..self }
    }

    /// The snapshot after installing `program` at the load address and then
    /// pointing the reset vector at it. Bytes outside the program and the
    /// vector are as before; a program long enough to reach the vector has
    /// those two bytes replaced by the vector.
    pub open spec fn load(self, program: Seq<u8>) -> CpuState {
        CpuState {
            memory: Seq::new(
                MEMORY_SIZE as nat,
                |addr: int|
                    if PROGRAM_BASE <= addr < PROGRAM_BASE + program.len() {
                        program[addr - PROGRAM_BASE]
                    } else {
                        self.memory[addr]
                    },
            ),
            ..self
        }.write16(RESET_VECTOR, PROGRAM_BASE)
    }

    /// The effect of the instruction `op` once its opcode byte has been
    /// consumed, so that the program counter points at its first operand
    /// byte.
    ///
    /// `BRK` halts and changes nothing. `LDA` resolves its operand, moves the
    /// program counter past the operand bytes and loads the byte at the
    /// resolved address; if the mode cannot be resolved, or the operand bytes
    /// would carry the program counter past `0xFFFF`, it fails and changes
    /// nothing. `TAX` and `INX` take no operand and leave the program counter
    /// alone.
    pub open spec fn execute(self, op: OpCode) -> (CpuState, Result<RunState, CpuError>) {
        match op.operation {
            Operation::BRK => (self, Ok(RunState::Halted)),
            Operation::LDA => match self.operand_address(op.mode) {
                Err(error) => (self, Err(error)),
                Ok(addr) => if self.pc + op.operand_len > 0xFFFF {
                    (self, Err(CpuError::ProgramCounterOverflow))
                } else {
                    (
                        CpuState { pc: (self.pc + op.operand_len) as u16, ..self }.lda(
                            self.read(addr),
                        ),
                        Ok(RunState::Running),
                    )
                },
            },
            Operation::TAX => (self.tax(), Ok(RunState::Running)),
            Operation::INX => (self.inx(), Ok(RunState::Running)),
        }
    }

    /// One turn of the fetch-decode-execute cycle.
    ///
    /// With the program counter at `0xFFFF` no opcode can be consumed: the
    /// step fails with `ProgramCounterOverflow` and changes nothing.
    /// Otherwise the byte at the program counter is consumed as the opcode.
    /// If the instruction table has no entry for it, the step fails with
    /// `UnimplementedOpcode`; otherwise the entry is executed.
    pub open spec fn step(self) -> (CpuState, Result<RunState, CpuError>) {
        if self.pc == 0xFFFF {
            (self, Err(CpuError::ProgramCounterOverflow))
        } else {
            let code = self.read(self.pc);
            let fetched = CpuState { pc: (self.pc + 1) as u16, ..self };
            match lookup(code) {
                None => (fetched, Err(CpuError::UnimplementedOpcode(code))),
                Some(op) => fetched.execute(op),
            }
        }
    }

    /// The snapshot in which execution from `self` stops, and why it stops:
    /// `Ok` when a `BRK` was executed, otherwise the error of the step that
    /// failed.
    pub open spec fn run(self) -> (CpuState, Result<(), CpuError>)
        decreases MEMORY_SIZE - self.pc,
    {
        let (next, outcome) = self.step();
        match outcome {
            Ok(RunState::Running) => next.run(),
            Ok(RunState::Halted) => (next, Ok(())),
            Err(error) => (next, Err(error)),
        }
    }

    /// Installing `program`, resetting and running, or the refusal of a
    /// program that does not fit, which changes nothing.
    pub open spec fn load_and_run(self, program: Seq<u8>) -> (CpuState, Result<(), CpuError>) {
        if program_fits(program.len()) {
            self.load(program).reset().run()
        } else {
            (self, Err(CpuError::ProgramTooLarge(program.len() as usize)))
        }
    }
}

} // verus!
