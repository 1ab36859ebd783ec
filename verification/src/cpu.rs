//! The executable processor: registers, flags, program counter and memory.

use vstd::prelude::*;
use crate::laws::{lemma_run_frame, lemma_status_after, lemma_step_frame};
use crate::machine::{
    CpuState, MEMORY_SIZE, NEGATIVE_FLAG, PROGRAM_BASE, RESET_VECTOR, ZERO_FLAG, negative_flag,
    program_fits, status_after, zero_flag,
};
use crate::opcodes::{OpCode, Operation, lookup};

verus! {

/// The rule by which an instruction's operand bytes become an effective
/// address.
#[allow(non_camel_case_types)]
#[derive(Debug, Clone, Copy, PartialEq, Eq, Structural)]
pub enum AddressingMode {
    Immediate,
    ZeroPage,
    ZeroPage_X,
    ZeroPage_Y,
    Absolute,
    Absolute_X,
    Absolute_Y,
    Indirect_X,
    Indirect_Y,
    /// The instruction takes no memory operand; this mode cannot be resolved.
    NoneAddressing,
}

/// Why an operation on the processor was refused or a run was abandoned.
#[derive(Debug, Clone, Copy, PartialEq, Eq, Structural)]
pub enum CpuError {
    /// An address was asked for under a mode that has none.
    UnsupportedAddressingMode(AddressingMode),
    /// The fetched byte has no entry in the instruction table.
    UnimplementedOpcode(u8),
    /// A program of this many bytes does not fit between the load address
    /// and the top of memory.
    ProgramTooLarge(usize),
    /// The program counter would have to move past `0xFFFF`.
    ProgramCounterOverflow,
}

/// The two states of the execution loop.
#[derive(Debug, Clone, Copy, PartialEq, Eq, Structural)]
pub enum RunState {
    Running,
    Halted,
}

/// The hardware state of the processor.
pub struct CPU {
    pub register_a: u8,
    pub register_x: u8,
    pub register_y: u8,
    pub status: u8,
    pub program_counter: u16,
    pub memory: [u8; MEMORY_SIZE],
}

impl View for CPU {
    type V = CpuState;

    open spec fn view(&self) -> CpuState {
        CpuState {
            a: self.register_a,
            x: self.register_x,
            y: self.register_y,
            status: self.status,
            pc: self.program_counter,
            memory: self.memory@,
        }
    }
}

impl CPU {
    /// A processor with every register and every memory cell zero.
    pub fn new() -> (cpu: Self)
        ensures
            cpu@.a == 0,
            cpu@.x == 0,
            cpu@.y == 0,
            cpu@.status == 0,
            cpu@.pc == 0,
            cpu@.memory == Seq::new(MEMORY_SIZE as nat, |addr: int| 0u8),
    {
        CPU {
            register_a: 0,
            register_x: 0,
            register_y: 0,
            status: 0,
            program_counter: 0,
            memory: [0; MEMORY_SIZE],
        }
    }

    /// Resolves `mode` to the effective address of the current instruction.
    /// The program counter must point at the instruction's first operand
    /// byte; it is not moved.
    ///
    /// Fails with `UnsupportedAddressingMode` exactly for `NoneAddressing`.
    pub fn get_operand_address(&self, mode: &AddressingMode) -> (address: Result<u16, CpuError>)
        ensures
            address == self@.operand_address(*mode),
            address is Err <==> *mode == AddressingMode::NoneAddressing,
            *mode == AddressingMode::ZeroPage_X ==> address == Ok::<u16, CpuError>(
                ((self@.read(self.program_counter) + self.register_x) % 256) as u16,
            ),
    {
        match mode {
            AddressingMode::Immediate => Ok(self.program_counter),
            AddressingMode::ZeroPage => Ok(self.mem_read(self.program_counter) as u16),
            AddressingMode::Absolute => Ok(self.mem_read_u16(self.program_counter)),
            AddressingMode::ZeroPage_X => {
                let pos: u8 = self.mem_read(self.program_counter);
                Ok(pos.wrapping_add(self.register_x) as u16)
            },
            AddressingMode::ZeroPage_Y => {
                let pos: u8 = self.mem_read(self.program_counter);
                Ok(pos.wrapping_add(self.register_y) as u16)
            },
            AddressingMode::Absolute_X => {
                let pos: u16 = self.mem_read_u16(self.program_counter);
                Ok(pos.wrapping_add(self.register_x as u16))
            },
            AddressingMode::Absolute_Y => {
                let pos: u16 = self.mem_read_u16(self.program_counter);
                Ok(pos.wrapping_add(self.register_y as u16))
            },
            AddressingMode::Indirect_X => {
                let zero_page: u8 = self.mem_read(self.program_counter);
                let pointer: u8 = zero_page.wrapping_add(self.register_x);
                Ok(self.mem_read_u16(pointer as u16))
            },
            AddressingMode::Indirect_Y => {
                let base: u8 = self.mem_read(self.program_counter);
                let lo: u16 = self.mem_read(base as u16) as u16;
                let hi: u16 = self.mem_read(base.wrapping_add(1) as u16) as u16;
                assert((hi << 8) | lo == lo + 256 * hi) by (bit_vector)
                    requires
                        lo < 256,
                        hi < 256,
                ;
                let deref_base: u16 = (hi << 8) | lo;
                Ok(deref_base.wrapping_add(self.register_y as u16))
            },
            AddressingMode::NoneAddressing => Err(CpuError::UnsupportedAddressingMode(*mode)),
        }
    }

    /// Reads the byte at `address`.
    pub fn mem_read(&self, address: u16) -> (byte: u8)
        ensures
            byte == self@.read(address),
    {
        self.memory[address as usize]
    }

    /// Stores `data` at `address`; nothing else changes.
    pub fn mem_write(&mut self, address: u16, data: u8)
        ensures
            final(self)@ == old(self)@.write(address, data),
    {
        self.memory[address as usize] = data;
    }

    /// Reads the little-endian 16-bit value at `pos`: low byte at `pos`, high
    /// byte at the next address, which for `pos == 0xFFFF` is `0x0000`.
    pub fn mem_read_u16(&self, pos: u16) -> (value: u16)
        ensures
            value == self@.read16(pos),
    {
        let lo: u16 = self.mem_read(pos) as u16;
        let hi: u16 = self.mem_read(pos.wrapping_add(1)) as u16;
        assert((hi << 8) | lo == lo + 256 * hi) by (bit_vector)
            requires
                lo < 256,
                hi < 256,
        ;
        (hi << 8) | lo
    }

    /// Stores `data` little-endian at `pos`: low byte at `pos`, high byte at
    /// the next address, which for `pos == 0xFFFF` is `0x0000`.
    pub fn mem_write_u16(&mut self, pos: u16, data: u16)
        ensures
            final(self)@ == old(self)@.write16(pos, data),
    {
        let hi: u8 = (data >> 8) as u8;
        let lo: u8 = (data & 0xff) as u8;
        assert(data >> 8 == data / 256 && data & 0xff == data % 256) by (bit_vector);
        self.mem_write(pos, lo);
        self.mem_write(pos.wrapping_add(1), hi);
    }

    /// Installs `program` at `0x8000`, resets, and runs until the program
    /// halts or a step fails.
    ///
    /// A program longer than `0x8000` bytes is refused with `ProgramTooLarge`
    /// before anything is changed, and that error has no other cause. A
    /// program that fits is run from `0x8000`: the result is `Ok` when a
    /// `BRK` was executed, and otherwise the error of the step that failed.
    pub fn load_and_run(&mut self, program: Vec<u8>) -> (result: Result<(), CpuError>)
        ensures
            (final(self)@, result) == old(self)@.load_and_run(program@),
            result == Err::<(), CpuError>(CpuError::ProgramTooLarge(program.len()))
                <==> !program_fits(program@.len()),
            !program_fits(program@.len()) ==> final(self)@ == old(self)@,
            program_fits(program@.len()) ==> (final(self)@, result) == old(self)@.load(
                program@,
            ).reset().run(),
            final(self).register_y == old(self).register_y,
    {
        proof {
            lemma_run_frame(old(self)@.load(program@).reset());
        }
        match self.load(program) {
            Ok(()) => {
                self.reset();
                self.run()
            },
            Err(error) => Err(error),
        }
    }

    /// Zeroes the accumulator, the X register and the status byte, and moves
    /// the program counter to the address held in the reset vector at
    /// `0xFFFC`. The Y register and memory keep their contents.
    pub fn reset(&mut self)
        ensures
            final(self)@ == old(self)@.reset(),
    {
        self.register_a = 0;
        self.register_x = 0;
        self.status = 0;
        self.program_counter = self.mem_read_u16(RESET_VECTOR);
    }

    /// Copies `program` into memory from `0x8000` on and then points the
    /// reset vector at `0x8000`. Registers and all other memory are left as
    /// they are.
    ///
    /// A program longer than `0x8000` bytes is refused with `ProgramTooLarge`
    /// before anything is changed.
    pub fn load(&mut self, program: Vec<u8>) -> (result: Result<(), CpuError>)
        ensures
            program_fits(program@.len()) ==> result is Ok && final(self)@ == old(self)@.load(
                program@,
            ),
            !program_fits(program@.len()) ==> result == Err::<(), CpuError>(
                CpuError::ProgramTooLarge(program.len()),
            ) && final(self)@ == old(self)@,
    {
        let len: usize = program.len();
        if len > MEMORY_SIZE - PROGRAM_BASE as usize {
            return Err(CpuError::ProgramTooLarge(len));
        }
        let mut copied: usize = 0;
        while copied < len
            invariant
                len == program@.len(),
                copied <= len <= MEMORY_SIZE - PROGRAM_BASE,
                self.register_a == old(self).register_a,
                self.register_x == old(self).register_x,
                self.register_y == old(self).register_y,
                self.status == old(self).status,
                self.program_counter == old(self).program_counter,
                forall|addr: int|
                    0 <= addr < MEMORY_SIZE ==> #[trigger] self.memory@[addr] == if PROGRAM_BASE
                        <= addr < PROGRAM_BASE + copied {
                        program@[addr - PROGRAM_BASE]
                    } else {
                        old(self).memory@[addr]
                    },
            decreases len - copied,
        {
            self.memory[PROGRAM_BASE as usize + copied] = program[copied];
            copied += 1;
        }
        proof {
            let installed = CpuState {
                memory: Seq::new(
                    MEMORY_SIZE as nat,
                    |addr: int|
                        if PROGRAM_BASE <= addr < PROGRAM_BASE + program@.len() {
                            program@[addr - PROGRAM_BASE]
                        } else {
                            old(self)@.memory[addr]
                        },
                ),
                ..old(self)@
            };
            assert(self@.memory =~= installed.memory);
        }
        self.mem_write_u16(RESET_VECTOR, PROGRAM_BASE);
        Ok(())
    }

    /// Loads `value` into the accumulator and recomputes the zero and
    /// negative flags from it.
    pub fn lda(&mut self, value: u8)
        ensures
            final(self)@ == old(self)@.lda(value),
            final(self).register_a == value,
            zero_flag(final(self).status) <==> value == 0,
            negative_flag(final(self).status) <==> value & 0x80 != 0,
    {
        self.register_a = value;
        self.update_zero_and_negative(value)
    }

    /// Copies the accumulator into the X register and recomputes the zero
    /// and negative flags from the copied value.
    pub fn tax(&mut self)
        ensures
            final(self)@ == old(self)@.tax(),
            final(self).register_x == old(self).register_a,
            zero_flag(final(self).status) <==> old(self).register_a == 0,
            negative_flag(final(self).status) <==> old(self).register_a & 0x80 != 0,
    {
        self.register_x = self.register_a;
        self.update_zero_and_negative(self.register_x);
    }

    /// Increments the X register, wrapping from `0xFF` to `0x00`, and
    /// recomputes the zero and negative flags from the new value.
    pub fn inx(&mut self)
        ensures
            final(self)@ == old(self)@.inx(),
            final(self).register_x == (old(self).register_x + 1) % 0x100,
            zero_flag(final(self).status) <==> old(self).register_x == 0xFF,
            negative_flag(final(self).status) <==> 0x7F <= old(self).register_x < 0xFF,
    {
        self.register_x = self.register_x.wrapping_add(1);
        self.update_zero_and_negative(self.register_x);
        proof {
            lemma_status_after(old(self).status, self.register_x);
        }
    }

    /// Sets the zero flag iff `result` is zero and the negative flag iff bit
    /// 7 of `result` is set. The other six status bits, the registers and
    /// memory are untouched.
    pub fn update_zero_and_negative(&mut self, result: u8)
        ensures
            final(self)@ == old(self)@.set_flags(result),
            zero_flag(final(self).status) <==> result == 0,
            negative_flag(final(self).status) <==> result & 0x80 != 0,
            final(self).status & !(ZERO_FLAG | NEGATIVE_FLAG) == old(self).status & !(ZERO_FLAG
                | NEGATIVE_FLAG),
    {
        let ghost before: u8 = self.status;
        if result == 0 {
            self.status = self.status | 0b0000_0010;
        } else {
            self.status = self.status & 0b1111_1101;
        }
        if result & 0b1000_0000 != 0 {
            self.status = self.status | 0b1000_0000;
        } else {
            self.status = self.status & 0b0111_1111;
        }
        proof {
            let after: u8 = self.status;
            assert(after == status_after(before, result)) by (bit_vector)
                requires
                    after == (if result & 0b1000_0000 != 0 {
                        (if result == 0 {
                            before | 0b0000_0010
                        } else {
                            before & 0b1111_1101
                        }) | 0b1000_0000
                    } else {
                        (if result == 0 {
                            before | 0b0000_0010
                        } else {
                            before & 0b1111_1101
                        }) & 0b0111_1111
                    }),
            ;
            lemma_status_after(before, result);
        }
    }

    /// Performs the instruction `op`, whose opcode byte has already been
    /// consumed: the program counter points at its first operand byte.
    ///
    /// Returns `Halted` for `BRK` and `Running` for every other instruction
    /// that completes. An instruction that fails leaves the processor as it
    /// found it.
    pub fn execute(&mut self, op: &OpCode) -> (outcome: Result<RunState, CpuError>)
        ensures
            (final(self)@, outcome) == old(self)@.execute(*op),
    {
        match op.operation {
            Operation::BRK => Ok(RunState::Halted),
            Operation::LDA => {
                let address: u16 = match self.get_operand_address(&op.mode) {
                    Ok(address) => address,
                    Err(error) => {
                        return Err(error);
                    },
                };
                if op.operand_len as u16 > 0xFFFF - self.program_counter {
                    return Err(CpuError::ProgramCounterOverflow);
                }
                let value: u8 = self.mem_read(address);
                self.program_counter += op.operand_len as u16;
                self.lda(value);
                Ok(RunState::Running)
            },
            Operation::TAX => {
                self.tax();
                Ok(RunState::Running)
            },
            Operation::INX => {
                self.inx();
                Ok(RunState::Running)
            },
        }
    }

    /// Performs one turn of the fetch-decode-execute cycle: consumes the
    /// opcode at the program counter, looks it up and executes it.
    ///
    /// Fails with `ProgramCounterOverflow`, changing nothing, when the
    /// program counter is `0xFFFF`; with `UnimplementedOpcode`, the opcode
    /// consumed, when the instruction table has no entry for the byte; and
    /// with the instruction's own error, the opcode consumed, when the
    /// instruction fails.
    pub fn step(&mut self) -> (outcome: Result<RunState, CpuError>)
        ensures
            (final(self)@, outcome) == old(self)@.step(),
            final(self)@.memory == old(self)@.memory,
            final(self).register_y == old(self).register_y,
            outcome matches Err(error) ==> error == CpuError::ProgramCounterOverflow || error
                == CpuError::UnimplementedOpcode(old(self)@.read(old(self).program_counter)),
    {
        proof {
            lemma_step_frame(self@);
        }
        if self.program_counter == 0xFFFF {
            return Err(CpuError::ProgramCounterOverflow);
        }
        let code: u8 = self.mem_read(self.program_counter);
        self.program_counter += 1;
        match lookup(code) {
            Some(op) => self.execute(&op),
            None => Err(CpuError::UnimplementedOpcode(code)),
        }
    }

    /// Executes instructions from the program counter on until one of them
    /// halts or fails.
    ///
    /// Returns `Ok` when a `BRK` was executed; the program counter then
    /// points just past it. Returns the error of the failing step otherwise:
    /// `UnimplementedOpcode` for a byte that the instruction table lacks,
    /// `ProgramCounterOverflow` when execution reaches the top of memory.
    /// Memory and the Y register are never changed.
    pub fn run(&mut self) -> (result: Result<(), CpuError>)
        ensures
            (final(self)@, result) == old(self)@.run(),
            final(self)@.memory == old(self)@.memory,
            final(self).register_y == old(self).register_y,
            final(self).program_counter >= old(self).program_counter,
            result is Ok ==> final(self).program_counter > old(self).program_counter
                && final(self)@.read((final(self).program_counter - 1) as u16) == 0x00,
            result matches Err(error) ==> error == CpuError::ProgramCounterOverflow || (
            error matches CpuError::UnimplementedOpcode(code) && lookup(code) is None),
    {
        loop
            invariant
                self@.run() == old(self)@.run(),
            decreases MEMORY_SIZE - self.program_counter,
        {
            match self.step() {
                Ok(RunState::Running) => {},
                Ok(RunState::Halted) => {
                    proof {
                        lemma_run_frame(old(self)@);
                    }
                    return Ok(());
                },
                Err(error) => {
                    proof {
                        lemma_run_frame(old(self)@);
                    }
                    return Err(error);
                },
            }
        }
    }
}

} // verus!
