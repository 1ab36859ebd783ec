//! Facts about the model that hold of every snapshot, proved once so that
//! callers can rely on them without unfolding the transitions themselves.

use vstd::prelude::*;
use crate::cpu::{AddressingMode, CpuError, RunState};
use crate::machine::{
    CpuState, NEGATIVE_FLAG, ZERO_FLAG, negative_flag, next_address, program_fits, status_after,
    zero_flag,
};
use crate::opcodes::{Operation, lookup};

verus! {

/// After the flags are recomputed from `result`, the zero flag is set iff
/// `result` is zero, the negative flag is set iff bit 7 of `result` is set
/// (that is, iff `result` is at least `0x80`), and every other status bit is
/// as it was.
pub proof fn lemma_status_after(status: u8, result: u8)
    ensures
        zero_flag(status_after(status, result)) <==> result == 0,
        negative_flag(status_after(status, result)) <==> result & 0x80 != 0,
        negative_flag(status_after(status, result)) <==> result >= 0x80,
        status_after(status, result) & !(ZERO_FLAG | NEGATIVE_FLAG) == status & !(ZERO_FLAG
            | NEGATIVE_FLAG),
{
    let after = status_after(status, result);
    assert((after & 0b0000_0010 != 0 <==> result == 0) && (after & 0b1000_0000 != 0 <==> result
        & 0x80 != 0) && (after & 0b1000_0000 != 0 <==> result >= 0x80) && after & !(0b0000_0010u8
        | 0b1000_0000u8) == status & !(0b0000_0010u8 | 0b1000_0000u8)) by (bit_vector)
        requires
            after == (status & 0b0111_1101) | (if result == 0 {
                0b0000_0010u8
            } else {
                0u8
            }) | (result & 0b1000_0000),
    ;
}

/// Recomputing the flags depends on the earlier status only through the six
/// bits that are neither the zero nor the negative flag: doing it twice is
/// the same as doing it the second time only.
pub proof fn lemma_status_after_overrides(status: u8, first: u8, second: u8)
    ensures
        status_after(status_after(status, first), second) == status_after(status, second),
{
    let mid = status_after(status, first);
    assert(((mid & 0b0111_1101) | (if second == 0 {
        0b0000_0010u8
    } else {
        0u8
    }) | (second & 0b1000_0000)) == ((status & 0b0111_1101) | (if second == 0 {
        0b0000_0010u8
    } else {
        0u8
    }) | (second & 0b1000_0000))) by (bit_vector)
        requires
            mid == (status & 0b0111_1101) | (if first == 0 {
                0b0000_0010u8
            } else {
                0u8
            }) | (first & 0b1000_0000),
    ;
}

/// Loading `value` leaves it in the accumulator, with the zero flag set iff
/// `value` is zero and the negative flag set iff bit 7 of `value` is set.
pub proof fn lemma_lda_flags(s: CpuState, value: u8)
    ensures
        s.lda(value).a == value,
        zero_flag(s.lda(value).status) <==> value == 0,
        negative_flag(s.lda(value).status) <==> value & 0x80 != 0,
{
    lemma_status_after(s.status, value);
}

/// Transferring leaves X equal to the accumulator and the flags recomputed
/// from it; what X held before plays no part.
pub proof fn lemma_tax_ignores_x(s: CpuState, x: u8)
    ensures
        s.tax().x == s.a,
        zero_flag(s.tax().status) <==> s.a == 0,
        negative_flag(s.tax().status) <==> s.a & 0x80 != 0,
        (CpuState { x, ..s }).tax() == s.tax(),
{
    lemma_status_after(s.status, s.a);
}

/// Incrementing wraps: `0xFF` becomes `0x00` with the zero flag set and the
/// negative flag clear, `0x7F` becomes `0x80` with the negative flag set and
/// the zero flag clear, and in general the zero flag is set iff X was `0xFF`
/// and the negative flag iff the new X is at least `0x80`.
pub proof fn lemma_inx_wraps(s: CpuState)
    ensures
        s.inx().x == (s.x + 1) % 256,
        zero_flag(s.inx().status) <==> s.x == 0xFF,
        negative_flag(s.inx().status) <==> 0x7F <= s.x < 0xFF,
        s.x == 0xFF ==> s.inx().x == 0x00 && zero_flag(s.inx().status) && !negative_flag(
            s.inx().status,
        ),
        s.x == 0x7F ==> s.inx().x == 0x80 && negative_flag(s.inx().status) && !zero_flag(
            s.inx().status,
        ),
{
    lemma_status_after(s.status, s.inx().x);
}

/// A byte that was written is the byte that is read back, and a write
/// changes no other address.
pub proof fn lemma_read_after_write(s: CpuState, addr: u16, value: u8, other: u16)
    requires
        s.wf(),
    ensures
        s.write(addr, value).wf(),
        s.write(addr, value).read(addr) == value,
        other != addr ==> s.write(addr, value).read(other) == s.read(other),
{
}

/// A word that was written is the word that is read back from the same
/// address, also across the top of memory; addresses other than the two
/// written keep their bytes.
pub proof fn lemma_read16_after_write16(s: CpuState, addr: u16, value: u16, other: u16)
    requires
        s.wf(),
    ensures
        s.write16(addr, value).wf(),
        s.write16(addr, value).read16(addr) == value,
        other != addr && other != next_address(addr) ==> s.write16(addr, value).read(other)
            == s.read(other),
{
}

/// Zero-page indexing never leaves page zero: under `ZeroPage_X` the
/// effective address is the operand byte plus X modulo 256, whatever the two
/// bytes are.
pub proof fn lemma_zero_page_x_stays_in_page_zero(s: CpuState)
    ensures
        s.operand_address(AddressingMode::ZeroPage_X) == Ok::<u16, CpuError>(
            ((s.read(s.pc) + s.x) % 256) as u16,
        ),
        s.operand_address(AddressingMode::ZeroPage_X).unwrap() < 0x100,
{
}

/// Zero-page indexing by Y never leaves page zero either.
pub proof fn lemma_zero_page_y_stays_in_page_zero(s: CpuState)
    ensures
        s.operand_address(AddressingMode::ZeroPage_Y) == Ok::<u16, CpuError>(
            ((s.read(s.pc) + s.y) % 256) as u16,
        ),
        s.operand_address(AddressingMode::ZeroPage_Y).unwrap() < 0x100,
{
}

/// Every mode but `NoneAddressing` resolves, and `NoneAddressing` never does.
pub proof fn lemma_operand_address_fails_only_without_mode(s: CpuState, mode: AddressingMode)
    ensures
        s.operand_address(mode) is Err <==> mode == AddressingMode::NoneAddressing,
        mode == AddressingMode::NoneAddressing ==> s.operand_address(mode) == Err::<
            u16,
            CpuError,
        >(CpuError::UnsupportedAddressingMode(mode)),
{
}

/// Resetting twice in a row gives the same snapshot as resetting once.
pub proof fn lemma_reset_idempotent(s: CpuState)
    ensures
        s.reset().reset() == s.reset(),
{
}

/// Loading a program that fits and resetting leaves the program counter at
/// the load address, with the program's bytes in place below the reset
/// vector.
pub proof fn lemma_load_then_reset(s: CpuState, program: Seq<u8>, i: int)
    requires
        s.wf(),
        program_fits(program.len()),
        0 <= i < program.len(),
    ensures
        s.load(program).reset().pc == 0x8000,
        0x8000 + i < 0xFFFC ==> s.load(program).reset().read((0x8000 + i) as u16) == program[i],
{
}

/// Every instruction in the table that resolves an operand has a mode that
/// can be resolved.
pub proof fn lemma_table_modes_resolve(code: u8)
    ensures
        lookup(code) matches Some(op) ==> (op.operation == Operation::LDA ==> op.mode
            != AddressingMode::NoneAddressing),
{
}

/// A `BRK` at the program counter is consumed and halts; nothing else
/// changes.
pub proof fn lemma_step_brk(s: CpuState)
    requires
        s.pc < 0xFFFF,
        s.read(s.pc) == 0x00,
    ensures
        s.step() == (
            CpuState { pc: (s.pc + 1) as u16, ..s },
            Ok::<RunState, CpuError>(RunState::Halted),
        ),
{
}

/// An `LDA` at the program counter, with room for its operand, loads the
/// byte that follows the opcode into the accumulator, recomputes the flags
/// from that byte and moves the program counter past both bytes.
pub proof fn lemma_step_lda(s: CpuState)
    requires
        s.pc < 0xFFFE,
        s.read(s.pc) == 0xA9,
    ensures
        s.step() == (
            CpuState {
                a: s.read((s.pc + 1) as u16),
                status: status_after(s.status, s.read((s.pc + 1) as u16)),
                pc: (s.pc + 2) as u16,
                ..s
            },
            Ok::<RunState, CpuError>(RunState::Running),
        ),
{
}

/// An `LDA` in the last but one byte of memory has no room to move past its
/// operand: the opcode is consumed and the step fails.
pub proof fn lemma_step_lda_without_room(s: CpuState)
    requires
        s.pc == 0xFFFE,
        s.read(s.pc) == 0xA9,
    ensures
        s.step() == (
            CpuState { pc: 0xFFFF, ..s },
            Err::<RunState, CpuError>(CpuError::ProgramCounterOverflow),
        ),
{
}

/// A `TAX` at the program counter copies the accumulator into X, whatever X
/// held, recomputes the flags from the accumulator and moves the program
/// counter past the opcode.
pub proof fn lemma_step_tax(s: CpuState)
    requires
        s.pc < 0xFFFF,
        s.read(s.pc) == 0xAA,
    ensures
        s.step() == (
            CpuState { x: s.a, status: status_after(s.status, s.a), pc: (s.pc + 1) as u16, ..s },
            Ok::<RunState, CpuError>(RunState::Running),
        ),
{
}

/// An `INX` at the program counter adds one to X modulo 256, recomputes the
/// flags from the new X and moves the program counter past the opcode.
pub proof fn lemma_step_inx(s: CpuState)
    requires
        s.pc < 0xFFFF,
        s.read(s.pc) == 0xE8,
    ensures
        s.step() == (
            CpuState {
                x: ((s.x + 1) % 256) as u8,
                status: status_after(s.status, ((s.x + 1) % 256) as u8),
                pc: (s.pc + 1) as u16,
                ..s
            },
            Ok::<RunState, CpuError>(RunState::Running),
        ),
{
}

/// Any other byte at the program counter is consumed and refused.
pub proof fn lemma_step_unimplemented(s: CpuState)
    requires
        s.pc < 0xFFFF,
        s.read(s.pc) != 0x00,
        s.read(s.pc) != 0xA9,
        s.read(s.pc) != 0xAA,
        s.read(s.pc) != 0xE8,
    ensures
        s.step() == (
            CpuState { pc: (s.pc + 1) as u16, ..s },
            Err::<RunState, CpuError>(CpuError::UnimplementedOpcode(s.read(s.pc))),
        ),
{
}

/// A step changes neither memory nor the Y register and never moves the
/// program counter backwards; a step that leaves the machine running has
/// moved it forwards. A step fails only for want of an instruction or of
/// room for the program counter.
pub proof fn lemma_step_frame(s: CpuState)
    ensures
        s.step().0.memory == s.memory,
        s.step().0.y == s.y,
        s.step().0.pc >= s.pc,
        s.step().1 == Ok::<RunState, CpuError>(RunState::Running) ==> s.step().0.pc > s.pc,
        s.step().1 matches Err(error) ==> error == CpuError::ProgramCounterOverflow || error
            == CpuError::UnimplementedOpcode(s.read(s.pc)),
{
}

/// A run changes neither memory nor the Y register and never moves the
/// program counter backwards. A run that ends well has just consumed a `BRK`;
/// one that fails does so for want of an instruction or of room for the
/// program counter.
pub proof fn lemma_run_frame(s: CpuState)
    ensures
        s.run().0.memory == s.memory,
        s.run().0.y == s.y,
        s.run().0.pc >= s.pc,
        s.run().1 is Ok ==> s.run().0.pc > s.pc && s.read((s.run().0.pc - 1) as u16) == 0x00,
        s.run().1 matches Err(error) ==> error == CpuError::ProgramCounterOverflow || (
        error matches CpuError::UnimplementedOpcode(code) && lookup(code) is None),
    decreases 0x10000 - s.pc,
{
    lemma_step_frame(s);
    let (next, outcome) = s.step();
    if outcome == Ok::<RunState, CpuError>(RunState::Running) {
        lemma_run_frame(next);
    }
}

} // verus!
