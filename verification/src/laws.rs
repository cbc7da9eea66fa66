//! Laws of the machine, proved from the transition function.
use vstd::prelude::*;
use crate::error::CpuError;
use crate::instruction::{
    decode, encode, lemma_decode_encode, lemma_decode_well_formed, Instruction,
};
use crate::screen::lemma_blit_twice_restores;
use crate::state::CpuState;

verus! {

/// One cycle on a load-immediate opcode `6xkk` succeeds, leaves `kk` in
/// register `x`, every other register as it was, and the program counter
/// two bytes on.
pub proof fn lemma_load_immediate(s: CpuState, x: u8, kk: u8)
    requires
        s.wf(),
        x < 16,
        s.fetch() == Ok::<u16, CpuError>(encode(Instruction::LoadRegisterX { x, kk })),
    ensures
        encode(Instruction::LoadRegisterX { x, kk }) == 0x6000 + 0x100 * x + kk,
        s.cycle().1 is Ok,
        s.cycle().0.v(x) == kk,
        forall|r: u8| r < 16 && r != x ==> s.cycle().0.v(r) == s.v(r),
        s.cycle().0.program_counter == s.program_counter + 2,
{
    lemma_decode_encode(Instruction::LoadRegisterX { x, kk });
}

/// The add-with-carry instruction leaves `(Vx + Vy) mod 256` in register
/// `x`, unless `x` is the flag register, and sets the flag register to 1
/// if `Vx + Vy > 255` and to 0 otherwise.
pub proof fn lemma_add_with_carry(s: CpuState, x: u8, y: u8)
    requires
        s.wf(),
        x < 16,
        y < 16,
    ensures
        s.execute(Instruction::AddYToX { x, y }) is Ok,
        ({
            let next = s.execute(Instruction::AddYToX { x, y })->Ok_0;
            &&& x != 0xF ==> next.v(x) == (s.v(x) + s.v(y)) % 256
            &&& next.v(0xF) == 1 <==> s.v(x) + s.v(y) > 255
            &&& next.v(0xF) == 0 <==> s.v(x) + s.v(y) <= 255
        }),
{
}

/// The subtract instruction `Vx - Vy` leaves `(Vx - Vy) mod 256` in
/// register `x`, unless `x` is the flag register, and sets the flag
/// register to 1 if `Vx >= Vy` and to 0 otherwise.
pub proof fn lemma_sub_no_borrow(s: CpuState, x: u8, y: u8)
    requires
        s.wf(),
        x < 16,
        y < 16,
    ensures
        s.execute(Instruction::SubYFromX { x, y }) is Ok,
        ({
            let next = s.execute(Instruction::SubYFromX { x, y })->Ok_0;
            &&& x != 0xF ==> next.v(x) == (s.v(x) - s.v(y)) % 256
            &&& next.v(0xF) == 1 <==> s.v(x) >= s.v(y)
            &&& next.v(0xF) == 0 <==> s.v(x) < s.v(y)
        }),
{
}

/// The reversed subtract instruction `Vy - Vx` leaves `(Vy - Vx) mod 256`
/// in register `x`, unless `x` is the flag register, and sets the flag
/// register to 1 if `Vy >= Vx` and to 0 otherwise.
pub proof fn lemma_sub_reversed_no_borrow(s: CpuState, x: u8, y: u8)
    requires
        s.wf(),
        x < 16,
        y < 16,
    ensures
        s.execute(Instruction::SubXFromY { x, y }) is Ok,
        ({
            let next = s.execute(Instruction::SubXFromY { x, y })->Ok_0;
            &&& x != 0xF ==> next.v(x) == (s.v(y) - s.v(x)) % 256
            &&& next.v(0xF) == 1 <==> s.v(y) >= s.v(x)
            &&& next.v(0xF) == 0 <==> s.v(y) < s.v(x)
        }),
{
}

/// Clearing the screen turns every pixel off, and clearing it twice
/// gives the same state as clearing it once.
pub proof fn lemma_clear_screen_idempotent(s: CpuState)
    ensures
        s.execute(Instruction::ClearScreen) is Ok,
        ({
            let once = s.execute(Instruction::ClearScreen)->Ok_0;
            &&& forall|row: int, column: int|
                0 <= row < 32 && 0 <= column < 64 ==> !once.framebuffer[row][column]
            &&& once.execute(Instruction::ClearScreen) == Ok::<CpuState, CpuError>(once)
        }),
{
}

/// Drawing the same sprite twice from the same registers restores the
/// screen, provided neither coordinate register is the flag register,
/// which the first draw overwrites.
pub proof fn lemma_draw_twice_restores(s: CpuState, x: u8, y: u8, n: u8)
    requires
        s.wf(),
        x < 0xF,
        y < 0xF,
        !s.quirks.vblank,
    ensures
        s.draw(x, y, n).draw(x, y, n).framebuffer == s.framebuffer,
{
    lemma_blit_twice_restores(
        s.framebuffer,
        s.sprite(n),
        s.v(x) as int % 64,
        s.v(y) as int % 32,
        s.quirks.wrap,
    );
}

/// A call followed at once by a return succeeds unless the stack is full,
/// and restores the program counter and the stack pointer: only the
/// stack slot that held the return address may differ.
pub proof fn lemma_call_then_return(s: CpuState, nnn: u16)
    requires
        s.wf(),
        s.stackpointer < 16,
    ensures
        s.execute(Instruction::CallSubroutineAtNNN { nnn }) is Ok,
        ({
            let called = s.execute(Instruction::CallSubroutineAtNNN { nnn })->Ok_0;
            &&& called.program_counter == nnn
            &&& called.execute(Instruction::ReturnFromSubroutine) == Ok::<CpuState, CpuError>(
                CpuState { stack: s.stack.update(s.stackpointer as int, s.program_counter), ..s },
            )
        }),
{
}

/// The three digits that the decimal-conversion instruction stores at
/// the index register are decimal digits and denote the value of
/// register `x`: `100 * d0 + 10 * d1 + d2 == Vx`.
pub proof fn lemma_bcd_digits(s: CpuState, x: u8)
    requires
        s.wf(),
        x < 16,
        s.registers.index + 2 < 4096,
    ensures
        s.store_bcd(x) is Ok,
        ({
            let memory = (s.store_bcd(x)->Ok_0).memory;
            let index = s.registers.index as int;
            &&& memory[index] <= 9 && memory[index + 1] <= 9 && memory[index + 2] <= 9
            &&& 100 * memory[index] + 10 * memory[index + 1] + memory[index + 2] == s.v(x)
        }),
{
}

/// Only the two store instructions write to memory, and they write at
/// the index register and above: an instruction leaves every byte below
/// the index register as it was, and every byte at all unless it is the
/// decimal conversion or the bulk store. So the font table, which ends at
/// address 80, changes only under a store with the index register below 80.
pub proof fn lemma_memory_written_only_by_stores(s: CpuState, instruction: Instruction)
    requires
        s.wf(),
        instruction.well_formed(),
    ensures
        s.execute(instruction) matches Ok(next) ==> {
            &&& next.memory.len() == 4096
            &&& forall|address: int|
                0 <= address < 4096 && address < s.registers.index ==> next.memory[address]
                    == s.memory[address]
            &&& !(instruction is LoadBCDOfX || instruction is Write0ThroughX) ==> next.memory
                == s.memory
        },
{
}

/// A cycle keeps the sizes of the machine's parts, and keeps the stack
/// pointer within 0 to 16 if it was there.
pub proof fn lemma_cycle_preserves_wf(s: CpuState)
    requires
        s.wf(),
    ensures
        s.cycle().0.wf(),
        s.stackpointer <= 16 ==> s.cycle().0.stackpointer <= 16,
{
    let fetched = s.with_pc((s.program_counter + 2) as u16);
    if s.fetch() is Ok {
        let opcode = s.fetch()->Ok_0;
        if decode(opcode) is Ok {
            lemma_decode_well_formed(opcode);
            lemma_execute_preserves_wf(fetched, decode(opcode)->Ok_0);
        }
    }
}

/// An instruction keeps the sizes of the machine's parts, and keeps the
/// stack pointer within 0 to 16 if it was there.
pub proof fn lemma_execute_preserves_wf(s: CpuState, instruction: Instruction)
    requires
        s.wf(),
        instruction.well_formed(),
    ensures
        s.execute(instruction) matches Ok(next) ==> next.wf() && (s.stackpointer <= 16
            ==> next.stackpointer <= 16),
{
}

} // verus!
