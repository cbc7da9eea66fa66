//! The mathematical model of the machine and its transition function.
//!
//! [`CpuState`] is the state of a machine as plain mathematical values.
//! [`CpuState::execute`] says what each instruction does to it and
//! [`CpuState::cycle`] what one fetch-decode-execute cycle does. The
//! executable machine in [`crate::cpu`] is proved to follow them.
use vstd::prelude::*;
use crate::alu;
use crate::error::CpuError;
use crate::instruction::{decode, Instruction};
use crate::keypad::{first_pressed, is_pressed};
use crate::prng::PrngView;
use crate::quirks::Quirks;
use crate::ram::{font_memory, opcode_at, with_block};
use crate::registers::RegistersView;
use crate::screen::{blank_screen, blit, collides, screen_wf, sprite_rows, Screen};

verus! {

/// The state of a machine.
#[verifier::ext_equal]
pub struct CpuState {
    /// The screen, `framebuffer[row][column]`.
    pub framebuffer: Screen,
    /// The address of the next instruction.
    pub program_counter: u16,
    /// Which of the sixteen keys are down.
    pub keyboard: Seq<bool>,
    /// The 4096 bytes of memory.
    pub memory: Seq<u8>,
    /// The pseudo-random generator.
    pub rng: PrngView,
    /// The deviations in force.
    pub quirks: Quirks,
    /// Whether the host has signalled a vertical blank that no sprite has
    /// used yet. Only read where the `vblank` quirk is on.
    pub vblank: bool,
    /// The registers and timers.
    pub registers: RegistersView,
    /// The sixteen slots of the call stack.
    pub stack: Seq<u16>,
    /// The number of return addresses on the call stack.
    pub stackpointer: u8,
}

/// The address two bytes after `pc`, in 16 bits.
pub open spec fn next_pc(pc: u16) -> u16 {
    ((pc + 2) % 0x10000) as u16
}

/// The address two bytes before `pc`, in 16 bits.
pub open spec fn previous_pc(pc: u16) -> u16 {
    ((pc - 2) % 0x10000) as u16
}

/// Whether a call left the machine in state `after` with result `result`,
/// given that the model expects `expected` of state `before`: on success
/// the new state is the expected one, on failure the error is the expected
/// one and the state is untouched.
pub open spec fn steps_to(
    before: CpuState,
    after: CpuState,
    result: Result<(), CpuError>,
    expected: Result<CpuState, CpuError>,
) -> bool {
    match expected {
        Ok(next) => result is Ok && after == next,
        Err(error) => result == Err::<(), CpuError>(error) && after == before,
    }
}

impl CpuState {
    /// Whether every part of the state has the size that the machine fixes.
    pub open spec fn wf(self) -> bool {
        &&& screen_wf(self.framebuffer)
        &&& self.keyboard.len() == 16
        &&& self.memory.len() == 4096
        &&& self.registers.wf()
        &&& self.stack.len() == 16
    }

    /// The state of a machine that was just built: `rom` loaded at `0x200`
    /// behind the font table, everything else zero, the program counter at
    /// `0x200` and the generator at the start of the stream of `seed`.
    pub open spec fn initial(rom: Seq<u8>, seed: u64, quirks: Quirks) -> CpuState {
        CpuState {
            framebuffer: blank_screen(),
            program_counter: 0x200,
            keyboard: Seq::new(16, |i: int| false),
            memory: with_block(font_memory(), 0x200, rom),
            rng: PrngView { seed, word_pos: 0 },
            quirks,
            vblank: false,
            registers: RegistersView::zeroed(),
            stack: Seq::new(16, |i: int| 0u16),
            stackpointer: 0,
        }
    }

    /// The value of register `x`.
    pub open spec fn v(self, x: u8) -> u8 {
        self.registers.v[x as int]
    }

    /// The state with register `x` set to `value`.
    pub open spec fn with_v(self, x: u8, value: u8) -> CpuState {
        CpuState { registers: self.registers.with_register(x as int, value), ..self }
    }

    /// The state with the flag register `VF` set to `value`.
    pub open spec fn with_flag(self, value: u8) -> CpuState {
        self.with_v(0xF, value)
    }

    /// The state with the program counter set to `pc`.
    pub open spec fn with_pc(self, pc: u16) -> CpuState {
        CpuState { program_counter: pc, ..self }
    }

    /// The state with the index register set to `index`.
    pub open spec fn with_index(self, index: u16) -> CpuState {
        CpuState { registers: RegistersView { index, ..self.registers }, ..self }
    }

    /// The state with the next instruction skipped if `condition` holds.
    pub open spec fn skip_if(self, condition: bool) -> CpuState {
        if condition {
            self.with_pc(next_pc(self.program_counter))
        } else {
            self
        }
    }

    /// The state after a return: the stack pointer goes down by one and
    /// the program counter takes the address in the slot it then names.
    /// A stack fault if no return address is stacked.
    pub open spec fn return_from_subroutine(self) -> Result<CpuState, CpuError> {
        if 1 <= self.stackpointer <= 16 {
            Ok(
                CpuState {
                    stackpointer: (self.stackpointer - 1) as u8,
                    program_counter: self.stack[self.stackpointer - 1],
                    ..self
                },
            )
        } else {
            Err(CpuError::StackFault)
        }
    }

    /// The state after a call: the program counter goes to the slot that
    /// the stack pointer names, the stack pointer goes up by one and the
    /// program counter becomes `nnn`. A stack fault if the stack is full.
    pub open spec fn call_subroutine(self, nnn: u16) -> Result<CpuState, CpuError> {
        if self.stackpointer < 16 {
            Ok(
                CpuState {
                    stack: self.stack.update(self.stackpointer as int, self.program_counter),
                    stackpointer: (self.stackpointer + 1) as u8,
                    program_counter: nnn,
                    ..self
                },
            )
        } else {
            Err(CpuError::StackFault)
        }
    }

    /// The state after a bitwise operation put `value` in register `x`.
    pub open spec fn logic(self, x: u8, value: u8) -> CpuState {
        if self.quirks.logic {
            self.with_v(x, value).with_flag(0)
        } else {
            self.with_v(x, value)
        }
    }

    /// The state after an arithmetic operation put `value` in register `x`
    /// and then `flag` in the flag register.
    pub open spec fn arithmetic(self, x: u8, value: u8, flag: u8) -> CpuState {
        self.with_v(x, value).with_flag(flag)
    }

    /// The byte that a shift of registers `x`, `y` shifts.
    pub open spec fn shift_source(self, x: u8, y: u8) -> u8 {
        if self.quirks.shift {
            self.v(y)
        } else {
            self.v(x)
        }
    }

    /// The offset that the offset jump adds to its address.
    pub open spec fn jump_offset(self) -> u8 {
        if self.quirks.jump {
            self.v(0) % 16
        } else {
            self.v(0)
        }
    }

    /// The state after register `x` took `byte` masked with `kk`.
    pub open spec fn with_masked(self, x: u8, kk: u8, byte: u8) -> CpuState {
        self.with_v(x, byte & kk)
    }

    /// The state after register `x` took the next pseudo-random byte
    /// masked with `kk`, and the generator moved on by one draw.
    pub open spec fn set_random(self, x: u8, kk: u8) -> CpuState {
        CpuState { rng: self.rng.advance(), ..self.with_masked(x, kk, self.rng.next_byte()) }
    }

    /// The sprite that a draw of `n` rows reads.
    pub open spec fn sprite(self, n: u8) -> Seq<u8> {
        sprite_rows(self.memory, self.registers.index as int, n as int)
    }

    /// The state after a draw of the `n`-row sprite at the index register,
    /// at `(Vx mod 64, Vy mod 32)`: the sprite is XORed onto the screen and
    /// the flag register is 1 if a lit pixel went off, else 0.
    ///
    /// Where the `vblank` quirk is on and no vertical blank is pending,
    /// nothing is drawn and the program counter steps back onto the
    /// instruction; where one is pending, the draw uses it up.
    pub open spec fn draw(self, x: u8, y: u8, n: u8) -> CpuState {
        if self.quirks.vblank && !self.vblank {
            self.with_pc(previous_pc(self.program_counter))
        } else {
            let start_x = self.v(x) as int % 64;
            let start_y = self.v(y) as int % 32;
            let collision = collides(
                self.framebuffer,
                self.sprite(n),
                start_x,
                start_y,
                self.quirks.wrap,
            );
            CpuState {
                framebuffer: blit(
                    self.framebuffer,
                    self.sprite(n),
                    start_x,
                    start_y,
                    self.quirks.wrap,
                ),
                vblank: self.vblank && !self.quirks.vblank,
                ..self.with_flag(if collision { 1 } else { 0 })
            }
        }
    }

    /// The state after a wait for a key: register `x` takes the index of
    /// the lowest key that is down; if none is, the program counter steps
    /// back onto the instruction.
    pub open spec fn wait_for_key(self, x: u8) -> CpuState {
        match first_pressed(self.keyboard) {
            Some(key) => self.with_v(x, key as u8),
            None => self.with_pc(previous_pc(self.program_counter)),
        }
    }

    /// The index register after a bulk store or load of registers 0
    /// through `x`.
    pub open spec fn index_after_bulk(self, x: u8) -> u16 {
        if self.quirks.index_increment {
            (self.registers.index + x + 1) as u16
        } else {
            self.registers.index
        }
    }

    /// The state after the three decimal digits of register `x` are
    /// stored at the index register. An address fault if the third digit
    /// would lie beyond the end of memory.
    pub open spec fn store_bcd(self, x: u8) -> Result<CpuState, CpuError> {
        let index = self.registers.index as int;
        let digits = alu::bcd(self.v(x));
        if index + 2 < 4096 {
            Ok(
                CpuState {
                    memory: self.memory.update(index, digits.0).update(
                        index + 1,
                        digits.1,
                    ).update(index + 2, digits.2),
                    ..self
                },
            )
        } else {
            Err(CpuError::AddressFault)
        }
    }

    /// The state after registers 0 through `x` are stored at the index
    /// register. An address fault if the last of them would lie beyond the
    /// end of memory.
    pub open spec fn store_registers(self, x: u8) -> Result<CpuState, CpuError> {
        let index = self.registers.index as int;
        if index + x < 4096 {
            Ok(
                CpuState {
                    memory: with_block(self.memory, index, self.registers.v.subrange(0, x + 1)),
                    ..self.with_index(self.index_after_bulk(x))
                },
            )
        } else {
            Err(CpuError::AddressFault)
        }
    }

    /// The state after registers 0 through `x` are loaded from the index
    /// register. An address fault if the last of them would be read beyond
    /// the end of memory.
    pub open spec fn load_registers(self, x: u8) -> Result<CpuState, CpuError> {
        let index = self.registers.index as int;
        if index + x < 4096 {
            Ok(
                CpuState {
                    registers: RegistersView {
                        v: Seq::new(
                            16,
                            |r: int|
                                if r <= x {
                                    self.memory[index + r]
                                } else {
                                    self.registers.v[r]
                                },
                        ),
                        index: self.index_after_bulk(x),
                        ..self.registers
                    },
                    ..self
                },
            )
        } else {
            Err(CpuError::AddressFault)
        }
    }

    /// The state after `instruction`, or the fault that it raises. A
    /// faulting instruction changes nothing.
    pub open spec fn execute(self, instruction: Instruction) -> Result<CpuState, CpuError> {
        match instruction {
            Instruction::Noop => Ok(self),
            Instruction::ClearScreen => Ok(CpuState { framebuffer: blank_screen(), ..self }),
            Instruction::ReturnFromSubroutine => self.return_from_subroutine(),
            Instruction::Jump { nnn } => Ok(self.with_pc(nnn)),
            Instruction::CallSubroutineAtNNN { nnn } => self.call_subroutine(nnn),
            Instruction::SkipNextInstructionIfXIsKK { x, kk } => Ok(self.skip_if(self.v(x) == kk)),
            Instruction::SkipNextInstructionIfXIsNotKK { x, kk } => Ok(
                self.skip_if(self.v(x) != kk),
            ),
            Instruction::SkipNextInstructionIfXIsY { x, y } => Ok(
                self.skip_if(self.v(x) == self.v(y)),
            ),
            Instruction::SkipNextInstructionIfXIsNotY { x, y } => Ok(
                self.skip_if(self.v(x) != self.v(y)),
            ),
            Instruction::LoadRegisterX { x, kk } => Ok(self.with_v(x, kk)),
            Instruction::AddToRegisterX { x, kk } => Ok(self.with_v(x, alu::sum(self.v(x), kk))),
            Instruction::LoadRegisterXIntoY { x, y } => Ok(self.with_v(x, self.v(y))),
            Instruction::LoadXOrYinX { x, y } => Ok(self.logic(x, self.v(x) | self.v(y))),
            Instruction::LoadXAndYInX { x, y } => Ok(self.logic(x, self.v(x) & self.v(y))),
            Instruction::LoadXXorYInX { x, y } => Ok(self.logic(x, self.v(x) ^ self.v(y))),
            Instruction::AddYToX { x, y } => Ok(
                self.arithmetic(
                    x,
                    alu::sum(self.v(x), self.v(y)),
                    alu::carry(self.v(x), self.v(y)),
                ),
            ),
            Instruction::SubYFromX { x, y } => Ok(
                self.arithmetic(
                    x,
                    alu::difference(self.v(x), self.v(y)),
                    alu::no_borrow(self.v(x), self.v(y)),
                ),
            ),
            Instruction::SubXFromY { x, y } => Ok(
                self.arithmetic(
                    x,
                    alu::difference(self.v(y), self.v(x)),
                    alu::no_borrow(self.v(y), self.v(x)),
                ),
            ),
            Instruction::ShiftXRight1 { x, y } => Ok(
                self.arithmetic(
                    x,
                    alu::halved(self.shift_source(x, y)),
                    alu::low_bit(self.shift_source(x, y)),
                ),
            ),
            Instruction::ShiftXLeft1 { x, y } => Ok(
                self.arithmetic(
                    x,
                    alu::doubled(self.shift_source(x, y)),
                    alu::high_bit(self.shift_source(x, y)),
                ),
            ),
            Instruction::SetIndexRegister { nnn } => Ok(self.with_index(nnn)),
            Instruction::JumpToAddressPlusV0 { nnn } => Ok(
                self.with_pc(((nnn + self.jump_offset()) % 0x10000) as u16),
            ),
            Instruction::SetXToRandom { x, kk } => Ok(self.set_random(x, kk)),
            Instruction::Display { x, y, n } => Ok(self.draw(x, y, n)),
            Instruction::SkipIfVxNotPressed { x } => Ok(
                self.skip_if(!is_pressed(self.keyboard, self.v(x))),
            ),
            Instruction::SkipIfVxPressed { x } => Ok(
                self.skip_if(is_pressed(self.keyboard, self.v(x))),
            ),
            Instruction::WaitForKeyPressed { x } => Ok(self.wait_for_key(x)),
            Instruction::SetXToDelayTimer { x } => Ok(self.with_v(x, self.registers.delay_timer)),
            Instruction::SetDelayTimerToX { x } => Ok(
                CpuState {
                    registers: RegistersView { delay_timer: self.v(x), ..self.registers },
                    ..self
                },
            ),
            Instruction::SetSoundTimerToX { x } => Ok(
                CpuState {
                    registers: RegistersView { sound_timer: self.v(x), ..self.registers },
                    ..self
                },
            ),
            Instruction::AddXtoI { x } => Ok(
                self.with_index(((self.registers.index + self.v(x)) % 0x10000) as u16),
            ),
            Instruction::SetIToSpriteX { x } => Ok(self.with_index((self.v(x) * 5) as u16)),
            Instruction::LoadBCDOfX { x } => self.store_bcd(x),
            Instruction::Write0ThroughX { x } => self.store_registers(x),
            Instruction::Load0ThroughX { x } => self.load_registers(x),
        }
    }

    /// The opcode at the program counter. An address fault if either of
    /// its two bytes lies beyond the end of memory.
    pub open spec fn fetch(self) -> Result<u16, CpuError> {
        if self.program_counter + 1 < 4096 {
            Ok(opcode_at(self.memory, self.program_counter as int))
        } else {
            Err(CpuError::AddressFault)
        }
    }

    /// The state after one tick of the timers.
    pub open spec fn tick(self) -> CpuState {
        CpuState { registers: self.registers.tick(), ..self }
    }

    /// The state after one cycle and the result that the cycle reports.
    ///
    /// A cycle fetches the opcode at the program counter, moves the
    /// program counter two bytes on, decodes and executes the instruction
    /// and then ticks the timers. A fault ends the cycle where it arises:
    /// a fetch that faults changes nothing; a decode or an execute that
    /// faults leaves only the program counter moved on.
    pub open spec fn cycle(self) -> (CpuState, Result<(), CpuError>) {
        match self.fetch() {
            Err(error) => (self, Err(error)),
            Ok(opcode) => {
                let fetched = self.with_pc((self.program_counter + 2) as u16);
                match decode(opcode) {
                    Err(error) => (fetched, Err(error)),
                    Ok(instruction) => match fetched.execute(instruction) {
                        Err(error) => (fetched, Err(error)),
                        Ok(executed) => (executed.tick(), Ok(())),
                    },
                }
            },
        }
    }

    /// The state after a burst of up to `cycles` cycles, which ends at the
    /// first cycle that reports a fault, and the result of the last cycle.
    pub open spec fn run(self, cycles: nat) -> (CpuState, Result<(), CpuError>)
        decreases cycles,
    {
        if cycles == 0 {
            (self, Ok(()))
        } else {
            let (next, result) = self.cycle();
            if result is Err {
                (next, result)
            } else {
                next.run((cycles - 1) as nat)
            }
        }
    }
}

} // verus!
