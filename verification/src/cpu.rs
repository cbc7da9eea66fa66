//! The executable machine: fetch, decode, execute and the timers.
use vstd::prelude::*;
use crate::alu::{add_with_carry, bcd_digits, shift_left, shift_right, sub_with_borrow};
use crate::constants::{DEFAULT_SEED, RAM_SIZE, ROM_START_ADDRESS};
use crate::error::CpuError;
use crate::instruction::Instruction;
use crate::keypad::{find_pressed, first_pressed, is_pressed};
use crate::prng::Prng;
use crate::quirks::Quirks;
use crate::ram::{font_memory, with_block, Ram};
use crate::registers::{Registers, RegistersView};
use crate::rombuffer::RomBuffer;
use crate::screen::{clear_screen, draw_sprite, screen_view, Framebuffer};
use crate::stack::Stack;
use crate::state::{previous_pc, steps_to, CpuState};

verus! {

/// The machine.
///
/// Every combination of field values is a state that [`Cpu::cycle`]
/// handles: what would be an access out of bounds is reported as a fault.
#[derive(Debug)]
pub struct Cpu {
    /// The pixels of the screen, `true` for lit.
    pub framebuffer: Framebuffer,
    /// The address of the next instruction; `0x200` in a fresh machine.
    pub program_counter: u16,
    /// The keys of the keypad, `true` while a key is down.
    pub keyboard: [bool; 16],
    /// The memory, with the font table and the program.
    pub memory: Ram,
    /// The generator behind the random-register instruction.
    pub rng: Prng,
    /// The deviations in force.
    pub quirks: Quirks,
    /// Whether a vertical blank is pending; see [`Cpu::signal_vblank`].
    pub vblank: bool,
    /// Registers `V0` to `VF`, the index register and the timers.
    pub registers: Registers,
    /// The slots of the call stack.
    pub stack: Stack,
    /// The number of return addresses on the call stack, 0 to 16.
    pub stackpointer: u8,
}

impl View for Cpu {
    type V = CpuState;

    open spec fn view(&self) -> CpuState {
        CpuState {
            framebuffer: screen_view(self.framebuffer),
            program_counter: self.program_counter,
            keyboard: self.keyboard@,
            memory: self.memory@,
            rng: self.rng@,
            quirks: self.quirks,
            vblank: self.vblank,
            registers: self.registers@,
            stack: self.stack@,
            stackpointer: self.stackpointer,
        }
    }
}

impl Clone for Cpu {
    fn clone(&self) -> (copy: Self)
        ensures
            copy == *self,
    {
        Cpu {
            framebuffer: self.framebuffer,
            program_counter: self.program_counter,
            keyboard: self.keyboard,
            memory: self.memory,
            rng: self.rng,
            quirks: self.quirks,
            vblank: self.vblank,
            registers: self.registers,
            stack: self.stack,
            stackpointer: self.stackpointer,
        }
    }
}

impl Cpu {
    /// The model of every machine is well formed.
    pub proof fn lemma_wf(&self)
        ensures
            self@.wf(),
    {
        self.registers.lemma_wf();
        self.stack.lemma_len();
    }

    /// Creates a machine with the contents of a ROM loaded into memory,
    /// the classic semantics and the default seed.
    ///
    /// Fails with an address fault exactly when the ROM does not fit
    /// between `0x200` and the end of memory.
    pub fn new(rom: &RomBuffer) -> (result: Result<Cpu, CpuError>)
        ensures
            rom@.len() <= 3584 ==> result is Ok && result->Ok_0@ == CpuState::initial(
                rom@,
                DEFAULT_SEED,
                Quirks::classic(),
            ),
            rom@.len() > 3584 ==> result is Err && result->Err_0 == CpuError::AddressFault,
    {
        Cpu::with_config(rom, DEFAULT_SEED, Quirks::default())
    }

    /// Creates a machine with the contents of a ROM loaded into memory,
    /// a generator seeded with `seed` and the semantics that `quirks`
    /// selects.
    ///
    /// Fails with an address fault exactly when the ROM does not fit
    /// between `0x200` and the end of memory.
    pub fn with_config(rom: &RomBuffer, seed: u64, quirks: Quirks) -> (result: Result<
        Cpu,
        CpuError,
    >)
        ensures
            rom@.len() <= 3584 ==> result is Ok && result->Ok_0@ == CpuState::initial(
                rom@,
                seed,
                quirks,
            ),
            rom@.len() > 3584 ==> result is Err && result->Err_0 == CpuError::AddressFault,
    {
        let mut cpu = Cpu::without_rom(seed, quirks);
        match cpu.memory.load(ROM_START_ADDRESS, rom.contents()) {
            Err(error) => Err(error),
            Ok(()) => {
                Ok(cpu)
            },
        }
    }

    /// Creates a machine with no program in memory: only the font table.
    pub fn without_rom(seed: u64, quirks: Quirks) -> (cpu: Cpu)
        ensures
            cpu@ == CpuState::initial(Seq::empty(), seed, quirks),
            cpu@.memory == font_memory(),
    {
        let cpu = Cpu {
            framebuffer: [[false; 64]; 32],
            program_counter: ROM_START_ADDRESS,
            keyboard: [false; 16],
            memory: Ram::with_fonts(),
            rng: Prng::new(seed),
            quirks,
            vblank: false,
            registers: Registers::default(),
            stack: Stack::default(),
            stackpointer: 0,
        };
        proof {
            let state = CpuState::initial(Seq::empty(), seed, quirks);
            assert(cpu@.framebuffer =~~= state.framebuffer);
        }
        cpu
    }

    /// Returns the lowest key that is down, if any is.
    pub fn get_pressed_key(&self) -> (key: Option<usize>)
        ensures
            key == first_pressed(self@.keyboard),
            key matches Some(k) ==> k < 16 && self@.keyboard[k as int] && forall|j: int|
                0 <= j < k ==> !self@.keyboard[j],
            key is None ==> forall|j: int| 0 <= j < 16 ==> !self@.keyboard[j],
    {
        find_pressed(&self.keyboard)
    }

    /// Records that key `key` went down or came up.
    pub fn set_key_state(&mut self, key: u8, state: bool)
        requires
            key < 16,
        ensures
            final(self)@ == (CpuState {
                keyboard: old(self)@.keyboard.update(key as int, state),
                ..old(self)@
            }),
    {
        self.keyboard[key as usize] = state;
    }

    /// Records that the display reached its vertical blank. Where the
    /// `vblank` quirk is on, the next draw instruction may then draw.
    pub fn signal_vblank(&mut self)
        ensures
            final(self)@ == (CpuState { vblank: true, ..old(self)@ }),
    {
        self.vblank = true;
    }

    /// Returns a copy of the screen.
    pub fn get_display_contents(&self) -> (pixels: Framebuffer)
        ensures
            screen_view(pixels) == self@.framebuffer,
    {
        self.framebuffer
    }

    /// Returns the sound timer; the host sounds a tone while it is not 0.
    pub fn get_sound_timer(&self) -> (value: u8)
        ensures
            value == self@.registers.sound_timer,
    {
        self.registers.get_sound_timer()
    }

    /// Returns the two bytes at the program counter as one big-endian word.
    pub fn fetch(&self) -> (result: Result<u16, CpuError>)
        ensures
            result == self@.fetch(),
    {
        if self.program_counter < 4095 {
            Ok(self.memory.get_opcode(self.program_counter))
        } else {
            Err(CpuError::AddressFault)
        }
    }

    /// Moves the program counter past the next instruction if `condition`
    /// holds.
    fn skip_if(&mut self, condition: bool)
        ensures
            final(self)@ == old(self)@.skip_if(condition),
    {
        if condition {
            self.program_counter = self.program_counter.wrapping_add(2);
        }
    }

    /// Moves the program counter back onto the instruction that is being
    /// executed, so that the next cycle executes it again.
    fn rewind(&mut self)
        ensures
            final(self)@ == old(self)@.with_pc(previous_pc(old(self)@.program_counter)),
    {
        self.program_counter = self.program_counter.wrapping_sub(2);
    }

    /// Stores `value` in register `x`, then `flag` in the flag register.
    fn set_with_flag(&mut self, x: u8, value: u8, flag: u8)
        requires
            x < 16,
        ensures
            final(self)@ == old(self)@.arithmetic(x, value, flag),
    {
        self.registers.set_register(x, value);
        self.registers.set_register(0xF, flag);
    }

    /// Stores the result of a bitwise operation in register `x`.
    fn set_logic(&mut self, x: u8, value: u8)
        requires
            x < 16,
        ensures
            final(self)@ == old(self)@.logic(x, value),
    {
        self.registers.set_register(x, value);
        if self.quirks.logic {
            self.registers.set_register(0xF, 0);
        }
    }

    /// Returns the byte that a shift of registers `x`, `y` shifts.
    fn shift_source(&self, x: u8, y: u8) -> (value: u8)
        requires
            x < 16,
            y < 16,
        ensures
            value == self@.shift_source(x, y),
    {
        if self.quirks.shift {
            self.registers.get_register(y)
        } else {
            self.registers.get_register(x)
        }
    }

    /// Pops the return address into the program counter.
    fn return_from_subroutine(&mut self) -> (result: Result<(), CpuError>)
        ensures
            steps_to(old(self)@, final(self)@, result, old(self)@.return_from_subroutine()),
    {
        if self.stackpointer == 0 || self.stackpointer > 16 {
            return Err(CpuError::StackFault);
        }
        self.stackpointer -= 1;
        self.program_counter = self.stack.get(self.stackpointer);
        Ok(())
    }

    /// Pushes the program counter and continues at `nnn`.
    fn call_subroutine(&mut self, nnn: u16) -> (result: Result<(), CpuError>)
        ensures
            steps_to(old(self)@, final(self)@, result, old(self)@.call_subroutine(nnn)),
    {
        if self.stackpointer >= 16 {
            return Err(CpuError::StackFault);
        }
        self.stack.set(self.stackpointer, self.program_counter);
        self.stackpointer += 1;
        self.program_counter = nnn;
        Ok(())
    }

    /// Sets register `x` to `random_byte` masked with `kk`: what the
    /// random-register instruction does with the byte it has drawn.
    pub fn set_masked(&mut self, x: u8, kk: u8, random_byte: u8)
        requires
            x < 16,
        ensures
            final(self)@ == old(self)@.with_masked(x, kk, random_byte),
    {
        self.registers.set_register(x, random_byte & kk);
    }

    /// Sets register `x` to the next pseudo-random byte masked with `kk`.
    fn set_random(&mut self, x: u8, kk: u8)
        requires
            x < 16,
        ensures
            final(self)@ == old(self)@.set_random(x, kk),
    {
        let random_byte: u8 = self.rng.random_byte();
        self.set_masked(x, kk, random_byte);
    }

    /// Draws the `n`-row sprite at the index register at `(Vx, Vy)`.
    fn draw(&mut self, x: u8, y: u8, n: u8)
        requires
            x < 16,
            y < 16,
            n < 16,
        ensures
            final(self)@ == old(self)@.draw(x, y, n),
    {
        if self.quirks.vblank && !self.vblank {
            self.rewind();
            return ;
        }
        let vx: u8 = self.registers.get_register(x);
        let vy: u8 = self.registers.get_register(y);
        let index: u16 = self.registers.get_index_register();
        let collision = draw_sprite(
            &mut self.framebuffer,
            &self.memory,
            index,
            n,
            vx,
            vy,
            self.quirks.wrap,
        );
        self.registers.set_register(0xF, if collision { 1 } else { 0 });
        if self.quirks.vblank {
            self.vblank = false;
        }
    }

    /// Waits for a key: stores the lowest key that is down in register
    /// `x`, or steps back onto the instruction if none is.
    fn wait_for_key(&mut self, x: u8)
        requires
            x < 16,
        ensures
            final(self)@ == old(self)@.wait_for_key(x),
    {
        match self.get_pressed_key() {
            None => self.rewind(),
            Some(key) => self.registers.set_register(x, key as u8),
        }
    }

    /// Returns whether the key that register `x` names is down.
    fn key_is_pressed(&self, x: u8) -> (pressed: bool)
        requires
            x < 16,
        ensures
            pressed == is_pressed(self@.keyboard, self@.v(x)),
    {
        let key: u8 = self.registers.get_register(x);
        key < 16 && self.keyboard[key as usize]
    }

    /// Moves the index register past the registers of a bulk store or
    /// load where the quirk asks for it.
    fn advance_index(&mut self, x: u8)
        requires
            x < 16,
            old(self)@.registers.index + x < 4096,
        ensures
            final(self)@ == old(self)@.with_index(old(self)@.index_after_bulk(x)),
    {
        if self.quirks.index_increment {
            let index: u16 = self.registers.get_index_register();
            self.registers.set_index_register(index + x as u16 + 1);
        }
    }

    /// Stores the decimal digits of register `x` at the index register.
    fn store_bcd(&mut self, x: u8) -> (result: Result<(), CpuError>)
        requires
            x < 16,
        ensures
            steps_to(old(self)@, final(self)@, result, old(self)@.store_bcd(x)),
    {
        let index: u16 = self.registers.get_index_register();
        if index >= 4094 {
            return Err(CpuError::AddressFault);
        }
        let digits = bcd_digits(self.registers.get_register(x));
        self.memory.set(index, digits.0);
        self.memory.set(index + 1, digits.1);
        self.memory.set(index + 2, digits.2);
        Ok(())
    }

    /// Stores registers 0 through `x` at the index register.
    fn store_registers(&mut self, x: u8) -> (result: Result<(), CpuError>)
        requires
            x < 16,
        ensures
            steps_to(old(self)@, final(self)@, result, old(self)@.store_registers(x)),
    {
        let index: u16 = self.registers.get_index_register();
        if index as usize + x as usize >= RAM_SIZE {
            return Err(CpuError::AddressFault);
        }
        proof {
            self.registers.lemma_wf();
        }
        let ghost block = self.registers@.v.subrange(0, x + 1);
        let mut register: u8 = 0;
        while register <= x
            invariant
                x < 16,
                register <= x + 1,
                index + x < 4096,
                index == self.registers@.index,
                self.registers@.wf(),
                block == self.registers@.v.subrange(0, x + 1),
                self.memory@ == with_block(
                    old(self).memory@,
                    index as int,
                    block.subrange(0, register as int),
                ),
                *self == (Cpu { memory: self.memory, ..*old(self) }),
            decreases x + 1 - register,
        {
            let value: u8 = self.registers.get_register(register);
            self.memory.set(index + register as u16, value);
            register += 1;
        }
        assert(block.subrange(0, x + 1) =~= block);
        self.advance_index(x);
        Ok(())
    }

    /// Loads registers 0 through `x` from the index register.
    fn load_registers(&mut self, x: u8) -> (result: Result<(), CpuError>)
        requires
            x < 16,
        ensures
            steps_to(old(self)@, final(self)@, result, old(self)@.load_registers(x)),
    {
        let index: u16 = self.registers.get_index_register();
        if index as usize + x as usize >= RAM_SIZE {
            return Err(CpuError::AddressFault);
        }
        proof {
            self.registers.lemma_wf();
        }
        let mut register: u8 = 0;
        while register <= x
            invariant
                x < 16,
                register <= x + 1,
                index + x < 4096,
                index == old(self).registers@.index,
                old(self).registers@.wf(),
                self.registers@ == (RegistersView {
                    v: Seq::new(
                        16,
                        |r: int|
                            if r < register {
                                self.memory@[index + r]
                            } else {
                                old(self).registers@.v[r]
                            },
                    ),
                    ..old(self).registers@
                }),
                *self == (Cpu { registers: self.registers, ..*old(self) }),
            decreases x + 1 - register,
        {
            let value: u8 = self.memory.get_byte(index + register as u16);
            self.registers.set_register(register, value);
            register += 1;
        }
        self.advance_index(x);
        proof {
            let expected = old(self)@.load_registers(x)->Ok_0;
            assert(self@.registers.v =~= expected.registers.v);
        }
        Ok(())
    }

    /// Executes one instruction.
    ///
    /// On a fault the machine is left as it was.
    pub fn execute(&mut self, instruction: &Instruction) -> (result: Result<(), CpuError>)
        requires
            instruction.well_formed(),
        ensures
            steps_to(old(self)@, final(self)@, result, old(self)@.execute(*instruction)),
    {
        match *instruction {
            Instruction::Noop => {},
            Instruction::ClearScreen => {
                clear_screen(&mut self.framebuffer);
            },
            Instruction::ReturnFromSubroutine => {
                return self.return_from_subroutine();
            },
            Instruction::Jump { nnn } => {
                self.program_counter = nnn;
            },
            Instruction::CallSubroutineAtNNN { nnn } => {
                return self.call_subroutine(nnn);
            },
            Instruction::SkipNextInstructionIfXIsKK { x, kk } => {
                let vx: u8 = self.registers.get_register(x);
                self.skip_if(vx == kk);
            },
            Instruction::SkipNextInstructionIfXIsNotKK { x, kk } => {
                let vx: u8 = self.registers.get_register(x);
                self.skip_if(vx != kk);
            },
            Instruction::SkipNextInstructionIfXIsY { x, y } => {
                let vx: u8 = self.registers.get_register(x);
                let vy: u8 = self.registers.get_register(y);
                self.skip_if(vx == vy);
            },
            Instruction::SkipNextInstructionIfXIsNotY { x, y } => {
                let vx: u8 = self.registers.get_register(x);
                let vy: u8 = self.registers.get_register(y);
                self.skip_if(vx != vy);
            },
            Instruction::LoadRegisterX { x, kk } => {
                self.registers.set_register(x, kk);
            },
            Instruction::AddToRegisterX { x, kk } => {
                let vx: u8 = self.registers.get_register(x);
                self.registers.set_register(x, add_with_carry(vx, kk).0);
            },
            Instruction::LoadRegisterXIntoY { x, y } => {
                let vy: u8 = self.registers.get_register(y);
                self.registers.set_register(x, vy);
            },
            Instruction::LoadXOrYinX { x, y } => {
                let vx: u8 = self.registers.get_register(x);
                let vy: u8 = self.registers.get_register(y);
                self.set_logic(x, vx | vy);
            },
            Instruction::LoadXAndYInX { x, y } => {
                let vx: u8 = self.registers.get_register(x);
                let vy: u8 = self.registers.get_register(y);
                self.set_logic(x, vx & vy);
            },
            Instruction::LoadXXorYInX { x, y } => {
                let vx: u8 = self.registers.get_register(x);
                let vy: u8 = self.registers.get_register(y);
                self.set_logic(x, vx ^ vy);
            },
            Instruction::AddYToX { x, y } => {
                let vx: u8 = self.registers.get_register(x);
                let vy: u8 = self.registers.get_register(y);
                let (value, flag) = add_with_carry(vx, vy);
                self.set_with_flag(x, value, flag);
            },
            Instruction::SubYFromX { x, y } => {
                let vx: u8 = self.registers.get_register(x);
                let vy: u8 = self.registers.get_register(y);
                let (value, flag) = sub_with_borrow(vx, vy);
                self.set_with_flag(x, value, flag);
            },
            Instruction::SubXFromY { x, y } => {
                let vx: u8 = self.registers.get_register(x);
                let vy: u8 = self.registers.get_register(y);
                let (value, flag) = sub_with_borrow(vy, vx);
                self.set_with_flag(x, value, flag);
            },
            Instruction::ShiftXRight1 { x, y } => {
                let (value, flag) = shift_right(self.shift_source(x, y));
                self.set_with_flag(x, value, flag);
            },
            Instruction::ShiftXLeft1 { x, y } => {
                let (value, flag) = shift_left(self.shift_source(x, y));
                self.set_with_flag(x, value, flag);
            },
            Instruction::SetIndexRegister { nnn } => {
                self.registers.set_index_register(nnn);
            },
            Instruction::JumpToAddressPlusV0 { nnn } => {
                let v0: u8 = self.registers.get_register(0);
                let offset: u8 = if self.quirks.jump {
                    v0 % 16
                } else {
                    v0
                };
                self.program_counter = nnn.wrapping_add(offset as u16);
            },
            Instruction::SetXToRandom { x, kk } => {
                self.set_random(x, kk);
            },
            Instruction::Display { x, y, n } => {
                self.draw(x, y, n);
            },
            Instruction::SkipIfVxNotPressed { x } => {
                let pressed = self.key_is_pressed(x);
                self.skip_if(!pressed);
            },
            Instruction::SkipIfVxPressed { x } => {
                let pressed = self.key_is_pressed(x);
                self.skip_if(pressed);
            },
            Instruction::WaitForKeyPressed { x } => {
                self.wait_for_key(x);
            },
            Instruction::SetXToDelayTimer { x } => {
                let delay: u8 = self.registers.get_delay_timer();
                self.registers.set_register(x, delay);
            },
            Instruction::SetDelayTimerToX { x } => {
                let vx: u8 = self.registers.get_register(x);
                self.registers.set_delay_timer(vx);
            },
            Instruction::SetSoundTimerToX { x } => {
                let vx: u8 = self.registers.get_register(x);
                self.registers.set_sound_timer(vx);
            },
            Instruction::AddXtoI { x } => {
                let vx: u8 = self.registers.get_register(x);
                let index: u16 = self.registers.get_index_register();
                self.registers.set_index_register(index.wrapping_add(vx as u16));
            },
            Instruction::SetIToSpriteX { x } => {
                let vx: u8 = self.registers.get_register(x);
                self.registers.set_index_register(vx as u16 * 5);
            },
            Instruction::LoadBCDOfX { x } => {
                return self.store_bcd(x);
            },
            Instruction::Write0ThroughX { x } => {
                return self.store_registers(x);
            },
            Instruction::Load0ThroughX { x } => {
                return self.load_registers(x);
            },
        }
        Ok(())
    }

    /// A single cycle: fetches, decodes and executes the instruction at
    /// the program counter, which it moves on, and ticks both timers.
    ///
    /// A fault ends the cycle where it arises; see [`CpuState::cycle`].
    pub fn cycle(&mut self) -> (result: Result<(), CpuError>)
        ensures
            final(self)@ == old(self)@.cycle().0,
            result == old(self)@.cycle().1,
    {
        let opcode: u16 = match self.fetch() {
            Ok(opcode) => opcode,
            Err(error) => {
                return Err(error);
            },
        };
        self.program_counter = self.program_counter + 2;
        let instruction = match Instruction::new(opcode) {
            Ok(instruction) => instruction,
            Err(error) => {
                return Err(error);
            },
        };
        match self.execute(&instruction) {
            Ok(()) => {},
            Err(error) => {
                return Err(error);
            },
        }
        self.registers.decrement_sound_timer();
        self.registers.decrement_delay_timer();
        Ok(())
    }

    /// Runs a burst of up to `cycles` cycles and stops at the first fault.
    pub fn run(&mut self, cycles: usize) -> (result: Result<(), CpuError>)
        ensures
            final(self)@ == old(self)@.run(cycles as nat).0,
            result == old(self)@.run(cycles as nat).1,
    {
        let mut done: usize = 0;
        while done < cycles
            invariant
                done <= cycles,
                old(self)@.run(cycles as nat) == self@.run((cycles - done) as nat),
            decreases cycles - done,
        {
            match self.cycle() {
                Ok(()) => {},
                Err(error) => {
                    return Err(error);
                },
            }
            done += 1;
        }
        Ok(())
    }
}

} // verus!
