//! A host session: a machine together with the run state that a front
//! end keeps for it.
//!
//! A front end turns its own events into calls of the methods here and
//! performs the input and output itself: it reads ROM files, draws the
//! screen and sounds the tone.
use vstd::prelude::*;
use crate::constants::DEFAULT_SEED;
use crate::cpu::Cpu;
use crate::error::CpuError;
use crate::quirks::Quirks;
use crate::rombuffer::RomBuffer;
use crate::state::CpuState;

verus! {

/// The mathematical model of a [`Session`].
#[verifier::ext_equal]
pub struct SessionState {
    /// The machine.
    pub cpu: CpuState,
    /// Whether a program has been loaded.
    pub initialized: bool,
    /// Whether frame ticks run the machine.
    pub running: bool,
}

impl SessionState {
    /// Only a session with a program runs.
    pub open spec fn wf(self) -> bool {
        self.running ==> self.initialized
    }

    /// The session after a frame tick of `cycles` cycles, and what the
    /// tick reports. A session that is not running ignores the tick. A
    /// running one runs the burst, and pauses if the burst ends in a fault.
    pub open spec fn tick(self, cycles: nat) -> (SessionState, Result<(), CpuError>) {
        if self.running {
            let (cpu, result) = self.cpu.run(cycles);
            (SessionState { cpu, running: result is Ok, ..self }, result)
        } else {
            (self, Ok(()))
        }
    }

    /// The session after key `key` went down or came up. Only a running
    /// session takes keys, and only the sixteen keys of the keypad.
    pub open spec fn key_event(self, key: u8, pressed: bool) -> SessionState {
        if self.running && key < 16 {
            SessionState {
                cpu: CpuState { keyboard: self.cpu.keyboard.update(key as int, pressed), ..self.cpu },
                ..self
            }
        } else {
            self
        }
    }

    /// The session after a request to run: it runs if it has a program.
    pub open spec fn resume(self) -> SessionState {
        SessionState { running: self.initialized, ..self }
    }

    /// The session after a request to pause.
    pub open spec fn pause(self) -> SessionState {
        SessionState { running: false, ..self }
    }

    /// The session after `rom` is loaded: a fresh machine with the same
    /// quirks, seeded with `seed`, that runs. An address fault if the ROM
    /// does not fit in memory.
    pub open spec fn load(self, rom: Seq<u8>, seed: u64) -> Result<SessionState, CpuError> {
        if rom.len() <= 3584 {
            Ok(
                SessionState {
                    cpu: CpuState::initial(rom, seed, self.cpu.quirks),
                    initialized: true,
                    running: true,
                },
            )
        } else {
            Err(CpuError::AddressFault)
        }
    }
}

/// A machine and whether it has a program and runs.
#[derive(Debug)]
pub struct Session {
    /// The machine.
    pub cpu: Cpu,
    /// Whether a program has been loaded.
    pub initialized: bool,
    /// Whether frame ticks run the machine.
    pub running: bool,
}

impl View for Session {
    type V = SessionState;

    open spec fn view(&self) -> SessionState {
        SessionState { cpu: self.cpu@, initialized: self.initialized, running: self.running }
    }
}

impl Clone for Session {
    fn clone(&self) -> (copy: Self)
        ensures
            copy == *self,
    {
        Session { cpu: self.cpu.clone(), initialized: self.initialized, running: self.running }
    }
}

impl Session {
    /// A session without a program: a machine that holds only the font
    /// table, with the quirks given, and that does not run.
    pub fn new(quirks: Quirks) -> (session: Session)
        ensures
            session@ == (SessionState {
                cpu: CpuState::initial(Seq::empty(), DEFAULT_SEED, quirks),
                initialized: false,
                running: false,
            }),
    {
        Session { cpu: Cpu::without_rom(DEFAULT_SEED, quirks), initialized: false, running: false }
    }

    /// Handles a frame tick: runs a burst of `cycles` cycles if the
    /// session runs, and pauses the session if the burst ends in a fault.
    pub fn tick(&mut self, cycles: usize) -> (result: Result<(), CpuError>)
        ensures
            final(self)@ == old(self)@.tick(cycles as nat).0,
            result == old(self)@.tick(cycles as nat).1,
            old(self)@.wf() ==> final(self)@.wf(),
    {
        if !self.running {
            return Ok(());
        }
        let result = self.cpu.run(cycles);
        self.running = result.is_ok();
        result
    }

    /// Handles a key that went down or came up.
    pub fn key_event(&mut self, key: u8, pressed: bool)
        ensures
            final(self)@ == old(self)@.key_event(key, pressed),
            old(self)@.wf() ==> final(self)@.wf(),
    {
        if self.running && key < 16 {
            self.cpu.set_key_state(key, pressed);
        }
    }

    /// Stops the machine until the session is resumed.
    pub fn pause(&mut self)
        ensures
            final(self)@ == old(self)@.pause(),
            final(self)@.wf(),
    {
        self.running = false;
    }

    /// Lets the machine run again, if the session has a program.
    pub fn resume(&mut self)
        ensures
            final(self)@ == old(self)@.resume(),
            final(self)@.wf(),
    {
        if self.initialized {
            self.running = true;
        } else {
            self.running = false;
        }
    }

    /// Replaces the machine by a fresh one with `rom` loaded and lets it
    /// run. On an address fault the session is left as it was.
    pub fn load(&mut self, rom: &RomBuffer, seed: u64) -> (result: Result<(), CpuError>)
        ensures
            match old(self)@.load(rom@, seed) {
                Ok(next) => result is Ok && final(self)@ == next,
                Err(error) => result == Err::<(), CpuError>(error) && final(self)@ == old(self)@,
            },
            old(self)@.wf() ==> final(self)@.wf(),
    {
        match Cpu::with_config(rom, seed, self.cpu.quirks) {
            Ok(cpu) => {
                self.cpu = cpu;
                self.initialized = true;
                self.running = true;
                Ok(())
            },
            Err(error) => Err(error),
        }
    }

    /// Whether a request to resume would start the machine.
    pub fn can_resume(&self) -> (able: bool)
        ensures
            able == (self@.initialized && !self@.running),
    {
        self.initialized && !self.running
    }

    /// Whether the machine runs, so that a request to pause would stop it.
    pub fn can_pause(&self) -> (able: bool)
        ensures
            able == self@.running,
    {
        self.running
    }
}

} // verus!
