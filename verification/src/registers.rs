//! The register file: sixteen 8-bit registers, the 16-bit index register
//! and the two timers.
use vstd::prelude::*;

verus! {

/// The mathematical model of a [`Registers`] value.
#[verifier::ext_equal]
pub struct RegistersView {
    /// The general registers `V0` to `VF`; always sixteen of them.
    pub v: Seq<u8>,
    /// The index register `I`.
    pub index: u16,
    /// The delay timer.
    pub delay_timer: u8,
    /// The sound timer; the host beeps while it is not zero.
    pub sound_timer: u8,
}

impl RegistersView {
    /// The register file with every register and timer at zero.
    pub open spec fn zeroed() -> RegistersView {
        RegistersView {
            v: Seq::new(16, |i: int| 0u8),
            index: 0,
            delay_timer: 0,
            sound_timer: 0,
        }
    }

    /// Whether the model holds exactly sixteen general registers.
    pub open spec fn wf(self) -> bool {
        self.v.len() == 16
    }

    /// The model with register `x` set to `value`.
    pub open spec fn with_register(self, x: int, value: u8) -> RegistersView {
        RegistersView { v: self.v.update(x, value), ..self }
    }

    /// The model after one tick: each timer one lower unless it is zero.
    pub open spec fn tick(self) -> RegistersView {
        RegistersView {
            delay_timer: if self.delay_timer > 0 {
                (self.delay_timer - 1) as u8
            } else {
                0
            },
            sound_timer: if self.sound_timer > 0 {
                (self.sound_timer - 1) as u8
            } else {
                0
            },
            ..self
        }
    }
}

/// Holds all the registers and the sound and delay timers.
#[derive(Clone, Copy, Debug)]
pub struct Registers {
    register: [u8; 16],
    vindex: u16,
    delay_timer: u8,
    sound_timer: u8,
}

impl View for Registers {
    type V = RegistersView;

    closed spec fn view(&self) -> RegistersView {
        RegistersView {
            v: self.register@,
            index: self.vindex,
            delay_timer: self.delay_timer,
            sound_timer: self.sound_timer,
        }
    }
}

impl Default for Registers {
    fn default() -> (registers: Self)
        ensures
            registers@ == RegistersView::zeroed(),
    {
        let registers = Registers { register: [0u8; 16], vindex: 0, delay_timer: 0, sound_timer: 0 };
        registers
    }
}

impl Registers {
    /// Every register file holds sixteen general registers.
    pub proof fn lemma_wf(&self)
        ensures
            self@.wf(),
    {
    }

    /// Sets the index register.
    pub fn set_index_register(&mut self, value: u16)
        ensures
            final(self)@ == (RegistersView { index: value, ..old(self)@ }),
    {
        self.vindex = value;
    }

    /// Returns the index register.
    pub fn get_index_register(&self) -> (value: u16)
        ensures
            value == self@.index,
    {
        self.vindex
    }

    /// Sets the sound timer.
    pub fn set_sound_timer(&mut self, value: u8)
        ensures
            final(self)@ == (RegistersView { sound_timer: value, ..old(self)@ }),
    {
        self.sound_timer = value;
    }

    /// Returns the sound timer.
    pub fn get_sound_timer(&self) -> (value: u8)
        ensures
            value == self@.sound_timer,
    {
        self.sound_timer
    }

    /// Sets the delay timer.
    pub fn set_delay_timer(&mut self, value: u8)
        ensures
            final(self)@ == (RegistersView { delay_timer: value, ..old(self)@ }),
    {
        self.delay_timer = value;
    }

    /// Returns the delay timer.
    pub fn get_delay_timer(&self) -> (value: u8)
        ensures
            value == self@.delay_timer,
    {
        self.delay_timer
    }

    /// Lowers the sound timer by one unless it is zero.
    pub fn decrement_sound_timer(&mut self)
        ensures
            final(self)@ == (RegistersView {
                sound_timer: if old(self)@.sound_timer > 0 {
                    (old(self)@.sound_timer - 1) as u8
                } else {
                    0
                },
                ..old(self)@
            }),
    {
        if self.sound_timer > 0 {
            self.sound_timer -= 1;
        }
    }

    /// Lowers the delay timer by one unless it is zero.
    pub fn decrement_delay_timer(&mut self)
        ensures
            final(self)@ == (RegistersView {
                delay_timer: if old(self)@.delay_timer > 0 {
                    (old(self)@.delay_timer - 1) as u8
                } else {
                    0
                },
                ..old(self)@
            }),
    {
        if self.delay_timer > 0 {
            self.delay_timer -= 1;
        }
    }

    /// Returns the value of a general register.
    pub fn get_register(&self, register: u8) -> (value: u8)
        requires
            register < 16,
        ensures
            value == self@.v[register as int],
    {
        self.register[register as usize]
    }

    /// Sets a general register.
    pub fn set_register(&mut self, register: u8, value: u8)
        requires
            register < 16,
        ensures
            final(self)@ == old(self)@.with_register(register as int, value),
    {
        self.register[register as usize] = value;
    }
}

} // verus!
