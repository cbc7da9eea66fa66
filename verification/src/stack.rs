//! The call stack's storage: sixteen 16-bit return addresses.
use vstd::prelude::*;

verus! {

/// Sixteen 16-bit addresses, used to call subroutines and return from them.
///
/// The stack pointer lives in the machine; this type is only the storage.
#[derive(Clone, Copy, Debug)]
pub struct Stack {
    values: [u16; 16],
}

impl View for Stack {
    type V = Seq<u16>;

    closed spec fn view(&self) -> Seq<u16> {
        self.values@
    }
}

impl Default for Stack {
    fn default() -> (stack: Self)
        ensures
            stack@ == Seq::new(16, |i: int| 0u16),
    {
        let stack = Stack { values: [0u16; 16] };
        stack
    }
}

impl Stack {
    /// Every stack holds sixteen slots.
    pub proof fn lemma_len(&self)
        ensures
            self@.len() == 16,
    {
    }

    /// Returns the address in slot `idx`.
    pub fn get(&self, idx: u8) -> (value: u16)
        requires
            idx < 16,
        ensures
            value == self@[idx as int],
    {
        self.values[idx as usize]
    }

    /// Stores `value` in slot `idx`.
    pub fn set(&mut self, idx: u8, value: u16)
        requires
            idx < 16,
        ensures
            final(self)@ == old(self)@.update(idx as int, value),
    {
        self.values[idx as usize] = value;
    }
}

} // verus!
