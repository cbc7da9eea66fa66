//! The optional deviations in instruction semantics.
//!
//! Historical interpreters disagree on a handful of instructions. Each
//! field switches one such deviation on; with every field off the machine
//! behaves as the classic interpreter.
use vstd::prelude::*;

verus! {

/// Which deviations from the classic semantics are in force.
#[derive(Clone, Copy, Debug, PartialEq, Eq, Structural)]
pub struct Quirks {
    /// The shift instructions shift register `y` instead of register `x`;
    /// the result still goes to register `x`.
    pub shift: bool,
    /// The bulk store and load leave the index register just past the last
    /// byte they touched instead of leaving it alone.
    pub index_increment: bool,
    /// Sprite pixels beyond the right or bottom edge come back in at the
    /// opposite edge instead of being dropped.
    pub wrap: bool,
    /// The offset jump adds only the low nibble of register 0 instead of
    /// the whole register.
    pub jump: bool,
    /// A sprite is drawn only once the host has signalled a vertical
    /// blank; until then the draw instruction is retried.
    pub vblank: bool,
    /// The bitwise OR, AND and XOR reset the flag register to 0.
    pub logic: bool,
}

impl Quirks {
    /// The classic semantics: every deviation off.
    pub open spec fn classic() -> Quirks {
        Quirks {
            shift: false,
            index_increment: false,
            wrap: false,
            jump: false,
            vblank: false,
            logic: false,
        }
    }
}

impl Default for Quirks {
    fn default() -> (quirks: Self)
        ensures
            quirks == Quirks::classic(),
    {
        Quirks {
            shift: false,
            index_increment: false,
            wrap: false,
            jump: false,
            vblank: false,
            logic: false,
        }
    }
}

} // verus!
