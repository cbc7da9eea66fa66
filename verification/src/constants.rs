//! Dimensions of the machine.
use vstd::prelude::*;

verus! {

/// The width of the display in pixels.
pub const DISPLAY_WIDTH: usize = 64;

/// The height of the display in pixels.
pub const DISPLAY_HEIGHT: usize = 32;

/// The size of memory in bytes.
pub const RAM_SIZE: usize = 4096;

/// The address at which programs are loaded and at which execution starts.
pub const ROM_START_ADDRESS: u16 = 0x200;

/// The number of general-purpose registers.
pub const NUM_REGISTERS: u8 = 16;

/// The number of keys on the keypad.
pub const NUM_KEYS: u8 = 16;

/// The depth of the call stack.
pub const STACK_DEPTH: u8 = 16;

/// The number of bytes of the built-in font table, which starts at address 0.
pub const FONT_SIZE: usize = 80;

/// How many cycles a host usually runs per displayed frame.
pub const CYCLES_PER_FRAME: usize = 5;

/// The seed of the pseudo-random generator of a machine built without an
/// explicit seed.
pub const DEFAULT_SEED: u64 = 2;

} // verus!
