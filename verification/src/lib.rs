//! A CHIP-8 virtual machine core.
//!
//! The machine is a fetch-decode-execute engine over a 4 KiB memory, sixteen
//! 8-bit registers, a sixteen-entry call stack and a 64x32 monochrome screen.
//! Every operation carries a contract over a mathematical model of the
//! machine state, and one cycle of the engine is proved equal to the
//! transition function [`state::CpuState::cycle`].
#![allow(unused_imports)]

pub mod alu;
pub mod constants;
pub mod cpu;
pub mod error;
pub mod instruction;
pub mod keypad;
pub mod laws;
pub mod prng;
pub mod quirks;
pub mod ram;
pub mod registers;
pub mod rombuffer;
pub mod screen;
pub mod session;
pub mod stack;
pub mod state;

pub use constants::{DISPLAY_HEIGHT, DISPLAY_WIDTH};
pub use cpu::Cpu;
pub use error::CpuError;
pub use instruction::Instruction;
pub use prng::Prng;
pub use quirks::Quirks;
pub use ram::Ram;
pub use registers::Registers;
pub use rombuffer::RomBuffer;
pub use screen::Framebuffer;
pub use session::Session;
pub use stack::Stack;
