//! The failures that one cycle of the machine can report.
use vstd::prelude::*;

verus! {

/// A fatal condition met while fetching, decoding or executing an instruction.
#[derive(Clone, Copy, Debug, PartialEq, Eq, Structural)]
pub enum CpuError {
    /// The opcode belongs to group `8`, `E` or `F` and names no instruction
    /// of that group.
    DecodeError { opcode: u16 },
    /// A call with sixteen return addresses already stacked, or a return
    /// with none.
    StackFault,
    /// A memory access at or beyond the end of the 4096-byte address space.
    AddressFault,
}

} // verus!
