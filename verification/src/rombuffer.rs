//! The bytes of a program, as read from a ROM image.
use vstd::prelude::*;

verus! {

/// Holds the data of a CHIP-8 program as a vector of bytes.
#[derive(Debug)]
pub struct RomBuffer {
    buffer: Vec<u8>,
}

impl View for RomBuffer {
    type V = Seq<u8>;

    closed spec fn view(&self) -> Seq<u8> {
        self.buffer@
    }
}

impl RomBuffer {
    /// Returns the bytes of the program.
    pub fn contents(&self) -> (bytes: &[u8])
        ensures
            bytes@ == self@,
    {
        self.buffer.as_slice()
    }

    /// Wraps the bytes of a program.
    pub fn from_bytes(bytes: Vec<u8>) -> (rom: Self)
        ensures
            rom@ == bytes@,
    {
        RomBuffer { buffer: bytes }
    }
}

} // verus!
