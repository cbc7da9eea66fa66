//! The 4096-byte memory of the machine.
//!
//! Layout: the font table occupies `0x000..0x050`, programs are loaded at
//! `0x200`, and `0xFFF` is the last address. Opcodes are stored big-endian.
use vstd::prelude::*;
use crate::constants::{FONT_SIZE, RAM_SIZE};
use crate::error::CpuError;

verus! {

/// The built-in font: sixteen glyphs of five bytes each, for the digits
/// `0` to `F`. Each byte is one row of a glyph, its high nibble the pixels.
pub const FONT_SET: [u8; 80] = [
    0xF0, 0x90, 0x90, 0x90, 0xF0,
    0x20, 0x60, 0x20, 0x20, 0x70,
    0xF0, 0x10, 0xF0, 0x80, 0xF0,
    0xF0, 0x10, 0xF0, 0x10, 0xF0,
    0x90, 0x90, 0xF0, 0x10, 0x10,
    0xF0, 0x80, 0xF0, 0x10, 0xF0,
    0xF0, 0x80, 0xF0, 0x90, 0xF0,
    0xF0, 0x10, 0x20, 0x40, 0x40,
    0xF0, 0x90, 0xF0, 0x90, 0xF0,
    0xF0, 0x90, 0xF0, 0x10, 0xF0,
    0xF0, 0x90, 0xF0, 0x90, 0x90,
    0xE0, 0x90, 0xE0, 0x90, 0xE0,
    0xF0, 0x80, 0x80, 0x80, 0xF0,
    0xE0, 0x90, 0x90, 0x90, 0xE0,
    0xF0, 0x80, 0xF0, 0x80, 0xF0,
    0xF0, 0x80, 0xF0, 0x80, 0x80,
];

/// The memory of a fresh machine: the font table followed by zeros.
pub open spec fn font_memory() -> Seq<u8> {
    Seq::new(4096, |i: int| if i < 80 { FONT_SET@[i] } else { 0u8 })
}

/// The big-endian 16-bit word stored at `address` and `address + 1`.
pub open spec fn opcode_at(memory: Seq<u8>, address: int) -> u16 {
    (memory[address] as int * 0x100 + memory[address + 1] as int) as u16
}

/// `memory` with `bytes` written from `offset` on.
pub open spec fn with_block(memory: Seq<u8>, offset: int, bytes: Seq<u8>) -> Seq<u8> {
    Seq::new(
        memory.len(),
        |i: int| if offset <= i < offset + bytes.len() { bytes[i - offset] } else { memory[i] },
    )
}

/// The memory of the machine: 4096 bytes.
#[derive(Clone, Copy, Debug)]
pub struct Ram {
    pub bytes: [u8; 4096],
}

impl View for Ram {
    type V = Seq<u8>;

    open spec fn view(&self) -> Seq<u8> {
        self.bytes@
    }
}

impl Ram {
    /// Returns the memory with the font table already loaded.
    pub fn with_fonts() -> (ram: Self)
        ensures
            ram@ == font_memory(),
    {
        let mut ram = Ram { bytes: [0u8; 4096] };
        let mut idx: usize = 0;
        while idx < FONT_SIZE
            invariant
                idx <= 80,
                forall|i: int| 0 <= i < idx ==> ram.bytes@[i] == FONT_SET@[i],
                forall|i: int| idx <= i < 4096 ==> ram.bytes@[i] == 0u8,
            decreases 80 - idx,
        {
            ram.bytes[idx] = FONT_SET[idx];
            idx += 1;
        }
        ram
    }

    /// Returns the byte at `index`.
    pub fn get_byte(&self, index: u16) -> (value: u8)
        requires
            index < 4096,
        ensures
            value == self@[index as int],
    {
        self.bytes[index as usize]
    }

    /// Returns the big-endian word at `index` and `index + 1`.
    pub fn get_opcode(&self, index: u16) -> (opcode: u16)
        requires
            index + 1 < 4096,
        ensures
            opcode == opcode_at(self@, index as int),
    {
        let high: u8 = self.bytes[index as usize];
        let low: u8 = self.bytes[index as usize + 1];
        assert((((high as u16) << 8u16) | (low as u16)) == (high as u16) * 0x100 + (low as u16))
            by (bit_vector);
        ((high as u16) << 8) | (low as u16)
    }

    /// Stores `value` at `index`.
    pub fn set(&mut self, index: u16, value: u8)
        requires
            index < 4096,
        ensures
            final(self)@ == old(self)@.update(index as int, value),
    {
        self.bytes[index as usize] = value;
    }

    /// Copies `bytes` into memory from `offset` on.
    ///
    /// Fails with an address fault, leaving memory as it was, exactly when
    /// the block would reach beyond the last address.
    pub fn load(&mut self, offset: u16, bytes: &[u8]) -> (result: Result<(), CpuError>)
        ensures
            offset + bytes@.len() <= 4096 ==> result is Ok && final(self)@ == with_block(
                old(self)@,
                offset as int,
                bytes@,
            ),
            offset + bytes@.len() > 4096 ==> result == Err::<(), CpuError>(CpuError::AddressFault)
                && final(self)@ == old(self)@,
    {
        let start: usize = offset as usize;
        if start > RAM_SIZE || bytes.len() > RAM_SIZE - start {
            return Err(CpuError::AddressFault);
        }
        let mut idx: usize = 0;
        while idx < bytes.len()
            invariant
                idx <= bytes@.len(),
                start + bytes@.len() <= 4096,
                forall|i: int|
                    0 <= i < 4096 ==> self.bytes@[i] == if start <= i < start + idx {
                        bytes@[i - start]
                    } else {
                        old(self).bytes@[i]
                    },
            decreases bytes@.len() - idx,
        {
            self.bytes[start + idx] = bytes[idx];
            idx += 1;
        }
        Ok(())
    }
}

} // verus!
