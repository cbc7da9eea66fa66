//! The instruction set and the decoder from 16-bit opcodes.
//!
//! An opcode is read as four nibbles. The first selects a group; `x` is the
//! second nibble, `y` the third, `n` the fourth, `kk` the low byte and `nnn`
//! the low twelve bits.
use vstd::prelude::*;
use vstd::arithmetic::div_mod::lemma_fundamental_div_mod_converse;
use crate::error::CpuError;

verus! {

/// Every instruction of the machine.
///
/// `x` and `y` name registers and are always below 16 in a decoded
/// instruction; `nnn` is a 12-bit address, `kk` a byte and `n` a nibble.
#[derive(Clone, Copy, Debug, PartialEq, Eq, Structural)]
pub enum Instruction {
    /// `0nnn` other than `00E0` and `00EE`: does nothing.
    Noop,
    /// `00E0`: turns every pixel off.
    ClearScreen,
    /// `00EE`: pops the return address into the program counter.
    ReturnFromSubroutine,
    /// `1nnn`: sets the program counter to `nnn`.
    Jump { nnn: u16 },
    /// `2nnn`: pushes the program counter and continues at `nnn`.
    CallSubroutineAtNNN { nnn: u16 },
    /// `6xkk`: sets register `x` to `kk`.
    LoadRegisterX { x: u8, kk: u8 },
    /// `7xkk`: adds `kk` to register `x`, wrapping, without touching the flag.
    AddToRegisterX { x: u8, kk: u8 },
    /// `8xy1`: sets register `x` to `Vx | Vy`.
    LoadXOrYinX { x: u8, y: u8 },
    /// `8xy2`: sets register `x` to `Vx & Vy`.
    LoadXAndYInX { x: u8, y: u8 },
    /// `8xy3`: sets register `x` to `Vx ^ Vy`.
    LoadXXorYInX { x: u8, y: u8 },
    /// `8xy4`: sets register `x` to `Vx + Vy`, wrapping; the flag is the carry.
    AddYToX { x: u8, y: u8 },
    /// `8xy5`: sets register `x` to `Vx - Vy`, wrapping; the flag is 1 unless
    /// the subtraction borrowed.
    SubYFromX { x: u8, y: u8 },
    /// `8xy6`: shifts one bit to the right; the flag is the bit shifted out.
    ShiftXRight1 { x: u8, y: u8 },
    /// `8xyE`: shifts one bit to the left; the flag is the bit shifted out.
    ShiftXLeft1 { x: u8, y: u8 },
    /// `8xy7`: sets register `x` to `Vy - Vx`, wrapping; the flag is 1 unless
    /// the subtraction borrowed.
    SubXFromY { x: u8, y: u8 },
    /// `8xy0`: copies register `y` into register `x`.
    LoadRegisterXIntoY { x: u8, y: u8 },
    /// `Annn`: sets the index register to `nnn`.
    SetIndexRegister { nnn: u16 },
    /// `Bnnn`: sets the program counter to `nnn` plus register 0.
    JumpToAddressPlusV0 { nnn: u16 },
    /// `3xkk`: skips the next instruction if register `x` holds `kk`.
    SkipNextInstructionIfXIsKK { x: u8, kk: u8 },
    /// `4xkk`: skips the next instruction unless register `x` holds `kk`.
    SkipNextInstructionIfXIsNotKK { x: u8, kk: u8 },
    /// `5xy_`: skips the next instruction if registers `x` and `y` are equal.
    SkipNextInstructionIfXIsY { x: u8, y: u8 },
    /// `9xy_`: skips the next instruction if registers `x` and `y` differ.
    SkipNextInstructionIfXIsNotY { x: u8, y: u8 },
    /// `Cxkk`: sets register `x` to a pseudo-random byte masked with `kk`.
    SetXToRandom { x: u8, kk: u8 },
    /// `Dxyn`: draws the `n`-row sprite at the index register at `(Vx, Vy)`.
    Display { x: u8, y: u8, n: u8 },
    /// `ExA1`: skips the next instruction unless key `Vx` is down.
    SkipIfVxNotPressed { x: u8 },
    /// `Ex9E`: skips the next instruction if key `Vx` is down.
    SkipIfVxPressed { x: u8 },
    /// `Fx0A`: waits for a key and stores its index in register `x`.
    WaitForKeyPressed { x: u8 },
    /// `Fx07`: copies the delay timer into register `x`.
    SetXToDelayTimer { x: u8 },
    /// `Fx15`: copies register `x` into the delay timer.
    SetDelayTimerToX { x: u8 },
    /// `Fx18`: copies register `x` into the sound timer.
    SetSoundTimerToX { x: u8 },
    /// `Fx1E`: adds register `x` to the index register.
    AddXtoI { x: u8 },
    /// `Fx29`: points the index register at the font glyph of digit `Vx`.
    SetIToSpriteX { x: u8 },
    /// `Fx33`: stores the three decimal digits of `Vx` at the index register.
    LoadBCDOfX { x: u8 },
    /// `Fx55`: stores registers 0 through `x` at the index register.
    Write0ThroughX { x: u8 },
    /// `Fx65`: loads registers 0 through `x` from the index register.
    Load0ThroughX { x: u8 },
}

/// The `nth` nibble of `opcode`, counted from the most significant one.
pub open spec fn nibble(opcode: u16, nth: int) -> u8 {
    if nth == 0 {
        (opcode as int / 0x1000) as u8
    } else if nth == 1 {
        (opcode as int / 0x100 % 0x10) as u8
    } else if nth == 2 {
        (opcode as int / 0x10 % 0x10) as u8
    } else {
        (opcode as int % 0x10) as u8
    }
}

/// The low byte `kk` of `opcode`.
pub open spec fn low_byte(opcode: u16) -> u8 {
    (opcode as int % 0x100) as u8
}

/// The low twelve bits `nnn` of `opcode`.
pub open spec fn address(opcode: u16) -> u16 {
    (opcode as int % 0x1000) as u16
}

/// The instruction of group `8` selected by the last nibble of `opcode`.
pub open spec fn decode_arithmetic(opcode: u16) -> Result<Instruction, CpuError> {
    let x = nibble(opcode, 1);
    let y = nibble(opcode, 2);
    match nibble(opcode, 3) {
        0x0 => Ok(Instruction::LoadRegisterXIntoY { x, y }),
        0x1 => Ok(Instruction::LoadXOrYinX { x, y }),
        0x2 => Ok(Instruction::LoadXAndYInX { x, y }),
        0x3 => Ok(Instruction::LoadXXorYInX { x, y }),
        0x4 => Ok(Instruction::AddYToX { x, y }),
        0x5 => Ok(Instruction::SubYFromX { x, y }),
        0x6 => Ok(Instruction::ShiftXRight1 { x, y }),
        0x7 => Ok(Instruction::SubXFromY { x, y }),
        0xE => Ok(Instruction::ShiftXLeft1 { x, y }),
        _ => Err(CpuError::DecodeError { opcode }),
    }
}

/// The instruction of group `E` selected by the low byte of `opcode`.
pub open spec fn decode_keypad(opcode: u16) -> Result<Instruction, CpuError> {
    let x = nibble(opcode, 1);
    match low_byte(opcode) {
        0xA1 => Ok(Instruction::SkipIfVxNotPressed { x }),
        0x9E => Ok(Instruction::SkipIfVxPressed { x }),
        _ => Err(CpuError::DecodeError { opcode }),
    }
}

/// The instruction of group `F` selected by the low byte of `opcode`.
pub open spec fn decode_system(opcode: u16) -> Result<Instruction, CpuError> {
    let x = nibble(opcode, 1);
    match low_byte(opcode) {
        0x0A => Ok(Instruction::WaitForKeyPressed { x }),
        0x07 => Ok(Instruction::SetXToDelayTimer { x }),
        0x15 => Ok(Instruction::SetDelayTimerToX { x }),
        0x18 => Ok(Instruction::SetSoundTimerToX { x }),
        0x1E => Ok(Instruction::AddXtoI { x }),
        0x29 => Ok(Instruction::SetIToSpriteX { x }),
        0x33 => Ok(Instruction::LoadBCDOfX { x }),
        0x55 => Ok(Instruction::Write0ThroughX { x }),
        0x65 => Ok(Instruction::Load0ThroughX { x }),
        _ => Err(CpuError::DecodeError { opcode }),
    }
}

/// The instruction that `opcode` encodes.
///
/// Decoding fails exactly on the opcodes of groups `8`, `E` and `F` that
/// name no instruction. In group `0` only `00E0` and `00EE` act; every
/// other opcode of the group is a no-op.
pub open spec fn decode(opcode: u16) -> Result<Instruction, CpuError> {
    let x = nibble(opcode, 1);
    let y = nibble(opcode, 2);
    let n = nibble(opcode, 3);
    let kk = low_byte(opcode);
    let nnn = address(opcode);
    match nibble(opcode, 0) {
        0x0 => if opcode == 0x00E0 {
            Ok(Instruction::ClearScreen)
        } else if opcode == 0x00EE {
            Ok(Instruction::ReturnFromSubroutine)
        } else {
            Ok(Instruction::Noop)
        },
        0x1 => Ok(Instruction::Jump { nnn }),
        0x2 => Ok(Instruction::CallSubroutineAtNNN { nnn }),
        0x3 => Ok(Instruction::SkipNextInstructionIfXIsKK { x, kk }),
        0x4 => Ok(Instruction::SkipNextInstructionIfXIsNotKK { x, kk }),
        0x5 => Ok(Instruction::SkipNextInstructionIfXIsY { x, y }),
        0x6 => Ok(Instruction::LoadRegisterX { x, kk }),
        0x7 => Ok(Instruction::AddToRegisterX { x, kk }),
        0x8 => decode_arithmetic(opcode),
        0x9 => Ok(Instruction::SkipNextInstructionIfXIsNotY { x, y }),
        0xA => Ok(Instruction::SetIndexRegister { nnn }),
        0xB => Ok(Instruction::JumpToAddressPlusV0 { nnn }),
        0xC => Ok(Instruction::SetXToRandom { x, kk }),
        0xD => Ok(Instruction::Display { x, y, n }),
        0xE => decode_keypad(opcode),
        _ => decode_system(opcode),
    }
}

/// The opcode `abcd` made of four nibbles.
pub open spec fn opcode_of(a: int, b: int, c: int, d: int) -> u16 {
    (0x1000 * a + 0x100 * b + 0x10 * c + d) as u16
}

/// The opcode made of a group nibble and a 12-bit address.
pub open spec fn opcode_with_address(group: int, nnn: u16) -> u16 {
    (0x1000 * group + nnn) as u16
}

/// The opcode made of a group nibble, a register and a byte.
pub open spec fn opcode_with_byte(group: int, x: u8, kk: u8) -> u16 {
    (0x1000 * group + 0x100 * x + kk) as u16
}

/// An opcode that encodes `instruction`: the one whose unused nibbles are
/// zero.
pub open spec fn encode(instruction: Instruction) -> u16 {
    match instruction {
        Instruction::Noop => 0x0000,
        Instruction::ClearScreen => 0x00E0,
        Instruction::ReturnFromSubroutine => 0x00EE,
        Instruction::Jump { nnn } => opcode_with_address(0x1, nnn),
        Instruction::CallSubroutineAtNNN { nnn } => opcode_with_address(0x2, nnn),
        Instruction::SkipNextInstructionIfXIsKK { x, kk } => opcode_with_byte(0x3, x, kk),
        Instruction::SkipNextInstructionIfXIsNotKK { x, kk } => opcode_with_byte(0x4, x, kk),
        Instruction::SkipNextInstructionIfXIsY { x, y } => opcode_of(0x5, x as int, y as int, 0),
        Instruction::LoadRegisterX { x, kk } => opcode_with_byte(0x6, x, kk),
        Instruction::AddToRegisterX { x, kk } => opcode_with_byte(0x7, x, kk),
        Instruction::LoadRegisterXIntoY { x, y } => opcode_of(0x8, x as int, y as int, 0x0),
        Instruction::LoadXOrYinX { x, y } => opcode_of(0x8, x as int, y as int, 0x1),
        Instruction::LoadXAndYInX { x, y } => opcode_of(0x8, x as int, y as int, 0x2),
        Instruction::LoadXXorYInX { x, y } => opcode_of(0x8, x as int, y as int, 0x3),
        Instruction::AddYToX { x, y } => opcode_of(0x8, x as int, y as int, 0x4),
        Instruction::SubYFromX { x, y } => opcode_of(0x8, x as int, y as int, 0x5),
        Instruction::ShiftXRight1 { x, y } => opcode_of(0x8, x as int, y as int, 0x6),
        Instruction::SubXFromY { x, y } => opcode_of(0x8, x as int, y as int, 0x7),
        Instruction::ShiftXLeft1 { x, y } => opcode_of(0x8, x as int, y as int, 0xE),
        Instruction::SkipNextInstructionIfXIsNotY { x, y } => opcode_of(
            0x9,
            x as int,
            y as int,
            0,
        ),
        Instruction::SetIndexRegister { nnn } => opcode_with_address(0xA, nnn),
        Instruction::JumpToAddressPlusV0 { nnn } => opcode_with_address(0xB, nnn),
        Instruction::SetXToRandom { x, kk } => opcode_with_byte(0xC, x, kk),
        Instruction::Display { x, y, n } => opcode_of(0xD, x as int, y as int, n as int),
        Instruction::SkipIfVxNotPressed { x } => opcode_with_byte(0xE, x, 0xA1),
        Instruction::SkipIfVxPressed { x } => opcode_with_byte(0xE, x, 0x9E),
        Instruction::WaitForKeyPressed { x } => opcode_with_byte(0xF, x, 0x0A),
        Instruction::SetXToDelayTimer { x } => opcode_with_byte(0xF, x, 0x07),
        Instruction::SetDelayTimerToX { x } => opcode_with_byte(0xF, x, 0x15),
        Instruction::SetSoundTimerToX { x } => opcode_with_byte(0xF, x, 0x18),
        Instruction::AddXtoI { x } => opcode_with_byte(0xF, x, 0x1E),
        Instruction::SetIToSpriteX { x } => opcode_with_byte(0xF, x, 0x29),
        Instruction::LoadBCDOfX { x } => opcode_with_byte(0xF, x, 0x33),
        Instruction::Write0ThroughX { x } => opcode_with_byte(0xF, x, 0x55),
        Instruction::Load0ThroughX { x } => opcode_with_byte(0xF, x, 0x65),
    }
}

/// The fields of an opcode made of four nibbles.
proof fn lemma_fields_of_nibbles(a: int, b: int, c: int, d: int)
    requires
        0 <= a < 16,
        0 <= b < 16,
        0 <= c < 16,
        0 <= d < 16,
    ensures
        nibble(opcode_of(a, b, c, d), 0) == a,
        nibble(opcode_of(a, b, c, d), 1) == b,
        nibble(opcode_of(a, b, c, d), 2) == c,
        nibble(opcode_of(a, b, c, d), 3) == d,
{
    let opcode = 0x1000 * a + 0x100 * b + 0x10 * c + d;
    lemma_fundamental_div_mod_converse(opcode, 0x1000, a, 0x100 * b + 0x10 * c + d);
    lemma_fundamental_div_mod_converse(opcode, 0x100, 0x10 * a + b, 0x10 * c + d);
    lemma_fundamental_div_mod_converse(0x10 * a + b, 0x10, a, b);
    lemma_fundamental_div_mod_converse(opcode, 0x10, 0x100 * a + 0x10 * b + c, d);
    lemma_fundamental_div_mod_converse(0x100 * a + 0x10 * b + c, 0x10, 0x10 * a + b, c);
}

/// The fields of an opcode made of a group and an address.
proof fn lemma_fields_of_address(group: int, nnn: u16)
    requires
        0 <= group < 16,
        nnn < 0x1000,
    ensures
        nibble(opcode_with_address(group, nnn), 0) == group,
        address(opcode_with_address(group, nnn)) == nnn,
{
}

/// The fields of an opcode made of a group, a register and a byte.
proof fn lemma_fields_of_byte(group: int, x: u8, kk: u8)
    requires
        0 <= group < 16,
        x < 16,
    ensures
        nibble(opcode_with_byte(group, x, kk), 0) == group,
        nibble(opcode_with_byte(group, x, kk), 1) == x,
        low_byte(opcode_with_byte(group, x, kk)) == kk,
{
}

/// Decoding undoes encoding: every well-formed instruction is what the
/// decoder makes of its opcode, so the decoder reaches every instruction
/// and no two instructions share an opcode.
pub proof fn lemma_decode_encode(instruction: Instruction)
    requires
        instruction.well_formed(),
    ensures
        decode(encode(instruction)) == Ok::<Instruction, CpuError>(instruction),
{
    match instruction {
        Instruction::Noop | Instruction::ClearScreen | Instruction::ReturnFromSubroutine => {},
        Instruction::Jump { nnn } => lemma_fields_of_address(0x1, nnn),
        Instruction::CallSubroutineAtNNN { nnn } => lemma_fields_of_address(0x2, nnn),
        Instruction::SetIndexRegister { nnn } => lemma_fields_of_address(0xA, nnn),
        Instruction::JumpToAddressPlusV0 { nnn } => lemma_fields_of_address(0xB, nnn),
        Instruction::SkipNextInstructionIfXIsKK { x, kk } => lemma_fields_of_byte(0x3, x, kk),
        Instruction::SkipNextInstructionIfXIsNotKK { x, kk } => lemma_fields_of_byte(0x4, x, kk),
        Instruction::LoadRegisterX { x, kk } => lemma_fields_of_byte(0x6, x, kk),
        Instruction::AddToRegisterX { x, kk } => lemma_fields_of_byte(0x7, x, kk),
        Instruction::SetXToRandom { x, kk } => lemma_fields_of_byte(0xC, x, kk),
        Instruction::SkipNextInstructionIfXIsY { x, y } => lemma_fields_of_nibbles(
            0x5,
            x as int,
            y as int,
            0,
        ),
        Instruction::SkipNextInstructionIfXIsNotY { x, y } => lemma_fields_of_nibbles(
            0x9,
            x as int,
            y as int,
            0,
        ),
        Instruction::LoadRegisterXIntoY { x, y } => lemma_fields_of_nibbles(
            0x8,
            x as int,
            y as int,
            0x0,
        ),
        Instruction::LoadXOrYinX { x, y } => lemma_fields_of_nibbles(0x8, x as int, y as int, 0x1),
        Instruction::LoadXAndYInX { x, y } => lemma_fields_of_nibbles(0x8, x as int, y as int, 0x2),
        Instruction::LoadXXorYInX { x, y } => lemma_fields_of_nibbles(0x8, x as int, y as int, 0x3),
        Instruction::AddYToX { x, y } => lemma_fields_of_nibbles(0x8, x as int, y as int, 0x4),
        Instruction::SubYFromX { x, y } => lemma_fields_of_nibbles(0x8, x as int, y as int, 0x5),
        Instruction::ShiftXRight1 { x, y } => lemma_fields_of_nibbles(0x8, x as int, y as int, 0x6),
        Instruction::SubXFromY { x, y } => lemma_fields_of_nibbles(0x8, x as int, y as int, 0x7),
        Instruction::ShiftXLeft1 { x, y } => lemma_fields_of_nibbles(0x8, x as int, y as int, 0xE),
        Instruction::Display { x, y, n } => lemma_fields_of_nibbles(
            0xD,
            x as int,
            y as int,
            n as int,
        ),
        Instruction::SkipIfVxNotPressed { x } => lemma_fields_of_byte(0xE, x, 0xA1),
        Instruction::SkipIfVxPressed { x } => lemma_fields_of_byte(0xE, x, 0x9E),
        Instruction::WaitForKeyPressed { x } => lemma_fields_of_byte(0xF, x, 0x0A),
        Instruction::SetXToDelayTimer { x } => lemma_fields_of_byte(0xF, x, 0x07),
        Instruction::SetDelayTimerToX { x } => lemma_fields_of_byte(0xF, x, 0x15),
        Instruction::SetSoundTimerToX { x } => lemma_fields_of_byte(0xF, x, 0x18),
        Instruction::AddXtoI { x } => lemma_fields_of_byte(0xF, x, 0x1E),
        Instruction::SetIToSpriteX { x } => lemma_fields_of_byte(0xF, x, 0x29),
        Instruction::LoadBCDOfX { x } => lemma_fields_of_byte(0xF, x, 0x33),
        Instruction::Write0ThroughX { x } => lemma_fields_of_byte(0xF, x, 0x55),
        Instruction::Load0ThroughX { x } => lemma_fields_of_byte(0xF, x, 0x65),
    }
}

/// Every instruction that the decoder yields is well formed: its register
/// indices and its nibble are below 16 and its address below `0x1000`.
pub proof fn lemma_decode_well_formed(opcode: u16)
    ensures
        decode(opcode) matches Ok(instruction) ==> instruction.well_formed(),
{
}

impl Instruction {
    /// Whether every register that the instruction names exists, its
    /// nibble is a nibble and its address has twelve bits.
    pub open spec fn well_formed(self) -> bool {
        match self {
            Instruction::Noop
            | Instruction::ClearScreen
            | Instruction::ReturnFromSubroutine => true,
            Instruction::Jump { nnn }
            | Instruction::CallSubroutineAtNNN { nnn }
            | Instruction::SetIndexRegister { nnn }
            | Instruction::JumpToAddressPlusV0 { nnn } => nnn < 0x1000,
            Instruction::LoadRegisterX { x, kk }
            | Instruction::AddToRegisterX { x, kk }
            | Instruction::SkipNextInstructionIfXIsKK { x, kk }
            | Instruction::SkipNextInstructionIfXIsNotKK { x, kk }
            | Instruction::SetXToRandom { x, kk } => x < 16,
            Instruction::LoadXOrYinX { x, y }
            | Instruction::LoadXAndYInX { x, y }
            | Instruction::LoadXXorYInX { x, y }
            | Instruction::AddYToX { x, y }
            | Instruction::SubYFromX { x, y }
            | Instruction::ShiftXRight1 { x, y }
            | Instruction::ShiftXLeft1 { x, y }
            | Instruction::SubXFromY { x, y }
            | Instruction::LoadRegisterXIntoY { x, y }
            | Instruction::SkipNextInstructionIfXIsY { x, y }
            | Instruction::SkipNextInstructionIfXIsNotY { x, y } => x < 16 && y < 16,
            Instruction::Display { x, y, n } => x < 16 && y < 16 && n < 16,
            Instruction::SkipIfVxNotPressed { x }
            | Instruction::SkipIfVxPressed { x }
            | Instruction::WaitForKeyPressed { x }
            | Instruction::SetXToDelayTimer { x }
            | Instruction::SetDelayTimerToX { x }
            | Instruction::SetSoundTimerToX { x }
            | Instruction::AddXtoI { x }
            | Instruction::SetIToSpriteX { x }
            | Instruction::LoadBCDOfX { x }
            | Instruction::Write0ThroughX { x }
            | Instruction::Load0ThroughX { x } => x < 16,
        }
    }

    /// Takes an opcode and decodes the instruction it represents.
    pub fn new(opcode: u16) -> (result: Result<Instruction, CpuError>)
        ensures
            result == decode(opcode),
            result matches Ok(instruction) ==> instruction.well_formed(),
    {
        let x = Self::get_nibble(opcode, 1);
        let y = Self::get_nibble(opcode, 2);
        let n = Self::get_nibble(opcode, 3);
        let kk = Self::last_byte(opcode);
        let nnn = Self::oxxx(opcode);
        match Self::get_nibble(opcode, 0) {
            0x0 => if opcode == 0x00E0 {
                Ok(Instruction::ClearScreen)
            } else if opcode == 0x00EE {
                Ok(Instruction::ReturnFromSubroutine)
            } else {
                Ok(Instruction::Noop)
            },
            0x1 => Ok(Instruction::Jump { nnn }),
            0x2 => Ok(Instruction::CallSubroutineAtNNN { nnn }),
            0x3 => Ok(Instruction::SkipNextInstructionIfXIsKK { x, kk }),
            0x4 => Ok(Instruction::SkipNextInstructionIfXIsNotKK { x, kk }),
            0x5 => Ok(Instruction::SkipNextInstructionIfXIsY { x, y }),
            0x6 => Ok(Instruction::LoadRegisterX { x, kk }),
            0x7 => Ok(Instruction::AddToRegisterX { x, kk }),
            0x8 => match n {
                0x0 => Ok(Instruction::LoadRegisterXIntoY { x, y }),
                0x1 => Ok(Instruction::LoadXOrYinX { x, y }),
                0x2 => Ok(Instruction::LoadXAndYInX { x, y }),
                0x3 => Ok(Instruction::LoadXXorYInX { x, y }),
                0x4 => Ok(Instruction::AddYToX { x, y }),
                0x5 => Ok(Instruction::SubYFromX { x, y }),
                0x6 => Ok(Instruction::ShiftXRight1 { x, y }),
                0x7 => Ok(Instruction::SubXFromY { x, y }),
                0xE => Ok(Instruction::ShiftXLeft1 { x, y }),
                _ => Err(CpuError::DecodeError { opcode }),
            },
            0x9 => Ok(Instruction::SkipNextInstructionIfXIsNotY { x, y }),
            0xA => Ok(Instruction::SetIndexRegister { nnn }),
            0xB => Ok(Instruction::JumpToAddressPlusV0 { nnn }),
            0xC => Ok(Instruction::SetXToRandom { x, kk }),
            0xD => Ok(Instruction::Display { x, y, n }),
            0xE => match kk {
                0xA1 => Ok(Instruction::SkipIfVxNotPressed { x }),
                0x9E => Ok(Instruction::SkipIfVxPressed { x }),
                _ => Err(CpuError::DecodeError { opcode }),
            },
            _ => match kk {
                0x0A => Ok(Instruction::WaitForKeyPressed { x }),
                0x07 => Ok(Instruction::SetXToDelayTimer { x }),
                0x15 => Ok(Instruction::SetDelayTimerToX { x }),
                0x18 => Ok(Instruction::SetSoundTimerToX { x }),
                0x1E => Ok(Instruction::AddXtoI { x }),
                0x29 => Ok(Instruction::SetIToSpriteX { x }),
                0x33 => Ok(Instruction::LoadBCDOfX { x }),
                0x55 => Ok(Instruction::Write0ThroughX { x }),
                0x65 => Ok(Instruction::Load0ThroughX { x }),
                _ => Err(CpuError::DecodeError { opcode }),
            },
        }
    }

    /// Returns the `nth` nibble of an opcode, counted from the most
    /// significant one.
    pub fn get_nibble(opcode: u16, nth: u8) -> (result: u8)
        requires
            nth < 4,
        ensures
            result == nibble(opcode, nth as int),
            result < 16,
    {
        let shift: u16 = 12 - 4 * (nth as u16);
        let result = ((opcode >> shift) & 0xf) as u8;
        proof {
            assert(((opcode >> 12u16) & 0xf) == opcode / 0x1000) by (bit_vector);
            assert(((opcode >> 8u16) & 0xf) == opcode / 0x100 % 0x10) by (bit_vector);
            assert(((opcode >> 4u16) & 0xf) == opcode / 0x10 % 0x10) by (bit_vector);
            assert(((opcode >> 0u16) & 0xf) == opcode % 0x10) by (bit_vector);
        }
        result
    }

    /// Returns the low byte of an opcode.
    pub fn last_byte(opcode: u16) -> (result: u8)
        ensures
            result == low_byte(opcode),
    {
        proof {
            assert((opcode & 0xff) == opcode % 0x100) by (bit_vector);
        }
        (opcode & 0xff) as u8
    }

    /// Returns the low twelve bits of an opcode.
    pub fn oxxx(opcode: u16) -> (result: u16)
        ensures
            result == address(opcode),
            result < 0x1000,
    {
        proof {
            assert((opcode & 0xfff) == opcode % 0x1000) by (bit_vector);
        }
        opcode & 0xfff
    }
}

} // verus!
