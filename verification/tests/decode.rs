use chippie_emulator::{CpuError, Instruction};

#[test]
fn decodes_group_zero() {
    assert_eq!(Instruction::new(0x00E0), Ok(Instruction::ClearScreen));
    assert_eq!(Instruction::new(0x00EE), Ok(Instruction::ReturnFromSubroutine));
    assert_eq!(Instruction::new(0x0000), Ok(Instruction::Noop));
    assert_eq!(Instruction::new(0x0123), Ok(Instruction::Noop));
    assert_eq!(Instruction::new(0x0FFF), Ok(Instruction::Noop));
}

#[test]
fn group_zero_acts_only_on_the_two_exact_opcodes() {
    assert_eq!(Instruction::new(0x01E0), Ok(Instruction::Noop));
    assert_eq!(Instruction::new(0x0AEE), Ok(Instruction::Noop));
    assert_eq!(Instruction::new(0x0FE0), Ok(Instruction::Noop));
}

#[test]
fn decodes_jumps_and_calls() {
    assert_eq!(Instruction::new(0x1ABC), Ok(Instruction::Jump { nnn: 0xABC }));
    assert_eq!(Instruction::new(0x2FFF), Ok(Instruction::CallSubroutineAtNNN { nnn: 0xFFF }));
    assert_eq!(Instruction::new(0xA123), Ok(Instruction::SetIndexRegister { nnn: 0x123 }));
    assert_eq!(Instruction::new(0xB000), Ok(Instruction::JumpToAddressPlusV0 { nnn: 0 }));
}

#[test]
fn decodes_register_and_byte_forms() {
    assert_eq!(
        Instruction::new(0x3A42),
        Ok(Instruction::SkipNextInstructionIfXIsKK { x: 0xA, kk: 0x42 })
    );
    assert_eq!(
        Instruction::new(0x4F00),
        Ok(Instruction::SkipNextInstructionIfXIsNotKK { x: 0xF, kk: 0 })
    );
    assert_eq!(Instruction::new(0x6A12), Ok(Instruction::LoadRegisterX { x: 0xA, kk: 0x12 }));
    assert_eq!(Instruction::new(0x70FF), Ok(Instruction::AddToRegisterX { x: 0, kk: 0xFF }));
    assert_eq!(Instruction::new(0xC10F), Ok(Instruction::SetXToRandom { x: 1, kk: 0x0F }));
}

#[test]
fn decodes_two_register_forms() {
    assert_eq!(
        Instruction::new(0x5120),
        Ok(Instruction::SkipNextInstructionIfXIsY { x: 1, y: 2 })
    );
    assert_eq!(
        Instruction::new(0x512F),
        Ok(Instruction::SkipNextInstructionIfXIsY { x: 1, y: 2 })
    );
    assert_eq!(
        Instruction::new(0x9AB0),
        Ok(Instruction::SkipNextInstructionIfXIsNotY { x: 0xA, y: 0xB })
    );
    assert_eq!(Instruction::new(0xD125), Ok(Instruction::Display { x: 1, y: 2, n: 5 }));
}

#[test]
fn decodes_group_eight() {
    assert_eq!(Instruction::new(0x8120), Ok(Instruction::LoadRegisterXIntoY { x: 1, y: 2 }));
    assert_eq!(Instruction::new(0x8121), Ok(Instruction::LoadXOrYinX { x: 1, y: 2 }));
    assert_eq!(Instruction::new(0x8122), Ok(Instruction::LoadXAndYInX { x: 1, y: 2 }));
    assert_eq!(Instruction::new(0x8123), Ok(Instruction::LoadXXorYInX { x: 1, y: 2 }));
    assert_eq!(Instruction::new(0x8124), Ok(Instruction::AddYToX { x: 1, y: 2 }));
    assert_eq!(Instruction::new(0x8125), Ok(Instruction::SubYFromX { x: 1, y: 2 }));
    assert_eq!(Instruction::new(0x8126), Ok(Instruction::ShiftXRight1 { x: 1, y: 2 }));
    assert_eq!(Instruction::new(0x8127), Ok(Instruction::SubXFromY { x: 1, y: 2 }));
    assert_eq!(Instruction::new(0x812E), Ok(Instruction::ShiftXLeft1 { x: 1, y: 2 }));
}

#[test]
fn decodes_group_e() {
    assert_eq!(Instruction::new(0xE3A1), Ok(Instruction::SkipIfVxNotPressed { x: 3 }));
    assert_eq!(Instruction::new(0xE39E), Ok(Instruction::SkipIfVxPressed { x: 3 }));
}

#[test]
fn decodes_group_f() {
    assert_eq!(Instruction::new(0xF50A), Ok(Instruction::WaitForKeyPressed { x: 5 }));
    assert_eq!(Instruction::new(0xF507), Ok(Instruction::SetXToDelayTimer { x: 5 }));
    assert_eq!(Instruction::new(0xF515), Ok(Instruction::SetDelayTimerToX { x: 5 }));
    assert_eq!(Instruction::new(0xF518), Ok(Instruction::SetSoundTimerToX { x: 5 }));
    assert_eq!(Instruction::new(0xF51E), Ok(Instruction::AddXtoI { x: 5 }));
    assert_eq!(Instruction::new(0xF529), Ok(Instruction::SetIToSpriteX { x: 5 }));
    assert_eq!(Instruction::new(0xF533), Ok(Instruction::LoadBCDOfX { x: 5 }));
    assert_eq!(Instruction::new(0xF555), Ok(Instruction::Write0ThroughX { x: 5 }));
    assert_eq!(Instruction::new(0xF565), Ok(Instruction::Load0ThroughX { x: 5 }));
}

#[test]
fn unmapped_opcodes_of_group_eight_fail() {
    for n in [0x8u16, 0x9, 0xA, 0xB, 0xC, 0xD, 0xF] {
        let opcode = 0x8120 | n;
        assert_eq!(Instruction::new(opcode), Err(CpuError::DecodeError { opcode }));
    }
}

#[test]
fn unmapped_opcodes_of_group_e_fail() {
    assert_eq!(Instruction::new(0xE000), Err(CpuError::DecodeError { opcode: 0xE000 }));
    assert_eq!(Instruction::new(0xE19F), Err(CpuError::DecodeError { opcode: 0xE19F }));
    assert_eq!(Instruction::new(0xEFA0), Err(CpuError::DecodeError { opcode: 0xEFA0 }));
}

#[test]
fn unmapped_opcodes_of_group_f_fail() {
    assert_eq!(Instruction::new(0xF000), Err(CpuError::DecodeError { opcode: 0xF000 }));
    assert_eq!(Instruction::new(0xF1FF), Err(CpuError::DecodeError { opcode: 0xF1FF }));
    assert_eq!(Instruction::new(0xF056), Err(CpuError::DecodeError { opcode: 0xF056 }));
}

#[test]
fn exactly_the_unmapped_opcodes_fail() {
    let mut failures = 0u32;
    for opcode in 0..=0xFFFFu16 {
        let group = opcode >> 12;
        let low = opcode & 0xFF;
        let mapped = match group {
            0x8 => matches!(opcode & 0xF, 0..=7 | 0xE),
            0xE => low == 0xA1 || low == 0x9E,
            0xF => matches!(low, 0x0A | 0x07 | 0x15 | 0x18 | 0x1E | 0x29 | 0x33 | 0x55 | 0x65),
            _ => true,
        };
        let decoded = Instruction::new(opcode);
        assert_eq!(decoded.is_ok(), mapped, "opcode {:#06x}", opcode);
        if !mapped {
            assert_eq!(decoded, Err(CpuError::DecodeError { opcode }));
            failures += 1;
        }
    }
    assert_eq!(failures, (4096 - 9 * 256) + (4096 - 2 * 16) + (4096 - 9 * 16));
}

#[test]
fn nibbles_count_from_the_most_significant() {
    assert_eq!(Instruction::get_nibble(0xABCD, 0), 0xA);
    assert_eq!(Instruction::get_nibble(0xABCD, 1), 0xB);
    assert_eq!(Instruction::get_nibble(0xABCD, 2), 0xC);
    assert_eq!(Instruction::get_nibble(0xABCD, 3), 0xD);
    assert_eq!(Instruction::get_nibble(0x0000, 2), 0);
    assert_eq!(Instruction::get_nibble(0xFFFF, 0), 0xF);
}

#[test]
fn low_byte_and_address_fields() {
    assert_eq!(Instruction::last_byte(0xABCD), 0xCD);
    assert_eq!(Instruction::last_byte(0xFF00), 0x00);
    assert_eq!(Instruction::oxxx(0xABCD), 0xBCD);
    assert_eq!(Instruction::oxxx(0xF000), 0x000);
    assert_eq!(Instruction::oxxx(0x0FFF), 0xFFF);
}
