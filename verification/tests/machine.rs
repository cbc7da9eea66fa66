use chippie_emulator::constants::{CYCLES_PER_FRAME, DEFAULT_SEED};
use chippie_emulator::{Cpu, Instruction, Prng, Quirks, RomBuffer};

fn machine(bytes: Vec<u8>) -> Cpu {
    Cpu::new(&RomBuffer::from_bytes(bytes)).unwrap()
}

#[test]
fn a_fresh_machine_is_zeroed_behind_the_font_and_the_rom() {
    let cpu = machine(vec![0xAA, 0xBB, 0xCC]);
    assert_eq!(cpu.program_counter, 0x200);
    assert_eq!(cpu.stackpointer, 0);
    assert!(!cpu.vblank);
    assert_eq!(cpu.quirks, Quirks::default());
    assert_eq!(cpu.rng, Prng::new(DEFAULT_SEED));
    assert!(cpu.keyboard.iter().all(|key| !key));
    assert!(cpu.framebuffer.iter().all(|row| row.iter().all(|pixel| !pixel)));
    assert_eq!(cpu.memory.get_byte(0), 0xF0);
    assert_eq!(cpu.memory.get_byte(79), 0x80);
    assert_eq!(cpu.memory.get_byte(80), 0);
    assert_eq!(cpu.memory.get_byte(0x1FF), 0);
    assert_eq!(cpu.memory.get_byte(0x200), 0xAA);
    assert_eq!(cpu.memory.get_byte(0x201), 0xBB);
    assert_eq!(cpu.memory.get_byte(0x202), 0xCC);
    assert_eq!(cpu.memory.get_byte(0x203), 0);
    for register in 0..16 {
        assert_eq!(cpu.registers.get_register(register), 0);
        assert_eq!(cpu.stack.get(register), 0);
    }
    assert_eq!(cpu.registers.get_index_register(), 0);
    assert_eq!(cpu.get_sound_timer(), 0);
    assert_eq!(cpu.get_pressed_key(), None);
}

#[test]
fn load_immediate_sets_the_register_for_every_operand() {
    for x in 0..16u8 {
        for kk in [0u8, 1, 0x7F, 0x80, 0xFF] {
            let mut cpu = machine(vec![0x60 | x, kk]);
            cpu.cycle().unwrap();
            assert_eq!(cpu.registers.get_register(x), kk);
            assert_eq!(cpu.program_counter, 0x202);
            for other in (0..16u8).filter(|other| *other != x) {
                assert_eq!(cpu.registers.get_register(other), 0);
            }
        }
    }
}

#[test]
fn add_with_carry_for_every_pair() {
    for a in 0..=255u8 {
        for b in 0..=255u8 {
            let mut cpu = machine(vec![]);
            cpu.registers.set_register(1, a);
            cpu.registers.set_register(2, b);
            cpu.execute(&Instruction::AddYToX { x: 1, y: 2 }).unwrap();
            let total = a as u16 + b as u16;
            assert_eq!(cpu.registers.get_register(1) as u16, total % 256);
            assert_eq!(cpu.registers.get_register(0xF), if total > 255 { 1 } else { 0 });
            assert_eq!(cpu.registers.get_register(2), b);
        }
    }
}

#[test]
fn subtract_for_every_pair() {
    for a in 0..=255u8 {
        for b in 0..=255u8 {
            let mut cpu = machine(vec![]);
            cpu.registers.set_register(1, a);
            cpu.registers.set_register(2, b);
            cpu.execute(&Instruction::SubYFromX { x: 1, y: 2 }).unwrap();
            assert_eq!(cpu.registers.get_register(1), a.wrapping_sub(b));
            assert_eq!(cpu.registers.get_register(0xF), if a >= b { 1 } else { 0 });
        }
    }
}

#[test]
fn reversed_subtract_exact_values() {
    let mut cpu = machine(vec![]);
    cpu.registers.set_register(1, 3);
    cpu.registers.set_register(2, 3);
    cpu.execute(&Instruction::SubXFromY { x: 1, y: 2 }).unwrap();
    assert_eq!(cpu.registers.get_register(1), 0);
    assert_eq!(cpu.registers.get_register(0xF), 1);
    cpu.registers.set_register(1, 1);
    cpu.registers.set_register(2, 0);
    cpu.execute(&Instruction::SubXFromY { x: 1, y: 2 }).unwrap();
    assert_eq!(cpu.registers.get_register(1), 255);
    assert_eq!(cpu.registers.get_register(0xF), 0);
}

#[test]
fn the_flag_is_written_after_the_result() {
    // with the flag register as the destination the flag wins
    let mut cpu = machine(vec![]);
    cpu.registers.set_register(0xF, 200);
    cpu.registers.set_register(1, 100);
    cpu.execute(&Instruction::AddYToX { x: 0xF, y: 1 }).unwrap();
    assert_eq!(cpu.registers.get_register(0xF), 1);

    cpu.registers.set_register(0xF, 5);
    cpu.registers.set_register(1, 3);
    cpu.execute(&Instruction::SubYFromX { x: 0xF, y: 1 }).unwrap();
    assert_eq!(cpu.registers.get_register(0xF), 1);

    cpu.registers.set_register(0xF, 0b0000_0110);
    cpu.execute(&Instruction::ShiftXRight1 { x: 0xF, y: 0 }).unwrap();
    assert_eq!(cpu.registers.get_register(0xF), 0);

    cpu.registers.set_register(0xF, 0b1000_0001);
    cpu.execute(&Instruction::ShiftXLeft1 { x: 0xF, y: 0 }).unwrap();
    assert_eq!(cpu.registers.get_register(0xF), 1);
}

#[test]
fn add_immediate_wraps_and_leaves_the_flag() {
    let mut cpu = machine(vec![0x71, 0x02]);
    cpu.registers.set_register(1, 0xFF);
    cpu.registers.set_register(0xF, 7);
    cpu.cycle().unwrap();
    assert_eq!(cpu.registers.get_register(1), 1);
    assert_eq!(cpu.registers.get_register(0xF), 7);
}

#[test]
fn shifts_report_the_bit_that_leaves() {
    let mut cpu = machine(vec![]);
    cpu.registers.set_register(1, 0b1010_0101);
    cpu.execute(&Instruction::ShiftXRight1 { x: 1, y: 2 }).unwrap();
    assert_eq!(cpu.registers.get_register(1), 0b0101_0010);
    assert_eq!(cpu.registers.get_register(0xF), 1);
    cpu.execute(&Instruction::ShiftXRight1 { x: 1, y: 2 }).unwrap();
    assert_eq!(cpu.registers.get_register(1), 0b0010_1001);
    assert_eq!(cpu.registers.get_register(0xF), 0);

    cpu.registers.set_register(1, 0b0110_0001);
    cpu.execute(&Instruction::ShiftXLeft1 { x: 1, y: 2 }).unwrap();
    assert_eq!(cpu.registers.get_register(1), 0b1100_0010);
    assert_eq!(cpu.registers.get_register(0xF), 0);
    cpu.execute(&Instruction::ShiftXLeft1 { x: 1, y: 2 }).unwrap();
    assert_eq!(cpu.registers.get_register(1), 0b1000_0100);
    assert_eq!(cpu.registers.get_register(0xF), 1);
}

#[test]
fn logic_operations_leave_the_flag_alone() {
    let mut cpu = machine(vec![]);
    cpu.registers.set_register(0xF, 9);
    cpu.registers.set_register(1, 0b1100);
    cpu.registers.set_register(2, 0b1010);
    cpu.execute(&Instruction::LoadXOrYinX { x: 1, y: 2 }).unwrap();
    assert_eq!(cpu.registers.get_register(1), 0b1110);
    cpu.registers.set_register(1, 0b1100);
    cpu.execute(&Instruction::LoadXAndYInX { x: 1, y: 2 }).unwrap();
    assert_eq!(cpu.registers.get_register(1), 0b1000);
    cpu.registers.set_register(1, 0b1100);
    cpu.execute(&Instruction::LoadXXorYInX { x: 1, y: 2 }).unwrap();
    assert_eq!(cpu.registers.get_register(1), 0b0110);
    assert_eq!(cpu.registers.get_register(0xF), 9);
}

#[test]
fn copy_goes_from_y_to_x() {
    let mut cpu = machine(vec![0x81, 0x20]);
    cpu.registers.set_register(1, 11);
    cpu.registers.set_register(2, 22);
    cpu.cycle().unwrap();
    assert_eq!(cpu.registers.get_register(1), 22);
    assert_eq!(cpu.registers.get_register(2), 22);
}

#[test]
fn clear_screen_twice_is_clear_screen_once() {
    let mut cpu = machine(vec![0x00, 0xE0, 0x00, 0xE0]);
    cpu.framebuffer[0][0] = true;
    cpu.framebuffer[31][63] = true;
    cpu.framebuffer[7][9] = true;
    cpu.cycle().unwrap();
    let once = cpu.framebuffer;
    assert!(once.iter().all(|row| row.iter().all(|pixel| !pixel)));
    cpu.cycle().unwrap();
    assert_eq!(cpu.framebuffer, once);
}

#[test]
fn call_then_return_restores_the_program_counter() {
    for target in [0x000u16, 0x204, 0x3FE, 0xFFE] {
        let mut bytes = vec![0u8; 3584];
        // a call to the target at 0x200, a return at the target
        bytes[0] = 0x20 | (target >> 8) as u8;
        bytes[1] = (target & 0xFF) as u8;
        let mut cpu = machine(bytes);
        cpu.memory.set(target, 0x00);
        cpu.memory.set(target + 1, 0xEE);
        cpu.cycle().unwrap();
        assert_eq!(cpu.program_counter, target);
        assert_eq!(cpu.stackpointer, 1);
        cpu.cycle().unwrap();
        assert_eq!(cpu.program_counter, 0x202);
        assert_eq!(cpu.stackpointer, 0);
    }
}

#[test]
fn nested_calls_return_in_reverse_order() {
    let mut cpu = machine(vec![]);
    cpu.program_counter = 0x210;
    cpu.execute(&Instruction::CallSubroutineAtNNN { nnn: 0x300 }).unwrap();
    cpu.program_counter = 0x320;
    cpu.execute(&Instruction::CallSubroutineAtNNN { nnn: 0x400 }).unwrap();
    assert_eq!(cpu.stackpointer, 2);
    cpu.execute(&Instruction::ReturnFromSubroutine).unwrap();
    assert_eq!(cpu.program_counter, 0x320);
    cpu.execute(&Instruction::ReturnFromSubroutine).unwrap();
    assert_eq!(cpu.program_counter, 0x210);
    assert_eq!(cpu.stackpointer, 0);
}

#[test]
fn bcd_digits_of_every_value() {
    for value in 0..=255u8 {
        let mut cpu = machine(vec![0xF4, 0x33]);
        cpu.registers.set_register(4, value);
        cpu.registers.set_index_register(0x300);
        cpu.cycle().unwrap();
        let digits = [
            cpu.memory.get_byte(0x300),
            cpu.memory.get_byte(0x301),
            cpu.memory.get_byte(0x302),
        ];
        assert!(digits.iter().all(|digit| *digit <= 9));
        assert_eq!(
            100 * digits[0] as u16 + 10 * digits[1] as u16 + digits[2] as u16,
            value as u16
        );
        assert_eq!(cpu.registers.get_index_register(), 0x300);
    }
}

#[test]
fn bcd_exact_digits() {
    for (value, digits) in [(0u8, [0u8, 0, 0]), (7, [0, 0, 7]), (90, [0, 9, 0]), (255, [2, 5, 5])] {
        let mut cpu = machine(vec![0xF0, 0x33]);
        cpu.registers.set_register(0, value);
        cpu.registers.set_index_register(0x400);
        cpu.cycle().unwrap();
        assert_eq!(
            [cpu.memory.get_byte(0x400), cpu.memory.get_byte(0x401), cpu.memory.get_byte(0x402)],
            digits
        );
    }
}

#[test]
fn offset_jump_adds_the_whole_of_register_zero() {
    let mut cpu = machine(vec![0xB3, 0x00]);
    cpu.registers.set_register(0, 0xFF);
    cpu.cycle().unwrap();
    assert_eq!(cpu.program_counter, 0x3FF);

    let mut cpu = machine(vec![0xBF, 0xFF]);
    cpu.registers.set_register(0, 0xFF);
    cpu.cycle().unwrap();
    assert_eq!(cpu.program_counter, 0x10FE);
}

#[test]
fn index_addition_is_a_sixteen_bit_add_without_flag() {
    let mut cpu = machine(vec![0xF1, 0x1E]);
    cpu.registers.set_index_register(0xFFFF);
    cpu.registers.set_register(1, 2);
    cpu.registers.set_register(0xF, 5);
    cpu.cycle().unwrap();
    assert_eq!(cpu.registers.get_index_register(), 1);
    assert_eq!(cpu.registers.get_register(0xF), 5);

    let mut cpu = machine(vec![0xF1, 0x1E]);
    cpu.registers.set_index_register(0x0FFF);
    cpu.registers.set_register(1, 0xFF);
    cpu.cycle().unwrap();
    assert_eq!(cpu.registers.get_index_register(), 0x10FE);
}

#[test]
fn glyph_address_is_five_times_the_register() {
    for (value, address) in [(0u8, 0u16), (1, 5), (0xF, 75), (0x33, 255), (0xFF, 1275)] {
        let mut cpu = machine(vec![0xF2, 0x29]);
        cpu.registers.set_register(2, value);
        cpu.cycle().unwrap();
        assert_eq!(cpu.registers.get_index_register(), address);
    }
}

#[test]
fn skips_on_registers() {
    let mut cpu = machine(vec![0x91, 0x20]);
    cpu.cycle().unwrap();
    assert_eq!(cpu.program_counter, 0x202);
    let mut cpu = machine(vec![0x91, 0x20]);
    cpu.registers.set_register(2, 1);
    cpu.cycle().unwrap();
    assert_eq!(cpu.program_counter, 0x204);
}

#[test]
fn skip_wraps_in_sixteen_bits() {
    let mut cpu = machine(vec![]);
    cpu.program_counter = 0xFFFF;
    cpu.execute(&Instruction::SkipNextInstructionIfXIsKK { x: 0, kk: 0 }).unwrap();
    assert_eq!(cpu.program_counter, 1);
}

#[test]
fn key_skips_read_the_key_that_the_register_names() {
    let mut cpu = machine(vec![0xE1, 0x9E]);
    cpu.registers.set_register(1, 0xA);
    cpu.set_key_state(0xA, true);
    cpu.cycle().unwrap();
    assert_eq!(cpu.program_counter, 0x204);

    let mut cpu = machine(vec![0xE1, 0x9E]);
    cpu.registers.set_register(1, 0xA);
    cpu.set_key_state(1, true);
    cpu.cycle().unwrap();
    assert_eq!(cpu.program_counter, 0x202);

    let mut cpu = machine(vec![0xE1, 0xA1]);
    cpu.registers.set_register(1, 0xA);
    cpu.set_key_state(0xA, true);
    cpu.cycle().unwrap();
    assert_eq!(cpu.program_counter, 0x202);
}

#[test]
fn a_register_that_names_no_key_counts_as_not_pressed() {
    let mut cpu = machine(vec![0xE1, 0x9E]);
    cpu.registers.set_register(1, 16);
    for key in 0..16 {
        cpu.set_key_state(key, true);
    }
    cpu.cycle().unwrap();
    assert_eq!(cpu.program_counter, 0x202);

    let mut cpu = machine(vec![0xE1, 0xA1]);
    cpu.registers.set_register(1, 0xFF);
    for key in 0..16 {
        cpu.set_key_state(key, true);
    }
    cpu.cycle().unwrap();
    assert_eq!(cpu.program_counter, 0x204);
}

#[test]
fn waiting_for_a_key_stores_the_lowest_key_and_goes_on() {
    let mut cpu = machine(vec![0xF3, 0x0A]);
    cpu.cycle().unwrap();
    assert_eq!(cpu.program_counter, 0x200);
    cpu.set_key_state(0xC, true);
    cpu.set_key_state(0x7, true);
    assert_eq!(cpu.get_pressed_key(), Some(7));
    cpu.cycle().unwrap();
    assert_eq!(cpu.program_counter, 0x202);
    assert_eq!(cpu.registers.get_register(3), 7);
}

#[test]
fn keys_go_down_and_up() {
    let mut cpu = machine(vec![]);
    cpu.set_key_state(15, true);
    assert_eq!(cpu.get_pressed_key(), Some(15));
    cpu.set_key_state(0, true);
    assert_eq!(cpu.get_pressed_key(), Some(0));
    cpu.set_key_state(0, false);
    assert_eq!(cpu.get_pressed_key(), Some(15));
    cpu.set_key_state(15, false);
    assert_eq!(cpu.get_pressed_key(), None);
}

#[test]
fn timers_tick_once_per_cycle_and_stop_at_zero() {
    let mut cpu = machine(vec![0x00, 0x00, 0x00, 0x00, 0x00, 0x00]);
    cpu.registers.set_delay_timer(2);
    cpu.registers.set_sound_timer(1);
    cpu.cycle().unwrap();
    assert_eq!(cpu.registers.get_delay_timer(), 1);
    assert_eq!(cpu.get_sound_timer(), 0);
    cpu.cycle().unwrap();
    assert_eq!(cpu.registers.get_delay_timer(), 0);
    assert_eq!(cpu.get_sound_timer(), 0);
    cpu.cycle().unwrap();
    assert_eq!(cpu.registers.get_delay_timer(), 0);
    assert_eq!(cpu.get_sound_timer(), 0);
}

#[test]
fn reading_the_delay_timer_sees_the_value_before_the_tick() {
    let mut cpu = machine(vec![0xF5, 0x07]);
    cpu.registers.set_delay_timer(0x10);
    cpu.cycle().unwrap();
    assert_eq!(cpu.registers.get_register(5), 0x10);
    assert_eq!(cpu.registers.get_delay_timer(), 0x0F);
}

#[test]
fn bulk_store_writes_registers_zero_through_x_only() {
    let mut cpu = machine(vec![0xF2, 0x55]);
    for register in 0..16 {
        cpu.registers.set_register(register, 0x10 + register);
    }
    cpu.registers.set_index_register(0x300);
    cpu.cycle().unwrap();
    assert_eq!(cpu.memory.get_byte(0x2FF), 0);
    assert_eq!(cpu.memory.get_byte(0x300), 0x10);
    assert_eq!(cpu.memory.get_byte(0x301), 0x11);
    assert_eq!(cpu.memory.get_byte(0x302), 0x12);
    assert_eq!(cpu.memory.get_byte(0x303), 0);
    assert_eq!(cpu.registers.get_index_register(), 0x300);
}

#[test]
fn bulk_store_may_overwrite_the_font() {
    let mut cpu = machine(vec![0xF0, 0x55]);
    cpu.registers.set_register(0, 0x42);
    cpu.registers.set_index_register(0);
    cpu.cycle().unwrap();
    assert_eq!(cpu.memory.get_byte(0), 0x42);
}

#[test]
fn bulk_load_reads_registers_zero_through_x_only() {
    let mut cpu = machine(vec![0xF1, 0x65, 0x0A, 0x0B, 0x0C]);
    cpu.registers.set_register(2, 0x99);
    cpu.registers.set_index_register(0x202);
    cpu.cycle().unwrap();
    assert_eq!(cpu.registers.get_register(0), 0x0A);
    assert_eq!(cpu.registers.get_register(1), 0x0B);
    assert_eq!(cpu.registers.get_register(2), 0x99);
    assert_eq!(cpu.registers.get_index_register(), 0x202);
}

#[test]
fn random_bytes_follow_the_seeded_stream() {
    // C0FF three times: the bytes are those of the generator, in order
    let mut cpu = machine(vec![0xC0, 0xFF, 0xC1, 0xFF, 0xC2, 0x0F]);
    let mut prng = Prng::new(DEFAULT_SEED);
    let expected = [prng.random_byte(), prng.random_byte(), prng.random_byte() & 0x0F];
    cpu.run(3).unwrap();
    assert_eq!(cpu.registers.get_register(0), expected[0]);
    assert_eq!(cpu.registers.get_register(1), expected[1]);
    assert_eq!(cpu.registers.get_register(2), expected[2]);
    assert_eq!(cpu.rng, prng);
}

#[test]
fn machines_with_one_seed_agree_and_seeds_differ() {
    let rom = RomBuffer::from_bytes(vec![0xC0, 0xFF, 0xC1, 0xFF, 0xC2, 0xFF, 0xC3, 0xFF]);
    let mut a = Cpu::with_config(&rom, 99, Quirks::default()).unwrap();
    let mut b = Cpu::with_config(&rom, 99, Quirks::default()).unwrap();
    let mut c = Cpu::with_config(&rom, 100, Quirks::default()).unwrap();
    a.run(4).unwrap();
    b.run(4).unwrap();
    c.run(4).unwrap();
    let read = |cpu: &Cpu| [0u8, 1, 2, 3].map(|register| cpu.registers.get_register(register));
    assert_eq!(read(&a), read(&b));
    assert_ne!(read(&a), read(&c));
}

#[test]
fn only_the_random_instruction_draws_from_the_generator() {
    let mut cpu = machine(vec![0x61, 0x05, 0x00, 0xE0, 0xA1, 0x23]);
    cpu.run(3).unwrap();
    assert_eq!(cpu.rng, Prng::new(DEFAULT_SEED));
}

#[test]
fn a_burst_runs_the_given_number_of_cycles() {
    // 7001 repeated: each cycle adds one to register 0
    let mut bytes = Vec::new();
    for _ in 0..CYCLES_PER_FRAME {
        bytes.push(0x70);
        bytes.push(0x01);
    }
    let mut cpu = machine(bytes);
    assert_eq!(cpu.run(0), Ok(()));
    assert_eq!(cpu.program_counter, 0x200);
    assert_eq!(cpu.run(CYCLES_PER_FRAME), Ok(()));
    assert_eq!(cpu.registers.get_register(0), CYCLES_PER_FRAME as u8);
    assert_eq!(cpu.program_counter, 0x200 + 2 * CYCLES_PER_FRAME as u16);
}

#[test]
fn the_display_copy_matches_the_screen() {
    let mut cpu = machine(vec![0xD0, 0x05]);
    cpu.cycle().unwrap();
    assert_eq!(cpu.get_display_contents(), cpu.framebuffer);
    assert!(cpu.get_display_contents()[0][0]);
}

#[test]
fn a_drawn_byte_is_masked_into_the_register() {
    let mut cpu = machine(vec![]);
    cpu.set_masked(1, 0x0F, 0xAB);
    assert_eq!(cpu.registers.get_register(1), 0x0B);
    cpu.set_masked(2, 0xFF, 0xAB);
    assert_eq!(cpu.registers.get_register(2), 0xAB);
    cpu.set_masked(3, 0x00, 0xAB);
    assert_eq!(cpu.registers.get_register(3), 0x00);
    assert_eq!(cpu.rng, Prng::new(DEFAULT_SEED));
}

#[test]
fn the_font_survives_a_program_that_stores_above_it() {
    // A300 (I = 0x300), 6AFF, FA33 (decimal digits), FA55 (bulk store),
    // D005 (draw), 00E0, C1FF, F065 (bulk load)
    let mut cpu = machine(vec![
        0xA3, 0x00, 0x6A, 0xFF, 0xFA, 0x33, 0xFA, 0x55, 0xD0, 0x05, 0x00, 0xE0, 0xC1, 0xFF, 0xF0,
        0x65,
    ]);
    cpu.run(8).unwrap();
    for address in 0..80u16 {
        assert_eq!(
            cpu.memory.get_byte(address),
            chippie_emulator::ram::FONT_SET[address as usize]
        );
    }
    assert_eq!(cpu.memory.get_byte(0x300), 0);
    assert_eq!(cpu.memory.get_byte(0x30A), 0xFF);
}

#[test]
fn instructions_other_than_the_stores_leave_memory_alone() {
    let mut cpu = machine(vec![0x12, 0x34]);
    cpu.registers.set_index_register(0);
    let before = cpu.memory.bytes;
    for instruction in [
        Instruction::ClearScreen,
        Instruction::Jump { nnn: 0x300 },
        Instruction::CallSubroutineAtNNN { nnn: 0x400 },
        Instruction::ReturnFromSubroutine,
        Instruction::AddYToX { x: 1, y: 2 },
        Instruction::SetXToRandom { x: 3, kk: 0xFF },
        Instruction::Display { x: 0, y: 0, n: 15 },
        Instruction::Load0ThroughX { x: 15 },
        Instruction::AddXtoI { x: 3 },
        Instruction::WaitForKeyPressed { x: 4 },
    ] {
        cpu.execute(&instruction).unwrap();
        assert_eq!(cpu.memory.bytes, before);
    }
}
