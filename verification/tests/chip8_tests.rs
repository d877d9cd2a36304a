use chip8::chip8::Chip8;
use chip8::decode::{decode, Instruction};
use chip8::state::{Chip8Error, StepOutcome, RNG_SEED};

/// A machine with `prog` loaded at 0x200.
fn machine_with(prog: &[u8]) -> Chip8 {
    let mut m = Chip8::new();
    m.load_rom(prog).expect("program fits");
    m
}

/// Whether an opcode word belongs to the instruction set, written
/// independently of the decoder.
fn pattern_is_valid(op: u16) -> bool {
    let n = op & 0xF;
    let nn = op & 0xFF;
    match op >> 12 {
        0x0 => op == 0x00E0 || op == 0x00EE,
        0x1 | 0x2 | 0x3 | 0x4 => true,
        0x5 => n == 0,
        0x6 | 0x7 => true,
        0x8 => matches!(n, 0x0 | 0x1 | 0x2 | 0x3 | 0x4 | 0x5 | 0x6 | 0x7 | 0xE),
        0x9 => n == 0,
        0xA | 0xB | 0xC | 0xD => true,
        0xE => nn == 0x9E || nn == 0xA1,
        0xF => matches!(nn, 0x07 | 0x0A | 0x15 | 0x18 | 0x1E | 0x29 | 0x33 | 0x55 | 0x65),
        _ => unreachable!(),
    }
}

#[test]
fn decode_covers_every_pattern_exactly_once() {
    let mut valid = 0u32;
    for op in 0..=0xFFFFu16 {
        let first = decode(op);
        // Deterministic: a second decode of the same word agrees.
        assert_eq!(first, decode(op));
        assert_eq!(first.is_some(), pattern_is_valid(op));
        if first.is_some() {
            valid += 1;
        }
    }
    assert!(valid > 0);
}

#[test]
fn decode_known_words() {
    assert_eq!(decode(0x00E0), Some(Instruction::Cls));
    assert_eq!(decode(0x00EE), Some(Instruction::Ret));
    assert_eq!(decode(0x1ABC), Some(Instruction::Jp(0xABC)));
    assert_eq!(decode(0x2ABC), Some(Instruction::Call(0xABC)));
    assert_eq!(decode(0x3A7F), Some(Instruction::SeVxByte(0xA, 0x7F)));
    assert_eq!(decode(0x8AB4), Some(Instruction::AddVxVy(0xA, 0xB)));
    assert_eq!(decode(0xD7E5), Some(Instruction::DrwVxVyN(7, 0xE, 5)));
    assert_eq!(decode(0xF30A), Some(Instruction::LdVxK(3)));
    assert_eq!(decode(0x0000), None);
    assert_eq!(decode(0x5AB1), None);
    assert_eq!(decode(0x8AB8), None);
    assert_eq!(decode(0xFA99), None);
}

#[test]
fn cls_clears_screen_and_leaves_the_rest() {
    // Draw the glyph for 0 at (0, 0), then clear the screen.
    let mut m = machine_with(&[
        0x60, 0x00, // LD V0, 0
        0x61, 0x07, // LD V1, 7
        0xA0, 0x00, // LD I, 0
        0xD0, 0x05, // DRW V0, V0, 5
        0x00, 0xE0, // CLS
    ]);
    for _ in 0..4 {
        assert_eq!(m.step(), Ok(StepOutcome::Advanced));
    }
    assert!(m.framebuffer_snapshot().iter().any(|&px| px));
    let regs_before: Vec<u8> = (0..16).map(|x| m.register_value(x)).collect();
    let depth_before = m.stack_depth();
    let delay_before = m.delay_timer_value();
    let sound_before = m.sound_timer_value();
    let pc_before = m.program_counter_value();

    assert_eq!(m.step(), Ok(StepOutcome::Advanced));

    assert!(m.framebuffer_snapshot().iter().all(|&px| !px));
    let regs_after: Vec<u8> = (0..16).map(|x| m.register_value(x)).collect();
    assert_eq!(regs_before, regs_after);
    assert_eq!(m.stack_depth(), depth_before);
    assert_eq!(m.delay_timer_value(), delay_before);
    assert_eq!(m.sound_timer_value(), sound_before);
    assert_eq!(m.program_counter_value(), pc_before + 2);
}

#[test]
fn call_then_ret_round_trip() {
    let mut m = machine_with(&[
        0x22, 0x06, // 0x200: CALL 0x206
        0x00, 0x00, //
        0x00, 0x00, //
        0x00, 0xEE, // 0x206: RET
    ]);
    assert_eq!(m.stack_depth(), 0);
    assert_eq!(m.step(), Ok(StepOutcome::Advanced));
    assert_eq!(m.program_counter_value(), 0x206);
    assert_eq!(m.stack_depth(), 1);
    assert_eq!(m.step(), Ok(StepOutcome::Advanced));
    assert_eq!(m.program_counter_value(), 0x202);
    assert_eq!(m.stack_depth(), 0);
}

#[test]
fn add_with_carry_sets_flag() {
    let mut m = machine_with(&[
        0x60, 250,  // LD V0, 250
        0x61, 10,   // LD V1, 10
        0x80, 0x14, // ADD V0, V1
    ]);
    for _ in 0..3 {
        assert_eq!(m.step(), Ok(StepOutcome::Advanced));
    }
    assert_eq!(m.register_value(0), 4);
    assert_eq!(m.register_value(0xF), 1);
}

#[test]
fn add_without_carry_clears_flag() {
    let mut m = machine_with(&[
        0x60, 10,   // LD V0, 10
        0x61, 20,   // LD V1, 20
        0x80, 0x14, // ADD V0, V1
    ]);
    for _ in 0..3 {
        assert_eq!(m.step(), Ok(StepOutcome::Advanced));
    }
    assert_eq!(m.register_value(0), 30);
    assert_eq!(m.register_value(0xF), 0);
}

#[test]
fn draw_twice_restores_screen_and_reports_collision() {
    let mut m = machine_with(&[
        0x60, 0x00, // LD V0, 0
        0xA0, 0x00, // LD I, 0 (glyph for 0)
        0xD0, 0x05, // DRW V0, V0, 5
        0xD0, 0x05, // DRW V0, V0, 5
    ]);
    assert_eq!(m.step(), Ok(StepOutcome::Advanced));
    assert_eq!(m.step(), Ok(StepOutcome::Advanced));

    assert_eq!(m.step(), Ok(StepOutcome::Advanced));
    // Glyph 0 row 0 is 0xF0: pixels (0..4, 0) set, (4..8, 0) clear.
    let fb = m.framebuffer_snapshot().clone();
    assert!(fb[0] && fb[1] && fb[2] && fb[3]);
    assert!(!fb[4] && !fb[5] && !fb[6] && !fb[7]);
    // Row 1 is 0x90: pixels 0 and 3 set.
    assert!(fb[64] && !fb[65] && !fb[66] && fb[67]);
    assert_eq!(m.register_value(0xF), 0, "first draw onto a clear area");

    assert_eq!(m.step(), Ok(StepOutcome::Advanced));
    assert!(m.framebuffer_snapshot().iter().all(|&px| !px));
    assert_eq!(m.register_value(0xF), 1, "self-overlapping second draw");
}

#[test]
fn draw_wraps_around_the_right_edge() {
    let mut m = machine_with(&[
        0x60, 62,   // LD V0, 62
        0x61, 0x00, // LD V1, 0
        0xA2, 0x08, // LD I, 0x208
        0xD0, 0x11, // DRW V0, V1, 1
        0xFF,       // the sprite row, at 0x208
    ]);
    for _ in 0..4 {
        assert_eq!(m.step(), Ok(StepOutcome::Advanced));
    }
    let fb = m.framebuffer_snapshot();
    for x in [62usize, 63, 0, 1, 2, 3, 4, 5] {
        assert!(fb[x], "pixel {x} should wrap around");
    }
    assert!(!fb[6] && !fb[61]);
}

#[test]
fn skip_equal_advances_by_four_on_match() {
    let mut m = machine_with(&[
        0x60, 0x07, // LD V0, 7
        0x30, 0x07, // SE V0, 7
    ]);
    assert_eq!(m.step(), Ok(StepOutcome::Advanced));
    assert_eq!(m.program_counter_value(), 0x202);
    assert_eq!(m.step(), Ok(StepOutcome::Advanced));
    assert_eq!(m.program_counter_value(), 0x206);
}

#[test]
fn skip_equal_advances_by_two_on_mismatch() {
    let mut m = machine_with(&[
        0x60, 0x07, // LD V0, 7
        0x30, 0x08, // SE V0, 8
    ]);
    assert_eq!(m.step(), Ok(StepOutcome::Advanced));
    assert_eq!(m.step(), Ok(StepOutcome::Advanced));
    assert_eq!(m.program_counter_value(), 0x204);
}

#[test]
fn key_wait_pauses_until_a_key_arrives() {
    let mut m = machine_with(&[
        0xF3, 0x0A, // LD V3, K
    ]);
    assert_eq!(m.step(), Ok(StepOutcome::WaitingForKey));
    assert_eq!(m.program_counter_value(), 0x200);
    assert!(m.waiting_for_key());
    for _ in 0..5 {
        assert_eq!(m.step(), Ok(StepOutcome::WaitingForKey));
        assert_eq!(m.program_counter_value(), 0x200);
    }
    m.set_key(5, true);
    assert_eq!(m.step(), Ok(StepOutcome::Advanced));
    assert_eq!(m.register_value(3), 5);
    assert_eq!(m.program_counter_value(), 0x202);
    assert!(!m.waiting_for_key());
}

#[test]
fn load_rom_accepts_exactly_the_available_space() {
    let mut m = Chip8::new();
    let full = vec![0xABu8; 4096 - 0x200];
    assert_eq!(m.load_rom(&full), Ok(()));
    assert_eq!(m.read8(0x200), Ok(0xAB));
    assert_eq!(m.read8(0xFFF), Ok(0xAB));
}

#[test]
fn load_rom_rejects_one_byte_too_many() {
    let mut m = Chip8::new();
    let too_big = vec![0xABu8; 4096 - 0x200 + 1];
    assert_eq!(m.load_rom(&too_big), Err(Chip8Error::RomTooLarge));
    // Rejected before any mutation.
    assert_eq!(m.read8(0x200), Ok(0));
    assert_eq!(m.program_counter_value(), 0x200);
}

#[test]
fn ret_with_empty_stack_underflows() {
    let mut m = machine_with(&[0x00, 0xEE]);
    assert_eq!(m.step(), Err(Chip8Error::StackUnderflow));
    assert_eq!(m.program_counter_value(), 0x200);
    assert_eq!(m.stack_depth(), 0);
}

#[test]
fn seventeenth_call_overflows_the_stack() {
    // CALL 0x200: each step calls back to itself.
    let mut m = machine_with(&[0x22, 0x00]);
    for depth in 1..=16 {
        assert_eq!(m.step(), Ok(StepOutcome::Advanced));
        assert_eq!(m.stack_depth(), depth);
    }
    assert_eq!(m.step(), Err(Chip8Error::StackOverflow));
    assert_eq!(m.stack_depth(), 16);
    assert_eq!(m.program_counter_value(), 0x200);
}

#[test]
fn unknown_pattern_is_reported_with_opcode_and_pc() {
    let mut m = machine_with(&[0xFF, 0xFF]);
    assert_eq!(m.step(), Err(Chip8Error::InvalidOpcode(0xFFFF, 0x200)));
    assert_eq!(m.program_counter_value(), 0x200, "machine unchanged");
    assert_eq!(m.step(), Err(Chip8Error::InvalidOpcode(0xFFFF, 0x200)));
}

#[test]
fn fetch_past_memory_fails() {
    let mut m = machine_with(&[0x1F, 0xFF]); // JP 0xFFF
    assert_eq!(m.step(), Ok(StepOutcome::Advanced));
    assert_eq!(m.program_counter_value(), 0xFFF);
    assert_eq!(m.step(), Err(Chip8Error::OutOfBoundsFetch));
    assert_eq!(m.program_counter_value(), 0xFFF);
}

#[test]
fn timers_decrement_toward_zero() {
    let mut m = machine_with(&[
        0x60, 0x02, // LD V0, 2
        0xF0, 0x15, // LD DT, V0
        0xF0, 0x18, // LD ST, V0
    ]);
    for _ in 0..3 {
        assert_eq!(m.step(), Ok(StepOutcome::Advanced));
    }
    assert_eq!(m.delay_timer_value(), 2);
    assert_eq!(m.sound_timer_value(), 2);
    m.tick_timer();
    assert_eq!(m.delay_timer_value(), 1);
    assert_eq!(m.sound_timer_value(), 1);
    m.tick_timer();
    m.tick_timer();
    m.tick_timer();
    assert_eq!(m.delay_timer_value(), 0, "never below zero");
    assert_eq!(m.sound_timer_value(), 0);
}

#[test]
fn delay_timer_reads_back_into_a_register() {
    let mut m = machine_with(&[
        0x60, 0x09, // LD V0, 9
        0xF0, 0x15, // LD DT, V0
        0xF1, 0x07, // LD V1, DT
    ]);
    for _ in 0..3 {
        assert_eq!(m.step(), Ok(StepOutcome::Advanced));
    }
    assert_eq!(m.register_value(1), 9);
}

#[test]
fn alu_bitwise_and_shift_results() {
    let mut m = machine_with(&[
        0x60, 0xCC, // LD V0, 0xCC
        0x61, 0xAA, // LD V1, 0xAA
        0x80, 0x11, // OR  V0, V1 -> 0xEE
        0x80, 0x12, // AND V0, V1 -> 0xAA
        0x62, 0x0F, // LD V2, 0x0F
        0x80, 0x23, // XOR V0, V2 -> 0xA5
        0x80, 0x06, // SHR V0 -> 0x52, VF = 1
        0x80, 0x0E, // SHL V0 -> 0xA4, VF = 0
    ]);
    for _ in 0..3 {
        assert_eq!(m.step(), Ok(StepOutcome::Advanced));
    }
    assert_eq!(m.register_value(0), 0xEE);
    assert_eq!(m.step(), Ok(StepOutcome::Advanced));
    assert_eq!(m.register_value(0), 0xAA);
    assert_eq!(m.step(), Ok(StepOutcome::Advanced));
    assert_eq!(m.step(), Ok(StepOutcome::Advanced));
    assert_eq!(m.register_value(0), 0xA5);
    assert_eq!(m.step(), Ok(StepOutcome::Advanced));
    assert_eq!(m.register_value(0), 0x52);
    assert_eq!(m.register_value(0xF), 1);
    assert_eq!(m.step(), Ok(StepOutcome::Advanced));
    assert_eq!(m.register_value(0), 0xA4);
    assert_eq!(m.register_value(0xF), 0);
}

#[test]
fn subtraction_borrow_flags() {
    let mut m = machine_with(&[
        0x60, 10,   // LD V0, 10
        0x61, 20,   // LD V1, 20
        0x80, 0x15, // SUB V0, V1 -> 246, VF = 0 (borrow)
        0x62, 5,    // LD V2, 5
        0x63, 20,   // LD V3, 20
        0x82, 0x37, // SUBN V2, V3 -> 15, VF = 1 (no borrow)
    ]);
    for _ in 0..3 {
        assert_eq!(m.step(), Ok(StepOutcome::Advanced));
    }
    assert_eq!(m.register_value(0), 246);
    assert_eq!(m.register_value(0xF), 0);
    for _ in 0..3 {
        assert_eq!(m.step(), Ok(StepOutcome::Advanced));
    }
    assert_eq!(m.register_value(2), 15);
    assert_eq!(m.register_value(0xF), 1);
}

#[test]
fn wrapping_add_immediate_leaves_flag_alone() {
    let mut m = machine_with(&[
        0x6F, 0x63, // LD VF, 0x63 (sentinel)
        0x60, 250,  // LD V0, 250
        0x70, 10,   // ADD V0, 10
    ]);
    for _ in 0..3 {
        assert_eq!(m.step(), Ok(StepOutcome::Advanced));
    }
    assert_eq!(m.register_value(0), 4);
    assert_eq!(m.register_value(0xF), 0x63, "no carry flag for 7XNN");
}

#[test]
fn jump_with_offset_adds_v0() {
    let mut m = machine_with(&[
        0x60, 0x05, // LD V0, 5
        0xB3, 0x00, // JP V0, 0x300
    ]);
    assert_eq!(m.step(), Ok(StepOutcome::Advanced));
    assert_eq!(m.step(), Ok(StepOutcome::Advanced));
    assert_eq!(m.program_counter_value(), 0x305);
}

#[test]
fn skip_on_key_state() {
    let mut m = machine_with(&[
        0x60, 0x03, // LD V0, 3
        0xE0, 0x9E, // SKP V0 (key 3 pressed: skip)
        0x00, 0x00,
        0xE0, 0xA1, // SKNP V0 (key 3 pressed: no skip)
    ]);
    m.set_key(3, true);
    assert_eq!(m.step(), Ok(StepOutcome::Advanced));
    assert_eq!(m.step(), Ok(StepOutcome::Advanced));
    assert_eq!(m.program_counter_value(), 0x206);
    assert_eq!(m.step(), Ok(StepOutcome::Advanced));
    assert_eq!(m.program_counter_value(), 0x208);
}

#[test]
fn random_masked_with_zero_is_zero() {
    let mut m = machine_with(&[
        0x60, 0x55, // LD V0, 0x55
        0xC0, 0x00, // RND V0, 0x00
    ]);
    assert_eq!(m.step(), Ok(StepOutcome::Advanced));
    assert_eq!(m.step(), Ok(StepOutcome::Advanced));
    assert_eq!(m.register_value(0), 0);
}

#[test]
fn random_byte_comes_from_the_seeded_generator() {
    let mut m = machine_with(&[
        0xC0, 0xFF, // RND V0, 0xFF
    ]);
    assert_eq!(m.step(), Ok(StepOutcome::Advanced));
    let expected = (((RNG_SEED as u32 * 25173 + 13849) % 0x10000) / 256) as u8;
    assert_eq!(m.register_value(0), expected);
}

#[test]
fn bcd_decomposition() {
    let mut m = machine_with(&[
        0x60, 234,  // LD V0, 234
        0xA3, 0x00, // LD I, 0x300
        0xF0, 0x33, // LD B, V0
    ]);
    for _ in 0..3 {
        assert_eq!(m.step(), Ok(StepOutcome::Advanced));
    }
    assert_eq!(m.read8(0x300), Ok(2));
    assert_eq!(m.read8(0x301), Ok(3));
    assert_eq!(m.read8(0x302), Ok(4));
}

#[test]
fn bulk_store_and_load_registers() {
    let mut m = machine_with(&[
        0x60, 0x11, // LD V0, 0x11
        0x61, 0x22, // LD V1, 0x22
        0x62, 0x33, // LD V2, 0x33
        0xA3, 0x00, // LD I, 0x300
        0xF2, 0x55, // LD [I], V2
        0x60, 0x00, // LD V0, 0
        0x61, 0x00, // LD V1, 0
        0xF1, 0x65, // LD V1, [I]
    ]);
    for _ in 0..5 {
        assert_eq!(m.step(), Ok(StepOutcome::Advanced));
    }
    assert_eq!(m.read8(0x300), Ok(0x11));
    assert_eq!(m.read8(0x301), Ok(0x22));
    assert_eq!(m.read8(0x302), Ok(0x33));
    assert_eq!(m.read8(0x303), Ok(0x00), "only V0..VX are stored");
    assert_eq!(m.address_register_value(), 0x300, "I is unchanged");
    for _ in 0..3 {
        assert_eq!(m.step(), Ok(StepOutcome::Advanced));
    }
    assert_eq!(m.register_value(0), 0x11);
    assert_eq!(m.register_value(1), 0x22);
    assert_eq!(m.register_value(2), 0x33, "V2 was never zeroed");
}

#[test]
fn font_is_resident_and_addressable() {
    let m = Chip8::new();
    assert_eq!(m.read8(0), Ok(0xF0), "glyph 0, first row");
    assert_eq!(m.read8(4), Ok(0xF0), "glyph 0, last row");
    assert_eq!(m.read8(5), Ok(0x20), "glyph 1, first row");
    assert_eq!(m.read8(79), Ok(0x80), "glyph F, last row");
    assert_eq!(m.read8(80), Ok(0x00), "nothing beyond the font");

    let mut m = machine_with(&[
        0x60, 0x1A, // LD V0, 0x1A (low nibble A)
        0xF0, 0x29, // LD F, V0
    ]);
    assert_eq!(m.step(), Ok(StepOutcome::Advanced));
    assert_eq!(m.step(), Ok(StepOutcome::Advanced));
    assert_eq!(m.address_register_value(), 50, "glyph A is the eleventh");
    assert_eq!(m.read8(50), Ok(0xF0));
}

#[test]
fn add_to_address_register_wraps_and_is_bounds_checked_on_use() {
    let mut m = machine_with(&[
        0xAF, 0xFF, // LD I, 0xFFF
        0x60, 0xFF, // LD V0, 255
        0xF0, 0x1E, // ADD I, V0
        0xD0, 0x01, // DRW V0, V0, 1 (I now past memory)
    ]);
    for _ in 0..3 {
        assert_eq!(m.step(), Ok(StepOutcome::Advanced));
    }
    assert_eq!(m.address_register_value(), 0x10FE);
    assert_eq!(m.step(), Err(Chip8Error::OutOfBoundsFetch));
}

#[test]
fn memory_accessors_are_bounds_checked() {
    let mut m = Chip8::new();
    assert_eq!(m.read8(4096), Err(Chip8Error::OutOfBoundsFetch));
    assert_eq!(m.read16(0xFFF), Err(Chip8Error::OutOfBoundsFetch));
    assert_eq!(m.write8(4096, 1), Err(Chip8Error::OutOfBoundsFetch));
    assert_eq!(m.write8(0x400, 0x5A), Ok(()));
    assert_eq!(m.read8(0x400), Ok(0x5A));
    assert_eq!(m.read16(0x3FF), Ok(0x005A));
}

#[test]
fn get_opcode_reads_big_endian() {
    let m = machine_with(&[0x12, 0x34]);
    assert_eq!(m.get_opcode(), 0x1234);
}

#[test]
fn exec_opcode_runs_one_instruction() {
    let mut m = machine_with(&[0x6A, 0x42]); // LD VA, 0x42
    assert_eq!(m.exec_opcode(), Ok(StepOutcome::Advanced));
    assert_eq!(m.register_value(0xA), 0x42);
    assert_eq!(m.program_counter_value(), 0x202);
}

#[test]
fn zero_height_sprite_is_a_no_op_that_clears_the_flag() {
    let mut m = machine_with(&[
        0x60, 200,  // LD V0, 200
        0x61, 100,  // LD V1, 100
        0x80, 0x14, // ADD V0, V1 (carry: VF = 1)
        0xA0, 0x00, // LD I, 0
        0xD2, 0x20, // DRW V2, V2, 0
    ]);
    for _ in 0..5 {
        assert_eq!(m.step(), Ok(StepOutcome::Advanced));
    }
    assert_eq!(m.register_value(0xF), 0, "collision flag cleared by the draw");
    assert!(m.framebuffer_snapshot().iter().all(|&px| !px));
    assert_eq!(m.program_counter_value(), 0x20A);
}

#[test]
fn key_pressed_before_the_wait_is_picked_up_on_the_next_step() {
    let mut m = machine_with(&[
        0xF0, 0x0A, // LD V0, K
    ]);
    m.set_key(7, true);
    assert_eq!(m.step(), Ok(StepOutcome::WaitingForKey));
    assert_eq!(m.program_counter_value(), 0x200);
    assert_eq!(m.step(), Ok(StepOutcome::Advanced));
    assert_eq!(m.register_value(0), 7);
    assert_eq!(m.program_counter_value(), 0x202);
}

#[test]
fn reset_returns_to_the_fresh_state() {
    let mut m = machine_with(&[
        0x60, 0x55, // LD V0, 0x55
        0x22, 0x06, // CALL 0x206
    ]);
    assert_eq!(m.step(), Ok(StepOutcome::Advanced));
    assert_eq!(m.step(), Ok(StepOutcome::Advanced));
    m.reset();
    assert_eq!(m.program_counter_value(), 0x200);
    assert_eq!(m.register_value(0), 0);
    assert_eq!(m.stack_depth(), 0);
    assert_eq!(m.read8(0x200), Ok(0), "program gone");
    assert_eq!(m.read8(0), Ok(0xF0), "font back");
}
