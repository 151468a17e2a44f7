use chip8_core::{
    convert_to_16bit, get_byte, get_byte_value, get_jump_addr, get_nibble, get_reg_x, get_reg_y,
    key_action, Core, KeyAction, VmError, DISP_HEIGHT, DISP_WIDTH, PROGRAM_START, RAM_SIZE,
};

fn machine(program: &[u8]) -> Core {
    Core::initialize(program).unwrap()
}

fn step(core: &mut Core) {
    core.run_next_with(0).unwrap();
}

fn lit_pixels(core: &Core) -> usize {
    let mut n = 0;
    for y in 0..DISP_HEIGHT {
        for x in 0..DISP_WIDTH {
            if core.pixel(x, y) {
                n += 1;
            }
        }
    }
    n
}

#[test]
fn decode_fields() {
    assert_eq!(convert_to_16bit(&0x12, &0x34), 0x1234);
    assert_eq!(get_nibble(&0xABCD), 0xD);
    assert_eq!(get_byte(&0xABCD), 0xCD);
    assert_eq!(get_reg_x(&0xABCD), 0xB);
    assert_eq!(get_reg_y(&0xABCD), 0xC);
    assert_eq!(get_byte_value(&0xABCD), 0xCD);
    assert_eq!(get_jump_addr(&0xABCD), 0xBCD);
}

#[test]
fn initialize_loads_font_and_program() {
    let core = machine(&[0x12, 0x34]);
    assert_eq!(core.pc, PROGRAM_START);
    assert_eq!(core.memory_at(0), 0xF0);
    assert_eq!(core.memory_at(79), 0x80);
    assert_eq!(core.memory_at(80), 0);
    assert_eq!(core.memory_at(PROGRAM_START), 0x12);
    assert_eq!(core.memory_at(PROGRAM_START + 1), 0x34);
    assert_eq!(core.sp, 0);
    assert!(!core.display_dirty());
}

#[test]
fn program_too_large_is_rejected() {
    let big = vec![0u8; RAM_SIZE - PROGRAM_START + 1];
    assert_eq!(Core::initialize(&big).err(), Some(VmError::ProgramTooLarge(big.len())));
    let fits = vec![0u8; RAM_SIZE - PROGRAM_START];
    assert!(Core::initialize(&fits).is_ok());
}

#[test]
fn add_sets_carry() {
    // V0 = 0xFF, V1 = 0x01, V0 += V1
    let mut core = machine(&[0x60, 0xFF, 0x61, 0x01, 0x80, 0x14]);
    step(&mut core);
    step(&mut core);
    step(&mut core);
    assert_eq!(core.register(0), 0x00);
    assert_eq!(core.register(0xF), 1);
}

#[test]
fn add_without_carry() {
    let mut core = machine(&[0x60, 0x10, 0x61, 0x20, 0x80, 0x14]);
    for _ in 0..3 {
        step(&mut core);
    }
    assert_eq!(core.register(0), 0x30);
    assert_eq!(core.register(0xF), 0);
}

#[test]
fn sub_flag_is_minuend_greater() {
    let mut core = machine(&[0x60, 0x05, 0x61, 0x03, 0x80, 0x15]);
    for _ in 0..3 {
        step(&mut core);
    }
    assert_eq!(core.register(0), 2);
    assert_eq!(core.register(0xF), 1);

    let mut equal = machine(&[0x60, 0x07, 0x61, 0x07, 0x80, 0x15]);
    for _ in 0..3 {
        step(&mut equal);
    }
    assert_eq!(equal.register(0), 0);
    assert_eq!(equal.register(0xF), 0);

    let mut wrap = machine(&[0x60, 0x03, 0x61, 0x05, 0x80, 0x15]);
    for _ in 0..3 {
        step(&mut wrap);
    }
    assert_eq!(wrap.register(0), 254);
    assert_eq!(wrap.register(0xF), 0);
}

#[test]
fn subn_flag_is_subtrahend_greater() {
    let mut core = machine(&[0x60, 0x03, 0x61, 0x05, 0x80, 0x17]);
    for _ in 0..3 {
        step(&mut core);
    }
    assert_eq!(core.register(0), 2);
    assert_eq!(core.register(0xF), 1);

    let mut wrap = machine(&[0x60, 0x05, 0x61, 0x03, 0x80, 0x17]);
    for _ in 0..3 {
        step(&mut wrap);
    }
    assert_eq!(wrap.register(0), 254);
    assert_eq!(wrap.register(0xF), 0);
}

#[test]
fn shifts_set_flag_from_shifted_bit() {
    let mut right = machine(&[0x60, 0x05, 0x80, 0x06]);
    step(&mut right);
    step(&mut right);
    assert_eq!(right.register(0), 0x02);
    assert_eq!(right.register(0xF), 1);

    let mut left = machine(&[0x60, 0x81, 0x80, 0x0E]);
    step(&mut left);
    step(&mut left);
    assert_eq!(left.register(0), 0x02);
    assert_eq!(left.register(0xF), 1);

    // 0x50 has bits set only under the decimal-80 mask, not under 0x80.
    let mut mask = machine(&[0x60, 0x50, 0x80, 0x0E]);
    step(&mut mask);
    step(&mut mask);
    assert_eq!(mask.register(0), 0xA0);
    assert_eq!(mask.register(0xF), 0);
}

#[test]
fn bitwise_and_moves() {
    let mut core = machine(&[
        0x60, 0b1100, 0x61, 0b1010, 0x82, 0x00, 0x82, 0x11, 0x83, 0x00, 0x83, 0x12, 0x84, 0x00,
        0x84, 0x13,
    ]);
    for _ in 0..8 {
        step(&mut core);
    }
    assert_eq!(core.register(2), 0b1110);
    assert_eq!(core.register(3), 0b1000);
    assert_eq!(core.register(4), 0b0110);
}

#[test]
fn add_immediate_wraps_without_flag() {
    let mut core = machine(&[0x6F, 0x07, 0x60, 0xF0, 0x70, 0x20]);
    for _ in 0..3 {
        step(&mut core);
    }
    assert_eq!(core.register(0), 0x10);
    assert_eq!(core.register(0xF), 0x07);
}

#[test]
fn call_then_return_round_trip() {
    let mut program = vec![0u8; 0x102];
    program[0] = 0x23;
    program[1] = 0x00;
    program[0x100] = 0x00;
    program[0x101] = 0xEE;
    let mut core = machine(&program);
    step(&mut core);
    assert_eq!(core.pc, 0x300);
    assert_eq!(core.sp, 1);
    step(&mut core);
    assert_eq!(core.pc, 0x202);
    assert_eq!(core.sp, 0);
}

#[test]
fn jump_sets_pc() {
    let mut core = machine(&[0x1A, 0xBC]);
    step(&mut core);
    assert_eq!(core.pc, 0xABC);
}

#[test]
fn skips_on_boundary_values() {
    // 3xkk with V0 = 0xFF: equal to 0xFF skips, differs from 0x00 does not.
    let mut eq = machine(&[0x60, 0xFF, 0x30, 0xFF]);
    step(&mut eq);
    step(&mut eq);
    assert_eq!(eq.pc, 0x206);
    let mut ne = machine(&[0x60, 0xFF, 0x30, 0x00]);
    step(&mut ne);
    step(&mut ne);
    assert_eq!(ne.pc, 0x204);
    // 4xkk with V0 = 0x00.
    let mut a = machine(&[0x40, 0x00]);
    step(&mut a);
    assert_eq!(a.pc, 0x202);
    let mut b = machine(&[0x40, 0xFF]);
    step(&mut b);
    assert_eq!(b.pc, 0x204);
    // 5xy0 and 9xy0 with V0 = V1 = 0.
    let mut c = machine(&[0x50, 0x10]);
    step(&mut c);
    assert_eq!(c.pc, 0x204);
    let mut d = machine(&[0x90, 0x10]);
    step(&mut d);
    assert_eq!(d.pc, 0x202);
    // 9xy0 with V1 = 0xFF.
    let mut e = machine(&[0x61, 0xFF, 0x90, 0x10]);
    step(&mut e);
    step(&mut e);
    assert_eq!(e.pc, 0x206);
}

#[test]
fn sprite_wraps_at_both_edges() {
    // I = 0x300 holds four rows of 0xFF; V0 = 60, V1 = 30; D014 twice.
    let mut program = vec![0u8; 0x104];
    program[0..10].copy_from_slice(&[0xA3, 0x00, 0x60, 60, 0x61, 30, 0xD0, 0x14, 0xD0, 0x14]);
    for i in 0..4 {
        program[0x100 + i] = 0xFF;
    }
    let mut core = machine(&program);
    for _ in 0..4 {
        step(&mut core);
    }
    assert!(core.display_dirty());
    assert_eq!(core.register(0xF), 0);
    assert_eq!(lit_pixels(&core), 32);
    for &y in &[30usize, 31, 0, 1] {
        for &x in &[60usize, 61, 62, 63, 0, 1, 2, 3] {
            assert!(core.pixel(x, y));
        }
    }
    assert!(!core.pixel(4, 0));
    assert!(!core.pixel(59, 30));
    assert!(!core.pixel(0, 2));
    step(&mut core);
    assert_eq!(core.register(0xF), 1);
    assert_eq!(lit_pixels(&core), 0);
}

#[test]
fn sprite_without_collision_keeps_flag_clear() {
    // Draw the glyph for 0 at (0,0), then the glyph for 1 at (8,0).
    let mut core = machine(&[0x60, 0x00, 0xF0, 0x29, 0xD1, 0x15, 0x62, 0x01, 0xF2, 0x29, 0x63, 0x08, 0xD3, 0x15]);
    for _ in 0..7 {
        step(&mut core);
    }
    assert_eq!(core.register(0xF), 0);
    assert!(core.pixel(0, 0));
    assert!(!core.pixel(4, 0));
    assert!(core.pixel(10, 0));
}

#[test]
fn key_press_consumed_once() {
    let mut core = machine(&[0x60, 0x05, 0xE0, 0x9E, 0x00, 0x00, 0xE0, 0x9E]);
    step(&mut core);
    core.set_key(5, true);
    assert!(core.get_key(5));
    step(&mut core);
    assert_eq!(core.pc, 0x206);
    assert!(!core.get_key(5));
    step(&mut core);
    assert_eq!(core.pc, 0x208);
}

#[test]
fn skip_if_not_pressed_consumes_press() {
    let mut core = machine(&[0x60, 0x03, 0xE0, 0xA1, 0xE0, 0xA1]);
    step(&mut core);
    core.set_key(3, true);
    step(&mut core);
    assert_eq!(core.pc, 0x204);
    assert!(!core.get_key(3));
    step(&mut core);
    assert_eq!(core.pc, 0x208);
}

#[test]
fn key_out_of_range_is_an_error() {
    let mut core = machine(&[0x60, 0x10, 0xE0, 0x9E]);
    step(&mut core);
    assert_eq!(core.run_next_with(0), Err(VmError::KeyOutOfRange(0x10)));
    assert_eq!(core.pc, 0x202);
}

#[test]
fn bcd_of_157() {
    let mut core = machine(&[0x60, 157, 0xA3, 0x00, 0xF0, 0x33]);
    for _ in 0..3 {
        step(&mut core);
    }
    assert_eq!(core.memory_at(0x300), 1);
    assert_eq!(core.memory_at(0x301), 5);
    assert_eq!(core.memory_at(0x302), 7);
}

#[test]
fn font_address_of_a() {
    let mut core = machine(&[0x60, 0x0A, 0xF0, 0x29]);
    step(&mut core);
    step(&mut core);
    assert_eq!(core.i_register, 50);
    let glyph: Vec<u8> = (50..55).map(|a| core.memory_at(a)).collect();
    assert_eq!(glyph, vec![0xF0, 0x90, 0xF0, 0x90, 0x90]);
}

#[test]
fn register_dump_and_load() {
    let mut core = machine(&[
        0x60, 0x11, 0x61, 0x22, 0x62, 0x33, 0xA3, 0x00, 0xF1, 0x55, 0x60, 0x00, 0x61, 0x00, 0x62,
        0x00, 0xF2, 0x65,
    ]);
    for _ in 0..5 {
        step(&mut core);
    }
    assert_eq!(core.memory_at(0x300), 0x11);
    assert_eq!(core.memory_at(0x301), 0x22);
    assert_eq!(core.memory_at(0x302), 0);
    for _ in 0..4 {
        step(&mut core);
    }
    assert_eq!(core.register(0), 0x11);
    assert_eq!(core.register(1), 0x22);
    assert_eq!(core.register(2), 0);
}

#[test]
fn index_register_arithmetic() {
    let mut core = machine(&[0xAF, 0xFF, 0x60, 0x02, 0xF0, 0x1E]);
    for _ in 0..3 {
        step(&mut core);
    }
    assert_eq!(core.i_register, 0x1001);
}

#[test]
fn timers_move_through_registers() {
    let mut core = machine(&[0x60, 0x09, 0xF0, 0x15, 0xF0, 0x18, 0xF1, 0x07]);
    for _ in 0..4 {
        step(&mut core);
    }
    assert_eq!(core.delay_timer, 9);
    assert_eq!(core.sound_timer, 9);
    assert_eq!(core.register(1), 9);
}

#[test]
fn timers_tick_once_per_period_and_stop_at_zero() {
    let mut core = machine(&[0x60, 0x01, 0xF0, 0x15]);
    step(&mut core);
    step(&mut core);
    assert!(!core.tick_timers(16));
    assert_eq!(core.delay_timer, 1);
    assert!(core.tick_timers(17));
    assert_eq!(core.delay_timer, 0);
    assert!(core.tick_timers(100));
    assert_eq!(core.delay_timer, 0);
    assert_eq!(core.sound_timer, 0);
}

#[test]
fn random_byte_is_masked() {
    let mut core = machine(&[0xC0, 0x0F, 0xC1, 0x00]);
    core.run_next_with(0xAB).unwrap();
    assert_eq!(core.register(0), 0x0B);
    core.run_next().unwrap();
    assert_eq!(core.register(1), 0);
    let mut again = machine(&[0xC0, 0x0F]);
    again.run_next().unwrap();
    assert!(again.register(0) <= 0x0F);
    assert_eq!(again.pc, 0x202);
}

#[test]
fn unknown_opcodes_are_errors() {
    for &op in &[0x0123u16, 0x01E0, 0x5121, 0x8008, 0x800F, 0x9AB1, 0xB123, 0xE000, 0xF0FF] {
        let mut core = machine(&[(op >> 8) as u8, op as u8]);
        assert_eq!(core.run_next_with(0), Err(VmError::UnknownOpcode(op)));
        assert_eq!(core.pc, PROGRAM_START);
    }
}

#[test]
fn return_on_empty_stack_underflows() {
    let mut core = machine(&[0x00, 0xEE]);
    assert_eq!(core.run_next_with(0), Err(VmError::StackUnderflow));
    assert_eq!(core.pc, PROGRAM_START);
}

#[test]
fn deep_calls_overflow() {
    // 2200 calls itself forever.
    let mut core = machine(&[0x22, 0x00]);
    for depth in 1..16 {
        step(&mut core);
        assert_eq!(core.sp, depth);
    }
    assert_eq!(core.run_next_with(0), Err(VmError::StackOverflow));
    assert_eq!(core.sp, 15);
}

#[test]
fn memory_out_of_bounds_is_an_error() {
    let mut core = machine(&[0xF0, 0x33]);
    core.i_register = (RAM_SIZE - 2) as u16;
    assert_eq!(core.run_next_with(0), Err(VmError::MemoryOutOfBounds((RAM_SIZE - 2) as u16)));
    assert_eq!(core.pc, PROGRAM_START);
    let mut draw = machine(&[0xD0, 0x05]);
    draw.i_register = (RAM_SIZE - 4) as u16;
    assert_eq!(draw.run_next_with(0), Err(VmError::MemoryOutOfBounds((RAM_SIZE - 4) as u16)));
    assert_eq!(lit_pixels(&draw), 0);
}

#[test]
fn pc_past_memory_is_an_error() {
    let mut core = machine(&[]);
    core.pc = RAM_SIZE - 1;
    assert_eq!(core.run_next_with(0), Err(VmError::PcOutOfBounds(RAM_SIZE - 1)));
}

#[test]
fn clear_then_jump_forever() {
    let mut core = machine(&[0x00, 0xE0, 0x12, 0x02]);
    step(&mut core);
    assert!(core.display_dirty());
    core.mark_display_consumed();
    for _ in 0..1000 {
        step(&mut core);
        assert!(!core.display_dirty());
        assert_eq!(core.pc, 0x202);
    }
    assert_eq!(lit_pixels(&core), 0);
}

#[test]
fn keyboard_layout() {
    assert_eq!(key_action('q'), KeyAction::Quit);
    assert_eq!(key_action('2'), KeyAction::Press(0));
    assert_eq!(key_action('w'), KeyAction::Press(4));
    assert_eq!(key_action('f'), KeyAction::Press(0xA));
    assert_eq!(key_action('b'), KeyAction::Press(0xF));
    assert_eq!(key_action('z'), KeyAction::Ignore);
}
