use chip8::{CapacityError, Chip8, Fault, Status};

fn load(rom: Vec<u8>) -> Chip8 {
    let mut c = Chip8::new();
    c.load_game(&rom).expect("rom fits");
    c
}

const FONT: [u8; 80] = [
    0xF0, 0x90, 0x90, 0x90, 0xF0, // 0
    0x20, 0x60, 0x20, 0x20, 0x70, // 1
    0xF0, 0x10, 0xF0, 0x80, 0xF0, // 2
    0xF0, 0x10, 0xF0, 0x10, 0xF0, // 3
    0x90, 0x90, 0xF0, 0x10, 0x10, // 4
    0xF0, 0x80, 0xF0, 0x10, 0xF0, // 5
    0xF0, 0x80, 0xF0, 0x90, 0xF0, // 6
    0xF0, 0x10, 0x20, 0x40, 0x40, // 7
    0xF0, 0x90, 0xF0, 0x90, 0xF0, // 8
    0xF0, 0x90, 0xF0, 0x10, 0xF0, // 9
    0xF0, 0x90, 0xF0, 0x90, 0x90, // A
    0xE0, 0x90, 0xE0, 0x90, 0xE0, // B
    0xF0, 0x80, 0x80, 0x80, 0xF0, // C
    0xE0, 0x90, 0x90, 0x90, 0xE0, // D
    0xF0, 0x80, 0xF0, 0x80, 0xF0, // E
    0xF0, 0x80, 0xF0, 0x80, 0x80, // F
];

#[test]
fn test_load_game() {
    let mut c = Chip8::new();
    c.load_game(&vec![0x60, 0x05]).expect("rom fits");
    c.emulate_cycle();
    assert_eq!(c.register(0), 0x05);
}

#[test]
fn font_installed_on_construction() {
    let c = Chip8::new();
    for i in 0..80 {
        assert_eq!(c.memory_byte(i), FONT[i]);
    }
    for i in 80..4096 {
        assert_eq!(c.memory_byte(i), 0);
    }
    assert_eq!(c.pc(), 0x200);
    assert_eq!(c.stack_depth(), 0);
    assert_eq!(c.status(), Status::Running);
    assert!(!c.draw_flag());
}

#[test]
fn font_survives_rom_load() {
    let c = load(vec![0xAA; 3584]);
    for i in 0..80 {
        assert_eq!(c.memory_byte(i), FONT[i]);
    }
}

#[test]
fn rom_placed_at_program_origin() {
    let rom: Vec<u8> = (0..200u16).map(|i| (i % 251) as u8).collect();
    let c = load(rom.clone());
    for i in 0..rom.len() {
        assert_eq!(c.memory_byte(512 + i), rom[i]);
    }
    assert_eq!(c.memory_byte(512 + rom.len()), 0);
}

#[test]
fn rom_of_maximum_size_is_accepted() {
    let mut c = Chip8::new();
    assert_eq!(c.load_game(&vec![0x7E; 3584]), Ok(()));
    assert_eq!(c.memory_byte(4095), 0x7E);
}

#[test]
fn oversized_rom_is_rejected_whole() {
    let mut c = Chip8::new();
    assert_eq!(c.load_game(&vec![0x7E; 3585]), Err(CapacityError));
    for i in 512..4096 {
        assert_eq!(c.memory_byte(i), 0);
    }
    assert_eq!(c.status(), Status::Running);
}

#[test]
fn cls_clears_framebuffer_and_signals_redraw() {
    // Draw glyph 0 at (0, 0), then clear the screen.
    let mut c = load(vec![0x60, 0x00, 0xF0, 0x29, 0xD0, 0x05, 0x00, 0xE0]);
    for _ in 0..3 {
        c.emulate_cycle();
    }
    assert_eq!(c.pixel(0), 1);
    c.clear_draw_flag();
    c.emulate_cycle();
    for i in 0..2048 {
        assert_eq!(c.pixel(i), 0);
    }
    assert!(c.draw_flag());
    assert_eq!(c.pc(), 0x208);
    assert_eq!(c.status(), Status::Running);
}

#[test]
fn call_then_ret_returns_past_the_call() {
    // CALL 0x300; at 0x300, RET.
    let mut rom = vec![0u8; 0x102];
    rom[0] = 0x23;
    rom[1] = 0x00;
    rom[0x100] = 0x00;
    rom[0x101] = 0xEE;
    let mut c = load(rom);
    assert_eq!(c.stack_depth(), 0);
    c.emulate_cycle();
    assert_eq!(c.pc(), 0x300);
    assert_eq!(c.stack_depth(), 1);
    c.emulate_cycle();
    assert_eq!(c.pc(), 0x202);
    assert_eq!(c.stack_depth(), 0);
    assert_eq!(c.status(), Status::Running);
}

#[test]
fn skip_if_equal_taken_and_not_taken() {
    // V0 = 5; skip if V0 == 5.
    let mut c = load(vec![0x60, 0x05, 0x30, 0x05]);
    c.emulate_cycle();
    c.emulate_cycle();
    assert_eq!(c.pc(), 0x206);
    // V0 = 5; skip if V0 == 6: not taken.
    let mut c = load(vec![0x60, 0x05, 0x30, 0x06]);
    c.emulate_cycle();
    c.emulate_cycle();
    assert_eq!(c.pc(), 0x204);
}

#[test]
fn skip_if_not_equal_and_register_compares() {
    let mut c = load(vec![0x60, 0x05, 0x40, 0x06]);
    c.emulate_cycle();
    c.emulate_cycle();
    assert_eq!(c.pc(), 0x206);
    // V0 = 5, V1 = 5; 5xy0 skips; 9xy0 does not.
    let mut c = load(vec![0x60, 0x05, 0x61, 0x05, 0x50, 0x10]);
    for _ in 0..3 {
        c.emulate_cycle();
    }
    assert_eq!(c.pc(), 0x208);
    let mut c = load(vec![0x60, 0x05, 0x61, 0x05, 0x90, 0x10]);
    for _ in 0..3 {
        c.emulate_cycle();
    }
    assert_eq!(c.pc(), 0x206);
}

#[test]
fn add_sets_carry_flag() {
    // V0 = 0xFF, V1 = 0x01; V0 += V1.
    let mut c = load(vec![0x60, 0xFF, 0x61, 0x01, 0x80, 0x14]);
    for _ in 0..3 {
        c.emulate_cycle();
    }
    assert_eq!(c.register(0xF), 1);
    assert_eq!(c.register(0), 0x00);
}

#[test]
fn add_without_carry_clears_flag() {
    let mut c = load(vec![0x60, 0x10, 0x61, 0x01, 0x80, 0x14]);
    for _ in 0..3 {
        c.emulate_cycle();
    }
    assert_eq!(c.register(0xF), 0);
    assert_eq!(c.register(0), 0x11);
}

#[test]
fn sub_sets_borrow_flag_and_wraps() {
    // V0 = 0x01, V1 = 0x02; V0 -= V1: borrow, so VF = 0 and V0 wraps.
    let mut c = load(vec![0x60, 0x01, 0x61, 0x02, 0x80, 0x15]);
    for _ in 0..3 {
        c.emulate_cycle();
    }
    assert_eq!(c.register(0xF), 0);
    assert_eq!(c.register(0), 0xFF);
}

#[test]
fn sub_reverse_and_no_borrow() {
    // V0 = 5, V1 = 9; V0 = V1 - V0 = 4, VF = 1 (no borrow).
    let mut c = load(vec![0x60, 0x05, 0x61, 0x09, 0x80, 0x17]);
    for _ in 0..3 {
        c.emulate_cycle();
    }
    assert_eq!(c.register(0xF), 1);
    assert_eq!(c.register(0), 4);
}

#[test]
fn shifts_capture_the_moved_bit() {
    let mut c = load(vec![0x60, 0x05, 0x80, 0x06]);
    c.emulate_cycle();
    c.emulate_cycle();
    assert_eq!(c.register(0xF), 1);
    assert_eq!(c.register(0), 2);
    let mut c = load(vec![0x61, 0x81, 0x81, 0x0E]);
    c.emulate_cycle();
    c.emulate_cycle();
    assert_eq!(c.register(0xF), 1);
    assert_eq!(c.register(1), 0x02);
}

#[test]
fn bitwise_ops() {
    let mut c = load(vec![0x60, 0x0C, 0x61, 0x0A, 0x80, 0x11]);
    for _ in 0..3 {
        c.emulate_cycle();
    }
    assert_eq!(c.register(0), 0x0E);
    let mut c = load(vec![0x60, 0x0C, 0x61, 0x0A, 0x80, 0x12]);
    for _ in 0..3 {
        c.emulate_cycle();
    }
    assert_eq!(c.register(0), 0x08);
    let mut c = load(vec![0x60, 0x0C, 0x61, 0x0A, 0x80, 0x13]);
    for _ in 0..3 {
        c.emulate_cycle();
    }
    assert_eq!(c.register(0), 0x06);
}

#[test]
fn add_immediate_wraps_and_leaves_flag_alone() {
    let mut c = load(vec![0x60, 0xFF, 0x70, 0x02]);
    c.emulate_cycle();
    c.emulate_cycle();
    assert_eq!(c.register(0), 0x01);
    assert_eq!(c.register(0xF), 0);
}

#[test]
fn jump_and_jump_with_offset() {
    let mut c = load(vec![0x12, 0x34]);
    c.emulate_cycle();
    assert_eq!(c.pc(), 0x234);
    // V0 = 4; jump to 0x300 + V0 (+ 2, the documented extra advance).
    let mut c = load(vec![0x60, 0x04, 0xB3, 0x00]);
    c.emulate_cycle();
    c.emulate_cycle();
    assert_eq!(c.pc(), 0x306);
}

#[test]
fn index_register_ops() {
    let mut c = load(vec![0xA1, 0x23, 0x60, 0x10, 0xF0, 0x1E]);
    for _ in 0..3 {
        c.emulate_cycle();
    }
    assert_eq!(c.index_register(), 0x133);
    // Font sprite base: glyph 7 lives at 7 * 5.
    let mut c = load(vec![0x60, 0x07, 0xF0, 0x29]);
    c.emulate_cycle();
    c.emulate_cycle();
    assert_eq!(c.index_register(), 35);
}

#[test]
fn random_register_masks_the_supplied_byte() {
    let mut c = load(vec![0xC0, 0xF0]);
    c.step_with_random(0xAB);
    assert_eq!(c.register(0), 0xA0);
    assert_eq!(c.pc(), 0x202);
}

#[test]
fn sprite_draw_collision_only_on_lit_pixels() {
    // I = 0x20A (one row: 0x80), draw twice at (0, 0).
    let mut c = load(vec![
        0x60, 0x00, 0x61, 0x00, 0xA2, 0x0A, 0xD0, 0x11, 0xD0, 0x11, 0x80,
    ]);
    for _ in 0..4 {
        c.emulate_cycle();
    }
    assert_eq!(c.register(0xF), 0, "first draw cannot collide");
    assert_eq!(c.pixel(0), 1);
    assert!(c.draw_flag());
    c.emulate_cycle();
    assert_eq!(c.register(0xF), 1, "second draw hits the lit pixel");
    assert_eq!(c.pixel(0), 0, "pixel is XORed back off");
}

#[test]
fn sprite_rows_past_framebuffer_are_dropped() {
    // Draw at (0, 31): only the first row fits, the second lands past the end.
    let mut c = load(vec![
        0x60, 0x00, 0x61, 0x1F, 0xA2, 0x0A, 0xD0, 0x12, 0x80, 0x80, 0x80, 0x80,
    ]);
    for _ in 0..4 {
        c.emulate_cycle();
    }
    assert_eq!(c.pixel(31 * 64), 1);
    assert_eq!(c.register(0xF), 0);
    assert_eq!(c.status(), Status::Running);
}

#[test]
fn draw_glyph_renders_font_rows() {
    // I = glyph 0; draw its 5 rows at (0, 0): 0xF0 lights pixels 0..4 of row 0.
    let mut c = load(vec![0x60, 0x00, 0xF0, 0x29, 0xD0, 0x05]);
    for _ in 0..3 {
        c.emulate_cycle();
    }
    for x in 0..4 {
        assert_eq!(c.pixel(x), 1);
    }
    assert_eq!(c.pixel(4), 0);
}

#[test]
fn key_skip_instructions() {
    let mut c = load(vec![0x60, 0x0A, 0xE0, 0x9E]);
    c.set_key(0xA, true);
    c.emulate_cycle();
    c.emulate_cycle();
    assert_eq!(c.pc(), 0x206);
    let mut c = load(vec![0x60, 0x0A, 0xE0, 0xA1]);
    c.emulate_cycle();
    c.emulate_cycle();
    assert_eq!(c.pc(), 0x206, "key not pressed: skip-if-up taken");
}

#[test]
fn key_wait_suspends_until_a_key_arrives() {
    let mut c = load(vec![0xF0, 0x0A]);
    c.emulate_cycle();
    assert_eq!(c.status(), Status::AwaitingKey(0));
    assert_eq!(c.pc(), 0x200);
    c.emulate_cycle();
    assert_eq!(c.status(), Status::AwaitingKey(0), "still waiting");
    c.set_key(7, true);
    c.emulate_cycle();
    assert_eq!(c.register(0), 7);
    assert_eq!(c.pc(), 0x202);
    assert_eq!(c.status(), Status::Running);
}

#[test]
fn key_wait_resolves_immediately_when_already_pressed() {
    let mut c = load(vec![0xF1, 0x0A]);
    c.set_key(3, true);
    c.emulate_cycle();
    assert_eq!(c.register(1), 3);
    assert_eq!(c.pc(), 0x202);
    assert_eq!(c.status(), Status::Running);
}

#[test]
fn timers_load_store_and_tick_toward_zero() {
    let mut c = load(vec![0x60, 0x05, 0xF0, 0x15, 0xF0, 0x18, 0xF1, 0x07]);
    for _ in 0..3 {
        c.emulate_cycle();
    }
    assert_eq!(c.delay_timer(), 5);
    assert_eq!(c.sound_timer(), 5);
    c.tick_timers();
    c.tick_timers();
    assert_eq!(c.delay_timer(), 3);
    assert_eq!(c.sound_timer(), 3);
    c.emulate_cycle();
    assert_eq!(c.register(1), 3, "delay timer read into V1");
    for _ in 0..5 {
        c.tick_timers();
    }
    assert_eq!(c.delay_timer(), 0, "timers floor at zero");
    assert_eq!(c.sound_timer(), 0);
}

#[test]
fn bcd_store_writes_three_digits() {
    // V0 = 155; I = 0x300; BCD store.
    let mut c = load(vec![0x60, 0x9B, 0xA3, 0x00, 0xF0, 0x33]);
    for _ in 0..3 {
        c.emulate_cycle();
    }
    assert_eq!(c.memory_byte(0x300), 1);
    assert_eq!(c.memory_byte(0x301), 5);
    assert_eq!(c.memory_byte(0x302), 5);
}

#[test]
fn register_block_store_and_load() {
    let mut c = load(vec![
        0x60, 0x11, 0x61, 0x22, 0xA3, 0x00, 0xF1, 0x55, 0x62, 0x33, 0xF2, 0x65,
    ]);
    for _ in 0..4 {
        c.emulate_cycle();
    }
    assert_eq!(c.memory_byte(0x300), 0x11);
    assert_eq!(c.memory_byte(0x301), 0x22);
    assert_eq!(c.memory_byte(0x302), 0);
    assert_eq!(c.index_register(), 0x300, "I itself is unchanged");
    c.emulate_cycle();
    c.emulate_cycle();
    assert_eq!(c.register(2), 0, "V2 reloaded from untouched memory");
    assert_eq!(c.register(0), 0x11);
    assert_eq!(c.register(1), 0x22);
}

#[test]
fn end_to_end_set_add_cls() {
    let mut c = load(vec![0x60, 0x05, 0x70, 0x03, 0x00, 0xE0]);
    for _ in 0..3 {
        c.emulate_cycle();
    }
    assert_eq!(c.register(0), 8);
    for i in 0..2048 {
        assert_eq!(c.pixel(i), 0);
    }
    assert!(c.draw_flag());
    assert_eq!(c.pc(), 0x206);
}

#[test]
fn unknown_opcode_halts_instead_of_looping() {
    let mut c = load(vec![0x00, 0x00]);
    c.emulate_cycle();
    assert_eq!(c.status(), Status::Halted(Fault::UnknownOpcode));
    assert_eq!(c.pc(), 0x200);
    c.emulate_cycle();
    assert_eq!(c.status(), Status::Halted(Fault::UnknownOpcode), "halt is terminal");
    assert_eq!(c.pc(), 0x200);
}

#[test]
fn unknown_subcodes_halt() {
    for rom in [
        vec![0x50, 0x11],
        vec![0x80, 0x18],
        vec![0x90, 0x12],
        vec![0xE0, 0x00],
        vec![0xF0, 0x00],
        vec![0x00, 0xE1],
    ] {
        let mut c = load(rom);
        c.emulate_cycle();
        assert_eq!(c.status(), Status::Halted(Fault::UnknownOpcode));
    }
}

#[test]
fn ret_on_empty_stack_is_a_fault() {
    let mut c = load(vec![0x00, 0xEE]);
    c.emulate_cycle();
    assert_eq!(c.status(), Status::Halted(Fault::OutOfBounds));
}

#[test]
fn call_past_stack_capacity_is_a_fault() {
    // CALL 0x200 calls itself forever; the 17th push must fault.
    let mut c = load(vec![0x22, 0x00]);
    for _ in 0..16 {
        c.emulate_cycle();
        assert_eq!(c.status(), Status::Running);
    }
    assert_eq!(c.stack_depth(), 16);
    c.emulate_cycle();
    assert_eq!(c.status(), Status::Halted(Fault::OutOfBounds));
    assert_eq!(c.stack_depth(), 16);
}

#[test]
fn sprite_read_past_memory_is_a_fault() {
    let mut c = load(vec![0xAF, 0xFF, 0xD0, 0x02]);
    c.emulate_cycle();
    c.emulate_cycle();
    assert_eq!(c.status(), Status::Halted(Fault::OutOfBounds));
}

#[test]
fn key_skip_with_register_past_keypad_is_a_fault() {
    let mut c = load(vec![0x60, 0x10, 0xE0, 0x9E]);
    c.emulate_cycle();
    c.emulate_cycle();
    assert_eq!(c.status(), Status::Halted(Fault::OutOfBounds));
}

#[test]
fn redraw_signal_clears_and_framebuffer_view_matches() {
    let mut c = load(vec![0x00, 0xE0]);
    c.emulate_cycle();
    assert!(c.draw_flag());
    c.clear_draw_flag();
    assert!(!c.draw_flag());
    let fb = c.framebuffer();
    assert_eq!(fb.len(), 2048);
    assert!(fb.iter().all(|&p| p == 0));
}

#[test]
fn fetch_past_memory_is_a_fault() {
    let mut c = load(vec![0x1F, 0xFF]);
    c.emulate_cycle();
    assert_eq!(c.pc(), 0xFFF);
    c.emulate_cycle();
    assert_eq!(c.status(), Status::Halted(Fault::OutOfBounds));
    assert_eq!(c.pc(), 0xFFF);
}

#[test]
fn bcd_store_past_memory_is_a_fault() {
    let mut c = load(vec![0xAF, 0xFE, 0xF0, 0x33]);
    c.emulate_cycle();
    c.emulate_cycle();
    assert_eq!(c.status(), Status::Halted(Fault::OutOfBounds));
}

#[test]
fn register_store_past_memory_is_a_fault() {
    let mut c = load(vec![0xAF, 0xFE, 0xF3, 0x55]);
    c.emulate_cycle();
    c.emulate_cycle();
    assert_eq!(c.status(), Status::Halted(Fault::OutOfBounds));
}

#[test]
fn register_store_at_memory_edge_succeeds() {
    let mut c = load(vec![0x60, 0x77, 0x61, 0x88, 0xAF, 0xFE, 0xF1, 0x55]);
    for _ in 0..4 {
        c.emulate_cycle();
    }
    assert_eq!(c.status(), Status::Running);
    assert_eq!(c.memory_byte(4094), 0x77);
    assert_eq!(c.memory_byte(4095), 0x88);
}
