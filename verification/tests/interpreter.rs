use chip8::{Chip8, Event, Input, Key, Quirks, DISPLAY_HEIGHT, DISPLAY_WIDTH};

fn chip8_with(quirks: Quirks) -> Chip8 {
    Chip8::new(quirks)
}

fn default_chip8() -> Chip8 {
    Chip8::default()
}

/// Runs an opcode that needs no random byte.
fn run(c: &mut Chip8, opcode: u16) {
    assert!(c.can_execute(opcode), "opcode {:#06X} cannot run", opcode);
    c.execute_opcode_with_random(opcode, 0);
}

fn set_reg(c: &mut Chip8, x: u8, value: u8) {
    run(c, 0x6000 | ((x as u16) << 8) | value as u16);
}

fn set_i(c: &mut Chip8, address: u16) {
    run(c, 0xA000 | address);
}

fn pixel(c: &Chip8, x: usize, y: usize) -> bool {
    c.display()[x + y * DISPLAY_WIDTH]
}

fn lit_count(c: &Chip8) -> usize {
    c.display().iter().filter(|p| **p).count()
}

#[test]
fn new_interpreter_starts_at_0x200_with_font_loaded() {
    let c = default_chip8();
    assert_eq!(c.program_counter(), 0x200);
    assert_eq!(c.address_register(), 0);
    assert_eq!(c.stack_depth(), 0);
    for x in 0..16 {
        assert_eq!(c.register(x), 0);
    }
    // First row of "0" and last row of "F".
    assert_eq!(c.memory_at(0), 0xF0);
    assert_eq!(c.memory_at(5), 0x20);
    assert_eq!(c.memory_at(79), 0x80);
    assert_eq!(c.memory_at(80), 0x00);
    assert_eq!(c.display().len(), DISPLAY_WIDTH * DISPLAY_HEIGHT);
    assert_eq!(lit_count(&c), 0);
    assert!(!c.should_redraw());
    assert!(!c.waiting_for_keypress());
    assert!(!c.should_beep());
}

#[test]
fn default_quirks_wrap_and_keep_flag() {
    let q = Quirks::default();
    assert!(q.draw_wrap);
    assert!(!q.vf_reset);
}

#[test]
fn load_copies_rom_at_0x200() {
    let mut c = default_chip8();
    run(&mut c, 0x1300);
    c.load(&[0x12, 0x34, 0x56]);
    assert_eq!(c.program_counter(), 0x200);
    assert_eq!(c.memory_at(0x200), 0x12);
    assert_eq!(c.memory_at(0x201), 0x34);
    assert_eq!(c.memory_at(0x202), 0x56);
    assert_eq!(c.memory_at(0x203), 0x00);
    assert_eq!(c.fetch_opcode(), 0x1234);
}

#[test]
fn load_truncates_oversized_rom() {
    let mut c = default_chip8();
    let rom: Vec<u8> = (0..4000u32).map(|k| (k % 251) as u8 + 1).collect();
    c.load(&rom);
    assert_eq!(c.memory_at(0x200), rom[0]);
    assert_eq!(c.memory_at(0xFFF), rom[3583]);
    // The font below 0x200 is untouched.
    assert_eq!(c.memory_at(0), 0xF0);
}

#[test]
fn load_keeps_memory_after_short_rom() {
    let mut c = default_chip8();
    c.load(&[0xAA, 0xBB, 0xCC, 0xDD]);
    c.load(&[0x11]);
    assert_eq!(c.memory_at(0x200), 0x11);
    assert_eq!(c.memory_at(0x201), 0xBB);
}

#[test]
fn op_0nnn_is_passed_over() {
    let mut c = default_chip8();
    run(&mut c, 0x0123);
    assert_eq!(c.program_counter(), 0x202);
}

#[test]
fn op_00e0_clears_display() {
    let mut c = default_chip8();
    set_i(&mut c, 0);
    run(&mut c, 0xD005);
    assert!(lit_count(&c) > 0);
    run(&mut c, 0x00E0);
    assert_eq!(lit_count(&c), 0);
    assert_eq!(c.program_counter(), 0x206);
}

#[test]
fn op_2nnn_and_00ee_call_and_return() {
    let mut c = default_chip8();
    run(&mut c, 0x2400);
    assert_eq!(c.program_counter(), 0x400);
    assert_eq!(c.stack_depth(), 1);
    run(&mut c, 0x2600);
    assert_eq!(c.stack_depth(), 2);
    run(&mut c, 0x00EE);
    assert_eq!(c.program_counter(), 0x402);
    assert_eq!(c.stack_depth(), 1);
    run(&mut c, 0x00EE);
    assert_eq!(c.program_counter(), 0x202);
    assert_eq!(c.stack_depth(), 0);
}

#[test]
fn return_with_empty_stack_cannot_run() {
    let c = default_chip8();
    assert!(!c.can_execute(0x00EE));
}

#[test]
fn call_with_full_stack_cannot_run() {
    let mut c = default_chip8();
    for _ in 0..16 {
        run(&mut c, 0x2200);
    }
    assert_eq!(c.stack_depth(), 16);
    assert!(!c.can_execute(0x2200));
}

#[test]
fn unknown_opcodes_cannot_run() {
    let c = default_chip8();
    for op in [0x5001u16, 0x8008, 0x900F, 0xE000, 0xF0FF, 0xF001] {
        assert!(!c.can_execute(op), "{:#06X}", op);
    }
}

#[test]
fn op_1nnn_jumps() {
    let mut c = default_chip8();
    run(&mut c, 0x1ABC);
    assert_eq!(c.program_counter(), 0xABC);
    run(&mut c, 0x1ABC);
    assert_eq!(c.program_counter(), 0xABC);
}

#[test]
fn op_3xnn_and_4xnn_skip() {
    let mut c = default_chip8();
    set_reg(&mut c, 3, 0x42);
    let pc = c.program_counter();
    run(&mut c, 0x3342);
    assert_eq!(c.program_counter(), pc + 4);
    run(&mut c, 0x3343);
    assert_eq!(c.program_counter(), pc + 6);
    run(&mut c, 0x4342);
    assert_eq!(c.program_counter(), pc + 8);
    run(&mut c, 0x4343);
    assert_eq!(c.program_counter(), pc + 12);
}

#[test]
fn op_5xy0_and_9xy0_skip() {
    let mut c = default_chip8();
    set_reg(&mut c, 1, 7);
    set_reg(&mut c, 2, 7);
    set_reg(&mut c, 3, 8);
    let pc = c.program_counter();
    run(&mut c, 0x5120);
    assert_eq!(c.program_counter(), pc + 4);
    run(&mut c, 0x5130);
    assert_eq!(c.program_counter(), pc + 6);
    run(&mut c, 0x9130);
    assert_eq!(c.program_counter(), pc + 10);
    run(&mut c, 0x9120);
    assert_eq!(c.program_counter(), pc + 12);
}

#[test]
fn op_7xnn_wraps_and_keeps_flag() {
    let mut c = default_chip8();
    set_reg(&mut c, 0xF, 9);
    set_reg(&mut c, 4, 250);
    run(&mut c, 0x740A);
    assert_eq!(c.register(4), 4);
    assert_eq!(c.register(0xF), 9);
}

#[test]
fn op_8xy0_to_8xy3() {
    let mut c = default_chip8();
    set_reg(&mut c, 1, 0b1100);
    set_reg(&mut c, 2, 0b1010);
    run(&mut c, 0x8310);
    assert_eq!(c.register(3), 0b1100);
    run(&mut c, 0x8321);
    assert_eq!(c.register(3), 0b1110);
    run(&mut c, 0x8312);
    assert_eq!(c.register(3), 0b1100);
    run(&mut c, 0x8323);
    assert_eq!(c.register(3), 0b0110);
}

#[test]
fn logic_ops_reset_flag_only_with_quirk() {
    let mut plain = chip8_with(Quirks { draw_wrap: true, vf_reset: false });
    set_reg(&mut plain, 0xF, 5);
    run(&mut plain, 0x8011);
    assert_eq!(plain.register(0xF), 5);

    let mut quirky = chip8_with(Quirks { draw_wrap: true, vf_reset: true });
    for op in [0x8011u16, 0x8012, 0x8013] {
        set_reg(&mut quirky, 0xF, 5);
        run(&mut quirky, op);
        assert_eq!(quirky.register(0xF), 0);
    }
}

#[test]
fn op_8xy4_sets_carry() {
    let mut c = default_chip8();
    set_reg(&mut c, 1, 200);
    set_reg(&mut c, 2, 100);
    run(&mut c, 0x8124);
    assert_eq!(c.register(1), 44);
    assert_eq!(c.register(0xF), 1);
    run(&mut c, 0x8124);
    assert_eq!(c.register(1), 144);
    assert_eq!(c.register(0xF), 0);
}

#[test]
fn op_8xy5_and_8xy7_set_no_borrow() {
    let mut c = default_chip8();
    set_reg(&mut c, 1, 10);
    set_reg(&mut c, 2, 3);
    run(&mut c, 0x8125);
    assert_eq!(c.register(1), 7);
    assert_eq!(c.register(0xF), 1);
    run(&mut c, 0x8215);
    assert_eq!(c.register(2), 252);
    assert_eq!(c.register(0xF), 0);
    set_reg(&mut c, 3, 5);
    set_reg(&mut c, 4, 9);
    run(&mut c, 0x8347);
    assert_eq!(c.register(3), 4);
    assert_eq!(c.register(0xF), 1);
    run(&mut c, 0x8437);
    assert_eq!(c.register(4), 251);
    assert_eq!(c.register(0xF), 0);
}

#[test]
fn shifts_write_flag_last() {
    let mut c = default_chip8();
    set_reg(&mut c, 2, 0b1000_0011);
    run(&mut c, 0x8126);
    assert_eq!(c.register(1), 0b0100_0001);
    assert_eq!(c.register(0xF), 1);
    run(&mut c, 0x812E);
    assert_eq!(c.register(1), 0b0000_0110);
    assert_eq!(c.register(0xF), 1);
    // With X = F, the flag wins.
    set_reg(&mut c, 2, 0b0000_0010);
    run(&mut c, 0x8F26);
    assert_eq!(c.register(0xF), 0);
}

#[test]
fn op_bnnn_jumps_with_offset() {
    let mut c = default_chip8();
    set_reg(&mut c, 0, 0x10);
    run(&mut c, 0xB300);
    assert_eq!(c.program_counter(), 0x310);
}

#[test]
fn op_cxnn_masks_random_byte() {
    let mut c = default_chip8();
    c.execute_opcode_with_random(0xC50F, 0xAB);
    assert_eq!(c.register(5), 0x0B);
    for _ in 0..20 {
        c.execute_opcode(0xC50F);
        assert_eq!(c.register(5) & 0xF0, 0);
    }
}

#[test]
fn draw_font_digit() {
    let mut c = default_chip8();
    // Digit 0 is F0 90 90 90 F0 at address 0.
    set_i(&mut c, 0);
    set_reg(&mut c, 1, 10);
    set_reg(&mut c, 2, 5);
    run(&mut c, 0xD125);
    assert_eq!(c.register(0xF), 0);
    for dx in 0..4 {
        assert!(pixel(&c, 10 + dx, 5));
        assert!(pixel(&c, 10 + dx, 9));
    }
    assert!(pixel(&c, 10, 6));
    assert!(!pixel(&c, 11, 6));
    assert!(pixel(&c, 13, 6));
    assert!(!pixel(&c, 14, 5));
    assert_eq!(lit_count(&c), 14);
}

#[test]
fn draw_twice_erases_and_reports_collision() {
    let mut c = default_chip8();
    set_i(&mut c, 0);
    run(&mut c, 0xD015);
    assert_eq!(c.register(0xF), 0);
    run(&mut c, 0xD015);
    assert_eq!(c.register(0xF), 1);
    assert_eq!(lit_count(&c), 0);
}

#[test]
fn draw_wraps_with_quirk() {
    let mut c = chip8_with(Quirks { draw_wrap: true, vf_reset: false });
    set_i(&mut c, 0);
    set_reg(&mut c, 1, 62);
    set_reg(&mut c, 2, 30);
    run(&mut c, 0xD125);
    // Row 0 of digit 0 is 1111: columns 62, 63, 0, 1 of row 30.
    assert!(pixel(&c, 62, 30));
    assert!(pixel(&c, 63, 30));
    assert!(pixel(&c, 0, 30));
    assert!(pixel(&c, 1, 30));
    // Rows 2 to 4 wrap to rows 0 to 2.
    assert!(pixel(&c, 62, 0));
    assert!(pixel(&c, 1, 2));
    assert_eq!(lit_count(&c), 14);
}

#[test]
fn draw_clips_without_quirk() {
    let mut c = chip8_with(Quirks { draw_wrap: false, vf_reset: false });
    set_i(&mut c, 0);
    set_reg(&mut c, 1, 62);
    set_reg(&mut c, 2, 30);
    run(&mut c, 0xD125);
    assert!(pixel(&c, 62, 30));
    assert!(pixel(&c, 63, 30));
    assert!(!pixel(&c, 0, 30));
    assert!(!pixel(&c, 62, 0));
    // Rows 30 and 31, columns 62 and 63: 1 1 / 1 0.
    assert_eq!(lit_count(&c), 3);
}

#[test]
fn draw_start_position_wraps() {
    let mut c = default_chip8();
    set_i(&mut c, 0);
    set_reg(&mut c, 1, 64 + 3);
    set_reg(&mut c, 2, 32 + 4);
    run(&mut c, 0xD121);
    assert!(pixel(&c, 3, 4));
    assert!(pixel(&c, 6, 4));
    assert!(!pixel(&c, 7, 4));
}

#[test]
fn draw_reads_position_from_vf_before_clearing_it() {
    let mut c = default_chip8();
    set_i(&mut c, 0);
    set_reg(&mut c, 0xF, 10);
    run(&mut c, 0xDF01);
    assert!(pixel(&c, 10, 0));
    assert!(pixel(&c, 13, 0));
    assert!(!pixel(&c, 0, 0));
    assert_eq!(c.register(0xF), 0);
    assert_eq!(c.program_counter(), 0x206);
}

#[test]
fn draw_near_end_of_memory_cannot_run() {
    let mut c = default_chip8();
    set_i(&mut c, 0xFFE);
    assert!(!c.can_execute(0xD003));
    assert!(c.can_execute(0xD002));
}

#[test]
fn keys_skip_instructions() {
    let mut c = default_chip8();
    set_reg(&mut c, 1, 0xA);
    let pc = c.program_counter();
    run(&mut c, 0xE19E);
    assert_eq!(c.program_counter(), pc + 2);
    c.register_input(Input::Down(Key::KeyA));
    assert!(c.key_down(Key::KeyA));
    run(&mut c, 0xE19E);
    assert_eq!(c.program_counter(), pc + 6);
    run(&mut c, 0xE1A1);
    assert_eq!(c.program_counter(), pc + 8);
    c.register_input(Input::Up(Key::KeyA));
    assert!(!c.key_down(Key::KeyA));
    run(&mut c, 0xE1A1);
    assert_eq!(c.program_counter(), pc + 12);
}

#[test]
fn key_skip_with_out_of_range_key_cannot_run() {
    let mut c = default_chip8();
    set_reg(&mut c, 1, 16);
    assert!(!c.can_execute(0xE19E));
    assert!(!c.can_execute(0xE1A1));
}

#[test]
fn fx0a_waits_for_press_and_release() {
    let mut c = default_chip8();
    c.load(&[0xF3, 0x0A, 0x12, 0x00]);
    c.execute_cycle();
    assert!(c.waiting_for_keypress());
    assert_eq!(c.program_counter(), 0x202);
    c.execute_cycle();
    assert_eq!(c.program_counter(), 0x202);
    assert!(!c.should_redraw());
    c.register_input(Input::Down(Key::Key7));
    assert_eq!(c.register(3), 7);
    assert!(c.waiting_for_keypress());
    c.register_input(Input::Up(Key::Key7));
    assert!(!c.waiting_for_keypress());
    c.execute_cycle();
    assert_eq!(c.program_counter(), 0x200);
}

#[test]
fn fx0a_ignores_release_of_key_held_before_wait() {
    let mut c = default_chip8();
    c.register_input(Input::Down(Key::Key5));
    c.load(&[0xF3, 0x0A, 0x12, 0x00]);
    c.execute_cycle();
    assert!(c.waiting_for_keypress());
    c.register_input(Input::Up(Key::Key5));
    assert!(c.waiting_for_keypress());
    assert_eq!(c.register(3), 0);
    c.register_input(Input::Down(Key::Key9));
    c.register_input(Input::Up(Key::Key9));
    assert!(!c.waiting_for_keypress());
    assert_eq!(c.register(3), 9);
}

#[test]
fn timers_count_down_and_beep() {
    let mut c = default_chip8();
    set_reg(&mut c, 1, 3);
    run(&mut c, 0xF115);
    run(&mut c, 0xF118);
    assert_eq!(c.delay_timer(), 3);
    assert_eq!(c.sound_timer(), 3);
    assert!(c.should_beep());
    c.update_timers();
    assert_eq!(c.delay_timer(), 2);
    assert!(c.should_beep());
    c.update_timers();
    assert!(!c.should_beep());
    c.update_timers();
    c.update_timers();
    assert_eq!(c.delay_timer(), 0);
    assert_eq!(c.sound_timer(), 0);
    run(&mut c, 0xF207);
    assert_eq!(c.register(2), 0);
}

#[test]
fn op_fx1e_adds_vx_to_i() {
    let mut c = default_chip8();
    set_i(&mut c, 0xFF0);
    set_reg(&mut c, 1, 0x20);
    run(&mut c, 0xF11E);
    assert_eq!(c.address_register(), 0x1010);
}

#[test]
fn op_fx29_points_at_font_digit() {
    let mut c = default_chip8();
    set_reg(&mut c, 1, 0xA);
    run(&mut c, 0xF129);
    assert_eq!(c.address_register(), 50);
    assert_eq!(c.memory_at(50), 0xF0);
    set_reg(&mut c, 1, 52);
    assert!(!c.can_execute(0xF129));
}

#[test]
fn op_fx33_stores_decimal_digits() {
    let mut c = default_chip8();
    set_i(&mut c, 0x300);
    set_reg(&mut c, 4, 234);
    run(&mut c, 0xF433);
    assert_eq!(c.memory_at(0x300), 2);
    assert_eq!(c.memory_at(0x301), 3);
    assert_eq!(c.memory_at(0x302), 4);
    assert_eq!(c.address_register(), 0x300);
}

#[test]
fn op_fx55_and_fx65_round_trip() {
    let mut c = default_chip8();
    for x in 0..4u8 {
        set_reg(&mut c, x, 10 + x);
    }
    set_i(&mut c, 0x300);
    run(&mut c, 0xF355);
    assert_eq!(c.address_register(), 0x304);
    assert_eq!(c.memory_at(0x300), 10);
    assert_eq!(c.memory_at(0x303), 13);
    assert_eq!(c.memory_at(0x304), 0);
    for x in 0..4u8 {
        set_reg(&mut c, x, 0);
    }
    set_i(&mut c, 0x300);
    run(&mut c, 0xF265);
    assert_eq!(c.register(0), 10);
    assert_eq!(c.register(2), 12);
    assert_eq!(c.register(3), 0);
    assert_eq!(c.address_register(), 0x303);
}

#[test]
fn store_registers_at_end_of_memory_cannot_run() {
    let mut c = default_chip8();
    set_i(&mut c, 0xFFE);
    assert!(c.can_execute(0xF155));
    assert!(!c.can_execute(0xF255));
    assert!(!c.can_execute(0xF265));
}

#[test]
fn execute_cycle_runs_program_and_flags_redraw() {
    let mut c = default_chip8();
    c.load(&[0x60, 0x05, 0xA0, 0x00, 0xD0, 0x15, 0x00, 0xE0]);
    c.execute_cycle();
    assert_eq!(c.register(0), 5);
    assert!(!c.should_redraw());
    c.execute_cycle();
    assert!(!c.should_redraw());
    c.execute_cycle();
    assert!(c.should_redraw());
    assert!(lit_count(&c) > 0);
    c.execute_cycle();
    assert!(c.should_redraw());
    assert_eq!(lit_count(&c), 0);
    assert_eq!(c.program_counter(), 0x208);
}

#[test]
fn cycle_on_empty_memory_cannot_run() {
    let mut c = default_chip8();
    c.load(&[0x00, 0xEE]);
    assert!(!c.can_cycle());
}

#[test]
fn handle_event_tick_and_input() {
    let mut c = default_chip8();
    c.load(&[0xA0, 0x00, 0xD0, 0x15]);
    assert!(!c.handle_event(Event::Tick));
    assert!(c.handle_event(Event::Tick));
    assert!(!c.handle_event(Event::Input(Input::Down(Key::Key2))));
    assert!(c.key_down(Key::Key2));
}

#[test]
fn inputs_compare_by_value() {
    assert_eq!(Input::Down(Key::KeyF), Input::Down(Key::KeyF));
    assert_ne!(Input::Down(Key::KeyF), Input::Up(Key::KeyF));
    assert_eq!(Event::Input(Input::Up(Key::Key0)), Event::Input(Input::Up(Key::Key0)));
    assert_ne!(Event::Tick, Event::Input(Input::Up(Key::Key0)));
}

#[test]
fn display_bytes_pack_pixels_least_significant_bit_first() {
    let mut c = default_chip8();
    set_i(&mut c, 0);
    run(&mut c, 0xD011);
    let bytes = c.display_bytes();
    assert_eq!(bytes.len(), 256);
    // Pixels 0 to 3 of row 0 are lit: the low nibble of byte 0.
    assert_eq!(bytes[0], 0x0F);
    assert!(bytes[1..].iter().all(|b| *b == 0));
    run(&mut c, 0x00E0);
    set_reg(&mut c, 0, 12);
    run(&mut c, 0xD011);
    // Pixels 12 to 15: the high nibble of byte 1.
    assert_eq!(c.display_bytes()[1], 0xF0);
}

#[test]
fn clone_copies_state() {
    let mut c = default_chip8();
    set_reg(&mut c, 2, 77);
    run(&mut c, 0x2300);
    set_i(&mut c, 0);
    run(&mut c, 0xD005);
    let d = c.clone();
    assert_eq!(d.register(2), 77);
    assert_eq!(d.stack_depth(), 1);
    assert_eq!(d.program_counter(), c.program_counter());
    assert_eq!(d.display(), c.display());
    run(&mut c, 0x00E0);
    assert!(lit_count(&d) > 0);
}

#[test]
fn handle_event_tick_counts_timers_down() {
    let mut c = default_chip8();
    c.load(&[0x60, 0x05, 0xF0, 0x15, 0x12, 0x04]);
    c.handle_event(Event::Tick);
    c.handle_event(Event::Tick);
    // The delay timer was set to 5 and counted down once by the same tick.
    assert_eq!(c.delay_timer(), 4);
    c.handle_event(Event::Tick);
    assert_eq!(c.delay_timer(), 3);
}
