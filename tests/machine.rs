use chip8::chip8::{Chip8, Fault, MEMORY_SIZE, PROGRAM_START};
use chip8::display::Display;
use chip8::host::{draw_graphics, setup_graphics, setup_input};
use chip8::keypad::Keypad;
use chip8::timers::Timers;

fn machine(program: &[u8]) -> Chip8 {
    let mut c = Chip8::new();
    c.init();
    c.load_program(&program.to_vec()).unwrap();
    c
}

fn run(c: &mut Chip8, cycles: usize) {
    for _ in 0..cycles {
        c.run_cycle_with(0).unwrap();
    }
}

fn arith_table(sel: u8, expected: fn(u8, u8) -> (u8, u8)) {
    // V1 = a; V2 = b; 8 1 2 sel; jump back to the start.
    let mut c = machine(&[0x61, 0, 0x62, 0, 0x81, 0x20 | sel, 0x12, 0x00]);
    for a in 0..=255u8 {
        for b in 0..=255u8 {
            c.load_program(&vec![0x61, a, 0x62, b, 0x81, 0x20 | sel, 0x12, 0x00]).unwrap();
            run(&mut c, 4);
            let (value, flag) = expected(a, b);
            assert_eq!(c.register(1), value, "sel {:x} a {} b {}", sel, a, b);
            assert_eq!(c.register(15), flag, "sel {:x} a {} b {}", sel, a, b);
        }
    }
}

#[test]
fn add_sets_carry_for_every_pair() {
    arith_table(4, |a, b| (a.wrapping_add(b), if a as u16 + b as u16 > 255 { 1 } else { 0 }));
}

#[test]
fn sub_sets_no_borrow_for_every_pair() {
    arith_table(5, |a, b| (a.wrapping_sub(b), if a >= b { 1 } else { 0 }));
}

#[test]
fn reverse_sub_sets_no_borrow_for_every_pair() {
    arith_table(7, |a, b| (b.wrapping_sub(a), if b >= a { 1 } else { 0 }));
}

#[test]
fn shift_right_sets_low_bit_for_every_value() {
    arith_table(6, |a, _| (a >> 1, a & 1));
}

#[test]
fn shift_left_sets_high_bit_for_every_value() {
    arith_table(0xE, |a, _| (a << 1, a >> 7));
}

#[test]
fn flag_wins_when_target_is_vf() {
    // VF = 200; V1 = 100; VF += V1.
    let mut c = machine(&[0x6F, 200, 0x61, 100, 0x8F, 0x14]);
    run(&mut c, 3);
    assert_eq!(c.register(15), 1);
}

#[test]
fn index_add_sets_flag_past_0xfff() {
    // I = 0xFFE; V0 = 1; I += V0; I += V0.
    let mut c = machine(&[0xAF, 0xFE, 0x60, 0x01, 0xF0, 0x1E, 0xF0, 0x1E]);
    run(&mut c, 3);
    assert_eq!(c.index(), 0xFFF);
    assert_eq!(c.register(15), 0);
    run(&mut c, 1);
    assert_eq!(c.index(), 0x1000);
    assert_eq!(c.register(15), 1);
}

#[test]
fn font_glyph_zero_reads_back() {
    // V0 = 0; I = glyph of V0; load V0..V4.
    let mut c = machine(&[0x60, 0x00, 0xF0, 0x29, 0xF4, 0x65]);
    run(&mut c, 3);
    let regs: Vec<u8> = (0..5).map(|i| c.register(i)).collect();
    assert_eq!(regs, vec![0xF0, 0x90, 0x90, 0x90, 0xF0]);
    assert_eq!(c.index(), 5);
}

#[test]
fn font_glyph_f_address() {
    let mut c = machine(&[0x60, 0x0F, 0xF0, 0x29]);
    run(&mut c, 2);
    assert_eq!(c.index(), 75);
    assert_eq!(c.memory_at(75), 0xF0);
    assert_eq!(c.memory_at(79), 0x80);
}

#[test]
fn draw_twice_collides_second_time() {
    // I = 0x20C; V0 = 0; V1 = 0; draw; draw; loop; sprite byte 0xFF.
    let mut c = machine(&[
        0xA2, 0x0C, 0x60, 0x00, 0x61, 0x00, 0xD0, 0x11, 0xD0, 0x11, 0x12, 0x0A, 0xFF,
    ]);
    run(&mut c, 4);
    assert_eq!(c.register(15), 0);
    for x in 0..8 {
        assert!(c.pixel_at(x, 0));
    }
    assert!(!c.pixel_at(8, 0));
    assert!(c.take_redraw_flag());
    assert!(!c.draw_flag());
    run(&mut c, 1);
    assert_eq!(c.register(15), 1);
    for x in 0..8 {
        assert!(!c.pixel_at(x, 0));
    }
    assert!(c.draw_flag());
}

#[test]
fn draw_wraps_at_edges() {
    // I = 0x20C; V0 = 60; V1 = 31; draw two rows; loop; sprite 0xFF, 0x81.
    let mut c = machine(&[
        0xA2, 0x0C, 0x60, 60, 0x61, 31, 0xD0, 0x12, 0x12, 0x08, 0x00, 0x00, 0xFF, 0x81,
    ]);
    run(&mut c, 4);
    for x in [60, 61, 62, 63, 0, 1, 2, 3] {
        assert!(c.pixel_at(x, 31));
    }
    assert!(c.pixel_at(60, 0));
    assert!(c.pixel_at(3, 0));
    assert!(!c.pixel_at(61, 0));
    assert!(!c.pixel_at(4, 31));
}

#[test]
fn clear_screen_turns_pixels_off() {
    let mut c = machine(&[0xA2, 0x08, 0xD0, 0x01, 0x00, 0xE0, 0x12, 0x06, 0x80]);
    run(&mut c, 2);
    assert!(c.pixel_at(0, 0));
    c.take_redraw_flag();
    run(&mut c, 1);
    assert!(!c.pixel_at(0, 0));
    assert!(c.draw_flag());
}

#[test]
fn call_then_return_resumes_after_call() {
    let mut c = machine(&[0x22, 0x06, 0x00, 0x00, 0x00, 0x00, 0x00, 0xEE]);
    assert_eq!(c.stack_pointer(), 0);
    run(&mut c, 1);
    assert_eq!(c.pc(), 0x206);
    assert_eq!(c.stack_pointer(), 1);
    run(&mut c, 1);
    assert_eq!(c.pc(), 0x202);
    assert_eq!(c.stack_pointer(), 0);
}

#[test]
fn decimal_digits_of_123_and_7() {
    let mut c = machine(&[0x60, 123, 0xA3, 0x00, 0xF0, 0x33, 0x60, 7, 0xA3, 0x10, 0xF0, 0x33]);
    run(&mut c, 3);
    assert_eq!([c.memory_at(0x300), c.memory_at(0x301), c.memory_at(0x302)], [1, 2, 3]);
    run(&mut c, 3);
    assert_eq!([c.memory_at(0x310), c.memory_at(0x311), c.memory_at(0x312)], [0, 0, 7]);
}

#[test]
fn decimal_digits_of_255() {
    let mut c = machine(&[0x60, 255, 0xA3, 0x00, 0xF0, 0x33]);
    run(&mut c, 3);
    assert_eq!([c.memory_at(0x300), c.memory_at(0x301), c.memory_at(0x302)], [2, 5, 5]);
}

#[test]
fn key_wait_blocks_until_pressed() {
    let mut c = machine(&[0xF1, 0x0A]);
    for _ in 0..5 {
        run(&mut c, 1);
        assert_eq!(c.pc(), 0x200);
    }
    c.set_key(3, true);
    run(&mut c, 1);
    assert_eq!(c.register(1), 3);
    assert_eq!(c.pc(), 0x202);
}

#[test]
fn key_wait_takes_lowest_pressed_key() {
    let mut c = machine(&[0xF1, 0x0A]);
    c.set_key(9, true);
    c.set_key(4, true);
    run(&mut c, 1);
    assert_eq!(c.register(1), 4);
}

#[test]
fn sound_timer_beeps_once() {
    // V0 = 1; sound = V0; then spin.
    let mut c = machine(&[0x60, 0x01, 0xF0, 0x18, 0x12, 0x04]);
    assert_eq!(c.run_cycle_with(0), Ok(false));
    assert_eq!(c.run_cycle_with(0), Ok(true));
    assert_eq!(c.sound_timer(), 0);
    for _ in 0..3 {
        assert_eq!(c.run_cycle_with(0), Ok(false));
        assert_eq!(c.sound_timer(), 0);
    }
}

#[test]
fn delay_timer_counts_down_and_floors() {
    // V0 = 2; delay = V0; spin.
    let mut c = machine(&[0x60, 0x02, 0xF0, 0x15, 0x12, 0x04]);
    run(&mut c, 2);
    assert_eq!(c.delay_timer(), 1);
    run(&mut c, 1);
    assert_eq!(c.delay_timer(), 0);
    run(&mut c, 3);
    assert_eq!(c.delay_timer(), 0);
}

#[test]
fn delay_timer_read_back() {
    // V0 = 5; delay = V0; V1 = delay.
    let mut c = machine(&[0x60, 0x05, 0xF0, 0x15, 0xF1, 0x07]);
    run(&mut c, 3);
    assert_eq!(c.register(1), 4);
}

#[test]
fn timers_tick_directly() {
    let mut t = Timers { delay: 0, sound: 2 };
    assert!(!t.tick());
    assert_eq!(t, Timers { delay: 0, sound: 1 });
    assert!(t.tick());
    assert_eq!(t, Timers { delay: 0, sound: 0 });
    assert!(!t.tick());
    assert_eq!(Timers::new(), Timers { delay: 0, sound: 0 });
}

#[test]
fn skips_on_register_compare() {
    // V0 = 5; skip if V0 == 5; (skipped) V1 = 1; V2 = 2.
    let mut c = machine(&[0x60, 5, 0x30, 5, 0x61, 1, 0x62, 2]);
    run(&mut c, 3);
    assert_eq!(c.register(1), 0);
    assert_eq!(c.register(2), 2);
    // V0 = 5; skip if V0 != 5 (not taken).
    let mut c = machine(&[0x60, 5, 0x40, 5]);
    run(&mut c, 2);
    assert_eq!(c.pc(), 0x204);
    // V0 = 5; V1 = 5; 5xy0 skips; 9xy0 does not.
    let mut c = machine(&[0x60, 5, 0x61, 5, 0x50, 0x10, 0, 0, 0x90, 0x10]);
    run(&mut c, 3);
    assert_eq!(c.pc(), 0x208);
    run(&mut c, 1);
    assert_eq!(c.pc(), 0x20A);
}

#[test]
fn skips_on_keys() {
    // V0 = 2; skip if key V0 pressed.
    let mut c = machine(&[0x60, 2, 0xE0, 0x9E]);
    run(&mut c, 2);
    assert_eq!(c.pc(), 0x204);
    let mut c = machine(&[0x60, 2, 0xE0, 0x9E]);
    c.set_key(2, true);
    run(&mut c, 2);
    assert_eq!(c.pc(), 0x206);
    let mut c = machine(&[0x60, 2, 0xE0, 0xA1]);
    run(&mut c, 2);
    assert_eq!(c.pc(), 0x206);
}

#[test]
fn loads_logic_and_wrapping_add() {
    // V0 = 0xF0; V1 = 0x3C; V2 = V0; V2 |= V1; V3 = V0; V3 &= V1; V4 = V0; V4 ^= V1; V0 += 0x20.
    let mut c = machine(&[
        0x60, 0xF0, 0x61, 0x3C, 0x82, 0x00, 0x82, 0x11, 0x83, 0x00, 0x83, 0x12, 0x84, 0x00,
        0x84, 0x13, 0x70, 0x20,
    ]);
    run(&mut c, 9);
    assert_eq!(c.register(2), 0xFC);
    assert_eq!(c.register(3), 0x30);
    assert_eq!(c.register(4), 0xCC);
    assert_eq!(c.register(0), 0x10);
    assert_eq!(c.register(15), 0);
}

#[test]
fn jumps() {
    let mut c = machine(&[0x13, 0x00]);
    run(&mut c, 1);
    assert_eq!(c.pc(), 0x300);
    // V0 = 4; jump to 0x300 + V0.
    let mut c = machine(&[0x60, 4, 0xB3, 0x00]);
    run(&mut c, 2);
    assert_eq!(c.pc(), 0x304);
}

#[test]
fn random_byte_is_masked() {
    let mut c = machine(&[0xC0, 0x0F, 0xC1, 0x00]);
    assert_eq!(c.run_cycle_with(0xAB), Ok(false));
    assert_eq!(c.register(0), 0x0B);
    assert_eq!(c.run_cycle(), Ok(false));
    assert_eq!(c.register(1), 0);
}

#[test]
fn store_and_load_registers() {
    // V0..V2 = 1, 2, 3; I = 0x300; store V0..V2; V0 = V1 = V2 = 0; I = 0x300; load V0..V1.
    let mut c = machine(&[
        0x60, 1, 0x61, 2, 0x62, 3, 0xA3, 0x00, 0xF2, 0x55, 0x60, 0, 0x61, 0, 0x62, 0, 0xA3,
        0x00, 0xF1, 0x65,
    ]);
    run(&mut c, 5);
    assert_eq!([c.memory_at(0x300), c.memory_at(0x301), c.memory_at(0x302)], [1, 2, 3]);
    assert_eq!(c.memory_at(0x303), 0);
    assert_eq!(c.index(), 0x303);
    run(&mut c, 5);
    assert_eq!([c.register(0), c.register(1), c.register(2)], [1, 2, 0]);
    assert_eq!(c.index(), 0x302);
}

#[test]
fn unknown_opcodes_are_reported() {
    for op in [0x0123u16, 0x5121, 0x8008, 0x910F, 0xE0FF, 0xF0FF] {
        let mut c = machine(&[(op >> 8) as u8, op as u8]);
        assert_eq!(c.run_cycle_with(0), Err(Fault::UnknownOpcode(op)));
        assert_eq!(c.pc(), 0x200);
    }
}

#[test]
fn return_on_empty_stack_underflows() {
    let mut c = machine(&[0x00, 0xEE]);
    assert_eq!(c.run_cycle_with(0), Err(Fault::StackUnderflow));
    assert_eq!(c.pc(), 0x200);
}

#[test]
fn seventeenth_call_overflows() {
    let mut c = machine(&[0x22, 0x00]);
    run(&mut c, 16);
    assert_eq!(c.stack_pointer(), 16);
    assert_eq!(c.run_cycle_with(0), Err(Fault::StackOverflow));
    assert_eq!(c.stack_pointer(), 16);
}

#[test]
fn memory_past_end_is_refused() {
    // I = 0xFFE; store digits of V0.
    let mut c = machine(&[0xAF, 0xFE, 0xF0, 0x33]);
    run(&mut c, 1);
    assert_eq!(c.run_cycle_with(0), Err(Fault::MemoryOutOfRange));
    assert_eq!(c.pc(), 0x202);
    // I = 0xFFE; store V0..V2.
    let mut c = machine(&[0xAF, 0xFE, 0xF2, 0x55]);
    run(&mut c, 1);
    assert_eq!(c.run_cycle_with(0), Err(Fault::MemoryOutOfRange));
    // I = 0xFFE; draw 3 rows.
    let mut c = machine(&[0xAF, 0xFE, 0xD0, 0x03]);
    run(&mut c, 1);
    assert_eq!(c.run_cycle_with(0), Err(Fault::MemoryOutOfRange));
    // jump to 0xFFF, then fetch past the end.
    let mut c = machine(&[0x1F, 0xFF]);
    run(&mut c, 1);
    assert_eq!(c.run_cycle_with(0), Err(Fault::MemoryOutOfRange));
}

#[test]
fn key_past_sixteenth_is_refused() {
    let mut c = machine(&[0x60, 0x10, 0xE0, 0x9E]);
    run(&mut c, 1);
    assert_eq!(c.run_cycle_with(0), Err(Fault::KeyOutOfRange));
}

#[test]
fn program_too_large_is_refused() {
    let mut c = Chip8::new();
    c.init();
    let fits = vec![0xAAu8; MEMORY_SIZE - PROGRAM_START as usize];
    assert_eq!(c.load_program(&fits), Ok(()));
    assert_eq!(c.memory_at(MEMORY_SIZE - 1), 0xAA);
    let too_big = vec![0u8; MEMORY_SIZE - PROGRAM_START as usize + 1];
    assert_eq!(c.load_program(&too_big), Err(Fault::ProgramTooLarge));
    assert_eq!(c.memory_at(PROGRAM_START as usize), 0xAA);
}

#[test]
fn new_and_init_state() {
    let c = Chip8::new();
    assert_eq!(c.pc(), 0);
    assert_eq!(c.memory_at(0), 0);
    let mut c = Chip8::new();
    c.init();
    assert_eq!(c.pc(), PROGRAM_START);
    assert_eq!(c.memory_at(0), 0xF0);
    assert_eq!(c.memory_at(5), 0x20);
    assert_eq!(c.memory_at(80), 0);
    assert!(!c.draw_flag());
}

#[test]
fn debug_render_blank_and_lit() {
    let mut c = machine(&[0xA2, 0x06, 0xD0, 0x01, 0x12, 0x04, 0x80]);
    let text = c.debug_render();
    assert_eq!(text.len(), 32 * 65 + 1);
    assert_eq!(text[0], b'O');
    assert_eq!(text[64], b'\n');
    assert_eq!(text[32 * 65], b'\n');
    run(&mut c, 2);
    let text = c.debug_render();
    assert_eq!(text[0], b' ');
    assert_eq!(text[1], b'O');
}

#[test]
fn display_and_keypad_directly() {
    let mut d = Display::new();
    assert!(!d.draw_sprite(62, 0, &vec![0xC0]));
    assert!(d.pixel_at(62, 0) && d.pixel_at(63, 0));
    assert!(d.draw_sprite(63, 0, &vec![0x80]));
    assert!(!d.pixel_at(63, 0));
    assert!(d.take_redraw_flag());
    assert!(!d.needs_redraw());
    d.clear();
    assert!(!d.pixel_at(62, 0));
    let mut k = Keypad::new();
    assert_eq!(k.any_pressed(), None);
    k.set_key(15, true);
    k.set_key(7, true);
    assert_eq!(k.any_pressed(), Some(7));
    assert!(k.is_pressed(15));
    assert!(!k.is_pressed(0));
}

#[test]
fn host_hooks_do_nothing() {
    setup_graphics();
    setup_input();
    draw_graphics();
}
