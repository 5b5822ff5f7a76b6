use chip8::keypad::key_index;
use chip8::machine::Chip8Interpreter;
use chip8::model::Chip8Error;

fn machine_with(program: &[u8]) -> Chip8Interpreter {
    let mut m = Chip8Interpreter::new();
    assert_eq!(m.load(program), Ok(()));
    m
}

fn run(m: &mut Chip8Interpreter, cycles: usize) {
    for _ in 0..cycles {
        m.tick(0).unwrap();
    }
}

const GLYPH_ZERO: [u8; 5] = [0xF0, 0x90, 0x90, 0x90, 0xF0];

#[test]
fn load_places_program_and_glyphs() {
    let mut m = Chip8Interpreter::new();
    m.load(&[1, 2, 3, 4, 5, 6]).unwrap();
    m.load(&[0xAB, 0xCD]).unwrap();
    assert_eq!(m.memory(0x200), 0xAB);
    assert_eq!(m.memory(0x201), 0xCD);
    assert_eq!(m.memory(0x202), 0);
    assert_eq!(m.pc(), 0x200);
    for i in 0..5 {
        assert_eq!(m.memory(i), GLYPH_ZERO[i]);
    }
    assert_eq!(m.memory(75), 0xF0);
    assert_eq!(m.memory(79), 0x80);
    assert_eq!(m.memory(80), 0);
}

#[test]
fn load_resets_state() {
    let mut m = machine_with(&[0x60, 0x07, 0x00, 0xE0]);
    run(&mut m, 2);
    assert_eq!(m.register(0), 7);
    assert!(m.draw_flag());
    m.load(&[0x12, 0x00]).unwrap();
    assert_eq!(m.register(0), 0);
    assert!(!m.draw_flag());
    assert_eq!(m.pc(), 0x200);
}

#[test]
fn load_largest_program_fits() {
    let program = vec![0x11u8; 3584];
    let mut m = Chip8Interpreter::new();
    assert_eq!(m.load(&program), Ok(()));
    assert_eq!(m.memory(4095), 0x11);
}

#[test]
fn load_too_large_is_refused() {
    let mut m = machine_with(&[0x60, 0x2A]);
    let program = vec![0u8; 3585];
    assert_eq!(m.load(&program), Err(Chip8Error::ProgramTooLarge { len: 3585 }));
    assert_eq!(m.memory(0x200), 0x60);
}

#[test]
fn add_immediate_wraps_without_flag() {
    let mut m = machine_with(&[0x6F, 0x05, 0x63, 0xFF, 0x73, 0x01, 0x64, 0x10, 0x74, 0x20]);
    run(&mut m, 5);
    assert_eq!(m.register(3), 0);
    assert_eq!(m.register(4), 0x30);
    assert_eq!(m.register(15), 5);
}

#[test]
fn add_registers_sets_carry() {
    // V1 = 255, V2 = 1, V1 += V2; then V3 = 10, V4 = 20, V3 += V4
    let mut m = machine_with(&[
        0x61, 0xFF, 0x62, 0x01, 0x81, 0x24, 0x63, 0x0A, 0x64, 0x14, 0x83, 0x44,
    ]);
    run(&mut m, 3);
    assert_eq!(m.register(1), 0);
    assert_eq!(m.register(15), 1);
    run(&mut m, 3);
    assert_eq!(m.register(3), 30);
    assert_eq!(m.register(15), 0);
}

#[test]
fn subtract_sets_borrow() {
    // V1 = 0, V2 = 1, V1 -= V2; then V3 = 9, V4 = 4, V3 -= V4
    let mut m = machine_with(&[
        0x61, 0x00, 0x62, 0x01, 0x81, 0x25, 0x63, 0x09, 0x64, 0x04, 0x83, 0x45,
    ]);
    run(&mut m, 3);
    assert_eq!(m.register(1), 255);
    assert_eq!(m.register(15), 1);
    run(&mut m, 3);
    assert_eq!(m.register(3), 5);
    assert_eq!(m.register(15), 0);
}

#[test]
fn reverse_subtract_sets_borrow() {
    // V1 = 1, V2 = 0, V1 = V2 - V1; then V3 = 4, V4 = 9, V3 = V4 - V3
    let mut m = machine_with(&[
        0x61, 0x01, 0x62, 0x00, 0x81, 0x27, 0x63, 0x04, 0x64, 0x09, 0x83, 0x47,
    ]);
    run(&mut m, 3);
    assert_eq!(m.register(1), 255);
    assert_eq!(m.register(15), 1);
    run(&mut m, 3);
    assert_eq!(m.register(3), 5);
    assert_eq!(m.register(15), 0);
}

#[test]
fn logic_operations() {
    let mut m = machine_with(&[
        0x61, 0xCC, 0x62, 0xAA, 0x63, 0xCC, 0x64, 0xCC, 0x81, 0x21, 0x83, 0x22, 0x84, 0x23, 0x85,
        0x20,
    ]);
    run(&mut m, 8);
    assert_eq!(m.register(1), 0xEE);
    assert_eq!(m.register(3), 0x88);
    assert_eq!(m.register(4), 0x66);
    assert_eq!(m.register(5), 0xAA);
}

#[test]
fn shifts_use_destination_register_only() {
    // V1 = 0x81, V2 = 0xFF, V1 >>= 1 (V2 unused); then V3 = 0x81, V3 <<= 1
    let mut m = machine_with(&[0x61, 0x81, 0x62, 0xFF, 0x81, 0x26, 0x63, 0x81, 0x83, 0x2E]);
    run(&mut m, 3);
    assert_eq!(m.register(1), 0x40);
    assert_eq!(m.register(15), 1);
    run(&mut m, 2);
    assert_eq!(m.register(3), 0x02);
    assert_eq!(m.register(15), 1);
}

#[test]
fn call_then_return_resumes_after_call() {
    // 0x200: call 0x300; at 0x300: return
    let mut program = vec![0u8; 0x102];
    program[0] = 0x23;
    program[1] = 0x00;
    program[0x100] = 0x00;
    program[0x101] = 0xEE;
    let mut m = machine_with(&program);
    m.tick(0).unwrap();
    assert_eq!(m.pc(), 0x300);
    assert_eq!(m.stack_depth(), 1);
    m.tick(0).unwrap();
    assert_eq!(m.pc(), 0x202);
    assert_eq!(m.stack_depth(), 0);
}

#[test]
fn sixteen_nested_calls_and_returns() {
    // 0x200 calls S0 and then spins at 0x202; S_k at 0x220 + 4k calls S_(k+1) and
    // returns; S15 returns at once.
    let mut program = vec![0u8; 0x60];
    program[0] = 0x22;
    program[1] = 0x20;
    program[2] = 0x12;
    program[3] = 0x02;
    for k in 0..15usize {
        let target = 0x220 + 4 * (k + 1);
        program[0x20 + 4 * k] = 0x20 | (target >> 8) as u8;
        program[0x21 + 4 * k] = (target & 0xFF) as u8;
        program[0x22 + 4 * k] = 0x00;
        program[0x23 + 4 * k] = 0xEE;
    }
    program[0x20 + 60] = 0x00;
    program[0x21 + 60] = 0xEE;
    let mut m = machine_with(&program);
    run(&mut m, 16);
    assert_eq!(m.stack_depth(), 16);
    assert_eq!(m.pc(), 0x25C);
    run(&mut m, 16);
    assert_eq!(m.stack_depth(), 0);
    assert_eq!(m.pc(), 0x202);
}

#[test]
fn default_is_fresh_machine() {
    let m = Chip8Interpreter::default();
    assert_eq!(m.pc(), 0x200);
    assert_eq!(m.memory(0), 0xF0);
    assert_eq!(m.stack_depth(), 0);
    assert_eq!(m.awaiting_key(), None);
}

#[test]
fn seventeenth_call_overflows() {
    // 0x200: call 0x200, forever
    let mut m = machine_with(&[0x22, 0x00]);
    run(&mut m, 16);
    assert_eq!(m.stack_depth(), 16);
    assert_eq!(m.tick(0), Err(Chip8Error::StackOverflow { addr: 0x200 }));
    assert_eq!(m.stack_depth(), 16);
    assert_eq!(m.pc(), 0x200);
}

#[test]
fn return_without_call_underflows() {
    let mut m = machine_with(&[0x00, 0xEE]);
    assert_eq!(m.tick(0), Err(Chip8Error::StackUnderflow { addr: 0x200 }));
    assert_eq!(m.pc(), 0x200);
}

#[test]
fn jumps_and_skips() {
    // V0 = 4; jump to 0x206 + V0 = 0x20A; at 0x20A: skip if V0 == 4; 0x20C: V1 = 1; 0x20E: V2 = 2
    let mut m = machine_with(&[
        0x60, 0x04, 0xB2, 0x06, 0x00, 0x00, 0x00, 0x00, 0x00, 0x00, 0x30, 0x04, 0x61, 0x01, 0x62,
        0x02,
    ]);
    run(&mut m, 2);
    assert_eq!(m.pc(), 0x20A);
    run(&mut m, 2);
    assert_eq!(m.register(1), 0);
    assert_eq!(m.register(2), 2);
}

#[test]
fn skip_on_register_compare() {
    // V1 = 3, V2 = 3; 5120 skips; 9120 does not; 4103 does not skip
    let mut m = machine_with(&[
        0x61, 0x03, 0x62, 0x03, 0x51, 0x20, 0x00, 0x00, 0x91, 0x20, 0x41, 0x03, 0x12, 0x00,
    ]);
    run(&mut m, 3);
    assert_eq!(m.pc(), 0x208);
    run(&mut m, 1);
    assert_eq!(m.pc(), 0x20A);
    run(&mut m, 1);
    assert_eq!(m.pc(), 0x20C);
}

#[test]
fn draw_twice_restores_screen() {
    // I = glyph 0; draw at (V0, V1) = (2, 3); draw again
    let mut m = machine_with(&[0x60, 0x02, 0x61, 0x03, 0xA0, 0x00, 0xD0, 0x15, 0xD0, 0x15]);
    run(&mut m, 4);
    assert!(m.draw_flag());
    assert_eq!(m.register(15), 0);
    assert!(m.pixels()[3 * 64 + 2]);
    assert!(m.pixels()[3 * 64 + 5]);
    assert!(!m.pixels()[4 * 64 + 3]);
    let lit = m.pixels().iter().filter(|p| **p).count();
    assert_eq!(lit, 14);
    m.clear_draw_flag();
    run(&mut m, 1);
    assert_eq!(m.register(15), 1);
    assert!(m.draw_flag());
    assert!(m.pixels().iter().all(|p| !*p));
}

#[test]
fn draw_wraps_over_buffer() {
    // draw a one-row glyph 0xFF at (60, 31): bits land on 31*64+60.. and wrap to 0..3
    let mut m = machine_with(&[0x60, 0x3C, 0x61, 0x1F, 0xA2, 0x0A, 0xD0, 0x11, 0x12, 0x08, 0xFF]);
    run(&mut m, 4);
    assert!(m.pixels()[2047]);
    assert!(m.pixels()[2044]);
    assert!(m.pixels()[0]);
    assert!(m.pixels()[3]);
    assert!(!m.pixels()[4]);
}

#[test]
fn clear_screen_turns_everything_off() {
    let mut m = machine_with(&[0xA0, 0x00, 0xD0, 0x05, 0x00, 0xE0]);
    run(&mut m, 2);
    m.clear_draw_flag();
    run(&mut m, 1);
    assert!(m.draw_flag());
    assert_eq!(m.pixels().len(), 2048);
    assert!(m.pixels().iter().all(|p| !*p));
}

#[test]
fn delay_timer_runs_out() {
    // V0 = 3; delay = V0; then spin
    let mut m = machine_with(&[0x60, 0x03, 0xF0, 0x15, 0x12, 0x04]);
    run(&mut m, 2);
    assert_eq!(m.delay_timer(), 2);
    run(&mut m, 2);
    assert_eq!(m.delay_timer(), 0);
    run(&mut m, 3);
    assert_eq!(m.delay_timer(), 0);
}

#[test]
fn tone_sounds_once() {
    // V0 = 3; sound = V0; then spin
    let mut m = machine_with(&[0x60, 0x03, 0xF0, 0x18, 0x12, 0x04]);
    run(&mut m, 1);
    let mut tones = 0;
    let mut tone_at = 0;
    for cycle in 0..6 {
        if m.tick(0).unwrap() {
            tones += 1;
            tone_at = cycle;
        }
    }
    assert_eq!(tones, 1);
    assert_eq!(tone_at, 2);
    assert_eq!(m.sound_timer(), 0);
}

#[test]
fn read_delay_timer() {
    let mut m = machine_with(&[0x60, 0x09, 0xF0, 0x15, 0xF1, 0x07]);
    run(&mut m, 3);
    assert_eq!(m.register(1), 8);
}

#[test]
fn await_key_then_press() {
    let mut m = machine_with(&[0xF3, 0x0A, 0x12, 0x02]);
    run(&mut m, 1);
    assert_eq!(m.awaiting_key(), Some(3));
    run(&mut m, 3);
    m.set_key(9);
    assert_eq!(m.register(3), 9);
    assert_eq!(m.awaiting_key(), None);
    m.set_key(4);
    m.unset_key(9);
    assert_eq!(m.register(3), 9);
    assert!(m.is_key_down(4));
    assert!(!m.is_key_down(9));
}

#[test]
fn await_key_with_key_already_down() {
    let mut m = machine_with(&[0xF3, 0x0A]);
    m.set_key(12);
    m.set_key(5);
    run(&mut m, 1);
    assert_eq!(m.register(3), 5);
    assert_eq!(m.awaiting_key(), None);
}

#[test]
fn out_of_range_key_is_ignored() {
    let mut m = machine_with(&[0xF3, 0x0A]);
    run(&mut m, 1);
    m.set_key(16);
    assert_eq!(m.awaiting_key(), Some(3));
    m.unset_key(99);
    assert!(!m.is_key_down(16));
}

#[test]
fn skip_on_key_state() {
    // V1 = 7; skip if key V1 down; 0x204: V2 = 1; 0x206: skip if key V1 up; 0x208: V3 = 1
    let mut m = machine_with(&[0x61, 0x07, 0xE1, 0x9E, 0x62, 0x01, 0xE1, 0xA1, 0x63, 0x01]);
    m.set_key(7);
    run(&mut m, 2);
    assert_eq!(m.pc(), 0x206);
    run(&mut m, 2);
    assert_eq!(m.register(3), 1);
}

#[test]
fn key_skip_with_large_register_is_noop() {
    let mut m = machine_with(&[0x61, 0x20, 0xE1, 0xA1]);
    run(&mut m, 2);
    assert_eq!(m.pc(), 0x204);
}

#[test]
fn end_to_end_program() {
    let mut m = machine_with(&[0x60, 0x05, 0x70, 0x03, 0xFF, 0xFF]);
    assert_eq!(m.tick(0), Ok(false));
    assert_eq!(m.tick(0), Ok(false));
    assert_eq!(m.tick(0), Err(Chip8Error::InvalidOpcode { addr: 0x204, opcode: 0xFFFF }));
    assert_eq!(m.register(0), 8);
}

#[test]
fn unknown_words_are_refused() {
    for word in [0x0000u16, 0x00E1, 0x5121, 0x8128, 0x912F, 0xE1FF, 0xF1FF] {
        let mut m = machine_with(&[(word >> 8) as u8, word as u8]);
        assert_eq!(m.tick(0), Err(Chip8Error::InvalidOpcode { addr: 0x200, opcode: word }));
        assert_eq!(m.pc(), 0x200);
    }
}

#[test]
fn fetch_past_memory_fails() {
    let mut m = machine_with(&[0x1F, 0xFF]);
    run(&mut m, 1);
    assert_eq!(m.tick(0), Err(Chip8Error::MemoryOutOfRange { addr: 0xFFF }));
}

#[test]
fn memory_operand_past_end_fails() {
    // I = 0xFFE; store V0..V3
    let mut m = machine_with(&[0xAF, 0xFE, 0xF3, 0x55]);
    run(&mut m, 1);
    assert_eq!(m.tick(0), Err(Chip8Error::MemoryOutOfRange { addr: 0x202 }));
    assert_eq!(m.memory(0xFFE), 0);
}

#[test]
fn store_decimal_digits() {
    // V0 = 254; I = 0x300; BCD
    let mut m = machine_with(&[0x60, 0xFE, 0xA3, 0x00, 0xF0, 0x33]);
    run(&mut m, 3);
    assert_eq!(m.memory(0x300), 2);
    assert_eq!(m.memory(0x301), 5);
    assert_eq!(m.memory(0x302), 4);
}

#[test]
fn store_and_load_registers() {
    // V0 = 1, V1 = 2, V2 = 3; I = 0x300; store V0..V1; V0 = 0, V1 = 0; load V0..V2
    let mut m = machine_with(&[
        0x60, 0x01, 0x61, 0x02, 0x62, 0x03, 0xA3, 0x00, 0xF1, 0x55, 0x60, 0x00, 0x61, 0x00, 0xF2,
        0x65,
    ]);
    run(&mut m, 5);
    assert_eq!(m.memory(0x300), 1);
    assert_eq!(m.memory(0x301), 2);
    assert_eq!(m.memory(0x302), 0);
    run(&mut m, 3);
    assert_eq!(m.register(0), 1);
    assert_eq!(m.register(1), 2);
    assert_eq!(m.register(2), 0);
}

#[test]
fn index_register_operations() {
    // V0 = 0x0B; I = glyph of V0; I += V0
    let mut m = machine_with(&[0x60, 0x0B, 0xF0, 0x29, 0xF0, 0x1E]);
    run(&mut m, 2);
    assert_eq!(m.index(), 55);
    run(&mut m, 1);
    assert_eq!(m.index(), 66);
}

#[test]
fn random_byte_is_masked() {
    let mut m = machine_with(&[0xC2, 0x0F]);
    m.tick(0xAB).unwrap();
    assert_eq!(m.register(2), 0x0B);
}

#[test]
fn key_codes_map_to_keys() {
    assert_eq!(key_index(49), Some(0));
    assert_eq!(key_index(86), Some(15));
    assert_eq!(key_index(90), Some(12));
    assert_eq!(key_index(48), None);
    assert_eq!(key_index(256 + 87), Some(5));
}
