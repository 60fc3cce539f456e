use chip8::cpu::{Chip8, CycleError};
use chip8::display::Display;
use chip8::scheduler::{cycle_budget_nanos, plan_cycle, ticks_due, CyclePlan};
use chip8::input::{convert_keycode_to_u8, InputEvent, KEYCODE_ESCAPE};
use chip8::instruction::{decode, Instruction};
use chip8::timer::Timers;

fn machine_with(program: &[u8]) -> Chip8 {
    let mut chip = Chip8::init();
    chip.load_program(program);
    chip
}

fn run(chip: &mut Chip8, cycles: usize) {
    for _ in 0..cycles {
        chip.emulate_cycle_with_random(0).expect("cycle failed");
    }
}

#[test]
fn decode_literal_words() {
    assert_eq!(decode(0x00e0), Instruction::ClearScreen);
    assert_eq!(decode(0x00ee), Instruction::ReturnFromSubroutine);
    assert_eq!(decode(0x1234), Instruction::UnconditionalJump(0x234));
    assert_eq!(decode(0x2300), Instruction::CallSubroutine(0x300));
    assert_eq!(decode(0x6005), Instruction::SetVxToIntermediate(0, 5));
    assert_eq!(decode(0x7a03), Instruction::AddIntermediateToVx(0xa, 3));
    assert_eq!(decode(0x5120), Instruction::SkipIfVxIsVy(1, 2));
    assert_eq!(decode(0x8125), Instruction::SubtractVyFromVx(1, 2));
    assert_eq!(decode(0x8127), Instruction::SetVxToVyMinusVx(1, 2));
    assert_eq!(decode(0x8f06), Instruction::StoreLSBfromVxInVf(0xf));
    assert_eq!(decode(0x830e), Instruction::StoreMSBfromVxInVf(3));
    assert_eq!(decode(0xa123), Instruction::SetIndexRegisterToIntermediate(0x123));
    assert_eq!(decode(0xb456), Instruction::UnconditionalJumpWithOffset(0x456));
    assert_eq!(decode(0xc7f0), Instruction::GenerateRandomNumberWithCap(7, 0xf0));
    assert_eq!(decode(0xd12f), Instruction::DrawSprite(1, 2, 0xf));
    assert_eq!(decode(0xe49e), Instruction::SkipIfKeyPressedVx(4));
    assert_eq!(decode(0xe4a1), Instruction::SkipIfKeyNotPressedVx(4));
    assert_eq!(decode(0xf20a), Instruction::AwaitKeyPressVx(2));
    assert_eq!(decode(0xf229), Instruction::SetIToSpriteLocation(2));
    assert_eq!(decode(0xf233), Instruction::StoreVxAsBCDInI(2));
    assert_eq!(decode(0xf255), Instruction::DumpRegisters(2));
    assert_eq!(decode(0xf265), Instruction::LoadRegisters(2));
    assert_eq!(decode(0xf215), Instruction::SetDelayTimerToVx(2));
    assert_eq!(decode(0xf207), Instruction::SetVxToDelayTimer(2));
    assert_eq!(decode(0xf218), Instruction::SetSoundTimerToVx(2));
    assert_eq!(decode(0xf21e), Instruction::AddVxToI(2));
}

#[test]
fn decode_unknown_words() {
    assert_eq!(decode(0x0123), Instruction::Unknown);
    assert_eq!(decode(0x5121), Instruction::Unknown);
    assert_eq!(decode(0x8128), Instruction::Unknown);
    assert_eq!(decode(0x9121), Instruction::Unknown);
    assert_eq!(decode(0xe1ff), Instruction::Unknown);
    assert_eq!(decode(0xf1ff), Instruction::Unknown);
}

#[test]
fn init_state() {
    let chip = Chip8::init();
    assert_eq!(chip.program_counter(), 0x200);
    assert_eq!(chip.index_register(), 0);
    assert_eq!(chip.stack_depth(), 0);
    assert_eq!(chip.memory_at(0x050), 0xf0);
    assert_eq!(chip.memory_at(0x09f), 0x80);
    assert_eq!(chip.memory_at(0x0a0), 0);
    assert_eq!(chip.memory_at(0x200), 0);
    for r in 0..16 {
        assert_eq!(chip.register(r), 0);
    }
    assert!(!chip.should_exit());
}

#[test]
fn add_intermediate_wraps_modulo_256() {
    let mut chip = machine_with(&[0x63, 0xff, 0x73, 0x02, 0x64, 0x10, 0x74, 0x20]);
    run(&mut chip, 4);
    assert_eq!(chip.register(3), 0x01);
    assert_eq!(chip.register(4), 0x30);
    // no carry flag for this instruction
    assert_eq!(chip.register(0xf), 0);
}

#[test]
fn add_registers_sets_carry() {
    let mut chip = machine_with(&[0x60, 0xf0, 0x61, 0x20, 0x80, 0x14]);
    run(&mut chip, 3);
    assert_eq!(chip.register(0), 0x10);
    assert_eq!(chip.register(0xf), 1);
    let mut chip = machine_with(&[0x60, 0x10, 0x61, 0x20, 0x80, 0x14]);
    run(&mut chip, 3);
    assert_eq!(chip.register(0), 0x30);
    assert_eq!(chip.register(0xf), 0);
}

#[test]
fn subtract_sets_flag_when_no_borrow() {
    let mut chip = machine_with(&[0x60, 0x05, 0x61, 0x03, 0x80, 0x15]);
    run(&mut chip, 3);
    assert_eq!(chip.register(0), 2);
    assert_eq!(chip.register(0xf), 1);
    let mut chip = machine_with(&[0x60, 0x03, 0x61, 0x05, 0x80, 0x15]);
    run(&mut chip, 3);
    assert_eq!(chip.register(0), 0xfe);
    assert_eq!(chip.register(0xf), 0);
    let mut chip = machine_with(&[0x60, 0x07, 0x61, 0x07, 0x80, 0x15]);
    run(&mut chip, 3);
    assert_eq!(chip.register(0), 0);
    assert_eq!(chip.register(0xf), 1);
}

#[test]
fn reverse_subtract_sets_flag_when_no_borrow() {
    let mut chip = machine_with(&[0x60, 0x03, 0x61, 0x05, 0x80, 0x17]);
    run(&mut chip, 3);
    assert_eq!(chip.register(0), 2);
    assert_eq!(chip.register(0xf), 1);
    let mut chip = machine_with(&[0x60, 0x05, 0x61, 0x03, 0x80, 0x17]);
    run(&mut chip, 3);
    assert_eq!(chip.register(0), 0xfe);
    assert_eq!(chip.register(0xf), 0);
}

#[test]
fn bitwise_operations() {
    let mut chip = machine_with(&[
        0x60, 0x0c, 0x61, 0x0a, 0x82, 0x00, 0x82, 0x11, 0x83, 0x00, 0x83, 0x12, 0x84, 0x00, 0x84,
        0x13,
    ]);
    run(&mut chip, 8);
    assert_eq!(chip.register(2), 0x0e);
    assert_eq!(chip.register(3), 0x08);
    assert_eq!(chip.register(4), 0x06);
}

#[test]
fn shifts_store_shifted_out_bit() {
    let mut chip = machine_with(&[0x61, 0x05, 0x81, 0x06]);
    run(&mut chip, 2);
    assert_eq!(chip.register(1), 0x02);
    assert_eq!(chip.register(0xf), 1);
    let mut chip = machine_with(&[0x61, 0x81, 0x81, 0x0e]);
    run(&mut chip, 2);
    assert_eq!(chip.register(1), 0x02);
    assert_eq!(chip.register(0xf), 1);
    let mut chip = machine_with(&[0x61, 0x40, 0x81, 0x0e]);
    run(&mut chip, 2);
    assert_eq!(chip.register(1), 0x80);
    assert_eq!(chip.register(0xf), 0);
}

#[test]
fn clear_screen_turns_every_pixel_off() {
    // I = glyph of 0, draw it at (0, 0), then clear
    let mut chip = machine_with(&[0xa0, 0x50, 0xd0, 0x05, 0x00, 0xe0]);
    run(&mut chip, 2);
    assert!(chip.display().is_pixel_on(0, 0));
    run(&mut chip, 1);
    for y in 0..32 {
        for x in 0..64 {
            assert!(!chip.display().is_pixel_on(x, y));
        }
    }
}

#[test]
fn drawing_twice_restores_framebuffer() {
    let mut chip = machine_with(&[
        0x60, 0x3c, 0x61, 0x1e, 0xa0, 0x5a, // V0 = 60, V1 = 30, I = glyph of 2
        0xd0, 0x15, 0xd0, 0x15,
    ]);
    run(&mut chip, 4);
    assert_eq!(chip.register(0xf), 0);
    assert!(chip.display().is_pixel_on(60, 30));
    assert!(chip.display().is_pixel_on(61, 30));
    // the glyph's third row wraps to the top of the screen
    assert!(chip.display().is_pixel_on(60, 0));
    run(&mut chip, 1);
    assert_eq!(chip.register(0xf), 1);
    for y in 0..32 {
        for x in 0..64 {
            assert!(!chip.display().is_pixel_on(x, y));
        }
    }
}

#[test]
fn sprite_wraps_horizontally() {
    let mut display = Display::init();
    let memory = [0xffu8];
    let collided = display.blend_sprite(63, 0, 1, 0, &memory);
    assert!(!collided);
    for x in 0..64 {
        let expected = x == 63 || x <= 6;
        assert_eq!(display.is_pixel_on(x, 0), expected, "column {}", x);
    }
    for x in 0..64 {
        assert!(!display.is_pixel_on(x, 1));
    }
}

#[test]
fn collision_only_when_a_lit_pixel_goes_off() {
    let mut display = Display::init();
    let memory = [0x80u8, 0x40u8];
    assert!(!display.blend_sprite(0, 0, 1, 0, &memory));
    // a different pixel: nothing turned off
    assert!(!display.blend_sprite(0, 0, 1, 1, &memory));
    // the same pixel again: it goes off
    assert!(display.blend_sprite(0, 0, 1, 0, &memory));
    assert!(!display.is_pixel_on(0, 0));
    assert!(display.is_pixel_on(1, 0));
    display.clear_screen();
    assert!(!display.is_pixel_on(1, 0));
}

#[test]
fn sprite_wraps_vertically() {
    let mut display = Display::init();
    let memory = [0x80u8, 0x80u8, 0x80u8];
    display.blend_sprite(5, 31, 3, 0, &memory);
    assert!(display.is_pixel_on(5, 31));
    assert!(display.is_pixel_on(5, 0));
    assert!(display.is_pixel_on(5, 1));
    assert!(!display.is_pixel_on(5, 2));
}

#[test]
fn font_glyph_of_zero() {
    let mut chip = machine_with(&[0x60, 0x00, 0xf0, 0x29]);
    run(&mut chip, 2);
    let i = chip.index_register();
    assert_eq!(i, 0x050);
    let glyph: Vec<u8> = (0..5).map(|k| chip.memory_at(i + k)).collect();
    assert_eq!(glyph, vec![0xf0, 0x90, 0x90, 0x90, 0xf0]);
}

#[test]
fn font_glyph_of_f() {
    let mut chip = machine_with(&[0x60, 0x0f, 0xf0, 0x29]);
    run(&mut chip, 2);
    let i = chip.index_register();
    assert_eq!(i, 0x050 + 15 * 5);
    let glyph: Vec<u8> = (0..5).map(|k| chip.memory_at(i + k)).collect();
    assert_eq!(glyph, vec![0xf0, 0x80, 0xf0, 0x80, 0x80]);
}

#[test]
fn sprite_location_is_not_clamped() {
    let mut chip = machine_with(&[0x60, 0xff, 0xf0, 0x29]);
    run(&mut chip, 2);
    assert_eq!(chip.index_register(), 0x050 + 255 * 5);
}

#[test]
fn call_then_return_resumes_after_call() {
    let mut program = vec![0u8; 0x102];
    program[0] = 0x23;
    program[1] = 0x00;
    program[0x100] = 0x00;
    program[0x101] = 0xee;
    let mut chip = machine_with(&program);
    run(&mut chip, 1);
    assert_eq!(chip.program_counter(), 0x300);
    assert_eq!(chip.stack_depth(), 1);
    run(&mut chip, 1);
    assert_eq!(chip.program_counter(), 0x202);
    assert_eq!(chip.stack_depth(), 0);
}

#[test]
fn return_on_empty_stack_fails() {
    let mut chip = machine_with(&[0x00, 0xee]);
    assert_eq!(chip.emulate_cycle_with_random(0), Err(CycleError::StackUnderflow));
    assert_eq!(chip.program_counter(), 0x200);
}

#[test]
fn unknown_opcode_fails() {
    let mut chip = machine_with(&[0x01, 0x23]);
    assert_eq!(chip.emulate_cycle(), Err(CycleError::UnknownOpcode(0x0123)));
    assert_eq!(chip.program_counter(), 0x200);
}

#[test]
fn draw_past_end_of_memory_fails() {
    let mut chip = machine_with(&[0xaf, 0xff, 0xd0, 0x02]);
    run(&mut chip, 1);
    assert_eq!(
        chip.emulate_cycle_with_random(0),
        Err(CycleError::AddressOutOfRange(0x0fff))
    );
    assert_eq!(chip.program_counter(), 0x202);
}

#[test]
fn fetch_past_end_of_memory_fails() {
    let mut chip = machine_with(&[0x1f, 0xff]);
    run(&mut chip, 1);
    assert_eq!(chip.program_counter(), 0x0fff);
    assert_eq!(
        chip.emulate_cycle_with_random(0),
        Err(CycleError::AddressOutOfRange(0x0fff))
    );
}

#[test]
fn timers_saturate_at_zero() {
    let mut chip = machine_with(&[0x60, 0x05, 0xf0, 0x15, 0xf0, 0x18]);
    run(&mut chip, 3);
    assert_eq!(chip.delay_timer(), 5);
    assert_eq!(chip.sound_timer(), 5);
    for _ in 0..10 {
        chip.tick_timers();
    }
    assert_eq!(chip.delay_timer(), 0);
    assert_eq!(chip.sound_timer(), 0);
}

#[test]
fn timer_counts_down_one_per_tick() {
    let mut timers = Timers::init();
    timers.set_delay(5);
    timers.set_sound(2);
    timers.tick();
    assert_eq!(timers.get_delay(), 4);
    assert_eq!(timers.get_sound(), 1);
    for _ in 0..10 {
        timers.tick();
    }
    assert_eq!(timers.get_delay(), 0);
    assert_eq!(timers.get_sound(), 0);
}

#[test]
fn read_delay_timer_into_register() {
    let mut chip = machine_with(&[0x60, 0x09, 0xf0, 0x15, 0xf3, 0x07]);
    run(&mut chip, 2);
    chip.tick_timers();
    run(&mut chip, 1);
    assert_eq!(chip.register(3), 8);
}

#[test]
fn end_to_end_program() {
    let mut chip = machine_with(&[0x60, 0x05, 0x70, 0x03, 0x00, 0xe0, 0x12, 0x00]);
    run(&mut chip, 2);
    assert_eq!(chip.register(0), 8);
    run(&mut chip, 2);
    assert_eq!(chip.program_counter(), 0x200);
    assert_eq!(chip.register(0), 8);
}

#[test]
fn bcd_of_register() {
    let mut chip = machine_with(&[0x60, 0xea, 0xa3, 0x00, 0xf0, 0x33]);
    run(&mut chip, 3);
    assert_eq!(chip.memory_at(0x300), 2);
    assert_eq!(chip.memory_at(0x301), 3);
    assert_eq!(chip.memory_at(0x302), 4);
    assert_eq!(chip.index_register(), 0x300);
}

#[test]
fn dump_and_load_registers_keep_index() {
    let mut chip = machine_with(&[
        0x60, 0x11, 0x61, 0x22, 0x62, 0x33, 0xa4, 0x00, 0xf1, 0x55, // dump V0..V1
        0x60, 0x00, 0x61, 0x00, 0x62, 0x00, 0xf2, 0x65, // load V0..V2
    ]);
    run(&mut chip, 5);
    assert_eq!(chip.memory_at(0x400), 0x11);
    assert_eq!(chip.memory_at(0x401), 0x22);
    assert_eq!(chip.memory_at(0x402), 0x00);
    assert_eq!(chip.index_register(), 0x400);
    run(&mut chip, 4);
    assert_eq!(chip.register(0), 0x11);
    assert_eq!(chip.register(1), 0x22);
    assert_eq!(chip.register(2), 0x00);
    assert_eq!(chip.index_register(), 0x400);
}

#[test]
fn add_to_index_masks_and_flags() {
    let mut chip = machine_with(&[0xaf, 0xfe, 0x60, 0x03, 0xf0, 0x1e]);
    run(&mut chip, 3);
    assert_eq!(chip.index_register(), 0x001);
    assert_eq!(chip.register(0xf), 1);
    let mut chip = machine_with(&[0xa1, 0x00, 0x60, 0x03, 0xf0, 0x1e]);
    run(&mut chip, 3);
    assert_eq!(chip.index_register(), 0x103);
    assert_eq!(chip.register(0xf), 0);
}

#[test]
fn skips_advance_past_next_instruction() {
    let mut chip = machine_with(&[0x60, 0x05, 0x30, 0x05]);
    run(&mut chip, 2);
    assert_eq!(chip.program_counter(), 0x206);
    let mut chip = machine_with(&[0x60, 0x05, 0x40, 0x05]);
    run(&mut chip, 2);
    assert_eq!(chip.program_counter(), 0x204);
    let mut chip = machine_with(&[0x60, 0x05, 0x61, 0x05, 0x50, 0x10]);
    run(&mut chip, 3);
    assert_eq!(chip.program_counter(), 0x208);
    let mut chip = machine_with(&[0x60, 0x05, 0x61, 0x05, 0x90, 0x10]);
    run(&mut chip, 3);
    assert_eq!(chip.program_counter(), 0x206);
}

#[test]
fn jumps() {
    let mut chip = machine_with(&[0x60, 0x04, 0xb3, 0x00]);
    run(&mut chip, 2);
    assert_eq!(chip.program_counter(), 0x304);
    let mut chip = machine_with(&[0x14, 0x56]);
    run(&mut chip, 1);
    assert_eq!(chip.program_counter(), 0x456);
}

#[test]
fn random_number_is_masked() {
    let mut chip = machine_with(&[0xc0, 0x0f, 0xc1, 0x0f]);
    chip.emulate_cycle_with_random(0xab).unwrap();
    assert_eq!(chip.register(0), 0x0b);
    chip.emulate_cycle().unwrap();
    assert!(chip.register(1) <= 0x0f);
}

#[test]
fn key_skips_follow_keypad_state() {
    let mut chip = machine_with(&[0x60, 0x04, 0xe0, 0x9e]);
    run(&mut chip, 1);
    chip.process_events(&[InputEvent::KeyDown(113)]);
    assert!(chip.input().is_key_pressed(4));
    run(&mut chip, 1);
    assert_eq!(chip.program_counter(), 0x206);

    let mut chip = machine_with(&[0x60, 0x04, 0xe0, 0xa1]);
    chip.process_events(&[InputEvent::KeyDown(113), InputEvent::KeyUp(113)]);
    assert!(!chip.input().is_key_pressed(4));
    run(&mut chip, 2);
    assert_eq!(chip.program_counter(), 0x206);
}

#[test]
fn out_of_range_key_is_never_pressed() {
    let mut chip = machine_with(&[0x60, 0x20, 0xe0, 0x9e]);
    run(&mut chip, 2);
    assert_eq!(chip.program_counter(), 0x204);
    assert!(!chip.input().is_key_pressed(0x20));
}

#[test]
fn await_key_press_waits_for_key_down() {
    let mut chip = machine_with(&[0xf3, 0x0a, 0x60, 0x01]);
    run(&mut chip, 1);
    assert!(chip.is_awaiting_key());
    run(&mut chip, 3);
    assert_eq!(chip.program_counter(), 0x202);
    assert_eq!(chip.register(0), 0);
    chip.process_events(&[InputEvent::KeyUp(118), InputEvent::KeyDown(65)]);
    assert!(chip.is_awaiting_key());
    chip.process_events(&[InputEvent::KeyDown(118)]);
    assert!(!chip.is_awaiting_key());
    assert_eq!(chip.register(3), 0xf);
    run(&mut chip, 1);
    assert_eq!(chip.register(0), 1);
}

#[test]
fn exit_requests() {
    let mut chip = Chip8::init();
    chip.process_events(&[InputEvent::KeyDown(49)]);
    assert!(!chip.should_exit());
    chip.process_events(&[InputEvent::KeyDown(KEYCODE_ESCAPE)]);
    assert!(chip.should_exit());
    let mut chip = Chip8::init();
    chip.process_events(&[InputEvent::Quit]);
    assert!(chip.should_exit());
}

#[test]
fn keycode_layout() {
    let codes = [
        '1', '2', '3', '4', 'q', 'w', 'e', 'r', 'a', 's', 'd', 'f', 'y', 'x', 'c', 'v',
    ];
    for (k, c) in codes.iter().enumerate() {
        assert_eq!(convert_keycode_to_u8(*c as i32), Some(k as u8));
    }
    assert_eq!(convert_keycode_to_u8('z' as i32), None);
    assert_eq!(convert_keycode_to_u8(KEYCODE_ESCAPE), None);
}

#[test]
fn oversized_program_is_truncated() {
    let program: Vec<u8> = (0..5000).map(|i| (i % 251) as u8).collect();
    let chip = machine_with(&program);
    assert_eq!(chip.memory_at(0x200), 0);
    assert_eq!(chip.memory_at(0xfff), ((0xfff - 0x200) % 251) as u8);
    assert_eq!(chip.program_counter(), 0x200);
}

#[test]
fn scheduler_budget_and_plan() {
    assert_eq!(cycle_budget_nanos(700), 1_428_571);
    assert_eq!(cycle_budget_nanos(1), 1_000_000_000);
    assert_eq!(
        plan_cycle(1_428_571, 28_571, 16_666_667),
        CyclePlan { present: true, sleep_nanos: 1_400_000 }
    );
    assert_eq!(
        plan_cycle(1_000, 5_000, 100),
        CyclePlan { present: false, sleep_nanos: 0 }
    );
    assert_eq!(ticks_due(50_000_002), (3, 1));
    assert_eq!(ticks_due(16_666_666), (0, 16_666_666));
}

#[test]
fn timers_tick_by_many() {
    let mut chip = machine_with(&[0x60, 0x05, 0xf0, 0x15, 0x61, 0xc8, 0xf1, 0x18]);
    run(&mut chip, 4);
    chip.tick_timers_by(10);
    assert_eq!(chip.delay_timer(), 0);
    assert_eq!(chip.sound_timer(), 190);
    chip.tick_timers_by(0);
    assert_eq!(chip.sound_timer(), 190);
}

#[test]
fn empty_sprite_reads_nothing() {
    let mut display = Display::init();
    let memory: [u8; 0] = [];
    assert!(!display.blend_sprite(10, 10, 0, 0x0fff, &memory));
    for y in 0..32 {
        for x in 0..64 {
            assert!(!display.is_pixel_on(x, y));
        }
    }
}

#[test]
fn shift_left_flag_is_zero_without_high_bit() {
    let mut chip = machine_with(&[0x61, 0xff, 0x81, 0x0e, 0x62, 0x7f, 0x82, 0x0e]);
    run(&mut chip, 2);
    assert_eq!(chip.register(1), 0xfe);
    assert_eq!(chip.register(0xf), 1);
    run(&mut chip, 2);
    assert_eq!(chip.register(2), 0xfe);
    assert_eq!(chip.register(0xf), 0);
}
