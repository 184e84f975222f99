use chip8rs::chip8::Chip8;
use chip8rs::display::{Display, LedsDisplay};
use chip8rs::instruction::Instruction;
use chip8rs::keypad::KeyboardKeypad;
use chip8rs::machine::Fault;

fn machine() -> Chip8 {
    Chip8::new(LedsDisplay::new(64, 32, false), KeyboardKeypad::new(16))
}

fn booted(rom: &[u8]) -> Chip8 {
    let mut chip = machine();
    assert_eq!(chip.boot(rom), Ok(()));
    chip
}

fn lit_pixels(chip: &Chip8) -> Vec<(usize, usize)> {
    let mut lit = Vec::new();
    for y in 0..32 {
        for x in 0..64 {
            if chip.display().is_on(x, y) {
                lit.push((x, y));
            }
        }
    }
    lit
}

#[test]
fn new_machine_is_at_rest() {
    let chip = machine();
    assert_eq!(chip.pc(), 0x200);
    assert_eq!(chip.index(), 0);
    assert!(chip.stack().is_empty());
    assert_eq!(chip.delay_timer_value(), 0);
    assert_eq!(chip.sound_timer_value(), 0);
    for reg in 0..16 {
        assert_eq!(chip.register(reg), 0);
    }
    for addr in 0..4096u16 {
        assert_eq!(chip.memory_at(addr), 0);
    }
    assert!(lit_pixels(&chip).is_empty());
}

#[test]
fn boot_lays_font_and_program_into_memory() {
    let chip = booted(&[0x12, 0x34, 0x56]);
    assert_eq!(chip.pc(), 0x200);
    assert_eq!(chip.memory_at(0x04F), 0x00);
    assert_eq!(chip.memory_at(0x050), 0xF0);
    assert_eq!(chip.memory_at(0x051), 0x90);
    assert_eq!(chip.memory_at(0x054), 0xF0);
    assert_eq!(chip.memory_at(0x055), 0x20);
    assert_eq!(chip.memory_at(0x09B), 0xF0);
    assert_eq!(chip.memory_at(0x09F), 0x80);
    assert_eq!(chip.memory_at(0x0A0), 0x00);
    assert_eq!(chip.memory_at(0x1FF), 0x00);
    assert_eq!(chip.memory_at(0x200), 0x12);
    assert_eq!(chip.memory_at(0x201), 0x34);
    assert_eq!(chip.memory_at(0x202), 0x56);
    assert_eq!(chip.memory_at(0x203), 0x00);
}

#[test]
fn largest_program_fits() {
    let rom = vec![0xAB; 3584];
    let chip = booted(&rom);
    assert_eq!(chip.memory_at(0x200), 0xAB);
    assert_eq!(chip.memory_at(0xFFF), 0xAB);
}

#[test]
fn too_large_program_is_refused() {
    let rom = vec![0xAB; 3585];
    let mut chip = machine();
    assert_eq!(chip.load_rom(&rom), Err(Fault::RomTooLarge));
    assert_eq!(chip.memory_at(0x200), 0x00);
    assert_eq!(chip.boot(&rom), Err(Fault::RomTooLarge));
    assert_eq!(chip.memory_at(0x050), 0x00);
    assert_eq!(chip.memory_at(0x200), 0x00);
}

#[test]
fn clear_screen_scenario() {
    let mut chip = Chip8::new(LedsDisplay::new(64, 32, true), KeyboardKeypad::new(16));
    assert_eq!(chip.boot(&[0x00, 0xE0]), Ok(()));
    assert_eq!(lit_pixels(&chip).len(), 2048);
    assert_eq!(chip.cycle(), Ok(()));
    assert!(lit_pixels(&chip).is_empty());
    assert_eq!(chip.pc(), 0x202);
}

#[test]
fn call_and_return_scenario() {
    let mut chip = booted(&[0x22, 0x04, 0x00, 0x00, 0x00, 0xEE]);
    assert_eq!(chip.cycle(), Ok(()));
    assert_eq!(chip.pc(), 0x204);
    assert_eq!(chip.stack(), &vec![0x202]);
    assert_eq!(chip.cycle(), Ok(()));
    assert_eq!(chip.pc(), 0x202);
    assert!(chip.stack().is_empty());
}

#[test]
fn add_with_carry_scenario() {
    let mut chip = booted(&[0x80, 0x14]);
    chip.set_register(0, 0xFF);
    chip.set_register(1, 0x02);
    assert_eq!(chip.cycle(), Ok(()));
    assert_eq!(chip.register(0), 0x01);
    assert_eq!(chip.register(0xF), 1);
    assert_eq!(chip.register(1), 0x02);
}

#[test]
fn sprite_with_collision_scenario() {
    let mut chip = booted(&[0xD0, 0x15, 0xD0, 0x15]);
    chip.set_register(0, 0);
    chip.set_register(1, 0);
    chip.set_index(0x050);
    assert_eq!(chip.cycle(), Ok(()));
    let glyph = vec![
        (0, 0), (1, 0), (2, 0), (3, 0),
        (0, 1), (3, 1),
        (0, 2), (3, 2),
        (0, 3), (3, 3),
        (0, 4), (1, 4), (2, 4), (3, 4),
    ];
    assert_eq!(lit_pixels(&chip), glyph);
    assert_eq!(chip.register(0xF), 0);
    assert_eq!(chip.cycle(), Ok(()));
    assert!(lit_pixels(&chip).is_empty());
    assert_eq!(chip.register(0xF), 1);
}

#[test]
fn keypad_skip_scenario() {
    let mut chip = booted(&[0xE0, 0x9E]);
    chip.set_register(0, 0x5);
    chip.set_key(5, true);
    assert_eq!(chip.cycle(), Ok(()));
    assert_eq!(chip.pc(), 0x204);
}

#[test]
fn decimal_conversion_scenario() {
    let mut chip = booted(&[0xF0, 0x33]);
    chip.set_register(0, 156);
    chip.set_index(0x300);
    assert_eq!(chip.cycle(), Ok(()));
    assert_eq!(chip.memory_at(0x300), 1);
    assert_eq!(chip.memory_at(0x301), 5);
    assert_eq!(chip.memory_at(0x302), 6);
    assert_eq!(chip.index(), 0x300);
}

#[test]
fn decimal_conversion_of_every_value() {
    for v in 0..=255u8 {
        let mut chip = machine();
        chip.set_register(7, v);
        chip.set_index(0xFFD);
        assert_eq!(chip.execute(Instruction::BinaryConversion(7)), Ok(()));
        assert_eq!(chip.memory_at(0xFFD), v / 100);
        assert_eq!(chip.memory_at(0xFFE), (v / 10) % 10);
        assert_eq!(chip.memory_at(0xFFF), v % 10);
    }
}

#[test]
fn set_then_add_wraps_and_keeps_the_flag() {
    let mut chip = booted(&[0x63, 0xF0, 0x73, 0x20]);
    chip.set_register(0xF, 0x77);
    assert_eq!(chip.cycle(), Ok(()));
    assert_eq!(chip.cycle(), Ok(()));
    assert_eq!(chip.register(3), 0x10);
    assert_eq!(chip.register(0xF), 0x77);
    assert_eq!(chip.pc(), 0x204);
}

#[test]
fn add_sets_sum_and_carry() {
    for (a, b) in [(0u8, 0u8), (1, 2), (0xFF, 0x01), (0x80, 0x80), (0xFF, 0xFF), (0x7F, 0x80)] {
        let mut chip = machine();
        chip.set_register(2, a);
        chip.set_register(3, b);
        chip.logical_add(2, 3);
        let sum = a as u16 + b as u16;
        assert_eq!(chip.register(2), (sum % 256) as u8);
        assert_eq!(chip.register(0xF), (sum > 255) as u8);
        assert_eq!(chip.register(3), b);
    }
}

#[test]
fn add_into_the_flag_register_leaves_the_flag() {
    let mut chip = machine();
    chip.set_register(0xF, 0xF0);
    chip.set_register(1, 0x20);
    chip.logical_add(0xF, 1);
    assert_eq!(chip.register(0xF), 1);
    chip.set_register(0xF, 0x10);
    chip.logical_add(0xF, 1);
    assert_eq!(chip.register(0xF), 0);
}

#[test]
fn subtract_sets_difference_and_no_borrow() {
    for (a, b) in [(5u8, 3u8), (3, 5), (7, 7), (0, 1), (0xFF, 0), (0, 0xFF)] {
        let mut chip = machine();
        chip.set_register(2, a);
        chip.set_register(3, b);
        chip.logical_sub(2, 3);
        assert_eq!(chip.register(2), a.wrapping_sub(b));
        assert_eq!(chip.register(0xF), (a >= b) as u8);
    }
}

#[test]
fn reverse_subtract_sets_difference_and_no_borrow() {
    for (a, b) in [(5u8, 3u8), (3, 5), (7, 7), (0, 1), (0xFF, 0), (0, 0xFF)] {
        let mut chip = machine();
        chip.set_register(2, a);
        chip.set_register(3, b);
        chip.logical_sub_inv(2, 3);
        assert_eq!(chip.register(2), b.wrapping_sub(a));
        assert_eq!(chip.register(0xF), (b >= a) as u8);
    }
}

#[test]
fn shifts_work_in_place_and_flag_the_lost_bit() {
    let mut chip = machine();
    chip.set_register(4, 0b1000_0011);
    chip.logical_right_shift(4);
    assert_eq!(chip.register(4), 0b0100_0001);
    assert_eq!(chip.register(0xF), 1);
    chip.logical_right_shift(4);
    assert_eq!(chip.register(4), 0b0010_0000);
    assert_eq!(chip.register(0xF), 1);
    chip.logical_right_shift(4);
    assert_eq!(chip.register(0xF), 0);
    chip.set_register(4, 0b1000_0011);
    chip.logical_left_shift(4);
    assert_eq!(chip.register(4), 0b0000_0110);
    assert_eq!(chip.register(0xF), 1);
    chip.logical_left_shift(4);
    assert_eq!(chip.register(4), 0b0000_1100);
    assert_eq!(chip.register(0xF), 0);
}

#[test]
fn logic_operations() {
    let mut chip = machine();
    chip.set_register(0, 0b1100);
    chip.set_register(1, 0b1010);
    chip.logical_or(0, 1);
    assert_eq!(chip.register(0), 0b1110);
    chip.set_register(0, 0b1100);
    chip.logical_and(0, 1);
    assert_eq!(chip.register(0), 0b1000);
    chip.set_register(0, 0b1100);
    chip.logical_xor(0, 1);
    assert_eq!(chip.register(0), 0b0110);
    chip.logical_copy(0, 1);
    assert_eq!(chip.register(0), 0b1010);
    assert_eq!(chip.register(0xF), 0);
}

#[test]
fn skips() {
    let mut chip = machine();
    chip.set_register(1, 7);
    chip.set_register(2, 7);
    chip.set_register(3, 8);
    chip.skip_if_eq(1, 7);
    assert_eq!(chip.pc(), 0x202);
    chip.skip_if_eq(1, 8);
    assert_eq!(chip.pc(), 0x202);
    chip.skip_if_diff(1, 8);
    assert_eq!(chip.pc(), 0x204);
    chip.skip_if_diff(1, 7);
    assert_eq!(chip.pc(), 0x204);
    chip.skip_if_content_eq(1, 2);
    assert_eq!(chip.pc(), 0x206);
    chip.skip_if_content_eq(1, 3);
    assert_eq!(chip.pc(), 0x206);
    chip.skip_if_content_diff(1, 3);
    assert_eq!(chip.pc(), 0x208);
    chip.skip_if_content_diff(1, 2);
    assert_eq!(chip.pc(), 0x208);
}

#[test]
fn jump_with_register_adds_v0() {
    let mut chip = machine();
    chip.set_register(0, 0xFF);
    chip.set_register(3, 0x01);
    chip.jump_with_reg(0xFFF);
    assert_eq!(chip.pc(), 0x10FE);
    chip.jump(0x345);
    assert_eq!(chip.pc(), 0x345);
}

#[test]
fn add_to_index_wraps_and_flags() {
    let mut chip = machine();
    chip.set_index(0xFFFF);
    chip.set_register(1, 2);
    chip.add_to_index(1);
    assert_eq!(chip.index(), 1);
    assert_eq!(chip.register(0xF), 1);
    chip.add_to_index(1);
    assert_eq!(chip.index(), 3);
    assert_eq!(chip.register(0xF), 0);
}

#[test]
fn index_of_a_glyph() {
    let mut chip = machine();
    chip.set_register(1, 0x0A);
    chip.set_index_to_font(1);
    assert_eq!(chip.index(), 0x050 + 5 * 0xA);
    chip.set_register(1, 0x3F);
    chip.set_index_to_font(1);
    assert_eq!(chip.index(), 0x050 + 5 * 0xF);
}

#[test]
fn store_and_load_leave_the_index() {
    let mut chip = machine();
    for reg in 0..16u8 {
        chip.set_register(reg, 0x10 + reg);
    }
    chip.set_index(0x400);
    chip.store(3);
    assert_eq!(chip.index(), 0x400);
    assert_eq!(chip.memory_at(0x400), 0x10);
    assert_eq!(chip.memory_at(0x403), 0x13);
    assert_eq!(chip.memory_at(0x404), 0x00);
    for reg in 0..16u8 {
        chip.set_register(reg, 0);
    }
    chip.load(2);
    assert_eq!(chip.index(), 0x400);
    assert_eq!(chip.register(0), 0x10);
    assert_eq!(chip.register(2), 0x12);
    assert_eq!(chip.register(3), 0x00);
}

#[test]
fn random_stays_under_the_mask() {
    for _ in 0..200 {
        let mut chip = machine();
        chip.random(3, 0x0F);
        assert_eq!(chip.register(3) & 0xF0, 0);
        chip.random(3, 0x00);
        assert_eq!(chip.register(3), 0);
    }
    let mut chip = machine();
    chip.random_with(3, 0x3C, 0xA5);
    assert_eq!(chip.register(3), 0x24);
    assert_eq!(chip.execute_with(Instruction::Random(4, 0xF0), 0xAB), Ok(()));
    assert_eq!(chip.register(4), 0xA0);
}

#[test]
fn random_gives_more_than_one_value() {
    let mut seen = [false; 256];
    for _ in 0..2000 {
        let mut chip = machine();
        chip.random(0, 0xFF);
        seen[chip.register(0) as usize] = true;
    }
    assert!(seen.iter().filter(|s| **s).count() > 1);
}

#[test]
fn wait_for_key_steps_back_until_a_key_is_down() {
    let mut chip = booted(&[0xF3, 0x0A]);
    assert_eq!(chip.cycle(), Ok(()));
    assert_eq!(chip.pc(), 0x200);
    assert_eq!(chip.cycle(), Ok(()));
    assert_eq!(chip.pc(), 0x200);
    chip.set_key(0xC, true);
    chip.set_key(0x9, true);
    assert_eq!(chip.cycle(), Ok(()));
    assert_eq!(chip.pc(), 0x202);
    assert_eq!(chip.register(3), 0x9);
}

#[test]
fn keypad_skips_use_the_low_four_bits() {
    let mut chip = machine();
    chip.set_register(0, 0x35);
    chip.set_key(5, true);
    chip.skip_if_pressed(0);
    assert_eq!(chip.pc(), 0x202);
    chip.skip_if_not_pressed(0);
    assert_eq!(chip.pc(), 0x202);
    chip.set_key(5, false);
    chip.skip_if_pressed(0);
    assert_eq!(chip.pc(), 0x202);
    chip.skip_if_not_pressed(0);
    assert_eq!(chip.pc(), 0x204);
}

#[test]
fn timers_are_set_read_and_ticked() {
    let mut chip = machine();
    chip.set_register(1, 2);
    chip.set_delay_timer(1);
    assert_eq!(chip.delay_timer_value(), 2);
    chip.copy_delay_timer(4);
    assert_eq!(chip.register(4), 2);
    chip.tick_delay_timer();
    chip.tick_delay_timer();
    assert_eq!(chip.delay_timer_value(), 0);
    chip.tick_delay_timer();
    assert_eq!(chip.delay_timer_value(), 0);
    chip.set_sound_timer(1);
    assert_eq!(chip.sound_timer_value(), 2);
    assert_eq!(chip.tick_sound_timer(), Some(2));
    assert_eq!(chip.tick_sound_timer(), None);
    assert_eq!(chip.sound_timer_value(), 0);
    assert_eq!(chip.tick_sound_timer(), None);
}

#[test]
fn sprite_is_cut_off_at_the_edges() {
    let mut chip = machine();
    chip.load_fonts();
    chip.set_register(0, 62 + 64);
    chip.set_register(1, 30 + 32);
    chip.set_index(0x050);
    chip.draw_sprite(0, 1, 5);
    assert_eq!(lit_pixels(&chip), vec![(62, 30), (63, 30), (62, 31)]);
    assert_eq!(chip.register(0xF), 0);
}

#[test]
fn sprite_rows_beyond_the_screen_are_not_read() {
    let mut chip = machine();
    chip.set_register(0, 0);
    chip.set_register(1, 31);
    chip.set_index(0xFFF);
    assert_eq!(chip.execute(Instruction::Display(0, 1, 15)), Ok(()));
    assert!(lit_pixels(&chip).is_empty());
    chip.set_register(1, 30);
    assert_eq!(chip.execute(Instruction::Display(0, 1, 15)), Err(Fault::MemoryOutOfRange));
    chip.set_index(0xFFFF);
    assert_eq!(chip.execute(Instruction::Display(0, 1, 0)), Ok(()));
}

#[test]
fn drawing_twice_restores_a_blank_screen() {
    let mut chip = machine();
    chip.load_fonts();
    for digit in 0..16u8 {
        chip.set_register(2, digit);
        chip.set_index_to_font(2);
        chip.set_register(0, 61);
        chip.set_register(1, 29);
        chip.draw_sprite(0, 1, 5);
        assert_eq!(chip.register(0xF), 0);
        assert!(!lit_pixels(&chip).is_empty());
        chip.draw_sprite(0, 1, 5);
        assert_eq!(chip.register(0xF), 1);
        assert!(lit_pixels(&chip).is_empty());
    }
}

#[test]
fn drawing_an_empty_sprite_twice_reports_no_collision() {
    let mut chip = machine();
    chip.set_index(0x300);
    chip.draw_sprite(0, 1, 5);
    assert_eq!(chip.register(0xF), 0);
    chip.draw_sprite(0, 1, 5);
    assert_eq!(chip.register(0xF), 0);
    assert!(lit_pixels(&chip).is_empty());
}

#[test]
fn stack_faults() {
    let mut chip = machine();
    assert_eq!(chip.execute(Instruction::Return), Err(Fault::StackUnderflow));
    for depth in 0..100 {
        assert_eq!(chip.stack().len(), depth);
        assert_eq!(chip.execute(Instruction::Call(0x300)), Ok(()));
    }
    assert_eq!(chip.execute(Instruction::Call(0x300)), Err(Fault::StackOverflow));
    assert_eq!(chip.stack().len(), 100);
    assert_eq!(chip.pc(), 0x300);
}

#[test]
fn memory_faults() {
    let mut chip = machine();
    chip.set_index(0xFFE);
    assert_eq!(chip.execute(Instruction::BinaryConversion(0)), Err(Fault::MemoryOutOfRange));
    assert_eq!(chip.execute(Instruction::Store(2)), Err(Fault::MemoryOutOfRange));
    assert_eq!(chip.execute(Instruction::Load(2)), Err(Fault::MemoryOutOfRange));
    assert_eq!(chip.execute(Instruction::Store(1)), Ok(()));
    assert_eq!(chip.execute(Instruction::Load(1)), Ok(()));
    chip.jump(0xFFF);
    assert_eq!(chip.cycle(), Err(Fault::MemoryOutOfRange));
    assert_eq!(chip.pc(), 0xFFF);
}

#[test]
fn unknown_word_stops_the_cycle() {
    let mut chip = booted(&[0x51, 0x21]);
    assert_eq!(chip.cycle(), Err(Fault::UnknownInstruction(0x5121)));
    assert_eq!(chip.pc(), 0x200);
    chip.jump(0x300);
    assert_eq!(chip.cycle(), Err(Fault::UnknownInstruction(0x0000)));
}

#[test]
fn failed_cycle_leaves_the_machine_as_it_was() {
    let mut chip = booted(&[0x00, 0xEE]);
    assert_eq!(chip.cycle(), Err(Fault::StackUnderflow));
    assert_eq!(chip.pc(), 0x200);
    assert!(chip.stack().is_empty());
}

#[test]
fn cycle_with_uses_the_given_byte() {
    let mut chip = booted(&[0xC1, 0x0F]);
    assert_eq!(chip.cycle_with(0xAB), Ok(()));
    assert_eq!(chip.register(1), 0x0B);
    assert_eq!(chip.pc(), 0x202);
}
