use chip8rs::display::{Display, LedsDisplay};
use chip8rs::fonts::{Fonts, FONT_COUNT, FONT_SIZE};
use chip8rs::hue::{hue_sector, next_hue, wrap_hue};
use chip8rs::keypad::{Keypad, KeyboardKeypad};
use chip8rs::timer::{DelayTimer, SoundTimer, Timer};

#[test]
fn display_starts_in_the_given_state() {
    let dark = LedsDisplay::new(64, 32, false);
    let lit = LedsDisplay::new(3, 2, true);
    assert_eq!(dark.width(), 64);
    assert_eq!(dark.height(), 32);
    assert_eq!(lit.width(), 3);
    assert_eq!(lit.height(), 2);
    for y in 0..32 {
        for x in 0..64 {
            assert!(!dark.is_on(x, y));
        }
    }
    for y in 0..2 {
        for x in 0..3 {
            assert!(lit.is_on(x, y));
        }
    }
}

#[test]
fn display_sets_and_clears_one_led() {
    let mut display = LedsDisplay::new(64, 32, false);
    display.led_on(63, 0);
    assert!(display.is_on(63, 0));
    assert!(!display.is_on(0, 31));
    assert!(!display.is_on(62, 0));
    assert!(!display.is_on(63, 1));
    display.led_on(0, 31);
    display.led_off(63, 0);
    assert!(!display.is_on(63, 0));
    assert!(display.is_on(0, 31));
}

#[test]
fn display_clear_screen_sets_every_led() {
    let mut display = LedsDisplay::new(5, 4, false);
    display.led_on(1, 2);
    display.clear_screen(true);
    for y in 0..4 {
        for x in 0..5 {
            assert!(display.is_on(x, y));
        }
    }
    display.clear_screen(false);
    for y in 0..4 {
        for x in 0..5 {
            assert!(!display.is_on(x, y));
        }
    }
}

#[test]
fn empty_display() {
    let mut display = LedsDisplay::new(0, 0, true);
    display.clear_screen(false);
    assert_eq!(display.width(), 0);
    assert_eq!(display.height(), 0);
}

#[test]
fn keypad_records_presses_and_releases() {
    let mut keypad = KeyboardKeypad::new(16);
    assert_eq!(keypad.len(), 16);
    for code in 0..16 {
        assert!(!keypad.get_is_pressed(code));
    }
    keypad.set_is_pressed(0xF, true);
    keypad.set_is_pressed(0x0, true);
    assert!(keypad.get_is_pressed(0xF));
    assert!(keypad.get_is_pressed(0x0));
    assert!(!keypad.get_is_pressed(0x1));
    keypad.set_is_pressed(0xF, false);
    assert!(!keypad.get_is_pressed(0xF));
    assert!(keypad.get_is_pressed(0x0));
}

#[test]
fn host_keys_lie_over_the_keypad() {
    let rows = [
        ['1', '2', '3', '4'],
        ['q', 'w', 'e', 'r'],
        ['a', 's', 'd', 'f'],
        ['z', 'x', 'c', 'v'],
    ];
    let codes = [
        [0x1, 0x2, 0x3, 0xC],
        [0x4, 0x5, 0x6, 0xD],
        [0x7, 0x8, 0x9, 0xE],
        [0xA, 0x0, 0xB, 0xF],
    ];
    for row in 0..4 {
        for col in 0..4 {
            assert_eq!(KeyboardKeypad::code_for(rows[row][col]), Some(codes[row][col]));
        }
    }
    assert_eq!(KeyboardKeypad::code_for('5'), None);
    assert_eq!(KeyboardKeypad::code_for('Q'), None);
    assert_eq!(KeyboardKeypad::code_for(' '), None);
}

#[test]
fn delay_timer_counts_down_to_zero() {
    let mut timer = DelayTimer::new();
    assert_eq!(timer.get_timer_value(), 0);
    timer.tick();
    assert_eq!(timer.get_timer_value(), 0);
    timer.set_timer_value(3);
    assert_eq!(timer.get_timer_value(), 3);
    timer.tick();
    assert_eq!(timer.get_timer_value(), 2);
    timer.tick();
    timer.tick();
    assert_eq!(timer.get_timer_value(), 0);
    timer.tick();
    assert_eq!(timer.get_timer_value(), 0);
    timer.set_timer_value(255);
    timer.tick();
    assert_eq!(timer.get_timer_value(), 254);
}

#[test]
fn sound_timer_starts_a_tone_on_a_higher_load_only() {
    let mut timer = SoundTimer::new();
    assert_eq!(timer.tick(), None);
    timer.set_timer_value(10);
    assert_eq!(timer.tick(), Some(10));
    assert_eq!(timer.get_timer_value(), 9);
    assert_eq!(timer.tick(), None);
    assert_eq!(timer.get_timer_value(), 8);
    /* an equal or a smaller load is absorbed */
    timer.set_timer_value(10);
    assert_eq!(timer.tick(), None);
    timer.set_timer_value(4);
    assert_eq!(timer.tick(), None);
    /* a higher load starts a new tone */
    timer.set_timer_value(11);
    assert_eq!(timer.tick(), Some(11));
    assert_eq!(timer.get_timer_value(), 10);
}

#[test]
fn sound_timer_forgets_the_tone_at_zero() {
    let mut timer = SoundTimer::new();
    timer.set_timer_value(2);
    assert_eq!(timer.tick(), Some(2));
    assert_eq!(timer.tick(), None);
    assert_eq!(timer.get_timer_value(), 0);
    /* still remembered until a tick finds the counter at zero */
    timer.set_timer_value(1);
    assert_eq!(timer.tick(), None);
    assert_eq!(timer.tick(), None);
    timer.set_timer_value(1);
    assert_eq!(timer.tick(), Some(1));
}

#[test]
fn tone_lasts_a_sixtieth_of_a_second_for_each_tick() {
    assert_eq!(SoundTimer::tone_duration_micros(0), 0);
    assert_eq!(SoundTimer::tone_duration_micros(1), 16_666);
    assert_eq!(SoundTimer::tone_duration_micros(60), 1_000_000);
    assert_eq!(SoundTimer::tone_duration_micros(255), 4_250_000);
}

#[test]
fn font_holds_the_sixteen_glyphs() {
    let fonts = Fonts::new();
    assert_eq!(FONT_SIZE, 5);
    assert_eq!(FONT_COUNT, 16);
    assert_eq!(fonts.fonts.len(), 16);
    assert_eq!(fonts.fonts[0x0], [0xF0, 0x90, 0x90, 0x90, 0xF0]);
    assert_eq!(fonts.fonts[0x1], [0x20, 0x60, 0x20, 0x20, 0x70]);
    assert_eq!(fonts.fonts[0x7], [0xF0, 0x10, 0x20, 0x40, 0x40]);
    assert_eq!(fonts.fonts[0xB], [0xE0, 0x90, 0xE0, 0x90, 0xE0]);
    assert_eq!(fonts.fonts[0xF], [0xF0, 0x80, 0xF0, 0x80, 0x80]);
    for glyph in fonts.fonts {
        for row in glyph {
            assert_eq!(row & 0x0F, 0);
        }
    }
}

#[test]
fn hue_cycles_through_the_circle() {
    assert_eq!(next_hue(0), 1);
    assert_eq!(next_hue(359), 360);
    assert_eq!(next_hue(360), 1);
    assert_eq!(next_hue(400), 1);
    assert_eq!(next_hue(-5), -4);
}

#[test]
fn hue_is_brought_back_by_one_turn() {
    assert_eq!(wrap_hue(0), 0);
    assert_eq!(wrap_hue(360), 360);
    assert_eq!(wrap_hue(361), 1);
    assert_eq!(wrap_hue(-1), 359);
    assert_eq!(wrap_hue(-60), 300);
    assert_eq!(wrap_hue(174), 174);
    assert_eq!(wrap_hue(800), 440);
}

#[test]
fn hue_lies_in_one_of_six_sectors() {
    assert_eq!(hue_sector(0), Some(0));
    assert_eq!(hue_sector(60), Some(0));
    assert_eq!(hue_sector(61), Some(1));
    assert_eq!(hue_sector(120), Some(1));
    assert_eq!(hue_sector(121), Some(2));
    assert_eq!(hue_sector(180), Some(2));
    assert_eq!(hue_sector(240), Some(3));
    assert_eq!(hue_sector(241), Some(4));
    assert_eq!(hue_sector(300), Some(4));
    assert_eq!(hue_sector(301), Some(5));
    assert_eq!(hue_sector(359), Some(5));
    assert_eq!(hue_sector(360), Some(0));
    assert_eq!(hue_sector(534), Some(2));
    assert_eq!(hue_sector(-1), None);
    assert_eq!(hue_sector(-360), Some(0));
    assert_eq!(hue_sector(-361), None);
    assert_eq!(hue_sector(i32::MIN), None);
    assert_eq!(hue_sector(i32::MAX), Some(((i32::MAX % 360 - 1) / 60) as u8));
}
