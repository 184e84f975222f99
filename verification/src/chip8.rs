//! The processor: memory, registers, call stack, program counter and index
//! register, with the screen, the keypad and the two timers that the
//! instructions act on.

use crate::display::{rectangular, Display, LedsDisplay};
use crate::fonts::{font_rom, glyph, Fonts, FONT_COUNT, FONT_SIZE};
use crate::instruction::{decoded, Instruction};
use crate::keypad::{KeyboardKeypad, Keypad};
use crate::machine::{
    flag, overlaid, visible_rows, Fault, Machine, DISPLAY_HEIGHT, DISPLAY_WIDTH, FLAG_REGISTER, FONT_START, KEYPAD_SIZE,
    MEMORY_SIZE, REGISTERS_SIZE, ROM_CAPACITY, ROM_START, STACK_SIZE,
};
use crate::sprite::{collides, covers, drawn, SPRITE_WIDTH};
use crate::timer::{starts_tone, DelayTimer, SoundTimer, Timer};
use rand::Rng;
use vstd::prelude::*;

verus! {

/// A CHIP-8 machine.
pub struct Chip8 {
    display: LedsDisplay,
    keypad: KeyboardKeypad,
    memory: [u8; MEMORY_SIZE],
    pc: u16,
    i: u16,
    stack: Vec<u16>,
    delay_timer: DelayTimer,
    sound_timer: SoundTimer,
    regs: [u8; REGISTERS_SIZE],
}

impl View for Chip8 {
    type V = Machine;

    closed spec fn view(&self) -> Machine {
        Machine {
            memory: self.memory@,
            regs: self.regs@,
            pc: self.pc,
            i: self.i,
            stack: self.stack@,
            delay: self.delay_timer.value(),
            sound: self.sound_timer.value(),
            playing: self.sound_timer.playing(),
            pixels: self.display.pixels(),
            keys: self.keypad.keys(),
        }
    }
}

impl Chip8 {
    /// The machine's parts have the sizes of a CHIP-8.
    pub open spec fn wf(&self) -> bool {
        self@.wf()
    }

    /// A machine at rest around a screen and a keypad: memory, registers and
    /// timers at zero, no call under way, the program counter at the address
    /// where programs start.
    pub fn new(display: LedsDisplay, keypad: KeyboardKeypad) -> (chip: Chip8)
        requires
            rectangular(display.pixels(), DISPLAY_WIDTH as nat, DISPLAY_HEIGHT as nat),
            keypad.keys().len() == KEYPAD_SIZE,
        ensures
            chip.wf(),
            chip@ == (Machine {
                memory: Seq::new(MEMORY_SIZE as nat, |a: int| 0u8),
                regs: Seq::new(REGISTERS_SIZE as nat, |r: int| 0u8),
                pc: ROM_START,
                i: 0,
                stack: Seq::empty(),
                delay: 0,
                sound: 0,
                playing: 0,
                pixels: display.pixels(),
                keys: keypad.keys(),
            }),
    {
        let chip = Chip8 {
            display,
            keypad,
            memory: [0; MEMORY_SIZE],
            pc: ROM_START,
            i: 0,
            stack: Vec::with_capacity(STACK_SIZE),
            delay_timer: DelayTimer::new(),
            sound_timer: SoundTimer::new(),
            regs: [0; REGISTERS_SIZE],
        };
        assert(chip.memory@ =~= Seq::new(MEMORY_SIZE as nat, |a: int| 0u8));
        assert(chip.regs@ =~= Seq::new(REGISTERS_SIZE as nat, |r: int| 0u8));
        assert(chip.stack@ =~= Seq::empty());
        chip
    }

    /// The program counter.
    pub fn pc(&self) -> (pc: u16)
        ensures
            pc == self@.pc,
    {
        self.pc
    }

    /// The index register `I`.
    pub fn index(&self) -> (i: u16)
        ensures
            i == self@.i,
    {
        self.i
    }

    /// The value of the register `reg`.
    pub fn register(&self, reg: u8) -> (value: u8)
        requires
            reg < REGISTERS_SIZE,
        ensures
            value == self@.regs[reg as int],
    {
        self.regs[reg as usize]
    }

    /// The byte of memory at the address `addr`.
    pub fn memory_at(&self, addr: u16) -> (byte: u8)
        requires
            addr < MEMORY_SIZE,
        ensures
            byte == self@.memory[addr as int],
    {
        self.memory[addr as usize]
    }

    /// The return addresses of the calls under way, the latest last.
    pub fn stack(&self) -> (stack: &Vec<u16>)
        ensures
            stack@ == self@.stack,
    {
        &self.stack
    }

    /// The value of the delay timer.
    pub fn delay_timer_value(&self) -> (value: u8)
        ensures
            value == self@.delay,
    {
        self.delay_timer.get_timer_value()
    }

    /// The value of the sound timer.
    pub fn sound_timer_value(&self) -> (value: u8)
        ensures
            value == self@.sound,
    {
        self.sound_timer.get_timer_value()
    }

    /// The screen.
    pub fn display(&self) -> (display: &LedsDisplay)
        ensures
            display.pixels() == self@.pixels,
    {
        &self.display
    }

    /// The keypad.
    pub fn keypad(&self) -> (keypad: &KeyboardKeypad)
        ensures
            keypad.keys() == self@.keys,
    {
        &self.keypad
    }

    /// Records that the host saw the key `code` go down (`is_pressed`) or
    /// come up.
    pub fn set_key(&mut self, code: usize, is_pressed: bool)
        requires
            old(self).wf(),
            code < KEYPAD_SIZE,
        ensures
            final(self).wf(),
            final(self)@ == (Machine {
                keys: old(self)@.keys.update(code as int, is_pressed),
                ..old(self)@
            }),
    {
        self.keypad.set_is_pressed(code, is_pressed);
    }

    /// `00E0`: darkens the whole screen.
    pub fn clear_screen(&mut self)
        requires
            old(self).wf(),
        ensures
            final(self).wf(),
            final(self)@ == old(self)@.clear_screen(),
    {
        self.display.clear_screen(false);
    }

    /// `00EE`: returns from the call under way.
    pub fn return_subroutine(&mut self)
        requires
            old(self).wf(),
            old(self)@.stack.len() > 0,
        ensures
            final(self).wf(),
            final(self)@ == old(self)@.return_subroutine(),
    {
        self.pc = self.stack.pop().unwrap();
    }

    /// `1NNN`: goes on at `addr`.
    pub fn jump(&mut self, addr: u16)
        requires
            old(self).wf(),
        ensures
            final(self).wf(),
            final(self)@ == old(self)@.jump(addr),
    {
        self.pc = addr;
    }

    /// `2NNN`: calls the subroutine at `addr`.
    pub fn call_subroutine(&mut self, addr: u16)
        requires
            old(self).wf(),
            old(self)@.stack.len() < STACK_SIZE,
        ensures
            final(self).wf(),
            final(self)@ == old(self)@.call_subroutine(addr),
    {
        self.stack.push(self.pc);
        self.pc = addr;
    }

    /// `3XNN`: skips the next instruction where `Vx` equals `value`.
    pub fn skip_if_eq(&mut self, reg: u8, value: u8)
        requires
            old(self).wf(),
            reg < REGISTERS_SIZE,
            old(self)@.pc <= 0xFFFD,
        ensures
            final(self).wf(),
            final(self)@ == old(self)@.skip_if_eq(reg, value),
    {
        let reg_value = self.regs[reg as usize];
        if value == reg_value {
            self.pc += 2;
        }
    }

    /// `6XNN`: sets `Vx` to `value`.
    pub fn set_register(&mut self, reg: u8, value: u8)
        requires
            old(self).wf(),
            reg < REGISTERS_SIZE,
        ensures
            final(self).wf(),
            final(self)@ == old(self)@.set_register(reg, value),
    {
        self.regs[reg as usize] = value;
    }

    /// `4XNN`: skips the next instruction where `Vx` differs from `value`.
    pub fn skip_if_diff(&mut self, reg: u8, value: u8)
        requires
            old(self).wf(),
            reg < REGISTERS_SIZE,
            old(self)@.pc <= 0xFFFD,
        ensures
            final(self).wf(),
            final(self)@ == old(self)@.skip_if_diff(reg, value),
    {
        let reg_value = self.regs[reg as usize];
        if value != reg_value {
            self.pc += 2;
        }
    }

    /// `5XY0`: skips the next instruction where `Vx` equals `Vy`.
    pub fn skip_if_content_eq(&mut self, reg_x: u8, reg_y: u8)
        requires
            old(self).wf(),
            reg_x < REGISTERS_SIZE,
            reg_y < REGISTERS_SIZE,
            old(self)@.pc <= 0xFFFD,
        ensures
            final(self).wf(),
            final(self)@ == old(self)@.skip_if_content_eq(reg_x, reg_y),
    {
        if self.regs[reg_x as usize] == self.regs[reg_y as usize] {
            self.pc += 2;
        }
    }

    /// `9XY0`: skips the next instruction where `Vx` differs from `Vy`.
    pub fn skip_if_content_diff(&mut self, reg_x: u8, reg_y: u8)
        requires
            old(self).wf(),
            reg_x < REGISTERS_SIZE,
            reg_y < REGISTERS_SIZE,
            old(self)@.pc <= 0xFFFD,
        ensures
            final(self).wf(),
            final(self)@ == old(self)@.skip_if_content_diff(reg_x, reg_y),
    {
        if self.regs[reg_x as usize] != self.regs[reg_y as usize] {
            self.pc += 2;
        }
    }

    /// `7XNN`: adds `value` to `Vx`, modulo 256, and leaves the flag register
    /// alone.
    pub fn add_to_reg(&mut self, reg: u8, value: u8)
        requires
            old(self).wf(),
            reg < REGISTERS_SIZE,
        ensures
            final(self).wf(),
            final(self)@ == old(self)@.add_to_reg(reg, value),
    {
        let mut add_value: u16 = self.regs[reg as usize] as u16;
        add_value += value as u16;
        self.regs[reg as usize] = (add_value % 0x100) as u8;
    }

    /// `8XY0`: copies `Vy` to `Vx`.
    pub fn logical_copy(&mut self, reg_x: u8, reg_y: u8)
        requires
            old(self).wf(),
            reg_x < REGISTERS_SIZE,
            reg_y < REGISTERS_SIZE,
        ensures
            final(self).wf(),
            final(self)@ == old(self)@.logical_copy(reg_x, reg_y),
    {
        self.regs[reg_x as usize] = self.regs[reg_y as usize];
    }

    /// `8XY1`: sets `Vx` to `Vx OR Vy`.
    pub fn logical_or(&mut self, reg_x: u8, reg_y: u8)
        requires
            old(self).wf(),
            reg_x < REGISTERS_SIZE,
            reg_y < REGISTERS_SIZE,
        ensures
            final(self).wf(),
            final(self)@ == old(self)@.logical_or(reg_x, reg_y),
    {
        self.regs[reg_x as usize] = self.regs[reg_x as usize] | self.regs[reg_y as usize];
    }

    /// `8XY2`: sets `Vx` to `Vx AND Vy`.
    pub fn logical_and(&mut self, reg_x: u8, reg_y: u8)
        requires
            old(self).wf(),
            reg_x < REGISTERS_SIZE,
            reg_y < REGISTERS_SIZE,
        ensures
            final(self).wf(),
            final(self)@ == old(self)@.logical_and(reg_x, reg_y),
    {
        self.regs[reg_x as usize] = self.regs[reg_x as usize] & self.regs[reg_y as usize];
    }

    /// `8XY3`: sets `Vx` to `Vx XOR Vy`.
    pub fn logical_xor(&mut self, reg_x: u8, reg_y: u8)
        requires
            old(self).wf(),
            reg_x < REGISTERS_SIZE,
            reg_y < REGISTERS_SIZE,
        ensures
            final(self).wf(),
            final(self)@ == old(self)@.logical_xor(reg_x, reg_y),
    {
        self.regs[reg_x as usize] = self.regs[reg_x as usize] ^ self.regs[reg_y as usize];
    }

    /// `8XY4`: adds `Vy` to `Vx`, modulo 256, then sets the flag register to 1
    /// where the sum went past 255 and to 0 where it did not.
    pub fn logical_add(&mut self, reg_x: u8, reg_y: u8)
        requires
            old(self).wf(),
            reg_x < REGISTERS_SIZE,
            reg_y < REGISTERS_SIZE,
        ensures
            final(self).wf(),
            final(self)@ == old(self)@.logical_add(reg_x, reg_y),
    {
        let add_value: u16 = (self.regs[reg_x as usize] as u16) + (self.regs[reg_y as usize] as u16);
        self.regs[reg_x as usize] = (add_value % 0x100) as u8;
        if add_value > 0xFF {
            self.regs[FLAG_REGISTER] = 1;
        } else {
            self.regs[FLAG_REGISTER] = 0;
        }
    }

    /// `8XY5`: subtracts `Vy` from `Vx`, modulo 256, then sets the flag
    /// register to 1 where `Vx >= Vy` held and to 0 where it did not.
    pub fn logical_sub(&mut self, reg_x: u8, reg_y: u8)
        requires
            old(self).wf(),
            reg_x < REGISTERS_SIZE,
            reg_y < REGISTERS_SIZE,
        ensures
            final(self).wf(),
            final(self)@ == old(self)@.logical_sub(reg_x, reg_y),
    {
        let vx: u8 = self.regs[reg_x as usize];
        let vy: u8 = self.regs[reg_y as usize];
        if vx >= vy {
            self.regs[reg_x as usize] = vx - vy;
            self.regs[FLAG_REGISTER] = 1;
        } else {
            self.regs[reg_x as usize] = (0x100 - (vy as u16) + (vx as u16)) as u8;
            self.regs[FLAG_REGISTER] = 0;
        }
    }

    /// `8XY6`: shifts `Vx` right by one bit, then sets the flag register to
    /// the bit that fell out.
    pub fn logical_right_shift(&mut self, reg_x: u8)
        requires
            old(self).wf(),
            reg_x < REGISTERS_SIZE,
        ensures
            final(self).wf(),
            final(self)@ == old(self)@.logical_right_shift(reg_x),
    {
        let vx: u8 = self.regs[reg_x as usize];
        self.regs[reg_x as usize] = vx >> 1;
        self.regs[FLAG_REGISTER] = vx & 0x01;
    }

    /// `8XY7`: sets `Vx` to `Vy - Vx`, modulo 256, then sets the flag register
    /// to 1 where `Vy >= Vx` held and to 0 where it did not.
    pub fn logical_sub_inv(&mut self, reg_x: u8, reg_y: u8)
        requires
            old(self).wf(),
            reg_x < REGISTERS_SIZE,
            reg_y < REGISTERS_SIZE,
        ensures
            final(self).wf(),
            final(self)@ == old(self)@.logical_sub_inv(reg_x, reg_y),
    {
        let vx: u8 = self.regs[reg_x as usize];
        let vy: u8 = self.regs[reg_y as usize];
        if vy >= vx {
            self.regs[reg_x as usize] = vy - vx;
            self.regs[FLAG_REGISTER] = 1;
        } else {
            self.regs[reg_x as usize] = (0x100 - (vx as u16) + (vy as u16)) as u8;
            self.regs[FLAG_REGISTER] = 0;
        }
    }

    /// `8XYE`: shifts `Vx` left by one bit, then sets the flag register to the
    /// bit that fell out.
    pub fn logical_left_shift(&mut self, reg_x: u8)
        requires
            old(self).wf(),
            reg_x < REGISTERS_SIZE,
        ensures
            final(self).wf(),
            final(self)@ == old(self)@.logical_left_shift(reg_x),
    {
        let vx: u8 = self.regs[reg_x as usize];
        assert(vx << 1 == (vx * 2) % 0x100) by (bit_vector);
        self.regs[reg_x as usize] = vx << 1;
        self.regs[FLAG_REGISTER] = (vx >> 7) & 0x01;
    }

    /// `ANNN`: sets `I` to `value`.
    pub fn set_index(&mut self, value: u16)
        requires
            old(self).wf(),
        ensures
            final(self).wf(),
            final(self)@ == old(self)@.set_index(value),
    {
        self.i = value;
    }

    /// `BNNN`: goes on at `value + V0`.
    pub fn jump_with_reg(&mut self, value: u16)
        requires
            old(self).wf(),
            value < 0x1000,
        ensures
            final(self).wf(),
            final(self)@ == old(self)@.jump_with_reg(value),
    {
        self.pc = value + (self.regs[0] as u16);
    }

    /// `CXNN` with the random byte given: sets `Vx` to `byte AND value`.
    pub fn random_with(&mut self, reg: u8, value: u8, byte: u8)
        requires
            old(self).wf(),
            reg < REGISTERS_SIZE,
        ensures
            final(self).wf(),
            final(self)@ == old(self)@.random_with(reg, value, byte),
    {
        self.regs[reg as usize] = byte & value;
    }

    /// `CXNN`: draws a random byte and sets `Vx` to that byte `AND value`.
    pub fn random(&mut self, reg: u8, value: u8)
        requires
            old(self).wf(),
            reg < REGISTERS_SIZE,
        ensures
            final(self).wf(),
            exists|byte: u8| final(self)@ == #[trigger] old(self)@.random_with(reg, value, byte),
    {
        let byte = random_byte();
        self.random_with(reg, value, byte);
    }

    /// `DXYN`: draws the sprite of `n` rows that lies in memory from the
    /// address `I` on, its top left corner at column `Vx mod 64`, row
    /// `Vy mod 32`. Each set bit of the sprite flips the pixel under it; what
    /// falls beyond the right or the lower edge of the screen is cut off. The
    /// flag register becomes 1 where a lit pixel went dark and 0 where none
    /// did.
    pub fn draw_sprite(&mut self, x: u8, y: u8, n: u8)
        requires
            old(self).wf(),
            x < REGISTERS_SIZE,
            y < REGISTERS_SIZE,
            old(self)@.sprite_in_memory(y, n),
        ensures
            final(self).wf(),
            final(self)@ == old(self)@.draw_sprite(x, y, n),
    {
        let x0: usize = (self.regs[x as usize] % (DISPLAY_WIDTH as u8)) as usize;
        let y0: usize = (self.regs[y as usize] % (DISPLAY_HEIGHT as u8)) as usize;
        let at: usize = self.i as usize;
        let ghost sprite = self@.sprite(y, n);

        /* The flag is 0 by default; it becomes 1 once a lit pixel goes dark */
        self.regs[FLAG_REGISTER] = 0;

        let mut sprite_row: usize = 0;
        while sprite_row < n as usize
            invariant
                sprite_row <= n,
                x0 < DISPLAY_WIDTH,
                y0 < DISPLAY_HEIGHT,
                at == old(self)@.i,
                old(self).wf(),
                sprite == old(self)@.sprite(y, n),
                sprite.len() == visible_rows(y0 as int, n as int),
                sprite.len() == 0 || at + sprite.len() <= MEMORY_SIZE,
                mid_draw(self@, old(self)@, sprite, x0 as int, y0 as int, sprite_row as int, 0),
            decreases n - sprite_row,
        {
            let y_pos: usize = y0 + sprite_row;
            if y_pos < DISPLAY_HEIGHT {
                let sprite_data: u8 = self.memory[at + sprite_row];

                let mut sprite_bit_i: u8 = 0;
                while sprite_bit_i < SPRITE_WIDTH
                    invariant
                        sprite_bit_i <= SPRITE_WIDTH,
                        x0 < DISPLAY_WIDTH,
                        y0 < DISPLAY_HEIGHT,
                        y_pos == y0 + sprite_row,
                        y_pos < DISPLAY_HEIGHT,
                        old(self).wf(),
                        sprite_row < sprite.len(),
                        sprite_data == sprite[sprite_row as int],
                        mid_draw(
                            self@,
                            old(self)@,
                            sprite,
                            x0 as int,
                            y0 as int,
                            sprite_row as int,
                            sprite_bit_i as int,
                        ),
                    decreases SPRITE_WIDTH - sprite_bit_i,
                {
                    let x_pos: usize = x0 + sprite_bit_i as usize;
                    if x_pos < DISPLAY_WIDTH {
                        /* The bits are read from the highest to the lowest */
                        let bit_index: u8 = 7 - sprite_bit_i;
                        let bit_value: u8 = (sprite_data >> bit_index) & 0x1;
                        let ghost shown = self.display.pixels();
                        let ghost before = old(self)@.pixels;
                        assert(shown[y_pos as int].len() == DISPLAY_WIDTH);
                        assert(before[y_pos as int].len() == DISPLAY_WIDTH);
                        assert(shown[y_pos as int][x_pos as int] == before[y_pos as int][x_pos as int]);
                        assert((bit_value == 1) == covers(
                            sprite,
                            x0 as int,
                            y0 as int,
                            x_pos as int,
                            y_pos as int,
                        ));
                        let led_status: bool = self.display.is_on(x_pos, y_pos);

                        if (bit_value == 1) && led_status {
                            self.display.led_off(x_pos, y_pos);
                            self.regs[FLAG_REGISTER] = 1;
                        } else if (bit_value == 1) && !led_status {
                            self.display.led_on(x_pos, y_pos);
                        }
                    }
                    sprite_bit_i += 1;
                    assert(self@.regs == old(self)@.regs.update(
                        FLAG_REGISTER as int,
                        self@.regs[FLAG_REGISTER as int],
                    ));
                }
            }
            sprite_row += 1;
        }
        proof {
            let before = old(self)@.pixels;
            assert(self@.pixels =~~= drawn(before, sprite, x0 as int, y0 as int));
            assert(self@.regs[FLAG_REGISTER as int] == flag(collides(before, sprite, x0 as int, y0 as int)));
            assert(self@.regs =~= old(self)@.draw_sprite(x, y, n).regs);
        }
    }

    /// `EX9E`: skips the next instruction where the key that the low four
    /// bits of `Vx` name is held down.
    pub fn skip_if_pressed(&mut self, reg: u8)
        requires
            old(self).wf(),
            reg < REGISTERS_SIZE,
            old(self)@.pc <= 0xFFFD,
        ensures
            final(self).wf(),
            final(self)@ == old(self)@.skip_if_pressed(reg),
    {
        let vx: u8 = self.regs[reg as usize];
        assert(vx & 0x0F < 0x10) by (bit_vector);
        let key: u8 = vx & 0x0F;
        if self.keypad.get_is_pressed(key as usize) {
            self.pc += 2;
        }
    }

    /// `EXA1`: skips the next instruction where the key that the low four
    /// bits of `Vx` name is not held down.
    pub fn skip_if_not_pressed(&mut self, reg: u8)
        requires
            old(self).wf(),
            reg < REGISTERS_SIZE,
            old(self)@.pc <= 0xFFFD,
        ensures
            final(self).wf(),
            final(self)@ == old(self)@.skip_if_not_pressed(reg),
    {
        let vx: u8 = self.regs[reg as usize];
        assert(vx & 0x0F < 0x10) by (bit_vector);
        let key: u8 = vx & 0x0F;
        if !self.keypad.get_is_pressed(key as usize) {
            self.pc += 2;
        }
    }

    /// `FX07`: copies the delay timer to `Vx`.
    pub fn copy_delay_timer(&mut self, reg: u8)
        requires
            old(self).wf(),
            reg < REGISTERS_SIZE,
        ensures
            final(self).wf(),
            final(self)@ == old(self)@.copy_delay_timer(reg),
    {
        let value: u8 = self.delay_timer.get_timer_value();
        self.regs[reg as usize] = value;
    }

    /// `FX0A`: waits for a key. Where a key is held down, `Vx` becomes the
    /// lowest code of such a key. Where none is, the program counter steps
    /// back by one instruction, so that this one runs again.
    pub fn wait_for_key(&mut self, reg: u8)
        requires
            old(self).wf(),
            reg < REGISTERS_SIZE,
            old(self)@.pc >= 2,
        ensures
            final(self).wf(),
            final(self)@ == old(self)@.wait_for_key(reg),
    {
        let mut key: u8 = 0;
        while key < 0x10 && !self.keypad.get_is_pressed(key as usize)
            invariant
                key <= 0x10,
                self.keypad.keys().len() == KEYPAD_SIZE,
                forall|code: int| 0 <= code < key ==> !self.keypad.keys()[code],
            decreases 0x10 - key,
        {
            key += 1;
        }
        proof {
            let keys = self.keypad.keys();
            keys.index_of_first_ensures(true);
            if key < 0x10 {
                assert(keys[key as int]);
                assert(keys.contains(true));
                let first = keys.index_of_first(true).unwrap();
                assert(first == key) by {
                    if first < key {
                        assert(!keys[first]);
                    }
                }
            } else {
                assert(!keys.contains(true));
            }
        }
        if key < 0x10 {
            self.regs[reg as usize] = key;
        } else {
            /* No key is held down: run this instruction again */
            self.pc -= 2;
        }
    }

    /// `FX15`: sets the delay timer to `Vx`.
    pub fn set_delay_timer(&mut self, reg: u8)
        requires
            old(self).wf(),
            reg < REGISTERS_SIZE,
        ensures
            final(self).wf(),
            final(self)@ == old(self)@.set_delay_timer(reg),
    {
        self.delay_timer.set_timer_value(self.regs[reg as usize]);
    }

    /// `FX18`: sets the sound timer to `Vx`.
    pub fn set_sound_timer(&mut self, reg: u8)
        requires
            old(self).wf(),
            reg < REGISTERS_SIZE,
        ensures
            final(self).wf(),
            final(self)@ == old(self)@.set_sound_timer(reg),
    {
        self.sound_timer.set_timer_value(self.regs[reg as usize]);
    }

    /// `FX1E`: adds `Vx` to `I`, modulo 65536, and sets the flag register to 1
    /// where the sum went past 65535 and to 0 where it did not.
    pub fn add_to_index(&mut self, reg: u8)
        requires
            old(self).wf(),
            reg < REGISTERS_SIZE,
        ensures
            final(self).wf(),
            final(self)@ == old(self)@.add_to_index(reg),
    {
        let reg_value: u8 = self.regs[reg as usize];
        let mut temp_add: u32 = self.i as u32;
        temp_add += reg_value as u32;
        if temp_add > 0xFFFF {
            self.regs[FLAG_REGISTER] = 1;
        } else {
            self.regs[FLAG_REGISTER] = 0;
        }
        self.i = (temp_add % 0x10000) as u16;
    }

    /// `FX29`: points `I` at the glyph of the digit in the low four bits of
    /// `Vx`.
    pub fn set_index_to_font(&mut self, reg: u8)
        requires
            old(self).wf(),
            reg < REGISTERS_SIZE,
        ensures
            final(self).wf(),
            final(self)@ == old(self)@.set_index_to_font(reg),
    {
        let reg_value: u8 = self.regs[reg as usize];
        assert(reg_value & 0x0F < 0x10) by (bit_vector);
        self.i = FONT_START + 5 * ((reg_value & 0x0F) as u16);
    }

    /// `FX33`: writes the hundreds, tens and units of `Vx` to the three bytes
    /// of memory from the address `I` on.
    pub fn binary_conversion(&mut self, reg: u8)
        requires
            old(self).wf(),
            reg < REGISTERS_SIZE,
            old(self)@.i + 2 < MEMORY_SIZE,
        ensures
            final(self).wf(),
            final(self)@ == old(self)@.binary_conversion(reg),
    {
        let reg_value: u8 = self.regs[reg as usize];
        let at: usize = self.i as usize;
        self.memory[at] = reg_value / 100;
        self.memory[at + 1] = (reg_value / 10) % 10;
        self.memory[at + 2] = reg_value % 10;
    }

    /// `FX55`: writes `V0` to `Vx` to memory from the address `I` on, and
    /// leaves `I` as it is.
    pub fn store(&mut self, reg_max: u8)
        requires
            old(self).wf(),
            reg_max < REGISTERS_SIZE,
            old(self)@.i + reg_max < MEMORY_SIZE,
        ensures
            final(self).wf(),
            final(self)@ == old(self)@.store(reg_max),
    {
        let at: usize = self.i as usize;
        let mut reg_i: usize = 0;
        assert(self.memory@ =~= overlaid(self.memory@, at as int, self.regs@.take(0)));
        while reg_i <= reg_max as usize
            invariant
                reg_i <= reg_max + 1,
                reg_max < REGISTERS_SIZE,
                at == old(self)@.i,
                at + reg_max < MEMORY_SIZE,
                self@ == (Machine {
                    memory: overlaid(old(self)@.memory, at as int, old(self)@.regs.take(reg_i as int)),
                    ..old(self)@
                }),
            decreases reg_max + 1 - reg_i,
        {
            self.memory[at + reg_i] = self.regs[reg_i];
            reg_i += 1;
            assert(self.memory@ =~= overlaid(
                old(self)@.memory,
                at as int,
                old(self)@.regs.take(reg_i as int),
            ));
        }
    }

    /// `FX65`: reads `V0` to `Vx` from memory from the address `I` on, and
    /// leaves `I` as it is.
    pub fn load(&mut self, reg_max: u8)
        requires
            old(self).wf(),
            reg_max < REGISTERS_SIZE,
            old(self)@.i + reg_max < MEMORY_SIZE,
        ensures
            final(self).wf(),
            final(self)@ == old(self)@.load(reg_max),
    {
        let at: usize = self.i as usize;
        let mut reg_i: usize = 0;
        assert(self.regs@ =~= self@.regs_read(0));
        while reg_i <= reg_max as usize
            invariant
                reg_i <= reg_max + 1,
                reg_max < REGISTERS_SIZE,
                at == old(self)@.i,
                at + reg_max < MEMORY_SIZE,
                self@ == (Machine { regs: old(self)@.regs_read(reg_i as int), ..old(self)@ }),
            decreases reg_max + 1 - reg_i,
        {
            self.regs[reg_i] = self.memory[at + reg_i];
            reg_i += 1;
            assert(self.regs@ =~= old(self)@.regs_read(reg_i as int));
        }
    }

    /// Lays the font into memory at `FONT_START`, glyph after glyph.
    pub fn load_fonts(&mut self)
        requires
            old(self).wf(),
        ensures
            final(self).wf(),
            final(self)@ == old(self)@.load_fonts(),
    {
        let fonts = Fonts::new();
        let start: usize = FONT_START as usize;
        let mut digit: usize = 0;
        assert(self.memory@ =~= overlaid(self.memory@, start as int, font_rom().take(0)));
        while digit < FONT_COUNT
            invariant
                digit <= FONT_COUNT,
                start == FONT_START,
                forall|d: int| 0 <= d < 16 ==> (#[trigger] fonts.fonts@[d])@ == glyph(d),
                self@ == (Machine {
                    memory: overlaid(
                        old(self)@.memory,
                        start as int,
                        font_rom().take(digit * FONT_SIZE),
                    ),
                    ..old(self)@
                }),
            decreases FONT_COUNT - digit,
        {
            let mut row: usize = 0;
            while row < FONT_SIZE
                invariant
                    digit < FONT_COUNT,
                    row <= FONT_SIZE,
                    start == FONT_START,
                    forall|d: int| 0 <= d < 16 ==> (#[trigger] fonts.fonts@[d])@ == glyph(d),
                    self@ == (Machine {
                        memory: overlaid(
                            old(self)@.memory,
                            start as int,
                            font_rom().take(digit * FONT_SIZE + row),
                        ),
                        ..old(self)@
                    }),
                decreases FONT_SIZE - row,
            {
                let offset: usize = digit * FONT_SIZE + row;
                assert(fonts.fonts@[digit as int]@ == glyph(digit as int));
                assert(font_rom()[offset as int] == glyph(digit as int)[row as int]);
                self.memory[start + offset] = fonts.fonts[digit][row];
                row += 1;
                assert(self.memory@ =~= overlaid(
                    old(self)@.memory,
                    start as int,
                    font_rom().take(digit * FONT_SIZE + row),
                ));
            }
            digit += 1;
        }
        assert(font_rom().take((FONT_COUNT * FONT_SIZE) as int) =~= font_rom());
    }

    /// Lays a program into memory at `ROM_START`. A program of more than
    /// `ROM_CAPACITY` bytes does not fit: it is refused and the machine stays
    /// as it was.
    pub fn load_rom(&mut self, rom: &[u8]) -> (loaded: Result<(), Fault>)
        requires
            old(self).wf(),
        ensures
            final(self).wf(),
            rom@.len() <= ROM_CAPACITY ==> {
                &&& loaded == Ok::<(), Fault>(())
                &&& final(self)@ == old(self)@.load_rom(rom@)
            },
            rom@.len() > ROM_CAPACITY ==> {
                &&& loaded == Err::<(), Fault>(Fault::RomTooLarge)
                &&& final(self)@ == old(self)@
            },
    {
        if rom.len() > ROM_CAPACITY {
            return Err(Fault::RomTooLarge);
        }
        let start: usize = ROM_START as usize;
        let mut k: usize = 0;
        assert(self.memory@ =~= overlaid(self.memory@, start as int, rom@.take(0)));
        while k < rom.len()
            invariant
                k <= rom@.len() <= ROM_CAPACITY,
                start == ROM_START,
                self@ == (Machine {
                    memory: overlaid(old(self)@.memory, start as int, rom@.take(k as int)),
                    ..old(self)@
                }),
            decreases rom@.len() - k,
        {
            self.memory[start + k] = rom[k];
            k += 1;
            assert(self.memory@ =~= overlaid(old(self)@.memory, start as int, rom@.take(k as int)));
        }
        assert(rom@.take(rom@.len() as int) =~= rom@);
        Ok(())
    }

    /// Makes the machine ready to run a program: font and program go into
    /// memory and the program counter goes to the program's first
    /// instruction. A program that does not fit is refused and the machine
    /// stays as it was.
    pub fn boot(&mut self, rom: &[u8]) -> (booted: Result<(), Fault>)
        requires
            old(self).wf(),
        ensures
            final(self).wf(),
            rom@.len() <= ROM_CAPACITY ==> {
                &&& booted == Ok::<(), Fault>(())
                &&& final(self)@ == old(self)@.boot(rom@)
            },
            rom@.len() > ROM_CAPACITY ==> {
                &&& booted == Err::<(), Fault>(Fault::RomTooLarge)
                &&& final(self)@ == old(self)@
            },
    {
        if rom.len() > ROM_CAPACITY {
            return Err(Fault::RomTooLarge);
        }
        self.load_fonts();
        let loaded = self.load_rom(rom);
        self.pc = ROM_START;
        loaded
    }

    /// Reads the big-endian word at the program counter and moves the
    /// program counter past it.
    pub fn fetch(&mut self) -> (word: u16)
        requires
            old(self).wf(),
            old(self)@.pc + 1 < MEMORY_SIZE,
        ensures
            final(self).wf(),
            word == old(self)@.fetched(),
            final(self)@ == old(self)@.skip(),
    {
        let first: u16 = self.memory[self.pc as usize] as u16;
        let second: u16 = self.memory[(self.pc + 1) as usize] as u16;
        self.pc += 2;
        assert((first << 8) | second == first * 0x100 + second) by (bit_vector)
            requires
                first < 0x100,
                second < 0x100,
        ;
        (first << 8) | second
    }

    /// One round of the delay timer's ticker.
    pub fn tick_delay_timer(&mut self)
        requires
            old(self).wf(),
        ensures
            final(self).wf(),
            final(self)@ == old(self)@.tick_delay_timer(),
    {
        self.delay_timer.tick();
    }

    /// One round of the sound timer's ticker. Returns the load of the tone to
    /// start now, where one is to start: the value of the sound timer, where
    /// it is above zero and above the load of the tone that is sounding.
    pub fn tick_sound_timer(&mut self) -> (tone: Option<u8>)
        requires
            old(self).wf(),
        ensures
            final(self).wf(),
            final(self)@ == old(self)@.tick_sound_timer(),
            tone == if starts_tone(old(self)@.sound, old(self)@.playing) {
                Some(old(self)@.sound)
            } else {
                None
            },
    {
        self.sound_timer.tick()
    }

    /// Executes one instruction, with `byte` as the random byte that `CXNN`
    /// draws. An instruction that cannot be executed is refused with the
    /// reason, and the machine stays as it was.
    pub fn execute_with(&mut self, instr: Instruction, byte: u8) -> (done: Result<(), Fault>)
        requires
            old(self).wf(),
            instr.wf(),
            old(self)@.pc_has_room(),
        ensures
            final(self).wf(),
            match old(self)@.fault(instr) {
                Some(fault) => done == Err::<(), Fault>(fault) && final(self)@ == old(self)@,
                None => done == Ok::<(), Fault>(()) && final(self)@ == old(self)@.execute(instr, byte),
            },
    {
        match instr {
            Instruction::ClearScreen => self.clear_screen(),
            Instruction::Return => {
                if self.stack.len() == 0 {
                    return Err(Fault::StackUnderflow);
                }
                self.return_subroutine()
            },
            Instruction::Jump(i) => self.jump(i),
            Instruction::Call(i) => {
                if self.stack.len() >= STACK_SIZE {
                    return Err(Fault::StackOverflow);
                }
                self.call_subroutine(i)
            },
            Instruction::SkipIfEqual(r, v) => self.skip_if_eq(r, v),
            Instruction::SkipIfDifferent(r, v) => self.skip_if_diff(r, v),
            Instruction::SkipIfContentEqual(x, y) => self.skip_if_content_eq(x, y),
            Instruction::SetRegister(r, v) => self.set_register(r, v),
            Instruction::AddToRegister(r, v) => self.add_to_reg(r, v),
            Instruction::LogicalCopy(x, y) => self.logical_copy(x, y),
            Instruction::LogicalOr(x, y) => self.logical_or(x, y),
            Instruction::LogicalAnd(x, y) => self.logical_and(x, y),
            Instruction::LogicalXor(x, y) => self.logical_xor(x, y),
            Instruction::LogicalAdd(x, y) => self.logical_add(x, y),
            Instruction::LogicalSubtract(x, y) => self.logical_sub(x, y),
            Instruction::LogicalRightShift(x) => self.logical_right_shift(x),
            Instruction::LogicalSubtractInverse(x, y) => self.logical_sub_inv(x, y),
            Instruction::LogicalLeftShift(x) => self.logical_left_shift(x),
            Instruction::SkipIfContentDifferent(x, y) => self.skip_if_content_diff(x, y),
            Instruction::SetIndex(v) => self.set_index(v),
            Instruction::JumpWithRegister(i) => self.jump_with_reg(i),
            Instruction::Random(r, v) => self.random_with(r, v, byte),
            Instruction::Display(x, y, n) => {
                let y0: usize = (self.regs[y as usize] % (DISPLAY_HEIGHT as u8)) as usize;
                let rows: usize = if y0 + n as usize <= DISPLAY_HEIGHT {
                    n as usize
                } else {
                    DISPLAY_HEIGHT - y0
                };
                if rows > 0 && self.i as usize + rows > MEMORY_SIZE {
                    return Err(Fault::MemoryOutOfRange);
                }
                self.draw_sprite(x, y, n)
            },
            Instruction::SkipIfPressed(r) => self.skip_if_pressed(r),
            Instruction::SkipIfNotPressed(r) => self.skip_if_not_pressed(r),
            Instruction::CopyDelayTimer(r) => self.copy_delay_timer(r),
            Instruction::WaitForKey(r) => self.wait_for_key(r),
            Instruction::SetDelayTimer(r) => self.set_delay_timer(r),
            Instruction::SetSoundTimer(r) => self.set_sound_timer(r),
            Instruction::AddToIndex(r) => self.add_to_index(r),
            Instruction::SetIndexToFont(r) => self.set_index_to_font(r),
            Instruction::BinaryConversion(r) => {
                if self.i as usize + 2 >= MEMORY_SIZE {
                    return Err(Fault::MemoryOutOfRange);
                }
                self.binary_conversion(r)
            },
            Instruction::Store(v) => {
                if self.i as usize + v as usize >= MEMORY_SIZE {
                    return Err(Fault::MemoryOutOfRange);
                }
                self.store(v)
            },
            Instruction::Load(v) => {
                if self.i as usize + v as usize >= MEMORY_SIZE {
                    return Err(Fault::MemoryOutOfRange);
                }
                self.load(v)
            },
        }
        Ok(())
    }

    /// Executes one instruction; `CXNN` draws its random byte. An
    /// instruction that cannot be executed is refused with the reason, and
    /// the machine stays as it was. Whatever byte is drawn, the machine ends
    /// in the state that the instruction gives with that byte.
    pub fn execute(&mut self, instr: Instruction) -> (done: Result<(), Fault>)
        requires
            old(self).wf(),
            instr.wf(),
            old(self)@.pc_has_room(),
        ensures
            final(self).wf(),
            match old(self)@.fault(instr) {
                Some(fault) => done == Err::<(), Fault>(fault) && final(self)@ == old(self)@,
                None => done == Ok::<(), Fault>(()) && exists|byte: u8|
                    final(self)@ == #[trigger] old(self)@.execute(instr, byte),
            },
            !(instr is Random) && old(self)@.fault(instr) is None ==> {
                final(self)@ == old(self)@.execute(instr, 0)
            },
    {
        let byte: u8 = match instr {
            Instruction::Random(_, _) => random_byte(),
            _ => 0,
        };
        self.execute_with(instr, byte)
    }

    /// Fetches the word at the program counter and decodes it. Where the
    /// word lies past the end of memory or is no instruction, the machine
    /// stays as it was.
    fn fetch_instruction(&mut self) -> (next: Result<Instruction, Fault>)
        requires
            old(self).wf(),
        ensures
            final(self).wf(),
            match next {
                Ok(instr) => {
                    &&& old(self)@.pc + 1 < MEMORY_SIZE
                    &&& decoded(old(self)@.fetched()) == Some(instr)
                    &&& instr.wf()
                    &&& final(self)@ == old(self)@.skip()
                },
                Err(fault) => {
                    &&& final(self)@ == old(self)@
                    &&& old(self)@.cycle_fault() == Some(fault)
                },
            },
    {
        if self.pc as usize + 1 >= MEMORY_SIZE {
            return Err(Fault::MemoryOutOfRange);
        }
        let word = self.fetch();
        match Instruction::decode(word) {
            Some(instr) => Ok(instr),
            None => {
                self.pc -= 2;
                Err(Fault::UnknownInstruction(word))
            },
        }
    }

    /// Runs one cycle, with `byte` as the random byte that `CXNN` draws: the
    /// word at the program counter is fetched and decoded, the program
    /// counter moves past it, and the instruction is executed. A cycle that
    /// cannot be run is refused with the reason, and the machine stays as it
    /// was.
    pub fn cycle_with(&mut self, byte: u8) -> (done: Result<(), Fault>)
        requires
            old(self).wf(),
        ensures
            final(self).wf(),
            match old(self)@.cycle_fault() {
                Some(fault) => done == Err::<(), Fault>(fault) && final(self)@ == old(self)@,
                None => done == Ok::<(), Fault>(()) && final(self)@ == old(self)@.cycle(byte),
            },
    {
        match self.fetch_instruction() {
            Err(fault) => Err(fault),
            Ok(instr) => {
                match self.execute_with(instr, byte) {
                    Ok(()) => Ok(()),
                    Err(fault) => {
                        self.pc -= 2;
                        Err(fault)
                    },
                }
            },
        }
    }

    /// Runs one cycle; `CXNN` draws its random byte. A cycle that cannot be
    /// run is refused with the reason, and the machine stays as it was.
    /// Whatever byte is drawn, the machine ends in the state that the cycle
    /// gives with that byte.
    pub fn cycle(&mut self) -> (done: Result<(), Fault>)
        requires
            old(self).wf(),
        ensures
            final(self).wf(),
            match old(self)@.cycle_fault() {
                Some(fault) => done == Err::<(), Fault>(fault) && final(self)@ == old(self)@,
                None => done == Ok::<(), Fault>(()) && exists|byte: u8|
                    final(self)@ == #[trigger] old(self)@.cycle(byte),
            },
    {
        match self.fetch_instruction() {
            Err(fault) => Err(fault),
            Ok(instr) => {
                let ghost fetched = self@;
                match self.execute(instr) {
                    Ok(()) => {
                        proof {
                            let byte = choose|byte: u8|
                                self@ == #[trigger] fetched.execute(instr, byte);
                            assert(self@ == old(self)@.cycle(byte));
                        }
                        Ok(())
                    },
                    Err(fault) => {
                        self.pc -= 2;
                        Err(fault)
                    },
                }
            },
        }
    }
}

/// Where the drawing of a sprite stands after its rows above row `rows` and
/// the first `cols` pixels of that row were dealt with: the cells under these
/// show the drawn state, all other cells still show what was there before.
spec fn drawn_up_to(
    shown: Seq<Seq<bool>>,
    before: Seq<Seq<bool>>,
    sprite: Seq<u8>,
    x0: int,
    y0: int,
    rows: int,
    cols: int,
) -> bool {
    forall|c: int, r: int|
        0 <= r < DISPLAY_HEIGHT && 0 <= c < DISPLAY_WIDTH ==> #[trigger] shown[r][c] == (if r < y0
            + rows || (r == y0 + rows && c < x0 + cols) {
            before[r][c] != covers(sprite, x0, y0, c, r)
        } else {
            before[r][c]
        })
}

/// No lit cell lies under a set pixel of the sprite among the cells that were
/// dealt with: those of the rows above row `rows` and the first `cols` of
/// that row.
spec fn clear_up_to(
    before: Seq<Seq<bool>>,
    sprite: Seq<u8>,
    x0: int,
    y0: int,
    rows: int,
    cols: int,
) -> bool {
    forall|c: int, r: int|
        0 <= r < DISPLAY_HEIGHT && 0 <= c < DISPLAY_WIDTH && (r < y0 + rows || (r == y0 + rows && c
            < x0 + cols)) && before[r][c] ==> !#[trigger] covers(sprite, x0, y0, c, r)
}

/// Where the machine stands in the middle of drawing a sprite, its rows above
/// row `rows` and the first `cols` pixels of that row dealt with: nothing but
/// the screen and the flag register has changed since the start, the screen
/// is drawn so far, and the flag is 1 exactly where a lit cell among those
/// dealt with lay under a set pixel.
spec fn mid_draw(
    now: Machine,
    start: Machine,
    sprite: Seq<u8>,
    x0: int,
    y0: int,
    rows: int,
    cols: int,
) -> bool {
    let lit = now.regs[FLAG_REGISTER as int];
    &&& now == (Machine { pixels: now.pixels, regs: now.regs, ..start })
    &&& now.regs == start.regs.update(FLAG_REGISTER as int, lit)
    &&& rectangular(now.pixels, DISPLAY_WIDTH as nat, DISPLAY_HEIGHT as nat)
    &&& drawn_up_to(now.pixels, start.pixels, sprite, x0, y0, rows, cols)
    &&& lit == 1 ==> collides(start.pixels, sprite, x0, y0)
    &&& lit != 1 ==> lit == 0 && clear_up_to(start.pixels, sprite, x0, y0, rows, cols)
}

/// Draws a byte with `rand::thread_rng().gen()`, the thread's generator that
/// the operating system seeds. Nothing is claimed of the byte: every value of
/// a `u8` may come back.
#[verifier::external_body]
fn random_byte() -> (byte: u8) {
    rand::thread_rng().gen()
}

} // verus!
