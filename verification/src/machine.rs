//! The machine as a mathematical value, and what each instruction does to it.

use crate::display::{recolored, rectangular};
use crate::fonts::font_rom;
use crate::instruction::{decoded, Instruction};
use crate::sprite::{collides, drawn};
use crate::timer::{playing_after, wound_down};
use vstd::prelude::*;

verus! {

/// The number of bytes of main memory.
pub const MEMORY_SIZE: usize = 4096;

/// The most return addresses that the call stack holds.
pub const STACK_SIZE: usize = 100;

/// The number of general-purpose registers.
pub const REGISTERS_SIZE: usize = 16;

/// The index of the flag register `VF`.
pub const FLAG_REGISTER: usize = 0xF;

/// The address at which the font lies in memory.
pub const FONT_START: u16 = 0x50;

/// The address at which a program is loaded and starts to run.
pub const ROM_START: u16 = 0x200;

/// The number of columns of the screen.
pub const DISPLAY_WIDTH: usize = 64;

/// The number of rows of the screen.
pub const DISPLAY_HEIGHT: usize = 32;

/// The number of keys of the keypad.
pub const KEYPAD_SIZE: usize = 16;

/// The largest program that fits between `ROM_START` and the end of memory.
pub const ROM_CAPACITY: usize = 3584;

/// The pause between two cycles, in microseconds: about seven hundred
/// instructions a second.
pub const CYCLE_MICROS: u64 = 1429;

/// Why the machine cannot go on.
#[derive(Clone, Copy, Debug, PartialEq, Eq, Structural)]
pub enum Fault {
    /// The word at the program counter is no instruction.
    UnknownInstruction(u16),
    /// A return with no call to return from.
    StackUnderflow,
    /// A call with the call stack full.
    StackOverflow,
    /// An instruction or a fetch reaches past the end of memory.
    MemoryOutOfRange,
    /// The program does not fit in memory.
    RomTooLarge,
}

/// The state of the whole machine.
pub struct Machine {
    /// Main memory, by address.
    pub memory: Seq<u8>,
    /// The registers `V0` to `VF`.
    pub regs: Seq<u8>,
    /// The program counter.
    pub pc: u16,
    /// The index register `I`.
    pub i: u16,
    /// The return addresses of the calls under way, the latest last.
    pub stack: Seq<u16>,
    /// The delay timer.
    pub delay: u8,
    /// The sound timer.
    pub sound: u8,
    /// The load of the tone that is sounding, zero when none is.
    pub playing: u8,
    /// The screen, row by row.
    pub pixels: Seq<Seq<bool>>,
    /// The keys, by code: `true` where a key is held down.
    pub keys: Seq<bool>,
}

/// The value of the flag register that stands for a condition.
pub open spec fn flag(condition: bool) -> u8 {
    if condition {
        1
    } else {
        0
    }
}

/// Memory with `bytes` laid over it from the address `at` on.
pub open spec fn overlaid(memory: Seq<u8>, at: int, bytes: Seq<u8>) -> Seq<u8> {
    Seq::new(
        memory.len(),
        |a: int|
            if at <= a < at + bytes.len() {
                bytes[a - at]
            } else {
                memory[a]
            },
    )
}

/// How many rows of a sprite of `n` rows fall on the screen when its top row
/// is row `y0`: the rows below the last row of the screen are cut off.
pub open spec fn visible_rows(y0: int, n: int) -> int {
    if y0 + n <= DISPLAY_HEIGHT {
        n
    } else {
        DISPLAY_HEIGHT - y0
    }
}

impl Machine {
    /// The sizes of the machine's parts are those of a CHIP-8.
    pub open spec fn wf(self) -> bool {
        &&& self.memory.len() == MEMORY_SIZE
        &&& self.regs.len() == REGISTERS_SIZE
        &&& self.stack.len() <= STACK_SIZE
        &&& rectangular(self.pixels, DISPLAY_WIDTH as nat, DISPLAY_HEIGHT as nat)
        &&& self.keys.len() == KEYPAD_SIZE
    }

    /// The program counter can move one instruction forward or back without
    /// leaving the range of a 16-bit register.
    pub open spec fn pc_has_room(self) -> bool {
        2 <= self.pc <= 0xFFFD
    }

    /// The machine with the program counter moved past one instruction.
    pub open spec fn skip(self) -> Machine {
        Machine { pc: (self.pc + 2) as u16, ..self }
    }

    /// The machine with one instruction skipped where `condition` holds.
    pub open spec fn skip_if(self, condition: bool) -> Machine {
        if condition {
            self.skip()
        } else {
            self
        }
    }

    /// The machine with the register `x` set to `value`.
    pub open spec fn with_reg(self, x: int, value: u8) -> Machine {
        Machine { regs: self.regs.update(x, value), ..self }
    }

    /// The machine with the register `x` set to `value` and then the flag
    /// register set to `flag`: where `x` is the flag register, the flag wins.
    pub open spec fn with_reg_and_flag(self, x: int, value: u8, flag: u8) -> Machine {
        Machine { regs: self.regs.update(x, value).update(FLAG_REGISTER as int, flag), ..self }
    }

    /// The big-endian word at the program counter.
    pub open spec fn fetched(self) -> u16 {
        (self.memory[self.pc as int] * 0x100 + self.memory[self.pc + 1]) as u16
    }

    /// `00E0`: every pixel goes dark.
    pub open spec fn clear_screen(self) -> Machine {
        Machine { pixels: recolored(self.pixels, false), ..self }
    }

    /// `00EE`: the latest return address leaves the stack and becomes the
    /// program counter.
    pub open spec fn return_subroutine(self) -> Machine {
        Machine { pc: self.stack.last(), stack: self.stack.drop_last(), ..self }
    }

    /// `1NNN`: the program counter becomes `addr`.
    pub open spec fn jump(self, addr: u16) -> Machine {
        Machine { pc: addr, ..self }
    }

    /// `2NNN`: the program counter goes on the stack and becomes `addr`.
    pub open spec fn call_subroutine(self, addr: u16) -> Machine {
        Machine { pc: addr, stack: self.stack.push(self.pc), ..self }
    }

    /// `3XNN`: skips where `Vx` equals `value`.
    pub open spec fn skip_if_eq(self, x: u8, value: u8) -> Machine {
        self.skip_if(self.regs[x as int] == value)
    }

    /// `4XNN`: skips where `Vx` differs from `value`.
    pub open spec fn skip_if_diff(self, x: u8, value: u8) -> Machine {
        self.skip_if(self.regs[x as int] != value)
    }

    /// `5XY0`: skips where `Vx` equals `Vy`.
    pub open spec fn skip_if_content_eq(self, x: u8, y: u8) -> Machine {
        self.skip_if(self.regs[x as int] == self.regs[y as int])
    }

    /// `9XY0`: skips where `Vx` differs from `Vy`.
    pub open spec fn skip_if_content_diff(self, x: u8, y: u8) -> Machine {
        self.skip_if(self.regs[x as int] != self.regs[y as int])
    }

    /// `6XNN`: `Vx` becomes `value`.
    pub open spec fn set_register(self, x: u8, value: u8) -> Machine {
        self.with_reg(x as int, value)
    }

    /// `7XNN`: `Vx` becomes `Vx + value` modulo 256; the flag register is left
    /// alone.
    pub open spec fn add_to_reg(self, x: u8, value: u8) -> Machine {
        self.with_reg(x as int, ((self.regs[x as int] + value) % 0x100) as u8)
    }

    /// `8XY0`: `Vx` becomes `Vy`.
    pub open spec fn logical_copy(self, x: u8, y: u8) -> Machine {
        self.with_reg(x as int, self.regs[y as int])
    }

    /// `8XY1`: `Vx` becomes `Vx OR Vy`.
    pub open spec fn logical_or(self, x: u8, y: u8) -> Machine {
        self.with_reg(x as int, self.regs[x as int] | self.regs[y as int])
    }

    /// `8XY2`: `Vx` becomes `Vx AND Vy`.
    pub open spec fn logical_and(self, x: u8, y: u8) -> Machine {
        self.with_reg(x as int, self.regs[x as int] & self.regs[y as int])
    }

    /// `8XY3`: `Vx` becomes `Vx XOR Vy`.
    pub open spec fn logical_xor(self, x: u8, y: u8) -> Machine {
        self.with_reg(x as int, self.regs[x as int] ^ self.regs[y as int])
    }

    /// `8XY4`: `Vx` becomes `Vx + Vy` modulo 256, then the flag register says
    /// whether the sum went past 255.
    pub open spec fn logical_add(self, x: u8, y: u8) -> Machine {
        let sum = self.regs[x as int] + self.regs[y as int];
        self.with_reg_and_flag(x as int, (sum % 0x100) as u8, flag(sum > 0xFF))
    }

    /// `8XY5`: `Vx` becomes `Vx - Vy` modulo 256, then the flag register says
    /// whether nothing was borrowed, that is whether `Vx >= Vy` held.
    pub open spec fn logical_sub(self, x: u8, y: u8) -> Machine {
        let vx = self.regs[x as int];
        let vy = self.regs[y as int];
        self.with_reg_and_flag(x as int, ((vx - vy) % 0x100) as u8, flag(vx >= vy))
    }

    /// `8XY6`: `Vx` is shifted right by one bit, then the flag register holds
    /// the bit that fell out.
    pub open spec fn logical_right_shift(self, x: u8) -> Machine {
        let vx = self.regs[x as int];
        self.with_reg_and_flag(x as int, vx >> 1, vx & 1)
    }

    /// `8XY7`: `Vx` becomes `Vy - Vx` modulo 256, then the flag register says
    /// whether nothing was borrowed, that is whether `Vy >= Vx` held.
    pub open spec fn logical_sub_inv(self, x: u8, y: u8) -> Machine {
        let vx = self.regs[x as int];
        let vy = self.regs[y as int];
        self.with_reg_and_flag(x as int, ((vy - vx) % 0x100) as u8, flag(vy >= vx))
    }

    /// `8XYE`: `Vx` is shifted left by one bit, modulo 256, then the flag
    /// register holds the bit that fell out.
    pub open spec fn logical_left_shift(self, x: u8) -> Machine {
        let vx = self.regs[x as int];
        self.with_reg_and_flag(x as int, ((vx * 2) % 0x100) as u8, (vx >> 7) & 1)
    }

    /// `ANNN`: `I` becomes `value`.
    pub open spec fn set_index(self, value: u16) -> Machine {
        Machine { i: value, ..self }
    }

    /// `BNNN`: the program counter becomes `value + V0`.
    pub open spec fn jump_with_reg(self, value: u16) -> Machine {
        Machine { pc: (value + self.regs[0]) as u16, ..self }
    }

    /// `CXNN`: `Vx` becomes `byte AND value`, where `byte` is the random byte
    /// that was drawn.
    pub open spec fn random_with(self, x: u8, value: u8, byte: u8) -> Machine {
        self.with_reg(x as int, byte & value)
    }

    /// The column of the left edge of the sprite that `DXYN` draws.
    pub open spec fn sprite_x(self, x: u8) -> int {
        self.regs[x as int] as int % (DISPLAY_WIDTH as int)
    }

    /// The row of the top edge of the sprite that `DXYN` draws.
    pub open spec fn sprite_y(self, y: u8) -> int {
        self.regs[y as int] as int % (DISPLAY_HEIGHT as int)
    }

    /// The rows that `DXYN` reads from memory: those of its `n` rows, from the
    /// address `I` on, that fall on the screen.
    pub open spec fn sprite(self, y: u8, n: u8) -> Seq<u8> {
        Seq::new(visible_rows(self.sprite_y(y), n as int) as nat, |k: int| self.memory[self.i + k])
    }

    /// Whether the rows that `DXYN` reads lie within memory. A sprite of no
    /// visible row reads nothing, wherever `I` points.
    pub open spec fn sprite_in_memory(self, y: u8, n: u8) -> bool {
        let rows = visible_rows(self.sprite_y(y), n as int);
        rows == 0 || self.i + rows <= MEMORY_SIZE
    }

    /// `DXYN`: the sprite is drawn at column `Vx mod 64`, row `Vy mod 32`,
    /// cut off at the right and lower edges of the screen; then the flag
    /// register says whether a lit pixel went dark.
    pub open spec fn draw_sprite(self, x: u8, y: u8, n: u8) -> Machine {
        let x0 = self.sprite_x(x);
        let y0 = self.sprite_y(y);
        let sprite = self.sprite(y, n);
        Machine {
            pixels: drawn(self.pixels, sprite, x0, y0),
            regs: self.regs.update(FLAG_REGISTER as int, flag(collides(self.pixels, sprite, x0, y0))),
            ..self
        }
    }

    /// Whether the key that the low four bits of `Vx` name is held down.
    pub open spec fn key_of_reg_pressed(self, x: u8) -> bool {
        self.keys[(self.regs[x as int] & 0xF) as int]
    }

    /// `EX9E`: skips where the key named by `Vx` is held down.
    pub open spec fn skip_if_pressed(self, x: u8) -> Machine {
        self.skip_if(self.key_of_reg_pressed(x))
    }

    /// `EXA1`: skips where the key named by `Vx` is not held down.
    pub open spec fn skip_if_not_pressed(self, x: u8) -> Machine {
        self.skip_if(!self.key_of_reg_pressed(x))
    }

    /// `FX07`: `Vx` becomes the value of the delay timer.
    pub open spec fn copy_delay_timer(self, x: u8) -> Machine {
        self.with_reg(x as int, self.delay)
    }

    /// `FX0A`: where a key is held down, `Vx` becomes the lowest code of such
    /// a key; where none is, the program counter steps back onto this
    /// instruction, which so runs again.
    pub open spec fn wait_for_key(self, x: u8) -> Machine {
        match self.keys.index_of_first(true) {
            Some(code) => self.with_reg(x as int, code as u8),
            None => Machine { pc: (self.pc - 2) as u16, ..self },
        }
    }

    /// `FX15`: the delay timer becomes `Vx`.
    pub open spec fn set_delay_timer(self, x: u8) -> Machine {
        Machine { delay: self.regs[x as int], ..self }
    }

    /// `FX18`: the sound timer becomes `Vx`.
    pub open spec fn set_sound_timer(self, x: u8) -> Machine {
        Machine { sound: self.regs[x as int], ..self }
    }

    /// `FX1E`: `I` becomes `I + Vx` modulo 65536, and the flag register says
    /// whether the sum went past 65535.
    pub open spec fn add_to_index(self, x: u8) -> Machine {
        let sum = self.i + self.regs[x as int];
        Machine {
            i: (sum % 0x10000) as u16,
            regs: self.regs.update(FLAG_REGISTER as int, flag(sum > 0xFFFF)),
            ..self
        }
    }

    /// `FX29`: `I` becomes the address of the glyph of the digit in the low
    /// four bits of `Vx`.
    pub open spec fn set_index_to_font(self, x: u8) -> Machine {
        Machine { i: (FONT_START + 5 * (self.regs[x as int] & 0xF)) as u16, ..self }
    }

    /// `FX33`: the hundreds, tens and units of `Vx` go to the three bytes of
    /// memory from the address `I` on.
    pub open spec fn binary_conversion(self, x: u8) -> Machine {
        let v = self.regs[x as int];
        Machine {
            memory: self.memory.update(self.i as int, v / 100).update(
                self.i + 1,
                (v / 10) % 10,
            ).update(self.i + 2, v % 10),
            ..self
        }
    }

    /// `FX55`: `V0` to `Vx` go to memory from the address `I` on; `I` stays.
    pub open spec fn store(self, x: u8) -> Machine {
        Machine { memory: overlaid(self.memory, self.i as int, self.regs.take(x + 1)), ..self }
    }

    /// `FX65`: `V0` to `Vx` are read from memory from the address `I` on; `I`
    /// stays.
    pub open spec fn load(self, x: u8) -> Machine {
        Machine { regs: self.regs_read(x + 1), ..self }
    }

    /// The registers after the first `count` of them were read from memory
    /// from the address `I` on.
    pub open spec fn regs_read(self, count: int) -> Seq<u8> {
        Seq::new(
            self.regs.len(),
            |r: int|
                if r < count {
                    self.memory[self.i + r]
                } else {
                    self.regs[r]
                },
        )
    }

    /// The machine after the delay timer's ticker ran once.
    pub open spec fn tick_delay_timer(self) -> Machine {
        Machine { delay: wound_down(self.delay), ..self }
    }

    /// The machine after the sound timer's ticker ran once.
    pub open spec fn tick_sound_timer(self) -> Machine {
        Machine {
            sound: wound_down(self.sound),
            playing: playing_after(self.sound, self.playing),
            ..self
        }
    }

    /// The machine with the font laid into memory at `FONT_START`.
    pub open spec fn load_fonts(self) -> Machine {
        Machine { memory: overlaid(self.memory, FONT_START as int, font_rom()), ..self }
    }

    /// The machine with a program laid into memory at `ROM_START`.
    pub open spec fn load_rom(self, rom: Seq<u8>) -> Machine {
        Machine { memory: overlaid(self.memory, ROM_START as int, rom), ..self }
    }

    /// The machine ready to run a program: font and program in memory, the
    /// program counter at the program's first instruction.
    pub open spec fn boot(self, rom: Seq<u8>) -> Machine {
        self.load_fonts().load_rom(rom).jump(ROM_START)
    }

    /// Why `instr` cannot be executed in this state, if it cannot.
    pub open spec fn fault(self, instr: Instruction) -> Option<Fault> {
        match instr {
            Instruction::Return => if self.stack.len() == 0 {
                Some(Fault::StackUnderflow)
            } else {
                None
            },
            Instruction::Call(_) => if self.stack.len() >= STACK_SIZE {
                Some(Fault::StackOverflow)
            } else {
                None
            },
            Instruction::Display(_, y, n) => if !self.sprite_in_memory(y, n) {
                Some(Fault::MemoryOutOfRange)
            } else {
                None
            },
            Instruction::BinaryConversion(_) => if self.i + 2 >= MEMORY_SIZE {
                Some(Fault::MemoryOutOfRange)
            } else {
                None
            },
            Instruction::Store(x) | Instruction::Load(x) => if self.i + x >= MEMORY_SIZE {
                Some(Fault::MemoryOutOfRange)
            } else {
                None
            },
            _ => None,
        }
    }

    /// The machine after `instr` was executed; `byte` is the random byte that
    /// `CXNN` draws, and plays no part in any other instruction.
    pub open spec fn execute(self, instr: Instruction, byte: u8) -> Machine {
        match instr {
            Instruction::ClearScreen => self.clear_screen(),
            Instruction::Return => self.return_subroutine(),
            Instruction::Jump(a) => self.jump(a),
            Instruction::Call(a) => self.call_subroutine(a),
            Instruction::SkipIfEqual(x, v) => self.skip_if_eq(x, v),
            Instruction::SkipIfDifferent(x, v) => self.skip_if_diff(x, v),
            Instruction::SkipIfContentEqual(x, y) => self.skip_if_content_eq(x, y),
            Instruction::SkipIfContentDifferent(x, y) => self.skip_if_content_diff(x, y),
            Instruction::SetRegister(x, v) => self.set_register(x, v),
            Instruction::AddToRegister(x, v) => self.add_to_reg(x, v),
            Instruction::LogicalCopy(x, y) => self.logical_copy(x, y),
            Instruction::LogicalOr(x, y) => self.logical_or(x, y),
            Instruction::LogicalAnd(x, y) => self.logical_and(x, y),
            Instruction::LogicalXor(x, y) => self.logical_xor(x, y),
            Instruction::LogicalAdd(x, y) => self.logical_add(x, y),
            Instruction::LogicalSubtract(x, y) => self.logical_sub(x, y),
            Instruction::LogicalRightShift(x) => self.logical_right_shift(x),
            Instruction::LogicalSubtractInverse(x, y) => self.logical_sub_inv(x, y),
            Instruction::LogicalLeftShift(x) => self.logical_left_shift(x),
            Instruction::SetIndex(v) => self.set_index(v),
            Instruction::JumpWithRegister(a) => self.jump_with_reg(a),
            Instruction::Random(x, v) => self.random_with(x, v, byte),
            Instruction::Display(x, y, n) => self.draw_sprite(x, y, n),
            Instruction::SkipIfPressed(x) => self.skip_if_pressed(x),
            Instruction::SkipIfNotPressed(x) => self.skip_if_not_pressed(x),
            Instruction::CopyDelayTimer(x) => self.copy_delay_timer(x),
            Instruction::WaitForKey(x) => self.wait_for_key(x),
            Instruction::SetDelayTimer(x) => self.set_delay_timer(x),
            Instruction::SetSoundTimer(x) => self.set_sound_timer(x),
            Instruction::AddToIndex(x) => self.add_to_index(x),
            Instruction::SetIndexToFont(x) => self.set_index_to_font(x),
            Instruction::BinaryConversion(x) => self.binary_conversion(x),
            Instruction::Store(x) => self.store(x),
            Instruction::Load(x) => self.load(x),
        }
    }

    /// Why the machine cannot run one more cycle, if it cannot: the word at
    /// the program counter lies past the end of memory or is no instruction,
    /// or the instruction cannot be executed once the program counter has
    /// moved past it.
    pub open spec fn cycle_fault(self) -> Option<Fault> {
        if self.pc + 1 >= MEMORY_SIZE {
            Some(Fault::MemoryOutOfRange)
        } else {
            match decoded(self.fetched()) {
                None => Some(Fault::UnknownInstruction(self.fetched())),
                Some(instr) => self.skip().fault(instr),
            }
        }
    }

    /// The machine after one cycle: the word at the program counter is
    /// fetched, the program counter moves past it, and the instruction that
    /// the word stands for is executed.
    pub open spec fn cycle(self, byte: u8) -> Machine {
        self.skip().execute(decoded(self.fetched()).unwrap(), byte)
    }
}

} // verus!
