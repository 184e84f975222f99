//! Laws of the instruction set, each proved from what the instructions are
//! defined to do.

use crate::instruction::{decoded, unknown, Instruction};
use crate::machine::{
    flag, Fault, Machine, FLAG_REGISTER, MEMORY_SIZE, REGISTERS_SIZE, ROM_START, STACK_SIZE,
};
use crate::sprite::{blank, draw_twice_restores, second_draw_collides, touches};
use vstd::prelude::*;

verus! {

/// An instruction that can be executed leaves the machine's parts at their
/// sizes.
pub proof fn execute_keeps_sizes(m: Machine, instr: Instruction, byte: u8)
    requires
        m.wf(),
        instr.wf(),
        m.fault(instr) is None,
    ensures
        m.execute(instr, byte).wf(),
{
}

/// Wherever in program memory the program counter stands, the word under it
/// either stands for a well-formed instruction or is one of the unknown
/// words, and a cycle stops on an unknown instruction exactly in the second
/// case.
pub proof fn fetched_word_is_instruction_or_unknown(m: Machine)
    requires
        m.wf(),
        ROM_START <= m.pc <= 0xFFE,
    ensures
        decoded(m.fetched()) is None <==> unknown(m.fetched()),
        decoded(m.fetched()) matches Some(instr) ==> instr.wf(),
        m.cycle_fault() == Some(Fault::UnknownInstruction(m.fetched())) <==> unknown(m.fetched()),
{
    Instruction::decode_is_total(m.fetched());
}

/// A call followed by a return brings the machine back to where it was
/// before the call.
pub proof fn return_undoes_call(m: Machine, addr: u16, byte: u8)
    requires
        m.wf(),
        m.stack.len() < STACK_SIZE,
    ensures
        m.execute(Instruction::Call(addr), byte).fault(Instruction::Return) is None,
        m.execute(Instruction::Call(addr), byte).execute(Instruction::Return, byte) == m,
{
    let called = m.execute(Instruction::Call(addr), byte);
    assert(called.stack.drop_last() =~= m.stack);
}

/// Setting a register to `a` and then adding `b` to it leaves `(a + b) mod
/// 256` in it, and leaves the flag register as it was unless the register is
/// the flag register itself.
pub proof fn set_then_add(m: Machine, x: u8, a: u8, b: u8, byte: u8)
    requires
        m.wf(),
        x < REGISTERS_SIZE,
    ensures
        ({
            let after = m.execute(Instruction::SetRegister(x, a), byte).execute(
                Instruction::AddToRegister(x, b),
                byte,
            );
            &&& after.regs[x as int] == (a + b) % 0x100
            &&& x != FLAG_REGISTER ==> after.regs[FLAG_REGISTER as int] == m.regs[FLAG_REGISTER as int]
        }),
{
}

/// Adding `Vy` to `Vx` sets the flag register to 1 exactly where the sum
/// goes past 255, and leaves the sum modulo 256 in `Vx` unless `Vx` is the
/// flag register, which then holds the flag.
pub proof fn add_wraps_and_flags_carry(m: Machine, x: u8, y: u8, byte: u8)
    requires
        m.wf(),
        x < REGISTERS_SIZE,
        y < REGISTERS_SIZE,
    ensures
        ({
            let a = m.regs[x as int];
            let b = m.regs[y as int];
            let after = m.execute(Instruction::LogicalAdd(x, y), byte);
            &&& after.regs[FLAG_REGISTER as int] == flag(a + b > 0xFF)
            &&& x != FLAG_REGISTER ==> after.regs[x as int] == (a + b) % 0x100
        }),
{
}

/// Subtracting `Vy` from `Vx` sets the flag register to 1 exactly where
/// `Vx >= Vy` held, and leaves the difference modulo 256 in `Vx` unless `Vx`
/// is the flag register, which then holds the flag.
pub proof fn subtract_wraps_and_flags_no_borrow(m: Machine, x: u8, y: u8, byte: u8)
    requires
        m.wf(),
        x < REGISTERS_SIZE,
        y < REGISTERS_SIZE,
    ensures
        ({
            let a = m.regs[x as int];
            let b = m.regs[y as int];
            let after = m.execute(Instruction::LogicalSubtract(x, y), byte);
            &&& after.regs[FLAG_REGISTER as int] == flag(a >= b)
            &&& x != FLAG_REGISTER ==> after.regs[x as int] == (a - b) % 0x100
        }),
{
}

/// Subtracting `Vx` from `Vy` into `Vx` sets the flag register to 1 exactly
/// where `Vy >= Vx` held, and leaves the difference modulo 256 in `Vx`
/// unless `Vx` is the flag register, which then holds the flag.
pub proof fn reverse_subtract_wraps_and_flags_no_borrow(m: Machine, x: u8, y: u8, byte: u8)
    requires
        m.wf(),
        x < REGISTERS_SIZE,
        y < REGISTERS_SIZE,
    ensures
        ({
            let a = m.regs[x as int];
            let b = m.regs[y as int];
            let after = m.execute(Instruction::LogicalSubtractInverse(x, y), byte);
            &&& after.regs[FLAG_REGISTER as int] == flag(b >= a)
            &&& x != FLAG_REGISTER ==> after.regs[x as int] == (b - a) % 0x100
        }),
{
}

/// Drawing a sprite twice on a blank screen, the second time at the place of
/// the first, leaves the screen blank again. The first draw reports no
/// collision; the second reports one exactly where the sprite has a set
/// pixel on the screen.
pub proof fn draw_twice_on_blank_screen(m: Machine, x: u8, y: u8, n: u8, byte: u8)
    requires
        m.wf(),
        x < REGISTERS_SIZE,
        y < REGISTERS_SIZE,
        m.fault(Instruction::Display(x, y, n)) is None,
        blank(m.pixels),
        m.execute(Instruction::Display(x, y, n), byte).sprite_x(x) == m.sprite_x(x),
        m.execute(Instruction::Display(x, y, n), byte).sprite_y(y) == m.sprite_y(y),
    ensures
        ({
            let once = m.execute(Instruction::Display(x, y, n), byte);
            let twice = once.execute(Instruction::Display(x, y, n), byte);
            &&& once.regs[FLAG_REGISTER as int] == 0
            &&& twice.pixels == m.pixels
            &&& blank(twice.pixels)
            &&& twice.regs[FLAG_REGISTER as int] == flag(
                touches(m.pixels, m.sprite(y, n), m.sprite_x(x), m.sprite_y(y)),
            )
        }),
{
    let once = m.execute(Instruction::Display(x, y, n), byte);
    assert(once.sprite(y, n) =~= m.sprite(y, n));
    draw_twice_restores(m.pixels, m.sprite(y, n), m.sprite_x(x), m.sprite_y(y));
    second_draw_collides(m.pixels, m.sprite(y, n), m.sprite_x(x), m.sprite_y(y));
}

/// Where neither coordinate register is the flag register, the second of two
/// draws lands at the place of the first.
pub proof fn draw_keeps_its_place(m: Machine, x: u8, y: u8, n: u8, byte: u8)
    requires
        m.wf(),
        x < FLAG_REGISTER,
        y < FLAG_REGISTER,
    ensures
        m.execute(Instruction::Display(x, y, n), byte).sprite_x(x) == m.sprite_x(x),
        m.execute(Instruction::Display(x, y, n), byte).sprite_y(y) == m.sprite_y(y),
{
}

/// The three bytes that the decimal conversion writes are the hundreds, the
/// tens and the units of the register, and read back they give its value.
pub proof fn decimal_digits_round_trip(m: Machine, x: u8, byte: u8)
    requires
        m.wf(),
        x < REGISTERS_SIZE,
        m.i + 2 < MEMORY_SIZE,
    ensures
        ({
            let v = m.regs[x as int];
            let after = m.execute(Instruction::BinaryConversion(x), byte);
            &&& after.memory[m.i as int] == v / 100
            &&& after.memory[m.i + 1] == (v / 10) % 10
            &&& after.memory[m.i + 2] == v % 10
            &&& after.memory[m.i as int] * 100 + after.memory[m.i + 1] * 10 + after.memory[m.i + 2]
                == v
        }),
{
}

} // verus!
