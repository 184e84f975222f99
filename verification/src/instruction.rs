//! The instruction set: one variant per opcode family, and the decoder that
//! recognises a 16-bit word as one of them.

use vstd::prelude::*;

verus! {

/// A decoded instruction. Register operands are indices `0..=0xF`, addresses
/// are 12-bit, and a sprite height is a 4-bit count.
#[derive(Clone, Copy, Debug, PartialEq, Eq, Structural)]
pub enum Instruction {
    ClearScreen,
    Return,
    Jump(u16),
    Call(u16),
    SkipIfEqual(u8, u8),
    SkipIfDifferent(u8, u8),
    SkipIfContentEqual(u8, u8),
    SkipIfContentDifferent(u8, u8),
    SetRegister(u8, u8),
    AddToRegister(u8, u8),
    LogicalCopy(u8, u8),
    LogicalOr(u8, u8),
    LogicalAnd(u8, u8),
    LogicalXor(u8, u8),
    LogicalAdd(u8, u8),
    LogicalSubtract(u8, u8),
    LogicalRightShift(u8),
    LogicalSubtractInverse(u8, u8),
    LogicalLeftShift(u8),
    SetIndex(u16),
    JumpWithRegister(u16),
    Random(u8, u8),
    Display(u8, u8, u8),
    SkipIfPressed(u8),
    SkipIfNotPressed(u8),
    CopyDelayTimer(u8),
    WaitForKey(u8),
    SetDelayTimer(u8),
    SetSoundTimer(u8),
    AddToIndex(u8),
    SetIndexToFont(u8),
    BinaryConversion(u8),
    Store(u8),
    Load(u8),
}

/// The leading hexadecimal digit of a word: the opcode family.
pub open spec fn family(word: u16) -> u8 {
    (word as int / 0x1000) as u8
}

/// The second hexadecimal digit of a word (`X`).
pub open spec fn digit_x(word: u16) -> u8 {
    ((word as int / 0x100) % 0x10) as u8
}

/// The third hexadecimal digit of a word (`Y`).
pub open spec fn digit_y(word: u16) -> u8 {
    ((word as int / 0x10) % 0x10) as u8
}

/// The last hexadecimal digit of a word (`N`).
pub open spec fn digit_n(word: u16) -> u8 {
    (word as int % 0x10) as u8
}

/// The low byte of a word (`NN`).
pub open spec fn low_byte(word: u16) -> u8 {
    (word as int % 0x100) as u8
}

/// The low twelve bits of a word (`NNN`).
pub open spec fn address(word: u16) -> u16 {
    (word as int % 0x1000) as u16
}

/// What a word of program text stands for, or `None` where it is no
/// instruction of the machine.
pub open spec fn decoded(word: u16) -> Option<Instruction> {
    let x = digit_x(word);
    let y = digit_y(word);
    let n = digit_n(word);
    let nn = low_byte(word);
    let nnn = address(word);
    match family(word) {
        0x0 => if word == 0x00E0 {
            Some(Instruction::ClearScreen)
        } else if word == 0x00EE {
            Some(Instruction::Return)
        } else {
            None
        },
        0x1 => Some(Instruction::Jump(nnn)),
        0x2 => Some(Instruction::Call(nnn)),
        0x3 => Some(Instruction::SkipIfEqual(x, nn)),
        0x4 => Some(Instruction::SkipIfDifferent(x, nn)),
        0x5 => if n == 0 {
            Some(Instruction::SkipIfContentEqual(x, y))
        } else {
            None
        },
        0x6 => Some(Instruction::SetRegister(x, nn)),
        0x7 => Some(Instruction::AddToRegister(x, nn)),
        0x8 => match n {
            0x0 => Some(Instruction::LogicalCopy(x, y)),
            0x1 => Some(Instruction::LogicalOr(x, y)),
            0x2 => Some(Instruction::LogicalAnd(x, y)),
            0x3 => Some(Instruction::LogicalXor(x, y)),
            0x4 => Some(Instruction::LogicalAdd(x, y)),
            0x5 => Some(Instruction::LogicalSubtract(x, y)),
            0x6 => Some(Instruction::LogicalRightShift(x)),
            0x7 => Some(Instruction::LogicalSubtractInverse(x, y)),
            0xE => Some(Instruction::LogicalLeftShift(x)),
            _ => None,
        },
        0x9 => if n == 0 {
            Some(Instruction::SkipIfContentDifferent(x, y))
        } else {
            None
        },
        0xA => Some(Instruction::SetIndex(nnn)),
        0xB => Some(Instruction::JumpWithRegister(nnn)),
        0xC => Some(Instruction::Random(x, nn)),
        0xD => Some(Instruction::Display(x, y, n)),
        0xE => match nn {
            0x9E => Some(Instruction::SkipIfPressed(x)),
            0xA1 => Some(Instruction::SkipIfNotPressed(x)),
            _ => None,
        },
        0xF => match nn {
            0x07 => Some(Instruction::CopyDelayTimer(x)),
            0x0A => Some(Instruction::WaitForKey(x)),
            0x15 => Some(Instruction::SetDelayTimer(x)),
            0x18 => Some(Instruction::SetSoundTimer(x)),
            0x1E => Some(Instruction::AddToIndex(x)),
            0x29 => Some(Instruction::SetIndexToFont(x)),
            0x33 => Some(Instruction::BinaryConversion(x)),
            0x55 => Some(Instruction::Store(x)),
            0x65 => Some(Instruction::Load(x)),
            _ => None,
        },
        _ => None,
    }
}

/// The words that are no instruction: the machine-code call `0NNN` other than
/// the two screen and return words, and the unassigned trailing digits of the
/// families `5`, `8`, `9`, `E` and `F`.
pub open spec fn unknown(word: u16) -> bool {
    let n = digit_n(word);
    let nn = low_byte(word);
    match family(word) {
        0x0 => word != 0x00E0 && word != 0x00EE,
        0x5 | 0x9 => n != 0,
        0x8 => n > 0x7 && n != 0xE,
        0xE => nn != 0x9E && nn != 0xA1,
        0xF => nn != 0x07 && nn != 0x0A && nn != 0x15 && nn != 0x18 && nn != 0x1E && nn != 0x29
            && nn != 0x33 && nn != 0x55 && nn != 0x65,
        _ => false,
    }
}

/// The word made of a family digit and three operand digits.
pub open spec fn word_of_digits(family: u8, x: u8, y: u8, n: u8) -> u16 {
    (family * 0x1000 + x * 0x100 + y * 0x10 + n) as u16
}

/// The word made of a family digit, a register digit and a byte.
pub open spec fn word_of_byte(family: u8, x: u8, nn: u8) -> u16 {
    (family * 0x1000 + x * 0x100 + nn) as u16
}

/// The word made of a family digit and a 12-bit address.
pub open spec fn word_of_address(family: u8, nnn: u16) -> u16 {
    (family * 0x1000 + nnn) as u16
}

/// The digits of a word, as masks and shifts compute them.
proof fn lemma_digits(word: u16)
    by (bit_vector)
    ensures
        (word & 0xF000) >> 12 == word / 0x1000,
        (word & 0x0F00) >> 8 == (word / 0x100) % 0x10,
        (word & 0x00F0) >> 4 == (word / 0x10) % 0x10,
        word & 0x000F == word % 0x10,
        word & 0x00FF == word % 0x100,
        word & 0x0FFF == word % 0x1000,
{
}

/// The digits of a word put together from four digits.
proof fn lemma_word_of_digits(f: u8, x: u8, y: u8, n: u8)
    requires
        f < 0x10,
        x < 0x10,
        y < 0x10,
        n < 0x10,
    ensures
        family(word_of_digits(f, x, y, n)) == f,
        digit_x(word_of_digits(f, x, y, n)) == x,
        digit_y(word_of_digits(f, x, y, n)) == y,
        digit_n(word_of_digits(f, x, y, n)) == n,
        low_byte(word_of_digits(f, x, y, n)) == y * 0x10 + n,
        address(word_of_digits(f, x, y, n)) == x * 0x100 + y * 0x10 + n,
{
    let w: int = f * 0x1000 + x * 0x100 + y * 0x10 + n;
    assert(word_of_digits(f, x, y, n) as int == w);
    assert(w / 0x1000 == f && w % 0x1000 == x * 0x100 + y * 0x10 + n);
    assert(w / 0x100 == f * 0x10 + x && w % 0x100 == y * 0x10 + n);
    assert(w / 0x10 == f * 0x100 + x * 0x10 + y && w % 0x10 == n);
    assert((f * 0x10 + x) % 0x10 == x);
    assert((f * 0x100 + x * 0x10 + y) % 0x10 == y);
}

/// The digits of a word put together from a family, a register and a byte.
proof fn lemma_word_of_byte(f: u8, x: u8, nn: u8)
    requires
        f < 0x10,
        x < 0x10,
    ensures
        family(word_of_byte(f, x, nn)) == f,
        digit_x(word_of_byte(f, x, nn)) == x,
        low_byte(word_of_byte(f, x, nn)) == nn,
        digit_n(word_of_byte(f, x, nn)) == nn % 0x10,
{
    let w: int = f * 0x1000 + x * 0x100 + nn;
    assert(word_of_byte(f, x, nn) as int == w);
    assert(w / 0x1000 == f);
    assert(w / 0x100 == f * 0x10 + x && w % 0x100 == nn);
    assert((f * 0x10 + x) % 0x10 == x);
    assert(w % 0x10 == nn % 0x10);
}

/// The digits of a word put together from a family and an address.
proof fn lemma_word_of_address(f: u8, nnn: u16)
    requires
        f < 0x10,
        nnn < 0x1000,
    ensures
        family(word_of_address(f, nnn)) == f,
        address(word_of_address(f, nnn)) == nnn,
{
    let w: int = f * 0x1000 + nnn;
    assert(word_of_address(f, nnn) as int == w);
    assert(w / 0x1000 == f && w % 0x1000 == nnn);
}

impl Instruction {
    /// Every operand lies within the field of the opcode that carries it.
    pub open spec fn wf(self) -> bool {
        match self {
            Instruction::ClearScreen | Instruction::Return => true,
            Instruction::Jump(a)
            | Instruction::Call(a)
            | Instruction::SetIndex(a)
            | Instruction::JumpWithRegister(a) => a < 0x1000,
            Instruction::SkipIfEqual(x, _)
            | Instruction::SkipIfDifferent(x, _)
            | Instruction::SetRegister(x, _)
            | Instruction::AddToRegister(x, _)
            | Instruction::Random(x, _) => x < 0x10,
            Instruction::SkipIfContentEqual(x, y)
            | Instruction::SkipIfContentDifferent(x, y)
            | Instruction::LogicalCopy(x, y)
            | Instruction::LogicalOr(x, y)
            | Instruction::LogicalAnd(x, y)
            | Instruction::LogicalXor(x, y)
            | Instruction::LogicalAdd(x, y)
            | Instruction::LogicalSubtract(x, y)
            | Instruction::LogicalSubtractInverse(x, y) => x < 0x10 && y < 0x10,
            Instruction::Display(x, y, n) => x < 0x10 && y < 0x10 && n < 0x10,
            Instruction::LogicalRightShift(x)
            | Instruction::LogicalLeftShift(x)
            | Instruction::SkipIfPressed(x)
            | Instruction::SkipIfNotPressed(x)
            | Instruction::CopyDelayTimer(x)
            | Instruction::WaitForKey(x)
            | Instruction::SetDelayTimer(x)
            | Instruction::SetSoundTimer(x)
            | Instruction::AddToIndex(x)
            | Instruction::SetIndexToFont(x)
            | Instruction::BinaryConversion(x)
            | Instruction::Store(x)
            | Instruction::Load(x) => x < 0x10,
        }
    }

    /// The canonical word of an instruction. The two shifts carry no second
    /// register, so their `Y` digit is zero.
    pub open spec fn encoded(self) -> u16 {
        match self {
            Instruction::ClearScreen => 0x00E0,
            Instruction::Return => 0x00EE,
            Instruction::Jump(a) => word_of_address(0x1, a),
            Instruction::Call(a) => word_of_address(0x2, a),
            Instruction::SkipIfEqual(x, nn) => word_of_byte(0x3, x, nn),
            Instruction::SkipIfDifferent(x, nn) => word_of_byte(0x4, x, nn),
            Instruction::SkipIfContentEqual(x, y) => word_of_digits(0x5, x, y, 0x0),
            Instruction::SetRegister(x, nn) => word_of_byte(0x6, x, nn),
            Instruction::AddToRegister(x, nn) => word_of_byte(0x7, x, nn),
            Instruction::LogicalCopy(x, y) => word_of_digits(0x8, x, y, 0x0),
            Instruction::LogicalOr(x, y) => word_of_digits(0x8, x, y, 0x1),
            Instruction::LogicalAnd(x, y) => word_of_digits(0x8, x, y, 0x2),
            Instruction::LogicalXor(x, y) => word_of_digits(0x8, x, y, 0x3),
            Instruction::LogicalAdd(x, y) => word_of_digits(0x8, x, y, 0x4),
            Instruction::LogicalSubtract(x, y) => word_of_digits(0x8, x, y, 0x5),
            Instruction::LogicalRightShift(x) => word_of_digits(0x8, x, 0x0, 0x6),
            Instruction::LogicalSubtractInverse(x, y) => word_of_digits(0x8, x, y, 0x7),
            Instruction::LogicalLeftShift(x) => word_of_digits(0x8, x, 0x0, 0xE),
            Instruction::SkipIfContentDifferent(x, y) => word_of_digits(0x9, x, y, 0x0),
            Instruction::SetIndex(a) => word_of_address(0xA, a),
            Instruction::JumpWithRegister(a) => word_of_address(0xB, a),
            Instruction::Random(x, nn) => word_of_byte(0xC, x, nn),
            Instruction::Display(x, y, n) => word_of_digits(0xD, x, y, n),
            Instruction::SkipIfPressed(x) => word_of_byte(0xE, x, 0x9E),
            Instruction::SkipIfNotPressed(x) => word_of_byte(0xE, x, 0xA1),
            Instruction::CopyDelayTimer(x) => word_of_byte(0xF, x, 0x07),
            Instruction::WaitForKey(x) => word_of_byte(0xF, x, 0x0A),
            Instruction::SetDelayTimer(x) => word_of_byte(0xF, x, 0x15),
            Instruction::SetSoundTimer(x) => word_of_byte(0xF, x, 0x18),
            Instruction::AddToIndex(x) => word_of_byte(0xF, x, 0x1E),
            Instruction::SetIndexToFont(x) => word_of_byte(0xF, x, 0x29),
            Instruction::BinaryConversion(x) => word_of_byte(0xF, x, 0x33),
            Instruction::Store(x) => word_of_byte(0xF, x, 0x55),
            Instruction::Load(x) => word_of_byte(0xF, x, 0x65),
        }
    }

    /// Decoding is total: a word either stands for a well-formed instruction
    /// or is one of the unknown words, never both.
    pub proof fn decode_is_total(word: u16)
        ensures
            decoded(word) is None <==> unknown(word),
            decoded(word) matches Some(instr) ==> instr.wf(),
    {
    }

    /// Decoding the canonical word of a well-formed instruction gives the
    /// instruction back.
    pub proof fn decode_inverts_encode(instr: Instruction)
        requires
            instr.wf(),
        ensures
            decoded(instr.encoded()) == Some(instr),
    {
        match instr {
            Instruction::ClearScreen | Instruction::Return => {},
            Instruction::Jump(a) => lemma_word_of_address(0x1, a),
            Instruction::Call(a) => lemma_word_of_address(0x2, a),
            Instruction::SkipIfEqual(x, nn) => lemma_word_of_byte(0x3, x, nn),
            Instruction::SkipIfDifferent(x, nn) => lemma_word_of_byte(0x4, x, nn),
            Instruction::SkipIfContentEqual(x, y) => lemma_word_of_digits(0x5, x, y, 0x0),
            Instruction::SetRegister(x, nn) => lemma_word_of_byte(0x6, x, nn),
            Instruction::AddToRegister(x, nn) => lemma_word_of_byte(0x7, x, nn),
            Instruction::LogicalCopy(x, y) => lemma_word_of_digits(0x8, x, y, 0x0),
            Instruction::LogicalOr(x, y) => lemma_word_of_digits(0x8, x, y, 0x1),
            Instruction::LogicalAnd(x, y) => lemma_word_of_digits(0x8, x, y, 0x2),
            Instruction::LogicalXor(x, y) => lemma_word_of_digits(0x8, x, y, 0x3),
            Instruction::LogicalAdd(x, y) => lemma_word_of_digits(0x8, x, y, 0x4),
            Instruction::LogicalSubtract(x, y) => lemma_word_of_digits(0x8, x, y, 0x5),
            Instruction::LogicalRightShift(x) => lemma_word_of_digits(0x8, x, 0x0, 0x6),
            Instruction::LogicalSubtractInverse(x, y) => lemma_word_of_digits(0x8, x, y, 0x7),
            Instruction::LogicalLeftShift(x) => lemma_word_of_digits(0x8, x, 0x0, 0xE),
            Instruction::SkipIfContentDifferent(x, y) => lemma_word_of_digits(0x9, x, y, 0x0),
            Instruction::SetIndex(a) => lemma_word_of_address(0xA, a),
            Instruction::JumpWithRegister(a) => lemma_word_of_address(0xB, a),
            Instruction::Random(x, nn) => lemma_word_of_byte(0xC, x, nn),
            Instruction::Display(x, y, n) => lemma_word_of_digits(0xD, x, y, n),
            Instruction::SkipIfPressed(x) => lemma_word_of_byte(0xE, x, 0x9E),
            Instruction::SkipIfNotPressed(x) => lemma_word_of_byte(0xE, x, 0xA1),
            Instruction::CopyDelayTimer(x) => lemma_word_of_byte(0xF, x, 0x07),
            Instruction::WaitForKey(x) => lemma_word_of_byte(0xF, x, 0x0A),
            Instruction::SetDelayTimer(x) => lemma_word_of_byte(0xF, x, 0x15),
            Instruction::SetSoundTimer(x) => lemma_word_of_byte(0xF, x, 0x18),
            Instruction::AddToIndex(x) => lemma_word_of_byte(0xF, x, 0x1E),
            Instruction::SetIndexToFont(x) => lemma_word_of_byte(0xF, x, 0x29),
            Instruction::BinaryConversion(x) => lemma_word_of_byte(0xF, x, 0x33),
            Instruction::Store(x) => lemma_word_of_byte(0xF, x, 0x55),
            Instruction::Load(x) => lemma_word_of_byte(0xF, x, 0x65),
        }
    }

    /// Recognises a word of program text. The leading digit selects the
    /// family; within a family the trailing digits select the operation.
    pub fn decode(word: u16) -> (r: Option<Instruction>)
        ensures
            r == decoded(word),
            r matches Some(instr) ==> instr.wf(),
    {
        proof {
            lemma_digits(word);
        }
        let x: u8 = ((word & 0x0F00) >> 8) as u8;
        let y: u8 = ((word & 0x00F0) >> 4) as u8;
        let n: u8 = (word & 0x000F) as u8;
        let nn: u8 = (word & 0x00FF) as u8;
        let nnn: u16 = word & 0x0FFF;
        match (word & 0xF000) >> 12 {
            0x0 => {
                if word == 0x00E0 {
                    Some(Instruction::ClearScreen)
                } else if word == 0x00EE {
                    Some(Instruction::Return)
                } else {
                    None
                }
            },
            0x1 => Some(Instruction::Jump(nnn)),
            0x2 => Some(Instruction::Call(nnn)),
            0x3 => Some(Instruction::SkipIfEqual(x, nn)),
            0x4 => Some(Instruction::SkipIfDifferent(x, nn)),
            0x5 => {
                if n == 0 {
                    Some(Instruction::SkipIfContentEqual(x, y))
                } else {
                    None
                }
            },
            0x6 => Some(Instruction::SetRegister(x, nn)),
            0x7 => Some(Instruction::AddToRegister(x, nn)),
            0x8 => {
                match n {
                    0x0 => Some(Instruction::LogicalCopy(x, y)),
                    0x1 => Some(Instruction::LogicalOr(x, y)),
                    0x2 => Some(Instruction::LogicalAnd(x, y)),
                    0x3 => Some(Instruction::LogicalXor(x, y)),
                    0x4 => Some(Instruction::LogicalAdd(x, y)),
                    0x5 => Some(Instruction::LogicalSubtract(x, y)),
                    0x6 => Some(Instruction::LogicalRightShift(x)),
                    0x7 => Some(Instruction::LogicalSubtractInverse(x, y)),
                    0xE => Some(Instruction::LogicalLeftShift(x)),
                    _ => None,
                }
            },
            0x9 => {
                if n == 0 {
                    Some(Instruction::SkipIfContentDifferent(x, y))
                } else {
                    None
                }
            },
            0xA => Some(Instruction::SetIndex(nnn)),
            0xB => Some(Instruction::JumpWithRegister(nnn)),
            0xC => Some(Instruction::Random(x, nn)),
            0xD => Some(Instruction::Display(x, y, n)),
            0xE => {
                match nn {
                    0x9E => Some(Instruction::SkipIfPressed(x)),
                    0xA1 => Some(Instruction::SkipIfNotPressed(x)),
                    _ => None,
                }
            },
            0xF => {
                match nn {
                    0x07 => Some(Instruction::CopyDelayTimer(x)),
                    0x0A => Some(Instruction::WaitForKey(x)),
                    0x15 => Some(Instruction::SetDelayTimer(x)),
                    0x18 => Some(Instruction::SetSoundTimer(x)),
                    0x1E => Some(Instruction::AddToIndex(x)),
                    0x29 => Some(Instruction::SetIndexToFont(x)),
                    0x33 => Some(Instruction::BinaryConversion(x)),
                    0x55 => Some(Instruction::Store(x)),
                    0x65 => Some(Instruction::Load(x)),
                    _ => None,
                }
            },
            _ => None,
        }
    }

    /// The instruction that a known word stands for.
    pub fn from(word: u16) -> (instr: Instruction)
        requires
            !unknown(word),
        ensures
            decoded(word) == Some(instr),
            instr.wf(),
    {
        proof {
            Self::decode_is_total(word);
        }
        Self::decode(word).unwrap()
    }

    /// The canonical word of a well-formed instruction.
    pub fn encode(self) -> (word: u16)
        requires
            self.wf(),
        ensures
            word == self.encoded(),
            decoded(word) == Some(self),
    {
        proof {
            Self::decode_inverts_encode(self);
        }
        match self {
            Instruction::ClearScreen => 0x00E0,
            Instruction::Return => 0x00EE,
            Instruction::Jump(a) => pack_address(0x1, a),
            Instruction::Call(a) => pack_address(0x2, a),
            Instruction::SkipIfEqual(x, nn) => pack_byte(0x3, x, nn),
            Instruction::SkipIfDifferent(x, nn) => pack_byte(0x4, x, nn),
            Instruction::SkipIfContentEqual(x, y) => pack_digits(0x5, x, y, 0x0),
            Instruction::SetRegister(x, nn) => pack_byte(0x6, x, nn),
            Instruction::AddToRegister(x, nn) => pack_byte(0x7, x, nn),
            Instruction::LogicalCopy(x, y) => pack_digits(0x8, x, y, 0x0),
            Instruction::LogicalOr(x, y) => pack_digits(0x8, x, y, 0x1),
            Instruction::LogicalAnd(x, y) => pack_digits(0x8, x, y, 0x2),
            Instruction::LogicalXor(x, y) => pack_digits(0x8, x, y, 0x3),
            Instruction::LogicalAdd(x, y) => pack_digits(0x8, x, y, 0x4),
            Instruction::LogicalSubtract(x, y) => pack_digits(0x8, x, y, 0x5),
            Instruction::LogicalRightShift(x) => pack_digits(0x8, x, 0x0, 0x6),
            Instruction::LogicalSubtractInverse(x, y) => pack_digits(0x8, x, y, 0x7),
            Instruction::LogicalLeftShift(x) => pack_digits(0x8, x, 0x0, 0xE),
            Instruction::SkipIfContentDifferent(x, y) => pack_digits(0x9, x, y, 0x0),
            Instruction::SetIndex(a) => pack_address(0xA, a),
            Instruction::JumpWithRegister(a) => pack_address(0xB, a),
            Instruction::Random(x, nn) => pack_byte(0xC, x, nn),
            Instruction::Display(x, y, n) => pack_digits(0xD, x, y, n),
            Instruction::SkipIfPressed(x) => pack_byte(0xE, x, 0x9E),
            Instruction::SkipIfNotPressed(x) => pack_byte(0xE, x, 0xA1),
            Instruction::CopyDelayTimer(x) => pack_byte(0xF, x, 0x07),
            Instruction::WaitForKey(x) => pack_byte(0xF, x, 0x0A),
            Instruction::SetDelayTimer(x) => pack_byte(0xF, x, 0x15),
            Instruction::SetSoundTimer(x) => pack_byte(0xF, x, 0x18),
            Instruction::AddToIndex(x) => pack_byte(0xF, x, 0x1E),
            Instruction::SetIndexToFont(x) => pack_byte(0xF, x, 0x29),
            Instruction::BinaryConversion(x) => pack_byte(0xF, x, 0x33),
            Instruction::Store(x) => pack_byte(0xF, x, 0x55),
            Instruction::Load(x) => pack_byte(0xF, x, 0x65),
        }
    }
}

/// Puts a family digit and three operand digits together.
fn pack_digits(family: u8, x: u8, y: u8, n: u8) -> (word: u16)
    requires
        family < 0x10,
        x < 0x10,
        y < 0x10,
        n < 0x10,
    ensures
        word == word_of_digits(family, x, y, n),
{
    (family as u16) * 0x1000 + (x as u16) * 0x100 + (y as u16) * 0x10 + (n as u16)
}

/// Puts a family digit, a register digit and a byte together.
fn pack_byte(family: u8, x: u8, nn: u8) -> (word: u16)
    requires
        family < 0x10,
        x < 0x10,
    ensures
        word == word_of_byte(family, x, nn),
{
    (family as u16) * 0x1000 + (x as u16) * 0x100 + (nn as u16)
}

/// Puts a family digit and a 12-bit address together.
fn pack_address(family: u8, nnn: u16) -> (word: u16)
    requires
        family < 0x10,
        nnn < 0x1000,
    ensures
        word == word_of_address(family, nnn),
{
    (family as u16) * 0x1000 + nnn
}

} // verus!
