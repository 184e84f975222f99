//! The built-in font: one 4x5 glyph for each hexadecimal digit.

use vstd::prelude::*;

verus! {

/// The number of bytes of a glyph, one byte for each of its rows.
pub const FONT_SIZE: usize = 5;

/// The number of glyphs, one for each hexadecimal digit.
pub const FONT_COUNT: usize = 16;

/// The rows of the glyph of a hexadecimal digit, top row first. The high
/// four bits of a row are its pixels, the leftmost pixel in the highest bit.
pub open spec fn glyph(digit: int) -> Seq<u8> {
    if digit == 0x0 {
        seq![0xF0u8, 0x90u8, 0x90u8, 0x90u8, 0xF0u8]
    } else if digit == 0x1 {
        seq![0x20u8, 0x60u8, 0x20u8, 0x20u8, 0x70u8]
    } else if digit == 0x2 {
        seq![0xF0u8, 0x10u8, 0xF0u8, 0x80u8, 0xF0u8]
    } else if digit == 0x3 {
        seq![0xF0u8, 0x10u8, 0xF0u8, 0x10u8, 0xF0u8]
    } else if digit == 0x4 {
        seq![0x90u8, 0x90u8, 0xF0u8, 0x10u8, 0x10u8]
    } else if digit == 0x5 {
        seq![0xF0u8, 0x80u8, 0xF0u8, 0x10u8, 0xF0u8]
    } else if digit == 0x6 {
        seq![0xF0u8, 0x80u8, 0xF0u8, 0x90u8, 0xF0u8]
    } else if digit == 0x7 {
        seq![0xF0u8, 0x10u8, 0x20u8, 0x40u8, 0x40u8]
    } else if digit == 0x8 {
        seq![0xF0u8, 0x90u8, 0xF0u8, 0x90u8, 0xF0u8]
    } else if digit == 0x9 {
        seq![0xF0u8, 0x90u8, 0xF0u8, 0x10u8, 0xF0u8]
    } else if digit == 0xA {
        seq![0xF0u8, 0x90u8, 0xF0u8, 0x90u8, 0x90u8]
    } else if digit == 0xB {
        seq![0xE0u8, 0x90u8, 0xE0u8, 0x90u8, 0xE0u8]
    } else if digit == 0xC {
        seq![0xF0u8, 0x80u8, 0x80u8, 0x80u8, 0xF0u8]
    } else if digit == 0xD {
        seq![0xE0u8, 0x90u8, 0x90u8, 0x90u8, 0xE0u8]
    } else if digit == 0xE {
        seq![0xF0u8, 0x80u8, 0xF0u8, 0x80u8, 0xF0u8]
    } else {
        seq![0xF0u8, 0x80u8, 0xF0u8, 0x80u8, 0x80u8]
    }
}

/// The font as it lies in memory: the sixteen glyphs one after another.
pub open spec fn font_rom() -> Seq<u8> {
    Seq::new((FONT_COUNT * FONT_SIZE) as nat, |k: int| glyph(k / 5)[k % 5])
}

/// The sixteen glyphs.
pub struct Fonts {
    pub fonts: [[u8; 5]; 16],
}

impl Fonts {
    /// The built-in font.
    pub fn new() -> (fonts: Fonts)
        ensures
            forall|digit: int| 0 <= digit < 16 ==> (#[trigger] fonts.fonts@[digit])@ == glyph(digit),
    {
        let fonts = Fonts {
            fonts: [
                [0xF0, 0x90, 0x90, 0x90, 0xF0],
                [0x20, 0x60, 0x20, 0x20, 0x70],
                [0xF0, 0x10, 0xF0, 0x80, 0xF0],
                [0xF0, 0x10, 0xF0, 0x10, 0xF0],
                [0x90, 0x90, 0xF0, 0x10, 0x10],
                [0xF0, 0x80, 0xF0, 0x10, 0xF0],
                [0xF0, 0x80, 0xF0, 0x90, 0xF0],
                [0xF0, 0x10, 0x20, 0x40, 0x40],
                [0xF0, 0x90, 0xF0, 0x90, 0xF0],
                [0xF0, 0x90, 0xF0, 0x10, 0xF0],
                [0xF0, 0x90, 0xF0, 0x90, 0x90],
                [0xE0, 0x90, 0xE0, 0x90, 0xE0],
                [0xF0, 0x80, 0x80, 0x80, 0xF0],
                [0xE0, 0x90, 0x90, 0x90, 0xE0],
                [0xF0, 0x80, 0xF0, 0x80, 0xF0],
                [0xF0, 0x80, 0xF0, 0x80, 0x80],
            ],
        };
        assert forall|digit: int| 0 <= digit < 16 implies (#[trigger] fonts.fonts@[digit])@ == glyph(
            digit,
        ) by {
            assert(fonts.fonts@[digit]@ =~= glyph(digit));
        }
        fonts
    }
}

} // verus!
