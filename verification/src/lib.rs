//! The core of a CHIP-8 interpreter: instruction decoding, the processor with
//! its memory, registers and call stack, sprite drawing on a 64x32 frame
//! buffer, the keypad, and the two 60 Hz timers.

pub mod instruction;
pub mod display;
pub mod keypad;
pub mod timer;
pub mod fonts;
pub mod sprite;
pub mod machine;
pub mod chip8;
pub mod laws;
pub mod hue;
