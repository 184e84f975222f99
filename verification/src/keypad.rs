//! The keypad: one pressed-or-released state per key code.

use vstd::prelude::*;

verus! {

/// A set of keys addressed by code, each either pressed or released.
pub trait Keypad {
    /// The state of every key, by code: `true` where the key is held down.
    spec fn keys(&self) -> Seq<bool>;

    /// Records that the key `code` went down (`is_pressed`) or came up.
    fn set_is_pressed(&mut self, code: usize, is_pressed: bool)
        requires
            code < old(self).keys().len(),
        ensures
            final(self).keys() == old(self).keys().update(code as int, is_pressed),
    ;

    /// Whether the key `code` is held down.
    fn get_is_pressed(&self, code: usize) -> (is_pressed: bool)
        requires
            code < self.keys().len(),
        ensures
            is_pressed == self.keys()[code as int],
    ;
}

/// The keypad code that a key of the host keyboard stands for. The four
/// rows `1234`, `qwer`, `asdf`, `zxcv` of the keyboard lie over the four rows
/// `123C`, `456D`, `789E`, `A0BF` of the keypad; no other key has a code.
pub open spec fn code_of_key(key: char) -> Option<usize> {
    match key {
        '1' => Some(0x1usize),
        '2' => Some(0x2usize),
        '3' => Some(0x3usize),
        '4' => Some(0xCusize),
        'q' => Some(0x4usize),
        'w' => Some(0x5usize),
        'e' => Some(0x6usize),
        'r' => Some(0xDusize),
        'a' => Some(0x7usize),
        's' => Some(0x8usize),
        'd' => Some(0x9usize),
        'f' => Some(0xEusize),
        'z' => Some(0xAusize),
        'x' => Some(0x0usize),
        'c' => Some(0xBusize),
        'v' => Some(0xFusize),
        _ => None,
    }
}

/// A keypad fed from a host keyboard.
pub struct KeyboardKeypad {
    keys: Vec<bool>,
}

impl KeyboardKeypad {
    /// A keypad of `codes` keys, none of them pressed.
    pub fn new(codes: usize) -> (keypad: KeyboardKeypad)
        ensures
            keypad.keys() == Seq::new(codes as nat, |code: int| false),
    {
        let mut keys: Vec<bool> = Vec::new();
        let mut code: usize = 0;
        while code < codes
            invariant
                code <= codes,
                keys@ == Seq::new(code as nat, |c: int| false),
            decreases codes - code,
        {
            keys.push(false);
            code += 1;
            assert(keys@ =~= Seq::new(code as nat, |c: int| false));
        }
        KeyboardKeypad { keys }
    }

    /// The keypad code that a key of the host keyboard stands for, if it
    /// stands for one.
    pub fn code_for(key: char) -> (code: Option<usize>)
        ensures
            code == code_of_key(key),
            code matches Some(c) ==> c < 0x10,
    {
        match key {
            '1' => Some(0x1),
            '2' => Some(0x2),
            '3' => Some(0x3),
            '4' => Some(0xC),
            'q' => Some(0x4),
            'w' => Some(0x5),
            'e' => Some(0x6),
            'r' => Some(0xD),
            'a' => Some(0x7),
            's' => Some(0x8),
            'd' => Some(0x9),
            'f' => Some(0xE),
            'z' => Some(0xA),
            'x' => Some(0x0),
            'c' => Some(0xB),
            'v' => Some(0xF),
            _ => None,
        }
    }

    /// The number of keys.
    pub fn len(&self) -> (codes: usize)
        ensures
            codes == self.keys().len(),
    {
        self.keys.len()
    }
}

impl Keypad for KeyboardKeypad {
    closed spec fn keys(&self) -> Seq<bool> {
        self.keys@
    }

    fn set_is_pressed(&mut self, code: usize, is_pressed: bool) {
        self.keys[code] = is_pressed;
    }

    fn get_is_pressed(&self, code: usize) -> (is_pressed: bool) {
        self.keys[code]
    }
}

} // verus!
