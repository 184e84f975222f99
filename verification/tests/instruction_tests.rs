use chip8rs::instruction::Instruction;

#[test]
fn decodes_the_two_words_of_family_zero() {
    assert_eq!(Instruction::decode(0x00E0), Some(Instruction::ClearScreen));
    assert_eq!(Instruction::decode(0x00EE), Some(Instruction::Return));
}

#[test]
fn decodes_addresses() {
    assert_eq!(Instruction::decode(0x1ABC), Some(Instruction::Jump(0xABC)));
    assert_eq!(Instruction::decode(0x2204), Some(Instruction::Call(0x204)));
    assert_eq!(Instruction::decode(0xA050), Some(Instruction::SetIndex(0x050)));
    assert_eq!(Instruction::decode(0xBFFF), Some(Instruction::JumpWithRegister(0xFFF)));
}

#[test]
fn decodes_register_and_byte() {
    assert_eq!(Instruction::decode(0x3A12), Some(Instruction::SkipIfEqual(0xA, 0x12)));
    assert_eq!(Instruction::decode(0x4BFF), Some(Instruction::SkipIfDifferent(0xB, 0xFF)));
    assert_eq!(Instruction::decode(0x6C00), Some(Instruction::SetRegister(0xC, 0x00)));
    assert_eq!(Instruction::decode(0x7D7F), Some(Instruction::AddToRegister(0xD, 0x7F)));
    assert_eq!(Instruction::decode(0xC10F), Some(Instruction::Random(0x1, 0x0F)));
}

#[test]
fn decodes_two_registers() {
    assert_eq!(Instruction::decode(0x5120), Some(Instruction::SkipIfContentEqual(1, 2)));
    assert_eq!(Instruction::decode(0x9EF0), Some(Instruction::SkipIfContentDifferent(0xE, 0xF)));
    assert_eq!(Instruction::decode(0x8120), Some(Instruction::LogicalCopy(1, 2)));
    assert_eq!(Instruction::decode(0x8121), Some(Instruction::LogicalOr(1, 2)));
    assert_eq!(Instruction::decode(0x8122), Some(Instruction::LogicalAnd(1, 2)));
    assert_eq!(Instruction::decode(0x8123), Some(Instruction::LogicalXor(1, 2)));
    assert_eq!(Instruction::decode(0x8014), Some(Instruction::LogicalAdd(0, 1)));
    assert_eq!(Instruction::decode(0x8125), Some(Instruction::LogicalSubtract(1, 2)));
    assert_eq!(Instruction::decode(0x8127), Some(Instruction::LogicalSubtractInverse(1, 2)));
}

#[test]
fn shifts_drop_the_second_register() {
    assert_eq!(Instruction::decode(0x8126), Some(Instruction::LogicalRightShift(1)));
    assert_eq!(Instruction::decode(0x81F6), Some(Instruction::LogicalRightShift(1)));
    assert_eq!(Instruction::decode(0x812E), Some(Instruction::LogicalLeftShift(1)));
    assert_eq!(Instruction::LogicalRightShift(1).encode(), 0x8106);
    assert_eq!(Instruction::LogicalLeftShift(1).encode(), 0x810E);
}

#[test]
fn decodes_display() {
    assert_eq!(Instruction::decode(0xD015), Some(Instruction::Display(0, 1, 5)));
    assert_eq!(Instruction::decode(0xDABF), Some(Instruction::Display(0xA, 0xB, 0xF)));
}

#[test]
fn decodes_keypad_skips() {
    assert_eq!(Instruction::decode(0xE09E), Some(Instruction::SkipIfPressed(0)));
    assert_eq!(Instruction::decode(0xE7A1), Some(Instruction::SkipIfNotPressed(7)));
}

#[test]
fn decodes_family_f() {
    assert_eq!(Instruction::decode(0xF307), Some(Instruction::CopyDelayTimer(3)));
    assert_eq!(Instruction::decode(0xF30A), Some(Instruction::WaitForKey(3)));
    assert_eq!(Instruction::decode(0xF315), Some(Instruction::SetDelayTimer(3)));
    assert_eq!(Instruction::decode(0xF318), Some(Instruction::SetSoundTimer(3)));
    assert_eq!(Instruction::decode(0xF31E), Some(Instruction::AddToIndex(3)));
    assert_eq!(Instruction::decode(0xF329), Some(Instruction::SetIndexToFont(3)));
    assert_eq!(Instruction::decode(0xF033), Some(Instruction::BinaryConversion(0)));
    assert_eq!(Instruction::decode(0xF355), Some(Instruction::Store(3)));
    assert_eq!(Instruction::decode(0xF365), Some(Instruction::Load(3)));
}

#[test]
fn unknown_words_decode_to_nothing() {
    assert_eq!(Instruction::decode(0x0000), None);
    assert_eq!(Instruction::decode(0x0123), None);
    assert_eq!(Instruction::decode(0x00E1), None);
    assert_eq!(Instruction::decode(0x5121), None);
    assert_eq!(Instruction::decode(0x8128), None);
    assert_eq!(Instruction::decode(0x812D), None);
    assert_eq!(Instruction::decode(0x812F), None);
    assert_eq!(Instruction::decode(0x9121), None);
    assert_eq!(Instruction::decode(0xE19F), None);
    assert_eq!(Instruction::decode(0xE1A0), None);
    assert_eq!(Instruction::decode(0xF300), None);
    assert_eq!(Instruction::decode(0xF3FF), None);
}

#[test]
fn every_word_is_an_instruction_or_unknown() {
    let mut known = 0u32;
    let mut unknown = 0u32;
    for word in 0..=0xFFFFu16 {
        match Instruction::decode(word) {
            Some(_) => known += 1,
            None => unknown += 1,
        }
    }
    /* 2 in family 0; 10 whole families of 4096 words; 256 words each in
       families 5 and 9; 9 * 256 in family 8; 2 * 16 in family E; 9 * 16 in
       family F */
    assert_eq!(known, 2 + 10 * 4096 + 2 * 256 + 9 * 256 + 2 * 16 + 9 * 16);
    assert_eq!(known + unknown, 0x10000);
}

#[test]
fn from_gives_what_decode_gives_on_known_words() {
    assert_eq!(Instruction::from(0x00E0), Instruction::ClearScreen);
    assert_eq!(Instruction::from(0x6A42), Instruction::SetRegister(0xA, 0x42));
    assert_eq!(Instruction::from(0xD123), Instruction::Display(1, 2, 3));
    for word in 0..=0xFFFFu16 {
        if let Some(instr) = Instruction::decode(word) {
            assert_eq!(Instruction::from(word), instr);
        }
    }
}

#[test]
fn encode_gives_the_canonical_word() {
    assert_eq!(Instruction::ClearScreen.encode(), 0x00E0);
    assert_eq!(Instruction::Return.encode(), 0x00EE);
    assert_eq!(Instruction::Jump(0x234).encode(), 0x1234);
    assert_eq!(Instruction::SkipIfEqual(0xA, 0x12).encode(), 0x3A12);
    assert_eq!(Instruction::LogicalAdd(0, 1).encode(), 0x8014);
    assert_eq!(Instruction::Display(0, 1, 5).encode(), 0xD015);
    assert_eq!(Instruction::SkipIfPressed(0).encode(), 0xE09E);
    assert_eq!(Instruction::BinaryConversion(0).encode(), 0xF033);
}

#[test]
fn decode_inverts_encode_on_every_decoded_instruction() {
    for word in 0..=0xFFFFu16 {
        if let Some(instr) = Instruction::decode(word) {
            let canonical = instr.encode();
            assert_eq!(Instruction::decode(canonical), Some(instr));
            match instr {
                Instruction::LogicalRightShift(_) | Instruction::LogicalLeftShift(_) => {
                    assert_eq!(canonical, word & 0xFF0F);
                }
                _ => assert_eq!(canonical, word),
            }
        }
    }
}
