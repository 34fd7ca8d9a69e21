use chip8_core::Instruction;

#[test]
fn decode_system_instructions() {
    assert_eq!(Instruction::decode(0x00E0), Some(Instruction::ClearScreen));
    assert_eq!(Instruction::decode(0x00EE), Some(Instruction::Return));
    assert_eq!(Instruction::decode(0x0000), None);
    assert_eq!(Instruction::decode(0x00E1), None);
    assert_eq!(Instruction::decode(0x0ABC), None);
    assert_eq!(Instruction::decode(0x01E0), None);
}

#[test]
fn decode_flow_instructions() {
    assert_eq!(Instruction::decode(0x1ABC), Some(Instruction::Jump { addr: 0xABC }));
    assert_eq!(Instruction::decode(0x2FFF), Some(Instruction::Call { addr: 0xFFF }));
    assert_eq!(Instruction::decode(0xB012), Some(Instruction::JumpOffset { addr: 0x012 }));
    assert_eq!(Instruction::decode(0x3A42), Some(Instruction::SkipEqImm { x: 0xA, nn: 0x42 }));
    assert_eq!(Instruction::decode(0x4B07), Some(Instruction::SkipNeImm { x: 0xB, nn: 0x07 }));
    assert_eq!(Instruction::decode(0x5CD0), Some(Instruction::SkipEqReg { x: 0xC, y: 0xD }));
    assert_eq!(Instruction::decode(0x9EF0), Some(Instruction::SkipNeReg { x: 0xE, y: 0xF }));
    assert_eq!(Instruction::decode(0x5CD1), None);
    assert_eq!(Instruction::decode(0x9EFF), None);
}

#[test]
fn decode_register_instructions() {
    assert_eq!(Instruction::decode(0x6123), Some(Instruction::LoadImm { x: 1, nn: 0x23 }));
    assert_eq!(Instruction::decode(0x7FFF), Some(Instruction::AddImm { x: 15, nn: 0xFF }));
    assert_eq!(Instruction::decode(0x8120), Some(Instruction::Move { x: 1, y: 2 }));
    assert_eq!(Instruction::decode(0x8121), Some(Instruction::Or { x: 1, y: 2 }));
    assert_eq!(Instruction::decode(0x8122), Some(Instruction::And { x: 1, y: 2 }));
    assert_eq!(Instruction::decode(0x8123), Some(Instruction::Xor { x: 1, y: 2 }));
    assert_eq!(Instruction::decode(0x8124), Some(Instruction::Add { x: 1, y: 2 }));
    assert_eq!(Instruction::decode(0x8125), Some(Instruction::Sub { x: 1, y: 2 }));
    assert_eq!(Instruction::decode(0x8126), Some(Instruction::ShiftRight { x: 1 }));
    assert_eq!(Instruction::decode(0x8127), Some(Instruction::SubReverse { x: 1, y: 2 }));
    assert_eq!(Instruction::decode(0x812E), Some(Instruction::ShiftLeft { x: 1 }));
    assert_eq!(Instruction::decode(0xC37F), Some(Instruction::Random { x: 3, nn: 0x7F }));
    for n in [0x8u16, 0x9, 0xA, 0xB, 0xC, 0xD, 0xF] {
        assert_eq!(Instruction::decode(0x8120 | n), None);
    }
}

#[test]
fn decode_memory_and_display_instructions() {
    assert_eq!(Instruction::decode(0xA123), Some(Instruction::LoadIndex { addr: 0x123 }));
    assert_eq!(Instruction::decode(0xD12F), Some(Instruction::Draw { x: 1, y: 2, n: 15 }));
    assert_eq!(Instruction::decode(0xD000), Some(Instruction::Draw { x: 0, y: 0, n: 0 }));
    assert_eq!(Instruction::decode(0xF41E), Some(Instruction::AddIndex { x: 4 }));
    assert_eq!(Instruction::decode(0xF429), Some(Instruction::FontAddr { x: 4 }));
    assert_eq!(Instruction::decode(0xF433), Some(Instruction::StoreBcd { x: 4 }));
    assert_eq!(Instruction::decode(0xF455), Some(Instruction::StoreRegs { x: 4 }));
    assert_eq!(Instruction::decode(0xF465), Some(Instruction::LoadRegs { x: 4 }));
}

#[test]
fn decode_key_and_timer_instructions() {
    assert_eq!(Instruction::decode(0xE79E), Some(Instruction::SkipKey { x: 7 }));
    assert_eq!(Instruction::decode(0xE7A1), Some(Instruction::SkipNoKey { x: 7 }));
    assert_eq!(Instruction::decode(0xF707), Some(Instruction::ReadDelay { x: 7 }));
    assert_eq!(Instruction::decode(0xF70A), Some(Instruction::WaitKey { x: 7 }));
    assert_eq!(Instruction::decode(0xF715), Some(Instruction::SetDelay { x: 7 }));
    assert_eq!(Instruction::decode(0xF718), Some(Instruction::SetSound { x: 7 }));
    assert_eq!(Instruction::decode(0xE79F), None);
    assert_eq!(Instruction::decode(0xE700), None);
    assert_eq!(Instruction::decode(0xF700), None);
    assert_eq!(Instruction::decode(0xF7FF), None);
}

#[test]
fn decode_accepts_exactly_the_words_of_the_table() {
    let mut known = 0u32;
    for word in 0..=0xFFFFu16 {
        if Instruction::decode(word).is_some() {
            known += 1;
        }
    }
    // 2 system words; 10 operations that take every operand (4096 words
    // each); 5XY0 and 9XY0 (256 each); 9 register operations (256 each);
    // 2 key skips and 9 F-operations (16 each).
    assert_eq!(known, 2 + 10 * 4096 + 2 * 256 + 9 * 256 + 11 * 16);
}
