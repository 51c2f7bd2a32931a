use chip8::{decode, Instruction};

#[test]
fn decode_fixed_words() {
    assert_eq!(decode(0x0000), Some(Instruction::Nop));
    assert_eq!(decode(0x00E0), Some(Instruction::Cls));
    assert_eq!(decode(0x00EE), Some(Instruction::Ret));
}

#[test]
fn decode_addresses() {
    assert_eq!(decode(0x1ABC), Some(Instruction::Jump { addr: 0xABC }));
    assert_eq!(decode(0x2FFF), Some(Instruction::Call { addr: 0xFFF }));
    assert_eq!(decode(0xA2F0), Some(Instruction::LoadIndex { addr: 0x2F0 }));
    assert_eq!(decode(0xB000), Some(Instruction::JumpOffset { addr: 0 }));
}

#[test]
fn decode_register_and_byte() {
    assert_eq!(decode(0x3A7F), Some(Instruction::SkipEqByte { x: 0xA, byte: 0x7F }));
    assert_eq!(decode(0x4B80), Some(Instruction::SkipNeByte { x: 0xB, byte: 0x80 }));
    assert_eq!(decode(0x6C01), Some(Instruction::LoadByte { x: 0xC, byte: 0x01 }));
    assert_eq!(decode(0x7DFF), Some(Instruction::AddByte { x: 0xD, byte: 0xFF }));
    assert_eq!(decode(0xCE0F), Some(Instruction::Random { x: 0xE, byte: 0x0F }));
}

#[test]
fn decode_two_registers() {
    assert_eq!(decode(0x5120), Some(Instruction::SkipEqReg { x: 1, y: 2 }));
    assert_eq!(decode(0x8120), Some(Instruction::Move { x: 1, y: 2 }));
    assert_eq!(decode(0x8121), Some(Instruction::Or { x: 1, y: 2 }));
    assert_eq!(decode(0x8122), Some(Instruction::And { x: 1, y: 2 }));
    assert_eq!(decode(0x8123), Some(Instruction::Xor { x: 1, y: 2 }));
    assert_eq!(decode(0x8AB4), Some(Instruction::Add { x: 0xA, y: 0xB }));
    assert_eq!(decode(0x8125), Some(Instruction::Sub { x: 1, y: 2 }));
    assert_eq!(decode(0x8126), Some(Instruction::ShiftRight { x: 1 }));
    assert_eq!(decode(0x8127), Some(Instruction::SubFrom { x: 1, y: 2 }));
    assert_eq!(decode(0x812E), Some(Instruction::ShiftLeft { x: 1 }));
    assert_eq!(decode(0x9120), Some(Instruction::SkipNeReg { x: 1, y: 2 }));
    assert_eq!(decode(0xD12F), Some(Instruction::Draw { x: 1, y: 2, rows: 15 }));
    assert_eq!(decode(0xDFF0), Some(Instruction::Draw { x: 15, y: 15, rows: 0 }));
}

#[test]
fn decode_key_and_misc() {
    assert_eq!(decode(0xE39E), Some(Instruction::SkipKeyDown { x: 3 }));
    assert_eq!(decode(0xE3A1), Some(Instruction::SkipKeyUp { x: 3 }));
    assert_eq!(decode(0xF307), Some(Instruction::ReadDelay { x: 3 }));
    assert_eq!(decode(0xF30A), Some(Instruction::WaitKey { x: 3 }));
    assert_eq!(decode(0xF315), Some(Instruction::SetDelay { x: 3 }));
    assert_eq!(decode(0xF318), Some(Instruction::SetSound { x: 3 }));
    assert_eq!(decode(0xF31E), Some(Instruction::AddIndex { x: 3 }));
    assert_eq!(decode(0xF329), Some(Instruction::LoadGlyph { x: 3 }));
    assert_eq!(decode(0xF333), Some(Instruction::StoreDigits { x: 3 }));
    assert_eq!(decode(0xF355), Some(Instruction::StoreRegs { x: 3 }));
    assert_eq!(decode(0xF365), Some(Instruction::LoadRegs { x: 3 }));
}

#[test]
fn decode_rejects_what_matches_no_pattern() {
    for op in [
        0x0001u16, 0x00E1, 0x00FE, 0x0123, 0x0E00, 0x5121, 0x512F, 0x8128, 0x812D, 0x812F, 0x9121,
        0xE39F, 0xE3A0, 0xE000, 0xF300, 0xF308, 0xF316, 0xF31F, 0xF32A, 0xF334, 0xF356, 0xF366,
        0xF3FF,
    ] {
        assert_eq!(decode(op), None, "{op:#06x}");
    }
}

#[test]
fn decode_accepts_exactly_the_instruction_set() {
    let mut known = 0u32;
    for op in 0..=0xFFFFu16 {
        if decode(op).is_some() {
            known += 1;
        }
    }
    // 3 fixed words; 1,2,3,4,6,7,A,B,C,D take every low twelve bits;
    // 5xy0 and 9xy0; nine 8xy_ forms; two Ex__ and nine Fx__ forms.
    let expected = 3 + 10 * 4096 + 2 * 256 + 9 * 256 + 2 * 16 + 9 * 16;
    assert_eq!(known, expected);
}
