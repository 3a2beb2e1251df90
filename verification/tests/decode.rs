use sandchip::instruction::Instruction;

#[test]
fn decodes_the_two_bare_words() {
    assert_eq!(Instruction::decode(0x00E0), Some(Instruction::ClearScreen));
    assert_eq!(Instruction::decode(0x00EE), Some(Instruction::Return));
}

#[test]
fn decodes_address_instructions() {
    assert_eq!(Instruction::decode(0x1ABC), Some(Instruction::Jump { addr: 0xABC }));
    assert_eq!(Instruction::decode(0x2FFF), Some(Instruction::Call { addr: 0xFFF }));
    assert_eq!(Instruction::decode(0xA000), Some(Instruction::LoadAddress { addr: 0 }));
    assert_eq!(Instruction::decode(0xB123), Some(Instruction::JumpOffset { addr: 0x123 }));
}

#[test]
fn decodes_immediate_instructions() {
    assert_eq!(Instruction::decode(0x3A42), Some(Instruction::SkipEqImm { x: 0xA, kk: 0x42 }));
    assert_eq!(Instruction::decode(0x4F00), Some(Instruction::SkipNeImm { x: 0xF, kk: 0 }));
    assert_eq!(Instruction::decode(0x60FF), Some(Instruction::LoadImm { x: 0, kk: 0xFF }));
    assert_eq!(Instruction::decode(0x7101), Some(Instruction::AddImm { x: 1, kk: 1 }));
    assert_eq!(Instruction::decode(0xC20F), Some(Instruction::Random { x: 2, kk: 0x0F }));
}

#[test]
fn decodes_register_instructions() {
    assert_eq!(Instruction::decode(0x5AB0), Some(Instruction::SkipEqReg { x: 0xA, y: 0xB }));
    assert_eq!(Instruction::decode(0x9AB0), Some(Instruction::SkipNeReg { x: 0xA, y: 0xB }));
    assert_eq!(Instruction::decode(0x8120), Some(Instruction::Move { x: 1, y: 2 }));
    assert_eq!(Instruction::decode(0x8121), Some(Instruction::Or { x: 1, y: 2 }));
    assert_eq!(Instruction::decode(0x8122), Some(Instruction::And { x: 1, y: 2 }));
    assert_eq!(Instruction::decode(0x8123), Some(Instruction::Xor { x: 1, y: 2 }));
    assert_eq!(Instruction::decode(0x8124), Some(Instruction::AddReg { x: 1, y: 2 }));
    assert_eq!(Instruction::decode(0x8125), Some(Instruction::SubReg { x: 1, y: 2 }));
    assert_eq!(Instruction::decode(0x8126), Some(Instruction::ShiftRight { x: 1 }));
    assert_eq!(Instruction::decode(0x8127), Some(Instruction::SubFrom { x: 1, y: 2 }));
    assert_eq!(Instruction::decode(0x812E), Some(Instruction::ShiftLeft { x: 1 }));
    assert_eq!(Instruction::decode(0xD125), Some(Instruction::Draw { x: 1, y: 2, n: 5 }));
    assert_eq!(Instruction::decode(0xDFE0), Some(Instruction::Draw { x: 0xF, y: 0xE, n: 0 }));
}

#[test]
fn decodes_key_instructions() {
    assert_eq!(Instruction::decode(0xE39E), Some(Instruction::SkipKeyPressed { x: 3 }));
    assert_eq!(Instruction::decode(0xE3A1), Some(Instruction::SkipKeyReleased { x: 3 }));
    assert_eq!(Instruction::decode(0xF30A), Some(Instruction::WaitKey { x: 3 }));
}

#[test]
fn decodes_the_f_family() {
    assert_eq!(Instruction::decode(0xF507), Some(Instruction::ReadDelay { x: 5 }));
    assert_eq!(Instruction::decode(0xF515), Some(Instruction::SetDelay { x: 5 }));
    assert_eq!(Instruction::decode(0xF518), Some(Instruction::SetSound { x: 5 }));
    assert_eq!(Instruction::decode(0xF51E), Some(Instruction::AddAddress { x: 5 }));
    assert_eq!(Instruction::decode(0xF529), Some(Instruction::LoadGlyph { x: 5 }));
    assert_eq!(Instruction::decode(0xF533), Some(Instruction::StoreBcd { x: 5 }));
    assert_eq!(Instruction::decode(0xF555), Some(Instruction::StoreRegisters { x: 5 }));
    assert_eq!(Instruction::decode(0xF565), Some(Instruction::LoadRegisters { x: 5 }));
}

#[test]
fn refuses_words_that_match_no_pattern() {
    let words: [u16; 16] = [
        0x0000, 0x00E1, 0x00FE, 0x01E0, 0x0123, 0x5121, 0x512F, 0x8128, 0x812D, 0x812F, 0x9121,
        0xE19F, 0xE1A0, 0xE000, 0xF000, 0xF1FF,
    ];
    for word in words {
        assert_eq!(Instruction::decode(word), None);
    }
}

#[test]
fn every_word_is_decoded_by_its_family() {
    let mut recognised: u32 = 0;
    for word in 0..=0xFFFFu16 {
        match Instruction::decode(word) {
            Some(Instruction::ClearScreen) | Some(Instruction::Return) => assert_eq!(word >> 12, 0),
            Some(Instruction::Jump { addr }) => assert_eq!((word >> 12, addr), (1, word & 0xFFF)),
            Some(Instruction::Draw { x, y, n }) => {
                assert_eq!(word >> 12, 0xD);
                assert_eq!((x << 8 | y << 4 | n) as u16, word & 0xFFF);
            }
            Some(_) => {}
            None => continue,
        }
        recognised += 1;
    }
    // two bare words; ten families decoded whole; 256 words for each selector of the
    // families 5, 8 and 9; sixteen words for each selector of the families E and F
    assert_eq!(recognised, 2 + 10 * 4096 + 256 * (1 + 9 + 1) + 16 * (2 + 9));
}
