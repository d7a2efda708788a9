use chip8::instr::{decode, Instruction};

#[test]
fn decodes_cls_and_ret() {
    assert_eq!(decode(0x00E0), Some(Instruction::Cls));
    assert_eq!(decode(0x00EE), Some(Instruction::Ret));
}

#[test]
fn decodes_jumps_and_calls() {
    assert_eq!(decode(0x1ABC), Some(Instruction::Jp { nnn: 0xABC }));
    assert_eq!(decode(0x2300), Some(Instruction::Call { nnn: 0x300 }));
    assert_eq!(decode(0xB123), Some(Instruction::JpV0 { nnn: 0x123 }));
}

#[test]
fn decodes_skips() {
    assert_eq!(decode(0x3A42), Some(Instruction::SeImm { x: 0xA, kk: 0x42 }));
    assert_eq!(decode(0x4A42), Some(Instruction::SneImm { x: 0xA, kk: 0x42 }));
    assert_eq!(decode(0x5120), Some(Instruction::SeReg { x: 1, y: 2 }));
    assert_eq!(decode(0x9120), Some(Instruction::SneReg { x: 1, y: 2 }));
    assert_eq!(decode(0xE29E), Some(Instruction::Skp { x: 2 }));
    assert_eq!(decode(0xE2A1), Some(Instruction::Sknp { x: 2 }));
}

#[test]
fn decodes_immediates() {
    assert_eq!(decode(0x6C99), Some(Instruction::LdImm { x: 0xC, kk: 0x99 }));
    assert_eq!(decode(0x7C99), Some(Instruction::AddImm { x: 0xC, kk: 0x99 }));
    assert_eq!(decode(0xC7F0), Some(Instruction::Rnd { x: 7, kk: 0xF0 }));
}

#[test]
fn decodes_register_ops() {
    assert_eq!(decode(0x8120), Some(Instruction::LdReg { x: 1, y: 2 }));
    assert_eq!(decode(0x8121), Some(Instruction::Or { x: 1, y: 2 }));
    assert_eq!(decode(0x8122), Some(Instruction::And { x: 1, y: 2 }));
    assert_eq!(decode(0x8123), Some(Instruction::Xor { x: 1, y: 2 }));
    assert_eq!(decode(0x8124), Some(Instruction::AddReg { x: 1, y: 2 }));
    assert_eq!(decode(0x8125), Some(Instruction::SubReg { x: 1, y: 2 }));
    assert_eq!(decode(0x8126), Some(Instruction::Shr { x: 1 }));
    assert_eq!(decode(0x8127), Some(Instruction::SubN { x: 1, y: 2 }));
    assert_eq!(decode(0x812E), Some(Instruction::Shl { x: 1 }));
}

#[test]
fn decodes_index_and_draw() {
    assert_eq!(decode(0xA123), Some(Instruction::LdI { nnn: 0x123 }));
    assert_eq!(decode(0xD125), Some(Instruction::Drw { x: 1, y: 2, n: 5 }));
}

#[test]
fn decodes_f_group() {
    assert_eq!(decode(0xF307), Some(Instruction::LdFromDt { x: 3 }));
    assert_eq!(decode(0xF30A), Some(Instruction::WaitKey { x: 3 }));
    assert_eq!(decode(0xF315), Some(Instruction::LdDt { x: 3 }));
    assert_eq!(decode(0xF318), Some(Instruction::LdSt { x: 3 }));
    assert_eq!(decode(0xF31E), Some(Instruction::AddI { x: 3 }));
    assert_eq!(decode(0xF329), Some(Instruction::LdFont { x: 3 }));
    assert_eq!(decode(0xF333), Some(Instruction::Bcd { x: 3 }));
    assert_eq!(decode(0xF355), Some(Instruction::Dump { x: 3 }));
    assert_eq!(decode(0xF365), Some(Instruction::Load { x: 3 }));
}

#[test]
fn rejects_undefined_patterns() {
    assert_eq!(decode(0x0000), None);
    assert_eq!(decode(0x0123), None); // SYS nnn is not implemented
    assert_eq!(decode(0x00E1), None);
    assert_eq!(decode(0x5121), None); // 5xy? only defined for trailing 0
    assert_eq!(decode(0x8128), None); // 8xy? gap between 7 and E
    assert_eq!(decode(0x812F), None);
    assert_eq!(decode(0x9121), None);
    assert_eq!(decode(0xE19F), None);
    assert_eq!(decode(0xE1A2), None);
    assert_eq!(decode(0xF000), None);
    assert_eq!(decode(0xF066), None);
    assert_eq!(decode(0xFFFF), None);
}

#[test]
fn decoding_is_deterministic() {
    for op in [0x00E0u16, 0x1ABC, 0x8124, 0xD125, 0xF365, 0x0000, 0xFFFF] {
        assert_eq!(decode(op), decode(op));
    }
}
