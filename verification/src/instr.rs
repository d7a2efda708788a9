//! Instruction decoding: a 16-bit big-endian opcode is split into its four
//! nibbles and mapped to exactly one tagged instruction, operands already
//! extracted; every undefined pattern decodes to `None`.

use vstd::prelude::*;

verus! {

/// One decoded CHIP-8 instruction.
#[derive(Clone, Copy, PartialEq, Eq, Structural, Debug)]
pub enum Instruction {
    /// 00E0: clear the display.
    Cls,
    /// 00EE: return from a subroutine.
    Ret,
    /// 1nnn: jump to nnn.
    Jp { nnn: u16 },
    /// 2nnn: call the subroutine at nnn.
    Call { nnn: u16 },
    /// 3xkk: skip the next instruction if Vx == kk.
    SeImm { x: u8, kk: u8 },
    /// 4xkk: skip the next instruction if Vx != kk.
    SneImm { x: u8, kk: u8 },
    /// 5xy0: skip the next instruction if Vx == Vy.
    SeReg { x: u8, y: u8 },
    /// 6xkk: Vx = kk.
    LdImm { x: u8, kk: u8 },
    /// 7xkk: Vx = Vx + kk, wrapping, no flag.
    AddImm { x: u8, kk: u8 },
    /// 8xy0: Vx = Vy.
    LdReg { x: u8, y: u8 },
    /// 8xy1: Vx = Vx | Vy.
    Or { x: u8, y: u8 },
    /// 8xy2: Vx = Vx & Vy.
    And { x: u8, y: u8 },
    /// 8xy3: Vx = Vx ^ Vy.
    Xor { x: u8, y: u8 },
    /// 8xy4: Vx = Vx + Vy, VF = carry.
    AddReg { x: u8, y: u8 },
    /// 8xy5: Vx = Vx - Vy, VF = not borrow.
    SubReg { x: u8, y: u8 },
    /// 8xy6: VF = low bit of Vx, then Vx >>= 1.
    Shr { x: u8 },
    /// 8xy7: Vx = Vy - Vx, VF = not borrow.
    SubN { x: u8, y: u8 },
    /// 8xyE: VF = high bit of Vx, then Vx <<= 1.
    Shl { x: u8 },
    /// 9xy0: skip the next instruction if Vx != Vy.
    SneReg { x: u8, y: u8 },
    /// Annn: I = nnn.
    LdI { nnn: u16 },
    /// Bnnn: jump to nnn + V0.
    JpV0 { nnn: u16 },
    /// Cxkk: Vx = random byte & kk.
    Rnd { x: u8, kk: u8 },
    /// Dxyn: draw the n-byte sprite at memory I at (Vx, Vy), VF = collision.
    Drw { x: u8, y: u8, n: u8 },
    /// Ex9E: skip the next instruction if key Vx is pressed.
    Skp { x: u8 },
    /// ExA1: skip the next instruction if key Vx is not pressed.
    Sknp { x: u8 },
    /// Fx07: Vx = delay timer.
    LdFromDt { x: u8 },
    /// Fx0A: suspend until a key is pressed, store it in Vx.
    WaitKey { x: u8 },
    /// Fx15: delay timer = Vx.
    LdDt { x: u8 },
    /// Fx18: sound timer = Vx.
    LdSt { x: u8 },
    /// Fx1E: I = I + Vx, wrapping at 16 bits.
    AddI { x: u8 },
    /// Fx29: I = address of the font glyph for digit Vx.
    LdFont { x: u8 },
    /// Fx33: store the three decimal digits of Vx at I, I+1, I+2.
    Bcd { x: u8 },
    /// Fx55: store V0..=Vx to memory starting at I.
    Dump { x: u8 },
    /// Fx65: load V0..=Vx from memory starting at I.
    Load { x: u8 },
}

/// The leading (highest) nibble of an opcode.
pub open spec fn hi_nib(op: u16) -> u16 {
    op / 0x1000
}

/// The `x` operand: the second nibble.
pub open spec fn x_of(op: u16) -> u8 {
    (((op / 0x100) % 0x10)) as u8
}

/// The `y` operand: the third nibble.
pub open spec fn y_of(op: u16) -> u8 {
    (((op / 0x10) % 0x10)) as u8
}

/// The `n` operand: the lowest nibble.
pub open spec fn n_of(op: u16) -> u8 {
    ((op % 0x10)) as u8
}

/// The `kk` operand: the low byte.
pub open spec fn kk_of(op: u16) -> u8 {
    ((op % 0x100)) as u8
}

/// The `nnn` operand: the low 12 bits.
pub open spec fn nnn_of(op: u16) -> u16 {
    op % 0x1000
}

/// The one instruction an opcode denotes, or `None` where no pattern is
/// defined. Decoding is a total function of the opcode, so it is
/// deterministic, and dispatch goes by the full nibble tuple.
pub open spec fn spec_decode(op: u16) -> Option<Instruction> {
    let x = x_of(op);
    let y = y_of(op);
    let n = n_of(op);
    let kk = kk_of(op);
    let nnn = nnn_of(op);
    if op == 0x00E0 {
        Some(Instruction::Cls)
    } else if op == 0x00EE {
        Some(Instruction::Ret)
    } else if hi_nib(op) == 0x1 {
        Some(Instruction::Jp { nnn })
    } else if hi_nib(op) == 0x2 {
        Some(Instruction::Call { nnn })
    } else if hi_nib(op) == 0x3 {
        Some(Instruction::SeImm { x, kk })
    } else if hi_nib(op) == 0x4 {
        Some(Instruction::SneImm { x, kk })
    } else if hi_nib(op) == 0x5 && n == 0 {
        Some(Instruction::SeReg { x, y })
    } else if hi_nib(op) == 0x6 {
        Some(Instruction::LdImm { x, kk })
    } else if hi_nib(op) == 0x7 {
        Some(Instruction::AddImm { x, kk })
    } else if hi_nib(op) == 0x8 && n == 0x0 {
        Some(Instruction::LdReg { x, y })
    } else if hi_nib(op) == 0x8 && n == 0x1 {
        Some(Instruction::Or { x, y })
    } else if hi_nib(op) == 0x8 && n == 0x2 {
        Some(Instruction::And { x, y })
    } else if hi_nib(op) == 0x8 && n == 0x3 {
        Some(Instruction::Xor { x, y })
    } else if hi_nib(op) == 0x8 && n == 0x4 {
        Some(Instruction::AddReg { x, y })
    } else if hi_nib(op) == 0x8 && n == 0x5 {
        Some(Instruction::SubReg { x, y })
    } else if hi_nib(op) == 0x8 && n == 0x6 {
        Some(Instruction::Shr { x })
    } else if hi_nib(op) == 0x8 && n == 0x7 {
        Some(Instruction::SubN { x, y })
    } else if hi_nib(op) == 0x8 && n == 0xE {
        Some(Instruction::Shl { x })
    } else if hi_nib(op) == 0x9 && n == 0 {
        Some(Instruction::SneReg { x, y })
    } else if hi_nib(op) == 0xA {
        Some(Instruction::LdI { nnn })
    } else if hi_nib(op) == 0xB {
        Some(Instruction::JpV0 { nnn })
    } else if hi_nib(op) == 0xC {
        Some(Instruction::Rnd { x, kk })
    } else if hi_nib(op) == 0xD {
        Some(Instruction::Drw { x, y, n })
    } else if hi_nib(op) == 0xE && kk == 0x9E {
        Some(Instruction::Skp { x })
    } else if hi_nib(op) == 0xE && kk == 0xA1 {
        Some(Instruction::Sknp { x })
    } else if hi_nib(op) == 0xF && kk == 0x07 {
        Some(Instruction::LdFromDt { x })
    } else if hi_nib(op) == 0xF && kk == 0x0A {
        Some(Instruction::WaitKey { x })
    } else if hi_nib(op) == 0xF && kk == 0x15 {
        Some(Instruction::LdDt { x })
    } else if hi_nib(op) == 0xF && kk == 0x18 {
        Some(Instruction::LdSt { x })
    } else if hi_nib(op) == 0xF && kk == 0x1E {
        Some(Instruction::AddI { x })
    } else if hi_nib(op) == 0xF && kk == 0x29 {
        Some(Instruction::LdFont { x })
    } else if hi_nib(op) == 0xF && kk == 0x33 {
        Some(Instruction::Bcd { x })
    } else if hi_nib(op) == 0xF && kk == 0x55 {
        Some(Instruction::Dump { x })
    } else if hi_nib(op) == 0xF && kk == 0x65 {
        Some(Instruction::Load { x })
    } else {
        None
    }
}

/// Every operand a decoded instruction carries is in range: register indices
/// and nibbles below 16, addresses below 0x1000.
pub open spec fn wf_instr(instr: Instruction) -> bool {
    match instr {
        Instruction::Cls => true,
        Instruction::Ret => true,
        Instruction::Jp { nnn } => nnn < 0x1000,
        Instruction::Call { nnn } => nnn < 0x1000,
        Instruction::SeImm { x, kk } => x < 16,
        Instruction::SneImm { x, kk } => x < 16,
        Instruction::SeReg { x, y } => x < 16 && y < 16,
        Instruction::LdImm { x, kk } => x < 16,
        Instruction::AddImm { x, kk } => x < 16,
        Instruction::LdReg { x, y } => x < 16 && y < 16,
        Instruction::Or { x, y } => x < 16 && y < 16,
        Instruction::And { x, y } => x < 16 && y < 16,
        Instruction::Xor { x, y } => x < 16 && y < 16,
        Instruction::AddReg { x, y } => x < 16 && y < 16,
        Instruction::SubReg { x, y } => x < 16 && y < 16,
        Instruction::Shr { x } => x < 16,
        Instruction::SubN { x, y } => x < 16 && y < 16,
        Instruction::Shl { x } => x < 16,
        Instruction::SneReg { x, y } => x < 16 && y < 16,
        Instruction::LdI { nnn } => nnn < 0x1000,
        Instruction::JpV0 { nnn } => nnn < 0x1000,
        Instruction::Rnd { x, kk } => x < 16,
        Instruction::Drw { x, y, n } => x < 16 && y < 16 && n < 16,
        Instruction::Skp { x } => x < 16,
        Instruction::Sknp { x } => x < 16,
        Instruction::LdFromDt { x } => x < 16,
        Instruction::WaitKey { x } => x < 16,
        Instruction::LdDt { x } => x < 16,
        Instruction::LdSt { x } => x < 16,
        Instruction::AddI { x } => x < 16,
        Instruction::LdFont { x } => x < 16,
        Instruction::Bcd { x } => x < 16,
        Instruction::Dump { x } => x < 16,
        Instruction::Load { x } => x < 16,
    }
}

/// Whatever an opcode decodes to carries in-range operands.
pub proof fn lemma_decode_wf(op: u16)
    ensures
        spec_decode(op) matches Some(instr) ==> wf_instr(instr),
{
}

/// Splits `op` into its nibble fields and picks the one defined instruction
/// that matches, `None` for every undefined pattern.
pub fn decode(op: u16) -> (r: Option<Instruction>)
    ensures
        r == spec_decode(op),
{
    proof {
        assert(op >> 12 == op / 0x1000) by (bit_vector);
        assert((op >> 8) & 0xF == (op / 0x100) % 0x10) by (bit_vector);
        assert((op >> 4) & 0xF == (op / 0x10) % 0x10) by (bit_vector);
        assert(op & 0xF == op % 0x10) by (bit_vector);
        assert(op & 0xFF == op % 0x100) by (bit_vector);
        assert(op & 0xFFF == op % 0x1000) by (bit_vector);
    }
    let hi = op >> 12;
    let x = ((op >> 8) & 0xF) as u8;
    let y = ((op >> 4) & 0xF) as u8;
    let n = (op & 0xF) as u8;
    let kk = (op & 0xFF) as u8;
    let nnn = op & 0xFFF;
    if op == 0x00E0 {
        Some(Instruction::Cls)
    } else if op == 0x00EE {
        Some(Instruction::Ret)
    } else if hi == 0x1 {
        Some(Instruction::Jp { nnn })
    } else if hi == 0x2 {
        Some(Instruction::Call { nnn })
    } else if hi == 0x3 {
        Some(Instruction::SeImm { x, kk })
    } else if hi == 0x4 {
        Some(Instruction::SneImm { x, kk })
    } else if hi == 0x5 && n == 0 {
        Some(Instruction::SeReg { x, y })
    } else if hi == 0x6 {
        Some(Instruction::LdImm { x, kk })
    } else if hi == 0x7 {
        Some(Instruction::AddImm { x, kk })
    } else if hi == 0x8 && n == 0x0 {
        Some(Instruction::LdReg { x, y })
    } else if hi == 0x8 && n == 0x1 {
        Some(Instruction::Or { x, y })
    } else if hi == 0x8 && n == 0x2 {
        Some(Instruction::And { x, y })
    } else if hi == 0x8 && n == 0x3 {
        Some(Instruction::Xor { x, y })
    } else if hi == 0x8 && n == 0x4 {
        Some(Instruction::AddReg { x, y })
    } else if hi == 0x8 && n == 0x5 {
        Some(Instruction::SubReg { x, y })
    } else if hi == 0x8 && n == 0x6 {
        Some(Instruction::Shr { x })
    } else if hi == 0x8 && n == 0x7 {
        Some(Instruction::SubN { x, y })
    } else if hi == 0x8 && n == 0xE {
        Some(Instruction::Shl { x })
    } else if hi == 0x9 && n == 0 {
        Some(Instruction::SneReg { x, y })
    } else if hi == 0xA {
        Some(Instruction::LdI { nnn })
    } else if hi == 0xB {
        Some(Instruction::JpV0 { nnn })
    } else if hi == 0xC {
        Some(Instruction::Rnd { x, kk })
    } else if hi == 0xD {
        Some(Instruction::Drw { x, y, n })
    } else if hi == 0xE && kk == 0x9E {
        Some(Instruction::Skp { x })
    } else if hi == 0xE && kk == 0xA1 {
        Some(Instruction::Sknp { x })
    } else if hi == 0xF && kk == 0x07 {
        Some(Instruction::LdFromDt { x })
    } else if hi == 0xF && kk == 0x0A {
        Some(Instruction::WaitKey { x })
    } else if hi == 0xF && kk == 0x15 {
        Some(Instruction::LdDt { x })
    } else if hi == 0xF && kk == 0x18 {
        Some(Instruction::LdSt { x })
    } else if hi == 0xF && kk == 0x1E {
        Some(Instruction::AddI { x })
    } else if hi == 0xF && kk == 0x29 {
        Some(Instruction::LdFont { x })
    } else if hi == 0xF && kk == 0x33 {
        Some(Instruction::Bcd { x })
    } else if hi == 0xF && kk == 0x55 {
        Some(Instruction::Dump { x })
    } else if hi == 0xF && kk == 0x65 {
        Some(Instruction::Load { x })
    } else {
        None
    }
}

} // verus!
