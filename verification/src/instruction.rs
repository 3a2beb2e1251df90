//! The instruction set: one variant per recognised opcode pattern, and the
//! decoder from 16-bit opcode words.

use vstd::prelude::*;

verus! {

/// A decoded instruction. Register operands are indices below 16, addresses
/// are 12-bit, and a sprite height is a nibble.
#[derive(Clone, Copy, Debug, PartialEq, Eq, Structural)]
pub enum Instruction {
    /// `00E0`: clear the framebuffer.
    ClearScreen,
    /// `00EE`: return from a subroutine.
    Return,
    /// `1nnn`: jump to `addr`.
    Jump { addr: u16 },
    /// `2nnn`: call the subroutine at `addr`.
    Call { addr: u16 },
    /// `3xkk`: skip the next instruction if `Vx == kk`.
    SkipEqImm { x: usize, kk: u8 },
    /// `4xkk`: skip the next instruction if `Vx != kk`.
    SkipNeImm { x: usize, kk: u8 },
    /// `5xy0`: skip the next instruction if `Vx == Vy`.
    SkipEqReg { x: usize, y: usize },
    /// `6xkk`: `Vx = kk`.
    LoadImm { x: usize, kk: u8 },
    /// `7xkk`: `Vx = Vx + kk`, wrapping, flag untouched.
    AddImm { x: usize, kk: u8 },
    /// `8xy0`: `Vx = Vy`.
    Move { x: usize, y: usize },
    /// `8xy1`: `Vx = Vx | Vy`.
    Or { x: usize, y: usize },
    /// `8xy2`: `Vx = Vx & Vy`.
    And { x: usize, y: usize },
    /// `8xy3`: `Vx = Vx ^ Vy`.
    Xor { x: usize, y: usize },
    /// `8xy4`: `Vx = Vx + Vy`, flag = carry.
    AddReg { x: usize, y: usize },
    /// `8xy5`: `Vx = Vx - Vy`, flag = no borrow.
    SubReg { x: usize, y: usize },
    /// `8xy6`: `Vx = Vx >> 1`, flag = the bit shifted out.
    ShiftRight { x: usize },
    /// `8xy7`: `Vx = Vy - Vx`, flag = no borrow.
    SubFrom { x: usize, y: usize },
    /// `8xyE`: `Vx = Vx << 1`, flag = the bit shifted out.
    ShiftLeft { x: usize },
    /// `9xy0`: skip the next instruction if `Vx != Vy`.
    SkipNeReg { x: usize, y: usize },
    /// `Annn`: `I = addr`.
    LoadAddress { addr: u16 },
    /// `Bnnn`: jump to `addr + V0`.
    JumpOffset { addr: u16 },
    /// `Cxkk`: `Vx = random byte & kk`.
    Random { x: usize, kk: u8 },
    /// `Dxyn`: draw the `n`-row sprite at `I` at `(Vx, Vy)`, flag = collision.
    Draw { x: usize, y: usize, n: usize },
    /// `Ex9E`: skip the next instruction if key `Vx` is pressed.
    SkipKeyPressed { x: usize },
    /// `ExA1`: skip the next instruction if key `Vx` is not pressed.
    SkipKeyReleased { x: usize },
    /// `Fx07`: `Vx = delay timer`.
    ReadDelay { x: usize },
    /// `Fx0A`: wait for a key, store its index in `Vx`.
    WaitKey { x: usize },
    /// `Fx15`: `delay timer = Vx`.
    SetDelay { x: usize },
    /// `Fx18`: `sound timer = Vx`.
    SetSound { x: usize },
    /// `Fx1E`: `I = I + Vx`.
    AddAddress { x: usize },
    /// `Fx29`: `I = address of the glyph for digit Vx`.
    LoadGlyph { x: usize },
    /// `Fx33`: store the three decimal digits of `Vx` at `I`, `I+1`, `I+2`.
    StoreBcd { x: usize },
    /// `Fx55`: store `V0..=Vx` at `I..`.
    StoreRegisters { x: usize },
    /// `Fx65`: load `V0..=Vx` from `I..`.
    LoadRegisters { x: usize },
}

/// The first (most significant) nibble of an opcode: its family.
pub open spec fn family_of(opcode: u16) -> int {
    opcode as int / 0x1000
}

/// The second nibble: the `x` register operand.
pub open spec fn x_of(opcode: u16) -> int {
    (opcode as int / 0x100) % 0x10
}

/// The third nibble: the `y` register operand.
pub open spec fn y_of(opcode: u16) -> int {
    (opcode as int / 0x10) % 0x10
}

/// The last nibble: a sprite height or a sub-operation selector.
pub open spec fn n_of(opcode: u16) -> int {
    opcode as int % 0x10
}

/// The low twelve bits: an address operand.
pub open spec fn nnn_of(opcode: u16) -> int {
    opcode as int % 0x1000
}

/// The low byte: an immediate operand.
pub open spec fn kk_of(opcode: u16) -> int {
    opcode as int % 0x100
}

/// The instruction an opcode word stands for, or `None` where the word matches
/// no recognised pattern.
pub open spec fn decode(opcode: u16) -> Option<Instruction> {
    let x = x_of(opcode) as usize;
    let y = y_of(opcode) as usize;
    let n = n_of(opcode);
    let addr = nnn_of(opcode) as u16;
    let kk = kk_of(opcode) as u8;
    let family = family_of(opcode);
    if opcode == 0x00E0 {
        Some(Instruction::ClearScreen)
    } else if opcode == 0x00EE {
        Some(Instruction::Return)
    } else if family == 0x1 {
        Some(Instruction::Jump { addr })
    } else if family == 0x2 {
        Some(Instruction::Call { addr })
    } else if family == 0x3 {
        Some(Instruction::SkipEqImm { x, kk })
    } else if family == 0x4 {
        Some(Instruction::SkipNeImm { x, kk })
    } else if family == 0x5 && n == 0 {
        Some(Instruction::SkipEqReg { x, y })
    } else if family == 0x6 {
        Some(Instruction::LoadImm { x, kk })
    } else if family == 0x7 {
        Some(Instruction::AddImm { x, kk })
    } else if family == 0x8 && n == 0x0 {
        Some(Instruction::Move { x, y })
    } else if family == 0x8 && n == 0x1 {
        Some(Instruction::Or { x, y })
    } else if family == 0x8 && n == 0x2 {
        Some(Instruction::And { x, y })
    } else if family == 0x8 && n == 0x3 {
        Some(Instruction::Xor { x, y })
    } else if family == 0x8 && n == 0x4 {
        Some(Instruction::AddReg { x, y })
    } else if family == 0x8 && n == 0x5 {
        Some(Instruction::SubReg { x, y })
    } else if family == 0x8 && n == 0x6 {
        Some(Instruction::ShiftRight { x })
    } else if family == 0x8 && n == 0x7 {
        Some(Instruction::SubFrom { x, y })
    } else if family == 0x8 && n == 0xE {
        Some(Instruction::ShiftLeft { x })
    } else if family == 0x9 && n == 0 {
        Some(Instruction::SkipNeReg { x, y })
    } else if family == 0xA {
        Some(Instruction::LoadAddress { addr })
    } else if family == 0xB {
        Some(Instruction::JumpOffset { addr })
    } else if family == 0xC {
        Some(Instruction::Random { x, kk })
    } else if family == 0xD {
        Some(Instruction::Draw { x, y, n: n as usize })
    } else if family == 0xE && kk == 0x9E {
        Some(Instruction::SkipKeyPressed { x })
    } else if family == 0xE && kk == 0xA1 {
        Some(Instruction::SkipKeyReleased { x })
    } else if family == 0xF && kk == 0x07 {
        Some(Instruction::ReadDelay { x })
    } else if family == 0xF && kk == 0x0A {
        Some(Instruction::WaitKey { x })
    } else if family == 0xF && kk == 0x15 {
        Some(Instruction::SetDelay { x })
    } else if family == 0xF && kk == 0x18 {
        Some(Instruction::SetSound { x })
    } else if family == 0xF && kk == 0x1E {
        Some(Instruction::AddAddress { x })
    } else if family == 0xF && kk == 0x29 {
        Some(Instruction::LoadGlyph { x })
    } else if family == 0xF && kk == 0x33 {
        Some(Instruction::StoreBcd { x })
    } else if family == 0xF && kk == 0x55 {
        Some(Instruction::StoreRegisters { x })
    } else if family == 0xF && kk == 0x65 {
        Some(Instruction::LoadRegisters { x })
    } else {
        None
    }
}

impl Instruction {
    /// Operands are in range: registers below 16, addresses below 4096, a
    /// sprite height below 16.
    pub open spec fn wf(self) -> bool {
        match self {
            Instruction::ClearScreen | Instruction::Return => true,
            Instruction::Jump { addr }
            | Instruction::Call { addr }
            | Instruction::LoadAddress { addr }
            | Instruction::JumpOffset { addr } => addr < 0x1000,
            Instruction::SkipEqImm { x, .. }
            | Instruction::SkipNeImm { x, .. }
            | Instruction::LoadImm { x, .. }
            | Instruction::AddImm { x, .. }
            | Instruction::Random { x, .. }
            | Instruction::ShiftRight { x }
            | Instruction::ShiftLeft { x }
            | Instruction::SkipKeyPressed { x }
            | Instruction::SkipKeyReleased { x }
            | Instruction::ReadDelay { x }
            | Instruction::WaitKey { x }
            | Instruction::SetDelay { x }
            | Instruction::SetSound { x }
            | Instruction::AddAddress { x }
            | Instruction::LoadGlyph { x }
            | Instruction::StoreBcd { x }
            | Instruction::StoreRegisters { x }
            | Instruction::LoadRegisters { x } => x < 16,
            Instruction::SkipEqReg { x, y }
            | Instruction::Move { x, y }
            | Instruction::Or { x, y }
            | Instruction::And { x, y }
            | Instruction::Xor { x, y }
            | Instruction::AddReg { x, y }
            | Instruction::SubReg { x, y }
            | Instruction::SubFrom { x, y }
            | Instruction::SkipNeReg { x, y } => x < 16 && y < 16,
            Instruction::Draw { x, y, n } => x < 16 && y < 16 && n < 16,
        }
    }

    /// Every instruction that a word decodes to has its operands in range.
    pub proof fn lemma_decode_wf(opcode: u16)
        ensures
            decode(opcode) matches Some(ins) ==> ins.wf(),
    {
    }

    /// Decodes an opcode word by its four nibbles.
    pub fn decode(opcode: u16) -> (ins: Option<Instruction>)
        ensures
            ins == decode(opcode),
            ins matches Some(i) ==> i.wf(),
    {
        let family: u16 = (opcode & 0xF000) >> 12;
        let x: usize = ((opcode & 0x0F00) >> 8) as usize;
        let y: usize = ((opcode & 0x00F0) >> 4) as usize;
        let n: usize = (opcode & 0x000F) as usize;
        let addr: u16 = opcode & 0x0FFF;
        let kk: u8 = (opcode & 0x00FF) as u8;
        proof {
            assert((opcode & 0xF000) >> 12 == opcode / 0x1000) by (bit_vector);
            assert((opcode & 0x0F00) >> 8 == (opcode / 0x100) % 0x10) by (bit_vector);
            assert((opcode & 0x00F0) >> 4 == (opcode / 0x10) % 0x10) by (bit_vector);
            assert(opcode & 0x000F == opcode % 0x10) by (bit_vector);
            assert(opcode & 0x0FFF == opcode % 0x1000) by (bit_vector);
            assert(opcode & 0x00FF == opcode % 0x100) by (bit_vector);
        }
        match (family, x, y, n) {
            (0x0, 0x0, 0xE, 0x0) => Some(Instruction::ClearScreen),
            (0x0, 0x0, 0xE, 0xE) => Some(Instruction::Return),
            (0x1, _, _, _) => Some(Instruction::Jump { addr }),
            (0x2, _, _, _) => Some(Instruction::Call { addr }),
            (0x3, _, _, _) => Some(Instruction::SkipEqImm { x, kk }),
            (0x4, _, _, _) => Some(Instruction::SkipNeImm { x, kk }),
            (0x5, _, _, 0x0) => Some(Instruction::SkipEqReg { x, y }),
            (0x6, _, _, _) => Some(Instruction::LoadImm { x, kk }),
            (0x7, _, _, _) => Some(Instruction::AddImm { x, kk }),
            (0x8, _, _, 0x0) => Some(Instruction::Move { x, y }),
            (0x8, _, _, 0x1) => Some(Instruction::Or { x, y }),
            (0x8, _, _, 0x2) => Some(Instruction::And { x, y }),
            (0x8, _, _, 0x3) => Some(Instruction::Xor { x, y }),
            (0x8, _, _, 0x4) => Some(Instruction::AddReg { x, y }),
            (0x8, _, _, 0x5) => Some(Instruction::SubReg { x, y }),
            (0x8, _, _, 0x6) => Some(Instruction::ShiftRight { x }),
            (0x8, _, _, 0x7) => Some(Instruction::SubFrom { x, y }),
            (0x8, _, _, 0xE) => Some(Instruction::ShiftLeft { x }),
            (0x9, _, _, 0x0) => Some(Instruction::SkipNeReg { x, y }),
            (0xA, _, _, _) => Some(Instruction::LoadAddress { addr }),
            (0xB, _, _, _) => Some(Instruction::JumpOffset { addr }),
            (0xC, _, _, _) => Some(Instruction::Random { x, kk }),
            (0xD, _, _, _) => Some(Instruction::Draw { x, y, n }),
            (0xE, _, 0x9, 0xE) => Some(Instruction::SkipKeyPressed { x }),
            (0xE, _, 0xA, 0x1) => Some(Instruction::SkipKeyReleased { x }),
            (0xF, _, 0x0, 0x7) => Some(Instruction::ReadDelay { x }),
            (0xF, _, 0x0, 0xA) => Some(Instruction::WaitKey { x }),
            (0xF, _, 0x1, 0x5) => Some(Instruction::SetDelay { x }),
            (0xF, _, 0x1, 0x8) => Some(Instruction::SetSound { x }),
            (0xF, _, 0x1, 0xE) => Some(Instruction::AddAddress { x }),
            (0xF, _, 0x2, 0x9) => Some(Instruction::LoadGlyph { x }),
            (0xF, _, 0x3, 0x3) => Some(Instruction::StoreBcd { x }),
            (0xF, _, 0x5, 0x5) => Some(Instruction::StoreRegisters { x }),
            (0xF, _, 0x6, 0x5) => Some(Instruction::LoadRegisters { x }),
            _ => None,
        }
    }
}

} // verus!
