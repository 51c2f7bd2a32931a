//! The instruction set and its decoder.

use vstd::prelude::*;

verus! {

/// One decoded instruction. Fields named `x` and `y` are register numbers,
/// `addr` is a twelve-bit address and `byte` an immediate operand.
#[derive(Clone, Copy, Debug, PartialEq, Eq, Structural)]
pub enum Instruction {
    /// `0000`: do nothing.
    Nop,
    /// `00E0`: clear the framebuffer.
    Cls,
    /// `00EE`: return from a subroutine.
    Ret,
    /// `1nnn`: jump to `addr`.
    Jump { addr: u16 },
    /// `2nnn`: call the subroutine at `addr`.
    Call { addr: u16 },
    /// `3xkk`: skip the next instruction if `Vx == byte`.
    SkipEqByte { x: u8, byte: u8 },
    /// `4xkk`: skip the next instruction if `Vx != byte`.
    SkipNeByte { x: u8, byte: u8 },
    /// `5xy0`: skip the next instruction if `Vx == Vy`.
    SkipEqReg { x: u8, y: u8 },
    /// `6xkk`: `Vx := byte`.
    LoadByte { x: u8, byte: u8 },
    /// `7xkk`: `Vx := Vx + byte`, wrapping, flag untouched.
    AddByte { x: u8, byte: u8 },
    /// `8xy0`: `Vx := Vy`.
    Move { x: u8, y: u8 },
    /// `8xy1`: `Vx := Vx | Vy`.
    Or { x: u8, y: u8 },
    /// `8xy2`: `Vx := Vx & Vy`.
    And { x: u8, y: u8 },
    /// `8xy3`: `Vx := Vx ^ Vy`.
    Xor { x: u8, y: u8 },
    /// `8xy4`: `Vx := Vx + Vy`, wrapping; `VF` is the carry.
    Add { x: u8, y: u8 },
    /// `8xy5`: `Vx := Vx - Vy`, wrapping; `VF` is 1 unless a borrow occurred.
    Sub { x: u8, y: u8 },
    /// `8xy6`: `Vx := Vx >> 1`; `VF` is the bit shifted out.
    ShiftRight { x: u8 },
    /// `8xy7`: `Vx := Vy - Vx`, wrapping; `VF` is 1 unless a borrow occurred.
    SubFrom { x: u8, y: u8 },
    /// `8xyE`: `Vx := Vx << 1`; `VF` is the bit shifted out.
    ShiftLeft { x: u8 },
    /// `9xy0`: skip the next instruction if `Vx != Vy`.
    SkipNeReg { x: u8, y: u8 },
    /// `Annn`: `I := addr`.
    LoadIndex { addr: u16 },
    /// `Bnnn`: jump to `addr + V0`.
    JumpOffset { addr: u16 },
    /// `Cxkk`: `Vx := random byte & byte`.
    Random { x: u8, byte: u8 },
    /// `Dxyn`: draw the sprite of `rows` rows found at `I` at `(Vx, Vy)`.
    Draw { x: u8, y: u8, rows: u8 },
    /// `Ex9E`: skip the next instruction if key `Vx` is down.
    SkipKeyDown { x: u8 },
    /// `ExA1`: skip the next instruction if key `Vx` is up.
    SkipKeyUp { x: u8 },
    /// `Fx07`: `Vx := delay timer`.
    ReadDelay { x: u8 },
    /// `Fx0A`: wait for a key and store its number in `Vx`.
    WaitKey { x: u8 },
    /// `Fx15`: `delay timer := Vx`.
    SetDelay { x: u8 },
    /// `Fx18`: `sound timer := Vx`.
    SetSound { x: u8 },
    /// `Fx1E`: `I := I + Vx`, wrapping.
    AddIndex { x: u8 },
    /// `Fx29`: `I :=` address of the glyph for `Vx`.
    LoadGlyph { x: u8 },
    /// `Fx33`: store the decimal digits of `Vx` at `I`, `I + 1`, `I + 2`.
    StoreDigits { x: u8 },
    /// `Fx55`: store `V0..=Vx` at `I` onwards.
    StoreRegs { x: u8 },
    /// `Fx65`: load `V0..=Vx` from `I` onwards.
    LoadRegs { x: u8 },
}

impl Instruction {
    /// Register numbers are below 16, addresses below 4096 and sprite
    /// heights below 16: exactly the values a sixteen-bit word can encode.
    pub open spec fn wf(self) -> bool {
        match self {
            Instruction::Nop | Instruction::Cls | Instruction::Ret => true,
            Instruction::Jump { addr }
            | Instruction::Call { addr }
            | Instruction::LoadIndex { addr }
            | Instruction::JumpOffset { addr } => addr < 4096,
            Instruction::SkipEqByte { x, .. }
            | Instruction::SkipNeByte { x, .. }
            | Instruction::LoadByte { x, .. }
            | Instruction::AddByte { x, .. }
            | Instruction::Random { x, .. }
            | Instruction::ShiftRight { x }
            | Instruction::ShiftLeft { x }
            | Instruction::SkipKeyDown { x }
            | Instruction::SkipKeyUp { x }
            | Instruction::ReadDelay { x }
            | Instruction::WaitKey { x }
            | Instruction::SetDelay { x }
            | Instruction::SetSound { x }
            | Instruction::AddIndex { x }
            | Instruction::LoadGlyph { x }
            | Instruction::StoreDigits { x }
            | Instruction::StoreRegs { x }
            | Instruction::LoadRegs { x } => x < 16,
            Instruction::SkipEqReg { x, y }
            | Instruction::Move { x, y }
            | Instruction::Or { x, y }
            | Instruction::And { x, y }
            | Instruction::Xor { x, y }
            | Instruction::Add { x, y }
            | Instruction::Sub { x, y }
            | Instruction::SubFrom { x, y }
            | Instruction::SkipNeReg { x, y } => x < 16 && y < 16,
            Instruction::Draw { x, y, rows } => x < 16 && y < 16 && rows < 16,
        }
    }
}

/// The four hexadecimal digits of an opcode, most significant first.
pub open spec fn nibbles(op: u16) -> (int, int, int, int) {
    (op as int / 4096, (op as int / 256) % 16, (op as int / 16) % 16, op as int % 16)
}

/// The instruction an opcode stands for, or `None` where it matches no
/// pattern. Fixed words are tried first, then patterns with the most fixed
/// digits.
pub open spec fn decode_spec(op: u16) -> Option<Instruction> {
    let (d1, d2, d3, d4) = nibbles(op);
    let x = d2 as u8;
    let y = d3 as u8;
    let addr = (op as int % 4096) as u16;
    let byte = (op as int % 256) as u8;
    if op == 0x0000 {
        Some(Instruction::Nop)
    } else if op == 0x00E0 {
        Some(Instruction::Cls)
    } else if op == 0x00EE {
        Some(Instruction::Ret)
    } else if d1 == 0x1 {
        Some(Instruction::Jump { addr })
    } else if d1 == 0x2 {
        Some(Instruction::Call { addr })
    } else if d1 == 0x3 {
        Some(Instruction::SkipEqByte { x, byte })
    } else if d1 == 0x4 {
        Some(Instruction::SkipNeByte { x, byte })
    } else if d1 == 0x5 && d4 == 0x0 {
        Some(Instruction::SkipEqReg { x, y })
    } else if d1 == 0x6 {
        Some(Instruction::LoadByte { x, byte })
    } else if d1 == 0x7 {
        Some(Instruction::AddByte { x, byte })
    } else if d1 == 0x8 && d4 == 0x0 {
        Some(Instruction::Move { x, y })
    } else if d1 == 0x8 && d4 == 0x1 {
        Some(Instruction::Or { x, y })
    } else if d1 == 0x8 && d4 == 0x2 {
        Some(Instruction::And { x, y })
    } else if d1 == 0x8 && d4 == 0x3 {
        Some(Instruction::Xor { x, y })
    } else if d1 == 0x8 && d4 == 0x4 {
        Some(Instruction::Add { x, y })
    } else if d1 == 0x8 && d4 == 0x5 {
        Some(Instruction::Sub { x, y })
    } else if d1 == 0x8 && d4 == 0x6 {
        Some(Instruction::ShiftRight { x })
    } else if d1 == 0x8 && d4 == 0x7 {
        Some(Instruction::SubFrom { x, y })
    } else if d1 == 0x8 && d4 == 0xE {
        Some(Instruction::ShiftLeft { x })
    } else if d1 == 0x9 && d4 == 0x0 {
        Some(Instruction::SkipNeReg { x, y })
    } else if d1 == 0xA {
        Some(Instruction::LoadIndex { addr })
    } else if d1 == 0xB {
        Some(Instruction::JumpOffset { addr })
    } else if d1 == 0xC {
        Some(Instruction::Random { x, byte })
    } else if d1 == 0xD {
        Some(Instruction::Draw { x, y, rows: d4 as u8 })
    } else if d1 == 0xE && byte == 0x9E {
        Some(Instruction::SkipKeyDown { x })
    } else if d1 == 0xE && byte == 0xA1 {
        Some(Instruction::SkipKeyUp { x })
    } else if d1 == 0xF && byte == 0x07 {
        Some(Instruction::ReadDelay { x })
    } else if d1 == 0xF && byte == 0x0A {
        Some(Instruction::WaitKey { x })
    } else if d1 == 0xF && byte == 0x15 {
        Some(Instruction::SetDelay { x })
    } else if d1 == 0xF && byte == 0x18 {
        Some(Instruction::SetSound { x })
    } else if d1 == 0xF && byte == 0x1E {
        Some(Instruction::AddIndex { x })
    } else if d1 == 0xF && byte == 0x29 {
        Some(Instruction::LoadGlyph { x })
    } else if d1 == 0xF && byte == 0x33 {
        Some(Instruction::StoreDigits { x })
    } else if d1 == 0xF && byte == 0x55 {
        Some(Instruction::StoreRegs { x })
    } else if d1 == 0xF && byte == 0x65 {
        Some(Instruction::LoadRegs { x })
    } else {
        None
    }
}

/// Decodes one opcode.
pub fn decode(op: u16) -> (ins: Option<Instruction>)
    ensures
        ins == decode_spec(op),
        ins matches Some(i) ==> i.wf(),
{
    let dig1: u16 = (op & 0xF000) >> 12;
    let dig2: u16 = (op & 0x0F00) >> 8;
    let dig3: u16 = (op & 0x00F0) >> 4;
    let dig4: u16 = op & 0x000F;
    let nnn: u16 = op & 0xFFF;
    let low: u16 = op & 0xFF;
    assert(dig1 == op / 4096 && dig2 == (op / 256) % 16 && dig3 == (op / 16) % 16 && dig4 == op
        % 16 && nnn == op % 4096 && low == op % 256) by (bit_vector)
        requires
            dig1 == (op & 0xF000) >> 12,
            dig2 == (op & 0x0F00) >> 8,
            dig3 == (op & 0x00F0) >> 4,
            dig4 == op & 0x000F,
            nnn == op & 0xFFF,
            low == op & 0xFF,
    ;
    let x: u8 = dig2 as u8;
    let y: u8 = dig3 as u8;
    let byte: u8 = low as u8;
    match (dig1, dig2, dig3, dig4) {
        (0, 0, 0, 0) => Some(Instruction::Nop),
        (0, 0, 0xE, 0) => Some(Instruction::Cls),
        (0, 0, 0xE, 0xE) => Some(Instruction::Ret),
        (1, _, _, _) => Some(Instruction::Jump { addr: nnn }),
        (2, _, _, _) => Some(Instruction::Call { addr: nnn }),
        (3, _, _, _) => Some(Instruction::SkipEqByte { x, byte }),
        (4, _, _, _) => Some(Instruction::SkipNeByte { x, byte }),
        (5, _, _, 0) => Some(Instruction::SkipEqReg { x, y }),
        (6, _, _, _) => Some(Instruction::LoadByte { x, byte }),
        (7, _, _, _) => Some(Instruction::AddByte { x, byte }),
        (8, _, _, 0) => Some(Instruction::Move { x, y }),
        (8, _, _, 1) => Some(Instruction::Or { x, y }),
        (8, _, _, 2) => Some(Instruction::And { x, y }),
        (8, _, _, 3) => Some(Instruction::Xor { x, y }),
        (8, _, _, 4) => Some(Instruction::Add { x, y }),
        (8, _, _, 5) => Some(Instruction::Sub { x, y }),
        (8, _, _, 6) => Some(Instruction::ShiftRight { x }),
        (8, _, _, 7) => Some(Instruction::SubFrom { x, y }),
        (8, _, _, 0xE) => Some(Instruction::ShiftLeft { x }),
        (9, _, _, 0) => Some(Instruction::SkipNeReg { x, y }),
        (0xA, _, _, _) => Some(Instruction::LoadIndex { addr: nnn }),
        (0xB, _, _, _) => Some(Instruction::JumpOffset { addr: nnn }),
        (0xC, _, _, _) => Some(Instruction::Random { x, byte }),
        (0xD, _, _, _) => Some(Instruction::Draw { x, y, rows: dig4 as u8 }),
        (0xE, _, 9, 0xE) => Some(Instruction::SkipKeyDown { x }),
        (0xE, _, 0xA, 1) => Some(Instruction::SkipKeyUp { x }),
        (0xF, _, 0, 7) => Some(Instruction::ReadDelay { x }),
        (0xF, _, 0, 0xA) => Some(Instruction::WaitKey { x }),
        (0xF, _, 1, 5) => Some(Instruction::SetDelay { x }),
        (0xF, _, 1, 8) => Some(Instruction::SetSound { x }),
        (0xF, _, 1, 0xE) => Some(Instruction::AddIndex { x }),
        (0xF, _, 2, 9) => Some(Instruction::LoadGlyph { x }),
        (0xF, _, 3, 3) => Some(Instruction::StoreDigits { x }),
        (0xF, _, 5, 5) => Some(Instruction::StoreRegs { x }),
        (0xF, _, 6, 5) => Some(Instruction::LoadRegs { x }),
        (_, _, _, _) => None,
    }
}

} // verus!
