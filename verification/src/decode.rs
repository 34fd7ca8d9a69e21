use vstd::prelude::*;

verus! {

/// One instruction of the base architecture, with its operands.
///
/// `x` and `y` name general registers, `nn` is an immediate byte, `addr` an
/// immediate address of twelve bits and `n` a sprite height.
#[derive(Debug, Clone, Copy, PartialEq, Eq)]
pub enum Instruction {
    /// `00E0`: turn every pixel off.
    ClearScreen,
    /// `00EE`: return from a subroutine.
    Return,
    /// `1NNN`: jump to `addr`.
    Jump { addr: u16 },
    /// `2NNN`: call the subroutine at `addr`.
    Call { addr: u16 },
    /// `3XNN`: skip the next instruction if `Vx == nn`.
    SkipEqImm { x: u8, nn: u8 },
    /// `4XNN`: skip the next instruction if `Vx != nn`.
    SkipNeImm { x: u8, nn: u8 },
    /// `5XY0`: skip the next instruction if `Vx == Vy`.
    SkipEqReg { x: u8, y: u8 },
    /// `6XNN`: `Vx = nn`.
    LoadImm { x: u8, nn: u8 },
    /// `7XNN`: `Vx = Vx + nn`, wrapping, flag untouched.
    AddImm { x: u8, nn: u8 },
    /// `8XY0`: `Vx = Vy`.
    Move { x: u8, y: u8 },
    /// `8XY1`: `Vx = Vx | Vy`.
    Or { x: u8, y: u8 },
    /// `8XY2`: `Vx = Vx & Vy`.
    And { x: u8, y: u8 },
    /// `8XY3`: `Vx = Vx ^ Vy`.
    Xor { x: u8, y: u8 },
    /// `8XY4`: `Vx = Vx + Vy`, `VF` = carry.
    Add { x: u8, y: u8 },
    /// `8XY5`: `Vx = Vx - Vy`, `VF` = no borrow.
    Sub { x: u8, y: u8 },
    /// `8XY6`: `Vx = Vx >> 1`, `VF` = the bit shifted out.
    ShiftRight { x: u8 },
    /// `8XY7`: `Vx = Vy - Vx`, `VF` = no borrow.
    SubReverse { x: u8, y: u8 },
    /// `8XYE`: `Vx = Vx << 1`, `VF` = the bit shifted out.
    ShiftLeft { x: u8 },
    /// `9XY0`: skip the next instruction if `Vx != Vy`.
    SkipNeReg { x: u8, y: u8 },
    /// `ANNN`: `I = addr`.
    LoadIndex { addr: u16 },
    /// `BNNN`: jump to `addr + V0`.
    JumpOffset { addr: u16 },
    /// `CXNN`: `Vx` = a random byte masked with `nn`.
    Random { x: u8, nn: u8 },
    /// `DXYN`: draw the `n`-row sprite at `I` at `(Vx, Vy)`, `VF` = collision.
    Draw { x: u8, y: u8, n: u8 },
    /// `EX9E`: skip the next instruction if the key named by `Vx` is down.
    SkipKey { x: u8 },
    /// `EXA1`: skip the next instruction if the key named by `Vx` is up.
    SkipNoKey { x: u8 },
    /// `FX07`: `Vx` = delay timer.
    ReadDelay { x: u8 },
    /// `FX0A`: wait until a key is down, then `Vx` = that key.
    WaitKey { x: u8 },
    /// `FX15`: delay timer = `Vx`.
    SetDelay { x: u8 },
    /// `FX18`: sound timer = `Vx`.
    SetSound { x: u8 },
    /// `FX1E`: `I = I + Vx`.
    AddIndex { x: u8 },
    /// `FX29`: `I` = address of the glyph for the low nibble of `Vx`.
    FontAddr { x: u8 },
    /// `FX33`: store the three decimal digits of `Vx` at `I`, `I+1`, `I+2`.
    StoreBcd { x: u8 },
    /// `FX55`: store `V0..=Vx` at `I..=I+x`.
    StoreRegs { x: u8 },
    /// `FX65`: load `V0..=Vx` from `I..=I+x`.
    LoadRegs { x: u8 },
}

/// Bits 12 to 15 of an opcode word: the operation.
pub open spec fn field_op(word: u16) -> u8 {
    (word / 4096) as u8
}

/// Bits 8 to 11 of an opcode word: the first register operand.
pub open spec fn field_x(word: u16) -> u8 {
    ((word / 256) % 16) as u8
}

/// Bits 4 to 7 of an opcode word: the second register operand.
pub open spec fn field_y(word: u16) -> u8 {
    ((word / 16) % 16) as u8
}

/// Bits 0 to 3 of an opcode word.
pub open spec fn field_n(word: u16) -> u8 {
    (word % 16) as u8
}

/// Bits 0 to 7 of an opcode word: the immediate byte.
pub open spec fn field_nn(word: u16) -> u8 {
    (word % 256) as u8
}

/// Bits 0 to 11 of an opcode word: the immediate address.
pub open spec fn field_nnn(word: u16) -> u16 {
    word % 4096
}

/// The instruction that an opcode word encodes, if it encodes one.
///
/// `0NNN` other than `00E0` and `00EE` (a call into machine code of the
/// host) encodes none, nor does any other word outside the table below.
pub open spec fn decoded(word: u16) -> Option<Instruction> {
    let x = field_x(word);
    let y = field_y(word);
    let n = field_n(word);
    let nn = field_nn(word);
    let addr = field_nnn(word);
    match field_op(word) {
        0x0 => if word == 0x00E0 {
            Some(Instruction::ClearScreen)
        } else if word == 0x00EE {
            Some(Instruction::Return)
        } else {
            None
        },
        0x1 => Some(Instruction::Jump { addr }),
        0x2 => Some(Instruction::Call { addr }),
        0x3 => Some(Instruction::SkipEqImm { x, nn }),
        0x4 => Some(Instruction::SkipNeImm { x, nn }),
        0x5 => if n == 0 {
            Some(Instruction::SkipEqReg { x, y })
        } else {
            None
        },
        0x6 => Some(Instruction::LoadImm { x, nn }),
        0x7 => Some(Instruction::AddImm { x, nn }),
        0x8 => match n {
            0x0 => Some(Instruction::Move { x, y }),
            0x1 => Some(Instruction::Or { x, y }),
            0x2 => Some(Instruction::And { x, y }),
            0x3 => Some(Instruction::Xor { x, y }),
            0x4 => Some(Instruction::Add { x, y }),
            0x5 => Some(Instruction::Sub { x, y }),
            0x6 => Some(Instruction::ShiftRight { x }),
            0x7 => Some(Instruction::SubReverse { x, y }),
            0xE => Some(Instruction::ShiftLeft { x }),
            _ => None,
        },
        0x9 => if n == 0 {
            Some(Instruction::SkipNeReg { x, y })
        } else {
            None
        },
        0xA => Some(Instruction::LoadIndex { addr }),
        0xB => Some(Instruction::JumpOffset { addr }),
        0xC => Some(Instruction::Random { x, nn }),
        0xD => Some(Instruction::Draw { x, y, n }),
        0xE => match nn {
            0x9E => Some(Instruction::SkipKey { x }),
            0xA1 => Some(Instruction::SkipNoKey { x }),
            _ => None,
        },
        _ => match nn {
            0x07 => Some(Instruction::ReadDelay { x }),
            0x0A => Some(Instruction::WaitKey { x }),
            0x15 => Some(Instruction::SetDelay { x }),
            0x18 => Some(Instruction::SetSound { x }),
            0x1E => Some(Instruction::AddIndex { x }),
            0x29 => Some(Instruction::FontAddr { x }),
            0x33 => Some(Instruction::StoreBcd { x }),
            0x55 => Some(Instruction::StoreRegs { x }),
            0x65 => Some(Instruction::LoadRegs { x }),
            _ => None,
        },
    }
}

impl Instruction {
    /// The operands fit their fields: register numbers and the sprite height
    /// are below sixteen, addresses below 4096.
    pub open spec fn wf(self) -> bool {
        match self {
            Instruction::ClearScreen | Instruction::Return => true,
            Instruction::Jump { addr }
            | Instruction::Call { addr }
            | Instruction::LoadIndex { addr }
            | Instruction::JumpOffset { addr } => addr < 4096,
            Instruction::SkipEqImm { x, .. }
            | Instruction::SkipNeImm { x, .. }
            | Instruction::LoadImm { x, .. }
            | Instruction::AddImm { x, .. }
            | Instruction::Random { x, .. }
            | Instruction::ShiftRight { x }
            | Instruction::ShiftLeft { x }
            | Instruction::SkipKey { x }
            | Instruction::SkipNoKey { x }
            | Instruction::ReadDelay { x }
            | Instruction::WaitKey { x }
            | Instruction::SetDelay { x }
            | Instruction::SetSound { x }
            | Instruction::AddIndex { x }
            | Instruction::FontAddr { x }
            | Instruction::StoreBcd { x }
            | Instruction::StoreRegs { x }
            | Instruction::LoadRegs { x } => x < 16,
            Instruction::SkipEqReg { x, y }
            | Instruction::Move { x, y }
            | Instruction::Or { x, y }
            | Instruction::And { x, y }
            | Instruction::Xor { x, y }
            | Instruction::Add { x, y }
            | Instruction::Sub { x, y }
            | Instruction::SubReverse { x, y }
            | Instruction::SkipNeReg { x, y } => x < 16 && y < 16,
            Instruction::Draw { x, y, n } => x < 16 && y < 16 && n < 16,
        }
    }

    /// Decodes an opcode word. `None` marks a word that is no instruction.
    pub fn decode(word: u16) -> (r: Option<Instruction>)
        ensures
            r == decoded(word),
            r matches Some(ins) ==> ins.wf(),
    {
        let op: u8 = (word / 4096) as u8;
        let x: u8 = ((word / 256) % 16) as u8;
        let y: u8 = ((word / 16) % 16) as u8;
        let n: u8 = (word % 16) as u8;
        let nn: u8 = (word % 256) as u8;
        let addr: u16 = word % 4096;
        match op {
            0x0 => if word == 0x00E0 {
                Some(Instruction::ClearScreen)
            } else if word == 0x00EE {
                Some(Instruction::Return)
            } else {
                None
            },
            0x1 => Some(Instruction::Jump { addr }),
            0x2 => Some(Instruction::Call { addr }),
            0x3 => Some(Instruction::SkipEqImm { x, nn }),
            0x4 => Some(Instruction::SkipNeImm { x, nn }),
            0x5 => if n == 0 {
                Some(Instruction::SkipEqReg { x, y })
            } else {
                None
            },
            0x6 => Some(Instruction::LoadImm { x, nn }),
            0x7 => Some(Instruction::AddImm { x, nn }),
            0x8 => match n {
                0x0 => Some(Instruction::Move { x, y }),
                0x1 => Some(Instruction::Or { x, y }),
                0x2 => Some(Instruction::And { x, y }),
                0x3 => Some(Instruction::Xor { x, y }),
                0x4 => Some(Instruction::Add { x, y }),
                0x5 => Some(Instruction::Sub { x, y }),
                0x6 => Some(Instruction::ShiftRight { x }),
                0x7 => Some(Instruction::SubReverse { x, y }),
                0xE => Some(Instruction::ShiftLeft { x }),
                _ => None,
            },
            0x9 => if n == 0 {
                Some(Instruction::SkipNeReg { x, y })
            } else {
                None
            },
            0xA => Some(Instruction::LoadIndex { addr }),
            0xB => Some(Instruction::JumpOffset { addr }),
            0xC => Some(Instruction::Random { x, nn }),
            0xD => Some(Instruction::Draw { x, y, n }),
            0xE => match nn {
                0x9E => Some(Instruction::SkipKey { x }),
                0xA1 => Some(Instruction::SkipNoKey { x }),
                _ => None,
            },
            _ => match nn {
                0x07 => Some(Instruction::ReadDelay { x }),
                0x0A => Some(Instruction::WaitKey { x }),
                0x15 => Some(Instruction::SetDelay { x }),
                0x18 => Some(Instruction::SetSound { x }),
                0x1E => Some(Instruction::AddIndex { x }),
                0x29 => Some(Instruction::FontAddr { x }),
                0x33 => Some(Instruction::StoreBcd { x }),
                0x55 => Some(Instruction::StoreRegs { x }),
                0x65 => Some(Instruction::LoadRegs { x }),
                _ => None,
            },
        }
    }
}

} // verus!
