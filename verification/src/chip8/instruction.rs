use vstd::prelude::*;
use crate::util::{high_nibble, low_nibble, spec_high_nibble, spec_low_nibble};

verus! {

/// One decoded instruction. Register operands are indices `0..16`, addresses are twelve
/// bits wide.
#[derive(Debug, Copy, Clone, PartialEq, Eq, Structural)]
pub enum Instruction {
    /// `0nnn`: the legacy system call. It does nothing.
    Sys(u16),
    /// `00E0`: clear the display.
    ClearScreen,
    /// `00EE`: return from a subroutine.
    Return,
    /// `1nnn`: jump to `nnn`.
    Jump(u16),
    /// `2nnn`: call the subroutine at `nnn`.
    Call(u16),
    /// `3xkk`: skip the next instruction where `Vx == kk`.
    SkipEqual(u8, u8),
    /// `4xkk`: skip the next instruction where `Vx != kk`.
    SkipNotEqual(u8, u8),
    /// `5xy0`: skip the next instruction where `Vx == Vy`.
    SkipEqualRegister(u8, u8),
    /// `6xkk`: `Vx = kk`.
    LoadScalar(u8, u8),
    /// `7xkk`: `Vx += kk`, without a flag.
    AddScalar(u8, u8),
    /// `8xy0`: `Vx = Vy`.
    LoadRegister(u8, u8),
    /// `8xy1`: `Vx |= Vy`.
    Or(u8, u8),
    /// `8xy2`: `Vx &= Vy`.
    And(u8, u8),
    /// `8xy3`: `Vx ^= Vy`.
    Xor(u8, u8),
    /// `8xy4`: `Vx += Vy`, `VF` = carry.
    Add(u8, u8),
    /// `8xy5`: `Vx -= Vy`, `VF` = 1 where `Vx > Vy`.
    Sub(u8, u8),
    /// `8xy6`: `Vx >>= 1`, `VF` = the bit shifted out.
    ShiftRight(u8),
    /// `8xy7`: `Vx = Vy - Vx`, `VF` = 1 where `Vy > Vx`.
    Subn(u8, u8),
    /// `8xyE`: `Vx <<= 1`, `VF` = the bit shifted out.
    ShiftLeft(u8),
    /// `9xy0`: skip the next instruction where `Vx != Vy`.
    SkipNotEqualRegister(u8, u8),
    /// `Annn`: `I = nnn`.
    LoadIndex(u16),
    /// `Bnnn`: jump to `nnn + V0`.
    JumpOffset(u16),
    /// `Cxkk`: `Vx = kk &` a random byte.
    Random(u8, u8),
    /// `Dxyn`: draw the `n`-row sprite at `I` at column `Vx` of row `Vy`, `VF` = collision.
    Draw(u8, u8, u8),
    /// `Ex9E`: skip the next instruction where the key in `Vx` is down.
    SkipKey(u8),
    /// `ExA1`: skip the next instruction where the key in `Vx` is not down.
    SkipNotKey(u8),
    /// `Fx07`: `Vx =` delay timer.
    LoadDelay(u8),
    /// `Fx0A`: wait for a key and store it in `Vx`.
    WaitKey(u8),
    /// `Fx15`: delay timer `= Vx`.
    SetDelay(u8),
    /// `Fx18`: sound timer `= Vx`.
    SetSound(u8),
    /// `Fx1E`: `I += Vx`.
    AddIndex(u8),
    /// `Fx29`: `I =` address of the glyph for `Vx`.
    DigitSprite(u8),
    /// `Fx33`: store the three decimal digits of `Vx` at `I`.
    Decimal(u8),
    /// `Fx55`: store `V0..=Vx` at `I`.
    StoreRegisters(u8),
    /// `Fx65`: load `V0..=Vx` from `I`.
    LoadRegisters(u8),
}

impl Instruction {
    /// Whether the operands are in range: registers below 16, addresses below 4096, a
    /// sprite height below 16.
    pub open spec fn wf(self) -> bool {
        match self {
            Instruction::Sys(addr) => addr < 4096,
            Instruction::ClearScreen => true,
            Instruction::Return => true,
            Instruction::Jump(addr) => addr < 4096,
            Instruction::Call(addr) => addr < 4096,
            Instruction::SkipEqual(vx, _) => vx < 16,
            Instruction::SkipNotEqual(vx, _) => vx < 16,
            Instruction::SkipEqualRegister(vx, vy) => vx < 16 && vy < 16,
            Instruction::LoadScalar(vx, _) => vx < 16,
            Instruction::AddScalar(vx, _) => vx < 16,
            Instruction::LoadRegister(vx, vy) => vx < 16 && vy < 16,
            Instruction::Or(vx, vy) => vx < 16 && vy < 16,
            Instruction::And(vx, vy) => vx < 16 && vy < 16,
            Instruction::Xor(vx, vy) => vx < 16 && vy < 16,
            Instruction::Add(vx, vy) => vx < 16 && vy < 16,
            Instruction::Sub(vx, vy) => vx < 16 && vy < 16,
            Instruction::ShiftRight(vx) => vx < 16,
            Instruction::Subn(vx, vy) => vx < 16 && vy < 16,
            Instruction::ShiftLeft(vx) => vx < 16,
            Instruction::SkipNotEqualRegister(vx, vy) => vx < 16 && vy < 16,
            Instruction::LoadIndex(addr) => addr < 4096,
            Instruction::JumpOffset(addr) => addr < 4096,
            Instruction::Random(vx, _) => vx < 16,
            Instruction::Draw(vx, vy, rows) => vx < 16 && vy < 16 && rows < 16,
            Instruction::SkipKey(vx) => vx < 16,
            Instruction::SkipNotKey(vx) => vx < 16,
            Instruction::LoadDelay(vx) => vx < 16,
            Instruction::WaitKey(vx) => vx < 16,
            Instruction::SetDelay(vx) => vx < 16,
            Instruction::SetSound(vx) => vx < 16,
            Instruction::AddIndex(vx) => vx < 16,
            Instruction::DigitSprite(vx) => vx < 16,
            Instruction::Decimal(vx) => vx < 16,
            Instruction::StoreRegisters(vy) => vy < 16,
            Instruction::LoadRegisters(vy) => vy < 16,
        }
    }

    /// Whether what the instruction does depends on a random byte.
    pub open spec fn reads_random(self) -> bool {
        self is Random
    }

    /// Whether what the instruction does depends on the keyboard.
    pub open spec fn reads_key(self) -> bool {
        self is SkipKey || self is SkipNotKey || self is WaitKey
    }
}

/// The instruction that the two bytes `first`, `second` encode, if any.
///
/// The high nibble of `first` selects the family, its low nibble is `x`; the high nibble
/// of `second` is `y`, its low nibble the sub-opcode `n`; `second` as a whole is `kk`, and
/// the low twelve bits of both together are `nnn`.
pub open spec fn spec_decode(first: u8, second: u8) -> Option<Instruction> {
    let family = spec_high_nibble(first);
    let x = spec_low_nibble(first);
    let y = spec_high_nibble(second);
    let n = spec_low_nibble(second);
    let kk = second;
    let nnn = (x * 256 + second) as u16;
    if family == 0x0 {
        if nnn == 0x0E0 {
            Some(Instruction::ClearScreen)
        } else if nnn == 0x0EE {
            Some(Instruction::Return)
        } else {
            Some(Instruction::Sys(nnn))
        }
    } else if family == 0x1 {
        Some(Instruction::Jump(nnn))
    } else if family == 0x2 {
        Some(Instruction::Call(nnn))
    } else if family == 0x3 {
        Some(Instruction::SkipEqual(x, kk))
    } else if family == 0x4 {
        Some(Instruction::SkipNotEqual(x, kk))
    } else if family == 0x5 {
        if n == 0 {
            Some(Instruction::SkipEqualRegister(x, y))
        } else {
            None
        }
    } else if family == 0x6 {
        Some(Instruction::LoadScalar(x, kk))
    } else if family == 0x7 {
        Some(Instruction::AddScalar(x, kk))
    } else if family == 0x8 {
        if n == 0x0 {
            Some(Instruction::LoadRegister(x, y))
        } else if n == 0x1 {
            Some(Instruction::Or(x, y))
        } else if n == 0x2 {
            Some(Instruction::And(x, y))
        } else if n == 0x3 {
            Some(Instruction::Xor(x, y))
        } else if n == 0x4 {
            Some(Instruction::Add(x, y))
        } else if n == 0x5 {
            Some(Instruction::Sub(x, y))
        } else if n == 0x6 {
            Some(Instruction::ShiftRight(x))
        } else if n == 0x7 {
            Some(Instruction::Subn(x, y))
        } else if n == 0xE {
            Some(Instruction::ShiftLeft(x))
        } else {
            None
        }
    } else if family == 0x9 {
        if n == 0 {
            Some(Instruction::SkipNotEqualRegister(x, y))
        } else {
            None
        }
    } else if family == 0xA {
        Some(Instruction::LoadIndex(nnn))
    } else if family == 0xB {
        Some(Instruction::JumpOffset(nnn))
    } else if family == 0xC {
        Some(Instruction::Random(x, kk))
    } else if family == 0xD {
        Some(Instruction::Draw(x, y, n))
    } else if family == 0xE {
        if kk == 0x9E {
            Some(Instruction::SkipKey(x))
        } else if kk == 0xA1 {
            Some(Instruction::SkipNotKey(x))
        } else {
            None
        }
    } else {
        if kk == 0x07 {
            Some(Instruction::LoadDelay(x))
        } else if kk == 0x0A {
            Some(Instruction::WaitKey(x))
        } else if kk == 0x15 {
            Some(Instruction::SetDelay(x))
        } else if kk == 0x18 {
            Some(Instruction::SetSound(x))
        } else if kk == 0x1E {
            Some(Instruction::AddIndex(x))
        } else if kk == 0x29 {
            Some(Instruction::DigitSprite(x))
        } else if kk == 0x33 {
            Some(Instruction::Decimal(x))
        } else if kk == 0x55 {
            Some(Instruction::StoreRegisters(x))
        } else if kk == 0x65 {
            Some(Instruction::LoadRegisters(x))
        } else {
            None
        }
    }
}

/// Every instruction that two bytes encode has its operands in range.
pub proof fn lemma_decode_wf(first: u8, second: u8)
    ensures
        spec_decode(first, second) matches Some(instruction) ==> instruction.wf(),
{
}

/// Decodes the two bytes of an instruction; `None` where they encode none.
pub fn decode(first: u8, second: u8) -> (decoded: Option<Instruction>)
    ensures
        decoded == spec_decode(first, second),
        decoded matches Some(instruction) ==> instruction.wf(),
{
    let family: u8 = high_nibble(first);
    let x: u8 = low_nibble(first);
    let y: u8 = high_nibble(second);
    let n: u8 = low_nibble(second);
    let kk: u8 = second;
    let nnn: u16 = ((x as u16) << 8) | (second as u16);
    assert(((x as u16) << 8) | (second as u16) == x * 256 + second) by (bit_vector)
        requires
            x < 16,
    ;
    match family {
        0x0 => match nnn {
            0x0E0 => Some(Instruction::ClearScreen),
            0x0EE => Some(Instruction::Return),
            _ => Some(Instruction::Sys(nnn)),
        },
        0x1 => Some(Instruction::Jump(nnn)),
        0x2 => Some(Instruction::Call(nnn)),
        0x3 => Some(Instruction::SkipEqual(x, kk)),
        0x4 => Some(Instruction::SkipNotEqual(x, kk)),
        0x5 if n == 0x0 => Some(Instruction::SkipEqualRegister(x, y)),
        0x6 => Some(Instruction::LoadScalar(x, kk)),
        0x7 => Some(Instruction::AddScalar(x, kk)),
        0x8 => match n {
            0x0 => Some(Instruction::LoadRegister(x, y)),
            0x1 => Some(Instruction::Or(x, y)),
            0x2 => Some(Instruction::And(x, y)),
            0x3 => Some(Instruction::Xor(x, y)),
            0x4 => Some(Instruction::Add(x, y)),
            0x5 => Some(Instruction::Sub(x, y)),
            0x6 => Some(Instruction::ShiftRight(x)),
            0x7 => Some(Instruction::Subn(x, y)),
            0xE => Some(Instruction::ShiftLeft(x)),
            _ => None,
        },
        0x9 if n == 0x0 => Some(Instruction::SkipNotEqualRegister(x, y)),
        0xA => Some(Instruction::LoadIndex(nnn)),
        0xB => Some(Instruction::JumpOffset(nnn)),
        0xC => Some(Instruction::Random(x, kk)),
        0xD => Some(Instruction::Draw(x, y, n)),
        0xE => match kk {
            0x9E => Some(Instruction::SkipKey(x)),
            0xA1 => Some(Instruction::SkipNotKey(x)),
            _ => None,
        },
        0xF => match kk {
            0x07 => Some(Instruction::LoadDelay(x)),
            0x0A => Some(Instruction::WaitKey(x)),
            0x15 => Some(Instruction::SetDelay(x)),
            0x18 => Some(Instruction::SetSound(x)),
            0x1E => Some(Instruction::AddIndex(x)),
            0x29 => Some(Instruction::DigitSprite(x)),
            0x33 => Some(Instruction::Decimal(x)),
            0x55 => Some(Instruction::StoreRegisters(x)),
            0x65 => Some(Instruction::LoadRegisters(x)),
            _ => None,
        },
        _ => None,
    }
}

} // verus!
