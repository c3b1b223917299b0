//! The instruction decoder: from a 16-bit instruction word to a structured
//! operation.
//!
//! A word is read as four nibbles. The top nibble selects the family; the
//! families `0`, `8`, `E` and `F` pack several operations and are told apart
//! by the low nibble or the low byte. The operands sit at fixed places:
//! `x` is the second nibble, `y` the third, `n` the fourth, `nn` the low
//! byte and `addr` the low twelve bits.

use vstd::prelude::*;
use crate::error::CpuError;

verus! {

/// One decoded instruction with its operands.
#[derive(Debug, Clone, Copy, PartialEq, Eq, Structural)]
pub enum Opcode {
    /// `0NNN`: call of a native routine of the host machine; does nothing here.
    CallMachineRoutine { addr: u16 },
    /// `00E0`: turn every pixel off.
    ClearScreen,
    /// `00EE`: return from a subroutine.
    Return,
    /// `1NNN`: continue at `addr`.
    Jump { addr: u16 },
    /// `2NNN`: call the subroutine at `addr`.
    CallSubroutine { addr: u16 },
    /// `3XNN`: skip the next instruction if V`x` equals `nn`.
    SkipIfEqual { x: u8, nn: u8 },
    /// `4XNN`: skip the next instruction if V`x` differs from `nn`.
    SkipIfNotEqual { x: u8, nn: u8 },
    /// `5XY_`: skip the next instruction if V`x` equals V`y`.
    SkipIfRegistersEqual { x: u8, y: u8 },
    /// `6XNN`: V`x` becomes `nn`.
    SetRegister { x: u8, nn: u8 },
    /// `7XNN`: V`x` becomes V`x` + `nn`, wrapped; the flag is not touched.
    AddToRegister { x: u8, nn: u8 },
    /// `8XY0`: V`x` becomes V`y`.
    AssignRegister { x: u8, y: u8 },
    /// `8XY1`: V`x` becomes V`x` or V`y`, bit by bit.
    Or { x: u8, y: u8 },
    /// `8XY2`: V`x` becomes V`x` and V`y`, bit by bit.
    And { x: u8, y: u8 },
    /// `8XY3`: V`x` becomes V`x` exclusive-or V`y`, bit by bit.
    Xor { x: u8, y: u8 },
    /// `8XY4`: VF becomes the carry of V`x` + V`y`, V`x` the wrapped sum.
    AddRegisters { x: u8, y: u8 },
    /// `8XY5`: VF becomes 1 if V`x` is at least V`y`, V`x` the wrapped V`x` - V`y`.
    SubtractXY { x: u8, y: u8 },
    /// `8XY6`: VF becomes the lowest bit of V`y`, V`x` becomes V`y` shifted right.
    ShiftRight { x: u8, y: u8 },
    /// `8XY7`: VF becomes 1 if V`y` is at least V`x`, V`x` the wrapped V`y` - V`x`.
    SubtractYX { x: u8, y: u8 },
    /// `8XYE`: VF becomes the highest bit of V`y`, V`x` becomes V`y` shifted left.
    ShiftLeft { x: u8, y: u8 },
    /// `9XY_`: skip the next instruction if V`x` differs from V`y`.
    SkipIfRegistersNotEqual { x: u8, y: u8 },
    /// `ANNN`: the index register becomes `addr`.
    SetIndex { addr: u16 },
    /// `BNNN`: continue at `addr` + V0.
    JumpWithOffset { addr: u16 },
    /// `CXNN`: V`x` becomes a random byte and `nn`, bit by bit.
    Random { x: u8, nn: u8 },
    /// `DXYN`: draw the sprite of `height` rows at the index register at
    /// (V`x`, V`y`); VF becomes 1 if a lit pixel went dark, else 0.
    Draw { x: u8, y: u8, height: u8 },
    /// `EX9E`: skip the next instruction if the key in V`x` is down.
    SkipIfKeyPressed { x: u8 },
    /// `EXA1`: skip the next instruction if the key in V`x` is up.
    SkipIfKeyNotPressed { x: u8 },
    /// `FX07`: V`x` becomes the delay timer.
    GetDelayTimer { x: u8 },
    /// `FX0A`: block until a key goes down, then V`x` becomes that key.
    WaitForKey { x: u8 },
    /// `FX15`: the delay timer becomes V`x`.
    SetDelayTimer { x: u8 },
    /// `FX18`: the sound timer becomes V`x`.
    SetSoundTimer { x: u8 },
    /// `FX1E`: the index register grows by V`x`.
    AddToIndex { x: u8 },
    /// `FX29`: the index register becomes the address of the glyph for the
    /// low nibble of V`x`.
    SetIndexToSprite { x: u8 },
    /// `FX33`: the three decimal digits of V`x` are written at the index
    /// register.
    StoreBCD { x: u8 },
    /// `FX55`: V0 to V`x` are written to memory at the index register.
    StoreRegisters { x: u8 },
    /// `FX65`: V0 to V`x` are read from memory at the index register.
    LoadRegisters { x: u8 },
}

/// The top nibble of the word: the opcode family.
pub open spec fn family_of(word: u16) -> u8 {
    (word as int / 4096) as u8
}

/// The second nibble: the first register operand.
pub open spec fn x_of(word: u16) -> u8 {
    ((word as int / 256) % 16) as u8
}

/// The third nibble: the second register operand.
pub open spec fn y_of(word: u16) -> u8 {
    ((word as int / 16) % 16) as u8
}

/// The fourth nibble: a sprite height, or the selector inside family `8`.
pub open spec fn n_of(word: u16) -> u8 {
    (word as int % 16) as u8
}

/// The low byte: an immediate, or the selector inside families `E` and `F`.
pub open spec fn nn_of(word: u16) -> u8 {
    (word as int % 256) as u8
}

/// The low twelve bits: an address.
pub open spec fn addr_of(word: u16) -> u16 {
    (word as int % 4096) as u16
}

/// The words that stand for an operation. Families `8`, `E` and `F` have
/// gaps; every word of the other families is an operation.
pub open spec fn is_known(word: u16) -> bool {
    let n = n_of(word);
    let nn = nn_of(word);
    match family_of(word) {
        8 => n <= 7 || n == 0xE,
        14 => nn == 0x9E || nn == 0xA1,
        15 => nn == 0x07 || nn == 0x0A || nn == 0x15 || nn == 0x18 || nn == 0x1E || nn == 0x29
            || nn == 0x33 || nn == 0x55 || nn == 0x65,
        _ => true,
    }
}

/// A word is its four nibbles, and each field of a word is made of them.
pub proof fn lemma_word_from_nibbles(family: int, x: int, y: int, n: int)
    requires
        0 <= family < 16,
        0 <= x < 16,
        0 <= y < 16,
        0 <= n < 16,
    ensures
        ({
            let word = (family * 4096 + x * 256 + y * 16 + n) as u16;
            &&& word == family * 4096 + x * 256 + y * 16 + n
            &&& family_of(word) == family
            &&& x_of(word) == x
            &&& y_of(word) == y
            &&& n_of(word) == n
            &&& nn_of(word) == y * 16 + n
            &&& addr_of(word) == x * 256 + y * 16 + n
        }),
{
    let f = family as u16;
    let a = x as u16;
    let b = y as u16;
    let c = n as u16;
    assert(f < 16 && a < 16 && b < 16 && c < 16 ==> {
        let w = (f * 4096 + a * 256 + b * 16 + c) as u16;
        &&& w == f * 4096 + a * 256 + b * 16 + c
        &&& w / 4096 == f
        &&& (w / 256) % 16 == a
        &&& (w / 16) % 16 == b
        &&& w % 16 == c
        &&& w % 256 == b * 16 + c
        &&& w % 4096 == a * 256 + b * 16 + c
    }) by (bit_vector);
}

/// The fields of a word made of a family and an address.
pub proof fn lemma_word_from_address(family: int, addr: u16)
    requires
        0 <= family < 16,
        addr < 4096,
    ensures
        ({
            let word = (family * 4096 + addr) as u16;
            &&& word == family * 4096 + addr
            &&& family_of(word) == family
            &&& addr_of(word) == addr
        }),
{
    lemma_word_from_nibbles(family, addr as int / 256, (addr as int / 16) % 16, addr as int % 16);
}

/// The fields of a word made of a family, a register and a byte.
pub proof fn lemma_word_from_byte(family: int, x: u8, nn: u8)
    requires
        0 <= family < 16,
        x < 16,
    ensures
        ({
            let word = (family * 4096 + x * 256 + nn) as u16;
            &&& word == family * 4096 + x * 256 + nn
            &&& family_of(word) == family
            &&& x_of(word) == x
            &&& nn_of(word) == nn
        }),
{
    lemma_word_from_nibbles(family, x as int, nn as int / 16, nn as int % 16);
}

/// A word falls apart into its family and address, the address into `x` and
/// the low byte, the low byte into `y` and `n`.
pub proof fn lemma_word_into_nibbles(word: u16)
    ensures
        word == family_of(word) * 4096 + addr_of(word),
        addr_of(word) == x_of(word) * 256 + nn_of(word),
        nn_of(word) == y_of(word) * 16 + n_of(word),
        family_of(word) < 16,
        x_of(word) < 16,
        y_of(word) < 16,
        n_of(word) < 16,
{
    assert(word == (word / 4096) * 4096 + word % 4096 && word % 4096 == ((word / 256) % 16) * 256
        + word % 256 && word % 256 == ((word / 16) % 16) * 16 + word % 16 && word / 4096 < 16)
        by (bit_vector);
}

impl Opcode {
    /// Every operand is in the range that its place in the word gives it:
    /// register indices and heights below 16, addresses below 4096.
    pub open spec fn well_formed(self) -> bool {
        match self {
            Opcode::CallMachineRoutine { addr } => addr < 4096,
            Opcode::ClearScreen => true,
            Opcode::Return => true,
            Opcode::Jump { addr } => addr < 4096,
            Opcode::CallSubroutine { addr } => addr < 4096,
            Opcode::SkipIfEqual { x, nn } => x < 16,
            Opcode::SkipIfNotEqual { x, nn } => x < 16,
            Opcode::SkipIfRegistersEqual { x, y } => x < 16 && y < 16,
            Opcode::SetRegister { x, nn } => x < 16,
            Opcode::AddToRegister { x, nn } => x < 16,
            Opcode::AssignRegister { x, y } => x < 16 && y < 16,
            Opcode::Or { x, y } => x < 16 && y < 16,
            Opcode::And { x, y } => x < 16 && y < 16,
            Opcode::Xor { x, y } => x < 16 && y < 16,
            Opcode::AddRegisters { x, y } => x < 16 && y < 16,
            Opcode::SubtractXY { x, y } => x < 16 && y < 16,
            Opcode::ShiftRight { x, y } => x < 16 && y < 16,
            Opcode::SubtractYX { x, y } => x < 16 && y < 16,
            Opcode::ShiftLeft { x, y } => x < 16 && y < 16,
            Opcode::SkipIfRegistersNotEqual { x, y } => x < 16 && y < 16,
            Opcode::SetIndex { addr } => addr < 4096,
            Opcode::JumpWithOffset { addr } => addr < 4096,
            Opcode::Random { x, nn } => x < 16,
            Opcode::Draw { x, y, height } => x < 16 && y < 16 && height < 16,
            Opcode::SkipIfKeyPressed { x } => x < 16,
            Opcode::SkipIfKeyNotPressed { x } => x < 16,
            Opcode::GetDelayTimer { x } => x < 16,
            Opcode::WaitForKey { x } => x < 16,
            Opcode::SetDelayTimer { x } => x < 16,
            Opcode::SetSoundTimer { x } => x < 16,
            Opcode::AddToIndex { x } => x < 16,
            Opcode::SetIndexToSprite { x } => x < 16,
            Opcode::StoreBCD { x } => x < 16,
            Opcode::StoreRegisters { x } => x < 16,
            Opcode::LoadRegisters { x } => x < 16,
        }
    }

    /// Whether every operand is in range. What `decode` gives always is; an
    /// operation put together by hand may not be.
    pub fn is_well_formed(&self) -> (r: bool)
        ensures
            r == self.well_formed(),
    {
        match *self {
            Opcode::ClearScreen | Opcode::Return => true,
            Opcode::CallMachineRoutine { addr }
            | Opcode::Jump { addr }
            | Opcode::CallSubroutine { addr }
            | Opcode::SetIndex { addr }
            | Opcode::JumpWithOffset { addr } => addr < 4096,
            Opcode::SkipIfEqual { x, nn }
            | Opcode::SkipIfNotEqual { x, nn }
            | Opcode::SetRegister { x, nn }
            | Opcode::AddToRegister { x, nn }
            | Opcode::Random { x, nn } => x < 16,
            Opcode::SkipIfRegistersEqual { x, y }
            | Opcode::AssignRegister { x, y }
            | Opcode::Or { x, y }
            | Opcode::And { x, y }
            | Opcode::Xor { x, y }
            | Opcode::AddRegisters { x, y }
            | Opcode::SubtractXY { x, y }
            | Opcode::ShiftRight { x, y }
            | Opcode::SubtractYX { x, y }
            | Opcode::ShiftLeft { x, y }
            | Opcode::SkipIfRegistersNotEqual { x, y } => x < 16 && y < 16,
            Opcode::Draw { x, y, height } => x < 16 && y < 16 && height < 16,
            Opcode::SkipIfKeyPressed { x }
            | Opcode::SkipIfKeyNotPressed { x }
            | Opcode::GetDelayTimer { x }
            | Opcode::WaitForKey { x }
            | Opcode::SetDelayTimer { x }
            | Opcode::SetSoundTimer { x }
            | Opcode::AddToIndex { x }
            | Opcode::SetIndexToSprite { x }
            | Opcode::StoreBCD { x }
            | Opcode::StoreRegisters { x }
            | Opcode::LoadRegisters { x } => x < 16,
        }
    }

    /// The instruction word that stands for this operation. The low nibble
    /// that families `5` and `9` ignore is zero.
    pub open spec fn encoding(self) -> u16 {
        match self {
            Opcode::CallMachineRoutine { addr } => addr,
            Opcode::ClearScreen => 0x00E0,
            Opcode::Return => 0x00EE,
            Opcode::Jump { addr } => (0x1000 + addr) as u16,
            Opcode::CallSubroutine { addr } => (0x2000 + addr) as u16,
            Opcode::SkipIfEqual { x, nn } => (0x3000 + x * 256 + nn) as u16,
            Opcode::SkipIfNotEqual { x, nn } => (0x4000 + x * 256 + nn) as u16,
            Opcode::SkipIfRegistersEqual { x, y } => (0x5000 + x * 256 + y * 16) as u16,
            Opcode::SetRegister { x, nn } => (0x6000 + x * 256 + nn) as u16,
            Opcode::AddToRegister { x, nn } => (0x7000 + x * 256 + nn) as u16,
            Opcode::AssignRegister { x, y } => (0x8000 + x * 256 + y * 16) as u16,
            Opcode::Or { x, y } => (0x8001 + x * 256 + y * 16) as u16,
            Opcode::And { x, y } => (0x8002 + x * 256 + y * 16) as u16,
            Opcode::Xor { x, y } => (0x8003 + x * 256 + y * 16) as u16,
            Opcode::AddRegisters { x, y } => (0x8004 + x * 256 + y * 16) as u16,
            Opcode::SubtractXY { x, y } => (0x8005 + x * 256 + y * 16) as u16,
            Opcode::ShiftRight { x, y } => (0x8006 + x * 256 + y * 16) as u16,
            Opcode::SubtractYX { x, y } => (0x8007 + x * 256 + y * 16) as u16,
            Opcode::ShiftLeft { x, y } => (0x800E + x * 256 + y * 16) as u16,
            Opcode::SkipIfRegistersNotEqual { x, y } => (0x9000 + x * 256 + y * 16) as u16,
            Opcode::SetIndex { addr } => (0xA000 + addr) as u16,
            Opcode::JumpWithOffset { addr } => (0xB000 + addr) as u16,
            Opcode::Random { x, nn } => (0xC000 + x * 256 + nn) as u16,
            Opcode::Draw { x, y, height } => (0xD000 + x * 256 + y * 16 + height) as u16,
            Opcode::SkipIfKeyPressed { x } => (0xE09E + x * 256) as u16,
            Opcode::SkipIfKeyNotPressed { x } => (0xE0A1 + x * 256) as u16,
            Opcode::GetDelayTimer { x } => (0xF007 + x * 256) as u16,
            Opcode::WaitForKey { x } => (0xF00A + x * 256) as u16,
            Opcode::SetDelayTimer { x } => (0xF015 + x * 256) as u16,
            Opcode::SetSoundTimer { x } => (0xF018 + x * 256) as u16,
            Opcode::AddToIndex { x } => (0xF01E + x * 256) as u16,
            Opcode::SetIndexToSprite { x } => (0xF029 + x * 256) as u16,
            Opcode::StoreBCD { x } => (0xF033 + x * 256) as u16,
            Opcode::StoreRegisters { x } => (0xF055 + x * 256) as u16,
            Opcode::LoadRegisters { x } => (0xF065 + x * 256) as u16,
        }
    }

    /// What a word decodes to: the operation of its family with the operands
    /// taken from their nibbles, or `UnknownOpcode` with the word itself.
    pub open spec fn spec_decode(word: u16) -> Result<Opcode, CpuError> {
        let x = x_of(word);
        let y = y_of(word);
        let n = n_of(word);
        let nn = nn_of(word);
        let addr = addr_of(word);
        let unknown = Err::<Opcode, CpuError>(CpuError::UnknownOpcode(word));
        match family_of(word) {
            0 => if word == 0x00E0 {
                Ok(Opcode::ClearScreen)
            } else if word == 0x00EE {
                Ok(Opcode::Return)
            } else {
                Ok(Opcode::CallMachineRoutine { addr })
            },
            1 => Ok(Opcode::Jump { addr }),
            2 => Ok(Opcode::CallSubroutine { addr }),
            3 => Ok(Opcode::SkipIfEqual { x, nn }),
            4 => Ok(Opcode::SkipIfNotEqual { x, nn }),
            5 => Ok(Opcode::SkipIfRegistersEqual { x, y }),
            6 => Ok(Opcode::SetRegister { x, nn }),
            7 => Ok(Opcode::AddToRegister { x, nn }),
            8 => match n {
                0x0 => Ok(Opcode::AssignRegister { x, y }),
                0x1 => Ok(Opcode::Or { x, y }),
                0x2 => Ok(Opcode::And { x, y }),
                0x3 => Ok(Opcode::Xor { x, y }),
                0x4 => Ok(Opcode::AddRegisters { x, y }),
                0x5 => Ok(Opcode::SubtractXY { x, y }),
                0x6 => Ok(Opcode::ShiftRight { x, y }),
                0x7 => Ok(Opcode::SubtractYX { x, y }),
                0xE => Ok(Opcode::ShiftLeft { x, y }),
                _ => unknown,
            },
            9 => Ok(Opcode::SkipIfRegistersNotEqual { x, y }),
            10 => Ok(Opcode::SetIndex { addr }),
            11 => Ok(Opcode::JumpWithOffset { addr }),
            12 => Ok(Opcode::Random { x, nn }),
            13 => Ok(Opcode::Draw { x, y, height: n }),
            14 => match nn {
                0x9E => Ok(Opcode::SkipIfKeyPressed { x }),
                0xA1 => Ok(Opcode::SkipIfKeyNotPressed { x }),
                _ => unknown,
            },
            _ => match nn {
                0x07 => Ok(Opcode::GetDelayTimer { x }),
                0x0A => Ok(Opcode::WaitForKey { x }),
                0x15 => Ok(Opcode::SetDelayTimer { x }),
                0x18 => Ok(Opcode::SetSoundTimer { x }),
                0x1E => Ok(Opcode::AddToIndex { x }),
                0x29 => Ok(Opcode::SetIndexToSprite { x }),
                0x33 => Ok(Opcode::StoreBCD { x }),
                0x55 => Ok(Opcode::StoreRegisters { x }),
                0x65 => Ok(Opcode::LoadRegisters { x }),
                _ => unknown,
            },
        }
    }

    /// Decodes one instruction word. Total: every word gives an operation
    /// with operands in range, or `UnknownOpcode` carrying the word.
    pub fn decode(opcode: u16) -> (r: Result<Opcode, CpuError>)
        ensures
            r == Opcode::spec_decode(opcode),
            is_known(opcode) ==> r is Ok && r->Ok_0.well_formed(),
            !is_known(opcode) ==> r == Err::<Opcode, CpuError>(CpuError::UnknownOpcode(opcode)),
    {
        let family: u16 = opcode >> 12;
        let x: u8 = ((opcode & 0x0F00) >> 8) as u8;
        let y: u8 = ((opcode & 0x00F0) >> 4) as u8;
        let n: u8 = (opcode & 0x000F) as u8;
        let nn: u8 = (opcode & 0x00FF) as u8;
        let addr: u16 = opcode & 0x0FFF;
        proof {
            assert(opcode >> 12 == opcode / 4096) by (bit_vector);
            assert((opcode & 0x0F00) >> 8 == (opcode / 256) % 16) by (bit_vector);
            assert((opcode & 0x00F0) >> 4 == (opcode / 16) % 16) by (bit_vector);
            assert(opcode & 0x000F == opcode % 16) by (bit_vector);
            assert(opcode & 0x00FF == opcode % 256) by (bit_vector);
            assert(opcode & 0x0FFF == opcode % 4096) by (bit_vector);
        }
        let unknown = Err(CpuError::UnknownOpcode(opcode));
        match family {
            0x0 => if opcode == 0x00E0 {
                Ok(Opcode::ClearScreen)
            } else if opcode == 0x00EE {
                Ok(Opcode::Return)
            } else {
                Ok(Opcode::CallMachineRoutine { addr })
            },
            0x1 => Ok(Opcode::Jump { addr }),
            0x2 => Ok(Opcode::CallSubroutine { addr }),
            0x3 => Ok(Opcode::SkipIfEqual { x, nn }),
            0x4 => Ok(Opcode::SkipIfNotEqual { x, nn }),
            0x5 => Ok(Opcode::SkipIfRegistersEqual { x, y }),
            0x6 => Ok(Opcode::SetRegister { x, nn }),
            0x7 => Ok(Opcode::AddToRegister { x, nn }),
            0x8 => match n {
                0x0 => Ok(Opcode::AssignRegister { x, y }),
                0x1 => Ok(Opcode::Or { x, y }),
                0x2 => Ok(Opcode::And { x, y }),
                0x3 => Ok(Opcode::Xor { x, y }),
                0x4 => Ok(Opcode::AddRegisters { x, y }),
                0x5 => Ok(Opcode::SubtractXY { x, y }),
                0x6 => Ok(Opcode::ShiftRight { x, y }),
                0x7 => Ok(Opcode::SubtractYX { x, y }),
                0xE => Ok(Opcode::ShiftLeft { x, y }),
                _ => unknown,
            },
            0x9 => Ok(Opcode::SkipIfRegistersNotEqual { x, y }),
            0xA => Ok(Opcode::SetIndex { addr }),
            0xB => Ok(Opcode::JumpWithOffset { addr }),
            0xC => Ok(Opcode::Random { x, nn }),
            0xD => Ok(Opcode::Draw { x, y, height: n }),
            0xE => match nn {
                0x9E => Ok(Opcode::SkipIfKeyPressed { x }),
                0xA1 => Ok(Opcode::SkipIfKeyNotPressed { x }),
                _ => unknown,
            },
            _ => match nn {
                0x07 => Ok(Opcode::GetDelayTimer { x }),
                0x0A => Ok(Opcode::WaitForKey { x }),
                0x15 => Ok(Opcode::SetDelayTimer { x }),
                0x18 => Ok(Opcode::SetSoundTimer { x }),
                0x1E => Ok(Opcode::AddToIndex { x }),
                0x29 => Ok(Opcode::SetIndexToSprite { x }),
                0x33 => Ok(Opcode::StoreBCD { x }),
                0x55 => Ok(Opcode::StoreRegisters { x }),
                0x65 => Ok(Opcode::LoadRegisters { x }),
                _ => unknown,
            },
        }
    }
}

} // verus!
