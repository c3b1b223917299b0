//! The mathematical model of the machine and the meaning of every operation.
//!
//! A `Machine` is the whole state as plain values. `execute` says what one
//! operation does to it, `cycle` what one fetch-decode-execute cycle does,
//! `press` what a new keypad state does and `load` what loading a program
//! does. Each of them either gives the next state or names the failure; a
//! failure changes nothing.
//!
//! Conventions chosen where CHIP-8 interpreters have differed:
//! - the shifts take their operand from register `y` and store into `x`;
//! - an operation that writes both the flag register and register `x` writes
//!   the flag first, so with `x` = 15 the result is what stays;
//! - the bitwise operations leave the flag register alone;
//! - sprites wrap around both edges of the screen;
//! - bulk store and load leave the index register where it was;
//! - a call pushes the address of the instruction after it, and a return
//!   continues there; the call stack has no fixed depth;
//! - the program counter and the index register never leave memory: an
//!   operation that would move either past address 4095 fails with
//!   `OutOfBoundsAccess`, and nothing wraps around;
//! - a native routine call (`0NNN`) does nothing but move on: such routines
//!   belong to the machine the program was written for, and none is built
//!   in;
//! - waiting for a key blocks the machine after the program counter has
//!   moved past the instruction; the machine is woken by a key that goes
//!   down, the lowest if several do, and a key that is held or released
//!   does not wake it;
//! - the timers are counted down at the end of every cycle that succeeds,
//!   also the cycle that set them and the cycles of a blocked machine;
//! - random bytes come from a linear congruential generator that the host
//!   seeds.

use vstd::prelude::*;
use crate::display::{blit, collides, flag_of};
use crate::error::CpuError;
use crate::font::{FONTSET, FONTSET_START, GLYPH_SIZE, MEMORY_SIZE, PROGRAM_START};
use crate::opcode::Opcode;
use crate::random::{next_random, random_byte};

verus! {

/// The state of the machine.
pub struct Machine {
    /// The 4096 bytes of memory.
    pub memory: Seq<u8>,
    /// The address of the next instruction.
    pub pc: int,
    /// The registers V0 to VF.
    pub v: Seq<u8>,
    /// The index register.
    pub i: int,
    /// The return addresses of the calls in progress, the latest last.
    pub stack: Seq<u16>,
    /// The 2048 cells of the display, row after row.
    pub gfx: Seq<bool>,
    /// The 16 keys; `true` is pressed.
    pub keys: Seq<bool>,
    /// The delay timer.
    pub delay_timer: u8,
    /// The sound timer; a tone is due while it is not zero.
    pub sound_timer: u8,
    /// The register that waits for a key press, while the machine is blocked.
    pub waiting: Option<u8>,
    /// The state of the random number generator.
    pub rng: u32,
}

impl Machine {
    /// The invariant of every state the machine can be in: all parts have
    /// their size, the program counter and the index register point into
    /// memory, every return address does, and a waiting register exists.
    pub open spec fn wf(self) -> bool {
        &&& self.memory.len() == MEMORY_SIZE
        &&& self.v.len() == 16
        &&& self.gfx.len() == 2048
        &&& self.keys.len() == 16
        &&& 0 <= self.pc < MEMORY_SIZE
        &&& 0 <= self.i < MEMORY_SIZE
        &&& forall|k: int| 0 <= k < self.stack.len() ==> (#[trigger] self.stack[k]) < MEMORY_SIZE
        &&& self.waiting matches Some(x) ==> x < 16
    }

    /// The value of register `x`.
    pub open spec fn reg(self, x: u8) -> u8 {
        self.v[x as int]
    }

    /// The state with register `x` set to `value`.
    pub open spec fn with_reg(self, x: u8, value: u8) -> Machine {
        Machine { v: self.v.update(x as int, value), ..self }
    }

    /// The state with the flag register set, then register `x`.
    pub open spec fn with_flag_and_reg(self, flag: u8, x: u8, value: u8) -> Machine {
        self.with_reg(0xF, flag).with_reg(x, value)
    }

    /// The state with the program counter moved on by `by` bytes, where that
    /// stays inside memory.
    pub open spec fn advance(self, by: int) -> Result<Machine, CpuError> {
        if self.pc + by < MEMORY_SIZE {
            Ok(Machine { pc: self.pc + by, ..self })
        } else {
            Err(CpuError::OutOfBoundsAccess)
        }
    }

    /// The state after an instruction that skips the next one when `skip`
    /// holds.
    pub open spec fn skip_if(self, skip: bool) -> Result<Machine, CpuError> {
        self.advance(
            if skip {
                4
            } else {
                2
            },
        )
    }
}

/// Memory with `bytes` written from address `at` on.
pub open spec fn write_bytes(memory: Seq<u8>, at: int, bytes: Seq<u8>) -> Seq<u8> {
    Seq::new(
        memory.len(),
        |a: int|
            if at <= a < at + bytes.len() {
                bytes[a - at]
            } else {
                memory[a]
            },
    )
}

/// The state of a machine that was just switched on: everything zero, the
/// font in its place, the program counter at the program base.
pub open spec fn initial() -> Machine {
    Machine {
        memory: write_bytes(
            Seq::new(MEMORY_SIZE as nat, |a: int| 0u8),
            FONTSET_START as int,
            FONTSET@,
        ),
        pc: PROGRAM_START as int,
        v: Seq::new(16, |k: int| 0u8),
        i: 0,
        stack: Seq::empty(),
        gfx: Seq::new(2048, |c: int| false),
        keys: Seq::new(16, |k: int| false),
        delay_timer: 0,
        sound_timer: 0,
        waiting: None,
        rng: 0,
    }
}

/// The longest program that fits between the program base and the end of
/// memory.
pub open spec fn max_program_len() -> int {
    MEMORY_SIZE - PROGRAM_START
}

/// The state after `program` was copied to the program base, where it fits.
pub open spec fn load(m: Machine, program: Seq<u8>) -> Result<Machine, CpuError> {
    if program.len() <= max_program_len() {
        Ok(Machine { memory: write_bytes(m.memory, PROGRAM_START as int, program), ..m })
    } else {
        Err(CpuError::ProgramTooLarge)
    }
}

/// The hundreds, tens and ones of a byte.
pub open spec fn bcd(value: u8) -> Seq<u8> {
    seq![(value / 100) as u8, ((value / 10) % 10) as u8, (value % 10) as u8]
}

/// The address of the glyph for the low nibble of `value`.
pub open spec fn glyph_address(value: u8) -> int {
    FONTSET_START + GLYPH_SIZE * (value % 16)
}

/// The instruction word at the program counter, high byte first.
pub open spec fn fetch(m: Machine) -> Result<u16, CpuError> {
    if m.pc + 1 < MEMORY_SIZE {
        Ok((m.memory[m.pc] * 256 + m.memory[m.pc + 1]) as u16)
    } else {
        Err(CpuError::OutOfBoundsAccess)
    }
}

/// What one operation does to the machine.
pub open spec fn execute(m: Machine, op: Opcode) -> Result<Machine, CpuError> {
    match op {
        Opcode::CallMachineRoutine { addr } => m.advance(2),
        Opcode::ClearScreen => Machine { gfx: Seq::new(2048, |c: int| false), ..m }.advance(2),
        Opcode::Return => if m.stack.len() == 0 {
            Err(CpuError::StackUnderflow)
        } else {
            Ok(Machine { pc: m.stack.last() as int, stack: m.stack.drop_last(), ..m })
        },
        Opcode::Jump { addr } => Ok(Machine { pc: addr as int, ..m }),
        Opcode::CallSubroutine { addr } => if m.pc + 2 < MEMORY_SIZE {
            Ok(Machine { pc: addr as int, stack: m.stack.push((m.pc + 2) as u16), ..m })
        } else {
            Err(CpuError::OutOfBoundsAccess)
        },
        Opcode::SkipIfEqual { x, nn } => m.skip_if(m.reg(x) == nn),
        Opcode::SkipIfNotEqual { x, nn } => m.skip_if(m.reg(x) != nn),
        Opcode::SkipIfRegistersEqual { x, y } => m.skip_if(m.reg(x) == m.reg(y)),
        Opcode::SetRegister { x, nn } => m.with_reg(x, nn).advance(2),
        Opcode::AddToRegister { x, nn } => m.with_reg(x, ((m.reg(x) + nn) % 256) as u8).advance(
            2,
        ),
        Opcode::AssignRegister { x, y } => m.with_reg(x, m.reg(y)).advance(2),
        Opcode::Or { x, y } => m.with_reg(x, m.reg(x) | m.reg(y)).advance(2),
        Opcode::And { x, y } => m.with_reg(x, m.reg(x) & m.reg(y)).advance(2),
        Opcode::Xor { x, y } => m.with_reg(x, m.reg(x) ^ m.reg(y)).advance(2),
        Opcode::AddRegisters { x, y } => {
            let sum = m.reg(x) + m.reg(y);
            m.with_flag_and_reg(
                if sum > 255 {
                    1
                } else {
                    0
                },
                x,
                (sum % 256) as u8,
            ).advance(2)
        },
        Opcode::SubtractXY { x, y } => m.with_flag_and_reg(
            if m.reg(x) >= m.reg(y) {
                1
            } else {
                0
            },
            x,
            ((m.reg(x) - m.reg(y)) % 256) as u8,
        ).advance(2),
        Opcode::ShiftRight { x, y } => m.with_flag_and_reg(
            (m.reg(y) % 2) as u8,
            x,
            (m.reg(y) / 2) as u8,
        ).advance(2),
        Opcode::SubtractYX { x, y } => m.with_flag_and_reg(
            if m.reg(y) >= m.reg(x) {
                1
            } else {
                0
            },
            x,
            ((m.reg(y) - m.reg(x)) % 256) as u8,
        ).advance(2),
        Opcode::ShiftLeft { x, y } => m.with_flag_and_reg(
            (m.reg(y) / 128) as u8,
            x,
            ((m.reg(y) * 2) % 256) as u8,
        ).advance(2),
        Opcode::SkipIfRegistersNotEqual { x, y } => m.skip_if(m.reg(x) != m.reg(y)),
        Opcode::SetIndex { addr } => Machine { i: addr as int, ..m }.advance(2),
        Opcode::JumpWithOffset { addr } => if addr + m.reg(0) < MEMORY_SIZE {
            Ok(Machine { pc: addr + m.reg(0), ..m })
        } else {
            Err(CpuError::OutOfBoundsAccess)
        },
        Opcode::Random { x, nn } => {
            let rng = next_random(m.rng);
            Machine { rng, ..m }.with_reg(x, random_byte(rng) & nn).advance(2)
        },
        Opcode::Draw { x, y, height } => if m.i + height <= MEMORY_SIZE {
            let sprite = m.memory.subrange(m.i, m.i + height);
            let px = m.reg(x) as int;
            let py = m.reg(y) as int;
            Machine { gfx: blit(m.gfx, sprite, px, py), ..m }.with_reg(
                0xF,
                flag_of(collides(m.gfx, sprite, px, py)),
            ).advance(2)
        } else {
            Err(CpuError::OutOfBoundsAccess)
        },
        Opcode::SkipIfKeyPressed { x } => if m.reg(x) < 16 {
            m.skip_if(m.keys[m.reg(x) as int])
        } else {
            Err(CpuError::InvalidKeyIndex)
        },
        Opcode::SkipIfKeyNotPressed { x } => if m.reg(x) < 16 {
            m.skip_if(!m.keys[m.reg(x) as int])
        } else {
            Err(CpuError::InvalidKeyIndex)
        },
        Opcode::GetDelayTimer { x } => m.with_reg(x, m.delay_timer).advance(2),
        Opcode::WaitForKey { x } => Machine { waiting: Some(x), ..m }.advance(2),
        Opcode::SetDelayTimer { x } => Machine { delay_timer: m.reg(x), ..m }.advance(2),
        Opcode::SetSoundTimer { x } => Machine { sound_timer: m.reg(x), ..m }.advance(2),
        Opcode::AddToIndex { x } => if m.i + m.reg(x) < MEMORY_SIZE {
            Machine { i: m.i + m.reg(x), ..m }.advance(2)
        } else {
            Err(CpuError::OutOfBoundsAccess)
        },
        Opcode::SetIndexToSprite { x } => Machine { i: glyph_address(m.reg(x)), ..m }.advance(2),
        Opcode::StoreBCD { x } => if m.i + 3 <= MEMORY_SIZE {
            Machine { memory: write_bytes(m.memory, m.i, bcd(m.reg(x))), ..m }.advance(2)
        } else {
            Err(CpuError::OutOfBoundsAccess)
        },
        Opcode::StoreRegisters { x } => if m.i + x < MEMORY_SIZE {
            Machine { memory: write_bytes(m.memory, m.i, m.v.subrange(0, x + 1)), ..m }.advance(
                2,
            )
        } else {
            Err(CpuError::OutOfBoundsAccess)
        },
        Opcode::LoadRegisters { x } => if m.i + x < MEMORY_SIZE {
            Machine {
                v: Seq::new(
                    16,
                    |k: int|
                        if k <= x {
                            m.memory[m.i + k]
                        } else {
                            m.v[k]
                        },
                ),
                ..m
            }.advance(2)
        } else {
            Err(CpuError::OutOfBoundsAccess)
        },
    }
}

/// A timer one cycle later: one less, unless it is at zero.
pub open spec fn count_down(timer: u8) -> u8 {
    if timer > 0 {
        (timer - 1) as u8
    } else {
        0
    }
}

/// The state with both timers counted down once.
pub open spec fn tick(m: Machine) -> Machine {
    Machine {
        delay_timer: count_down(m.delay_timer),
        sound_timer: count_down(m.sound_timer),
        ..m
    }
}

/// What one cycle does. A machine that waits for a key only counts its
/// timers down. Otherwise the instruction at the program counter is fetched,
/// decoded and executed, and then the timers are counted down.
pub open spec fn cycle(m: Machine) -> Result<Machine, CpuError> {
    if m.waiting is Some {
        Ok(tick(m))
    } else {
        match fetch(m) {
            Err(e) => Err(e),
            Ok(word) => match Opcode::spec_decode(word) {
                Err(e) => Err(e),
                Ok(op) => match execute(m, op) {
                    Err(e) => Err(e),
                    Ok(next) => Ok(tick(next)),
                },
            },
        }
    }
}

/// The lowest key from `from` on that is down in `after` and was up in
/// `before`.
pub open spec fn first_press(before: Seq<bool>, after: Seq<bool>, from: int) -> Option<u8>
    decreases 16 - from,
{
    if from >= 16 {
        None
    } else if !before[from] && after[from] {
        Some(from as u8)
    } else {
        first_press(before, after, from + 1)
    }
}

/// What a new keypad state does. The keys are taken over. A machine that
/// waits for a key and sees one go down stores the lowest such key in the
/// waiting register and runs again.
pub open spec fn press(m: Machine, keys: Seq<bool>) -> Machine {
    let taken = Machine { keys, ..m };
    match (m.waiting, first_press(m.keys, keys, 0)) {
        (Some(x), Some(key)) => Machine { waiting: None, ..taken }.with_reg(x, key),
        _ => taken,
    }
}

/// What a call that was to bring about `expected` has done, where it went
/// from `before` to `after` and returned `r`: on success the machine is in
/// the expected state, on a failure the error is the expected one and the
/// machine is as it was.
pub open spec fn carried_out(
    before: Machine,
    after: Machine,
    r: Result<(), CpuError>,
    expected: Result<Machine, CpuError>,
) -> bool {
    match expected {
        Ok(m) => r is Ok && after == m,
        Err(e) => r == Err::<(), CpuError>(e) && after == before,
    }
}

} // verus!
