//! The execution engine: the machine's state and the cycle that runs it.

use vstd::prelude::*;
use crate::alu::{add_with_carry, add_wrapping, shift_left, shift_right, sub_with_borrow};
use crate::display::draw_sprite;
use crate::error::CpuError;
use crate::font::{FONTSET, FONTSET_START, GLYPH_SIZE, MEMORY_SIZE, PROGRAM_START};
use crate::machine::{
    bcd, carried_out, cycle, execute, fetch, first_press, initial, load, press, tick, write_bytes,
    Machine,
};
use crate::opcode::Opcode;
use crate::random::{step, top_byte};

verus! {

/// A CHIP-8 machine. Its state is private; `view` gives it as a `Machine`,
/// and the contracts of the methods speak of that.
#[derive(Debug)]
pub struct CPU {
    memory: [u8; 4096],
    pc: usize,
    v: [u8; 16],
    i: u16,
    gfx: [bool; 2048],
    key: [bool; 16],
    stack: Vec<u16>,
    delay_timer: u8,
    sound_timer: u8,
    waiting: Option<u8>,
    rng: u32,
}

impl View for CPU {
    type V = Machine;

    closed spec fn view(&self) -> Machine {
        Machine {
            memory: self.memory@,
            pc: self.pc as int,
            v: self.v@,
            i: self.i as int,
            stack: self.stack@,
            gfx: self.gfx@,
            keys: self.key@,
            delay_timer: self.delay_timer,
            sound_timer: self.sound_timer,
            waiting: self.waiting,
            rng: self.rng,
        }
    }
}

impl CPU {
    /// The machine is in a state that it can reach. This holds of every
    /// machine that `new` makes, and every method keeps it.
    pub open spec fn wf(&self) -> bool {
        self@.wf()
    }

    /// A machine that was just switched on.
    pub fn new() -> (cpu: CPU)
        ensures
            cpu@ == initial(),
            cpu.wf(),
    {
        let mut cpu = CPU {
            memory: [0; 4096],
            pc: PROGRAM_START,
            v: [0; 16],
            i: 0,
            gfx: [false; 2048],
            key: [false; 16],
            stack: Vec::new(),
            delay_timer: 0,
            sound_timer: 0,
            waiting: None,
            rng: 0,
        };
        assert(cpu.memory@ =~= Seq::new(MEMORY_SIZE as nat, |a: int| 0u8));
        assert(cpu.v@ =~= Seq::new(16, |k: int| 0u8));
        assert(cpu.gfx@ =~= Seq::new(2048, |c: int| false));
        assert(cpu.key@ =~= Seq::new(16, |k: int| false));
        cpu.load_fontset();
        cpu
    }

    /// Copies `program` to the program base. A program longer than the room
    /// from there to the end of memory is refused.
    pub fn load_program(&mut self, program: &[u8]) -> (r: Result<(), CpuError>)
        requires
            old(self).wf(),
        ensures
            final(self).wf(),
            carried_out(old(self)@, final(self)@, r, load(old(self)@, program@)),
    {
        if program.len() > MEMORY_SIZE - PROGRAM_START {
            return Err(CpuError::ProgramTooLarge);
        }
        let mut k: usize = 0;
        assert(self@.memory =~= write_bytes(
            self@.memory,
            PROGRAM_START as int,
            program@.subrange(0, 0),
        ));
        while k < program.len()
            invariant
                k <= program.len() <= MEMORY_SIZE - PROGRAM_START,
                self@ == (Machine {
                    memory: write_bytes(
                        old(self)@.memory,
                        PROGRAM_START as int,
                        program@.subrange(0, k as int),
                    ),
                    ..old(self)@
                }),
            decreases program.len() - k,
        {
            self.memory[PROGRAM_START + k] = program[k];
            k = k + 1;
            assert(self@.memory =~= write_bytes(
                old(self)@.memory,
                PROGRAM_START as int,
                program@.subrange(0, k as int),
            ));
        }
        assert(program@.subrange(0, k as int) =~= program@);
        Ok(())
    }

    /// Writes the font into its place in memory.
    fn load_fontset(&mut self)
        ensures
            final(self)@ == (Machine {
                memory: write_bytes(old(self)@.memory, FONTSET_START as int, FONTSET@),
                ..old(self)@
            }),
    {
        let mut k: usize = 0;
        assert(self@.memory =~= write_bytes(
            self@.memory,
            FONTSET_START as int,
            FONTSET@.subrange(0, 0),
        ));
        while k < 80
            invariant
                k <= 80,
                self@ == (Machine {
                    memory: write_bytes(
                        old(self)@.memory,
                        FONTSET_START as int,
                        FONTSET@.subrange(0, k as int),
                    ),
                    ..old(self)@
                }),
            decreases 80 - k,
        {
            self.memory[FONTSET_START + k] = FONTSET[k];
            k = k + 1;
            assert(self@.memory =~= write_bytes(
                old(self)@.memory,
                FONTSET_START as int,
                FONTSET@.subrange(0, k as int),
            ));
        }
        assert(FONTSET@.subrange(0, 80) =~= FONTSET@);
    }

    /// Reads the instruction word at the program counter, high byte first.
    pub fn get_opcode(&self) -> (r: Result<u16, CpuError>)
        ensures
            r == fetch(self@),
    {
        if self.pc >= MEMORY_SIZE - 1 {
            return Err(CpuError::OutOfBoundsAccess);
        }
        let high = self.memory[self.pc];
        let low = self.memory[self.pc + 1];
        assert(((high as u16) << 8) | (low as u16) == high * 256 + low) by (bit_vector);
        Ok(((high as u16) << 8) | (low as u16))
    }

    /// Runs one cycle. A machine that waits for a key only counts its timers
    /// down. Otherwise the instruction at the program counter is fetched,
    /// decoded and executed, and then the timers are counted down. On a
    /// failure nothing has changed, the timers included.
    pub fn emulate_cycle(&mut self) -> (r: Result<(), CpuError>)
        requires
            old(self).wf(),
        ensures
            final(self).wf(),
            carried_out(old(self)@, final(self)@, r, cycle(old(self)@)),
    {
        if self.waiting.is_none() {
            let word = match self.get_opcode() {
                Ok(word) => word,
                Err(e) => {
                    return Err(e);
                },
            };
            let opcode = match Opcode::decode(word) {
                Ok(opcode) => opcode,
                Err(e) => {
                    return Err(e);
                },
            };
            match self.execute_opcode(opcode) {
                Ok(()) => {},
                Err(e) => {
                    return Err(e);
                },
            }
        }
        self.tick_timers();
        Ok(())
    }

    /// Counts both timers down once; a timer at zero stays there.
    fn tick_timers(&mut self)
        requires
            old(self).wf(),
        ensures
            final(self).wf(),
            final(self)@ == tick(old(self)@),
    {
        if self.delay_timer > 0 {
            self.delay_timer = self.delay_timer - 1;
        }
        if self.sound_timer > 0 {
            self.sound_timer = self.sound_timer - 1;
        }
    }

    /// Takes over a new state of the sixteen keys. A machine that waits for
    /// a key and sees one go down stores the lowest such key in the waiting
    /// register and runs again.
    pub fn set_keys(&mut self, keys: [bool; 16])
        requires
            old(self).wf(),
        ensures
            final(self).wf(),
            final(self)@ == press(old(self)@, keys@),
    {
        let found = Self::find_press(&self.key, &keys);
        self.key = keys;
        match (self.waiting, found) {
            (Some(x), Some(key)) => {
                self.v[x as usize] = key;
                self.waiting = None;
            },
            _ => {},
        }
    }

    /// The lowest key that is down in `after` and was up in `before`.
    fn find_press(before: &[bool; 16], after: &[bool; 16]) -> (found: Option<u8>)
        ensures
            found == first_press(before@, after@, 0),
            found matches Some(key) ==> key < 16,
    {
        let mut k: u8 = 0;
        while k < 16
            invariant
                k <= 16,
                first_press(before@, after@, 0) == first_press(before@, after@, k as int),
            decreases 16 - k,
        {
            if !before[k as usize] && after[k as usize] {
                return Some(k);
            }
            k = k + 1;
        }
        None
    }

    /// Sets the state of the random number generator.
    pub fn seed(&mut self, seed: u32)
        requires
            old(self).wf(),
        ensures
            final(self).wf(),
            final(self)@ == (Machine { rng: seed, ..old(self)@ }),
    {
        self.rng = seed;
    }

    /// Applies one operation: its effect on registers, memory, stack, display
    /// and timers, and the move of the program counter. On a failure nothing
    /// has changed.
    pub fn execute_opcode(&mut self, opcode: Opcode) -> (r: Result<(), CpuError>)
        requires
            old(self).wf(),
            opcode.well_formed(),
        ensures
            final(self).wf(),
            carried_out(old(self)@, final(self)@, r, execute(old(self)@, opcode)),
    {
        match opcode {
            Opcode::CallMachineRoutine { addr } => self.skip_if(false),
            Opcode::ClearScreen => self.clear_screen(),
            Opcode::Return => self.return_from_subroutine(),
            Opcode::Jump { addr } => self.jump(addr as usize),
            Opcode::CallSubroutine { addr } => self.call_subroutine(addr),
            Opcode::SkipIfEqual { x, nn } => {
                let skip = self.v[x as usize] == nn;
                self.skip_if(skip)
            },
            Opcode::SkipIfNotEqual { x, nn } => {
                let skip = self.v[x as usize] != nn;
                self.skip_if(skip)
            },
            Opcode::SkipIfRegistersEqual { x, y } => {
                let skip = self.v[x as usize] == self.v[y as usize];
                self.skip_if(skip)
            },
            Opcode::SetRegister { x, nn } => self.set_register(x, nn),
            Opcode::AddToRegister { x, nn } => {
                let sum = add_wrapping(self.v[x as usize], nn);
                self.set_register(x, sum)
            },
            Opcode::AssignRegister { x, y } => {
                let value = self.v[y as usize];
                self.set_register(x, value)
            },
            Opcode::Or { x, y } => {
                let value = self.v[x as usize] | self.v[y as usize];
                self.set_register(x, value)
            },
            Opcode::And { x, y } => {
                let value = self.v[x as usize] & self.v[y as usize];
                self.set_register(x, value)
            },
            Opcode::Xor { x, y } => {
                let value = self.v[x as usize] ^ self.v[y as usize];
                self.set_register(x, value)
            },
            Opcode::AddRegisters { x, y } => {
                let (carry, sum) = add_with_carry(self.v[x as usize], self.v[y as usize]);
                self.set_flag_and_register(carry, x, sum)
            },
            Opcode::SubtractXY { x, y } => {
                let (no_borrow, difference) = sub_with_borrow(
                    self.v[x as usize],
                    self.v[y as usize],
                );
                self.set_flag_and_register(no_borrow, x, difference)
            },
            Opcode::ShiftRight { x, y } => {
                let (out, shifted) = shift_right(self.v[y as usize]);
                self.set_flag_and_register(out, x, shifted)
            },
            Opcode::SubtractYX { x, y } => {
                let (no_borrow, difference) = sub_with_borrow(
                    self.v[y as usize],
                    self.v[x as usize],
                );
                self.set_flag_and_register(no_borrow, x, difference)
            },
            Opcode::ShiftLeft { x, y } => {
                let (out, shifted) = shift_left(self.v[y as usize]);
                self.set_flag_and_register(out, x, shifted)
            },
            Opcode::SkipIfRegistersNotEqual { x, y } => {
                let skip = self.v[x as usize] != self.v[y as usize];
                self.skip_if(skip)
            },
            Opcode::SetIndex { addr } => self.set_index(addr as usize),
            Opcode::JumpWithOffset { addr } => {
                let target = addr as usize + self.v[0] as usize;
                self.jump(target)
            },
            Opcode::Random { x, nn } => self.random(x, nn),
            Opcode::Draw { x, y, height } => self.draw(x, y, height),
            Opcode::SkipIfKeyPressed { x } => self.skip_if_key(x, true),
            Opcode::SkipIfKeyNotPressed { x } => self.skip_if_key(x, false),
            Opcode::GetDelayTimer { x } => {
                let value = self.delay_timer;
                self.set_register(x, value)
            },
            Opcode::WaitForKey { x } => self.wait_for_key(x),
            Opcode::SetDelayTimer { x } => {
                let value = self.v[x as usize];
                self.set_timers(value, self.sound_timer)
            },
            Opcode::SetSoundTimer { x } => {
                let value = self.v[x as usize];
                self.set_timers(self.delay_timer, value)
            },
            Opcode::AddToIndex { x } => {
                let target = self.i as usize + self.v[x as usize] as usize;
                self.set_index(target)
            },
            Opcode::SetIndexToSprite { x } => {
                let digit = self.v[x as usize] % 16;
                self.set_index(FONTSET_START + GLYPH_SIZE * digit as usize)
            },
            Opcode::StoreBCD { x } => self.store_bcd(x),
            Opcode::StoreRegisters { x } => self.store_registers(x),
            Opcode::LoadRegisters { x } => self.load_registers(x),
        }
    }

    /// Moves the program counter past this instruction, and past the next
    /// one too when `skip` holds.
    fn skip_if(&mut self, skip: bool) -> (r: Result<(), CpuError>)
        requires
            old(self).wf(),
        ensures
            final(self).wf(),
            carried_out(old(self)@, final(self)@, r, old(self)@.skip_if(skip)),
    {
        let by: usize = if skip {
            4
        } else {
            2
        };
        if self.pc + by < MEMORY_SIZE {
            self.pc = self.pc + by;
            Ok(())
        } else {
            Err(CpuError::OutOfBoundsAccess)
        }
    }

    /// Checks that register `x` holds a key index, and skips the next
    /// instruction when that key's state is `pressed`.
    fn skip_if_key(&mut self, x: u8, pressed: bool) -> (r: Result<(), CpuError>)
        requires
            old(self).wf(),
            x < 16,
        ensures
            final(self).wf(),
            carried_out(
                old(self)@,
                final(self)@,
                r,
                if old(self)@.reg(x) < 16 {
                    old(self)@.skip_if(old(self)@.keys[old(self)@.reg(x) as int] == pressed)
                } else {
                    Err(CpuError::InvalidKeyIndex)
                },
            ),
    {
        let key = self.v[x as usize];
        if key < 16 {
            let skip = self.key[key as usize] == pressed;
            self.skip_if(skip)
        } else {
            Err(CpuError::InvalidKeyIndex)
        }
    }

    /// Continues at `target`, where that is an address.
    fn jump(&mut self, target: usize) -> (r: Result<(), CpuError>)
        requires
            old(self).wf(),
        ensures
            final(self).wf(),
            carried_out(
                old(self)@,
                final(self)@,
                r,
                if target < MEMORY_SIZE {
                    Ok(Machine { pc: target as int, ..old(self)@ })
                } else {
                    Err(CpuError::OutOfBoundsAccess)
                },
            ),
    {
        if target < MEMORY_SIZE {
            self.pc = target;
            Ok(())
        } else {
            Err(CpuError::OutOfBoundsAccess)
        }
    }

    /// Pushes the address of the next instruction and continues at `addr`.
    fn call_subroutine(&mut self, addr: u16) -> (r: Result<(), CpuError>)
        requires
            old(self).wf(),
            addr < 4096,
        ensures
            final(self).wf(),
            carried_out(
                old(self)@,
                final(self)@,
                r,
                execute(old(self)@, Opcode::CallSubroutine { addr }),
            ),
    {
        if self.pc + 2 < MEMORY_SIZE {
            self.stack.push((self.pc + 2) as u16);
            self.pc = addr as usize;
            Ok(())
        } else {
            Err(CpuError::OutOfBoundsAccess)
        }
    }

    /// Pops the latest return address and continues there.
    fn return_from_subroutine(&mut self) -> (r: Result<(), CpuError>)
        requires
            old(self).wf(),
        ensures
            final(self).wf(),
            carried_out(old(self)@, final(self)@, r, execute(old(self)@, Opcode::Return)),
    {
        match self.stack.pop() {
            Some(addr) => {
                self.pc = addr as usize;
                Ok(())
            },
            None => Err(CpuError::StackUnderflow),
        }
    }

    /// Turns every cell of the display off.
    fn clear_screen(&mut self) -> (r: Result<(), CpuError>)
        requires
            old(self).wf(),
        ensures
            final(self).wf(),
            carried_out(old(self)@, final(self)@, r, execute(old(self)@, Opcode::ClearScreen)),
    {
        if self.pc + 2 < MEMORY_SIZE {
            self.gfx = [false;2048];
            self.pc = self.pc + 2;
            assert(self.gfx@ =~= Seq::new(2048, |c: int| false));
            Ok(())
        } else {
            Err(CpuError::OutOfBoundsAccess)
        }
    }

    /// Stores `value` in register `x` and moves on to the next instruction.
    fn set_register(&mut self, x: u8, value: u8) -> (r: Result<(), CpuError>)
        requires
            old(self).wf(),
            x < 16,
        ensures
            final(self).wf(),
            carried_out(old(self)@, final(self)@, r, old(self)@.with_reg(x, value).advance(2)),
    {
        if self.pc + 2 < MEMORY_SIZE {
            self.v[x as usize] = value;
            self.pc = self.pc + 2;
            Ok(())
        } else {
            Err(CpuError::OutOfBoundsAccess)
        }
    }

    /// Stores `flag` in the flag register, then `value` in register `x`, and
    /// moves on to the next instruction.
    fn set_flag_and_register(&mut self, flag: u8, x: u8, value: u8) -> (r: Result<(), CpuError>)
        requires
            old(self).wf(),
            x < 16,
        ensures
            final(self).wf(),
            carried_out(
                old(self)@,
                final(self)@,
                r,
                old(self)@.with_flag_and_reg(flag, x, value).advance(2),
            ),
    {
        if self.pc + 2 < MEMORY_SIZE {
            self.v[0xF] = flag;
            self.v[x as usize] = value;
            self.pc = self.pc + 2;
            Ok(())
        } else {
            Err(CpuError::OutOfBoundsAccess)
        }
    }

    /// Points the index register at `target`, where that is an address, and
    /// moves on to the next instruction.
    fn set_index(&mut self, target: usize) -> (r: Result<(), CpuError>)
        requires
            old(self).wf(),
        ensures
            final(self).wf(),
            carried_out(
                old(self)@,
                final(self)@,
                r,
                if target < MEMORY_SIZE {
                    Machine { i: target as int, ..old(self)@ }.advance(2)
                } else {
                    Err(CpuError::OutOfBoundsAccess)
                },
            ),
    {
        if target < MEMORY_SIZE && self.pc + 2 < MEMORY_SIZE {
            self.i = target as u16;
            self.pc = self.pc + 2;
            Ok(())
        } else {
            Err(CpuError::OutOfBoundsAccess)
        }
    }

    /// Sets both timers and moves on to the next instruction.
    fn set_timers(&mut self, delay: u8, sound: u8) -> (r: Result<(), CpuError>)
        requires
            old(self).wf(),
        ensures
            final(self).wf(),
            carried_out(
                old(self)@,
                final(self)@,
                r,
                Machine { delay_timer: delay, sound_timer: sound, ..old(self)@ }.advance(2),
            ),
    {
        if self.pc + 2 < MEMORY_SIZE {
            self.delay_timer = delay;
            self.sound_timer = sound;
            self.pc = self.pc + 2;
            Ok(())
        } else {
            Err(CpuError::OutOfBoundsAccess)
        }
    }

    /// Steps the generator and stores its byte, masked by `nn`, in register
    /// `x`.
    fn random(&mut self, x: u8, nn: u8) -> (r: Result<(), CpuError>)
        requires
            old(self).wf(),
            x < 16,
        ensures
            final(self).wf(),
            carried_out(
                old(self)@,
                final(self)@,
                r,
                execute(old(self)@, Opcode::Random { x, nn }),
            ),
    {
        if self.pc + 2 < MEMORY_SIZE {
            self.rng = step(self.rng);
            self.v[x as usize] = top_byte(self.rng) & nn;
            self.pc = self.pc + 2;
            Ok(())
        } else {
            Err(CpuError::OutOfBoundsAccess)
        }
    }

    /// Draws the sprite of `height` rows at the index register onto the
    /// display at the position in registers `x` and `y`, and sets the flag
    /// register to 1 if a lit cell went dark, else to 0.
    fn draw(&mut self, x: u8, y: u8, height: u8) -> (r: Result<(), CpuError>)
        requires
            old(self).wf(),
            x < 16,
            y < 16,
            height < 16,
        ensures
            final(self).wf(),
            carried_out(
                old(self)@,
                final(self)@,
                r,
                execute(old(self)@, Opcode::Draw { x, y, height }),
            ),
    {
        if self.pc + 2 < MEMORY_SIZE && self.i as usize + height as usize <= MEMORY_SIZE {
            let px = self.v[x as usize];
            let py = self.v[y as usize];
            let hit = draw_sprite(&mut self.gfx, &self.memory, self.i as usize, height, px, py);
            self.v[0xF] = if hit {
                1
            } else {
                0
            };
            self.pc = self.pc + 2;
            Ok(())
        } else {
            Err(CpuError::OutOfBoundsAccess)
        }
    }

    /// Blocks the machine until a key goes down; register `x` will receive
    /// the key.
    fn wait_for_key(&mut self, x: u8) -> (r: Result<(), CpuError>)
        requires
            old(self).wf(),
            x < 16,
        ensures
            final(self).wf(),
            carried_out(
                old(self)@,
                final(self)@,
                r,
                execute(old(self)@, Opcode::WaitForKey { x }),
            ),
    {
        if self.pc + 2 < MEMORY_SIZE {
            self.waiting = Some(x);
            self.pc = self.pc + 2;
            Ok(())
        } else {
            Err(CpuError::OutOfBoundsAccess)
        }
    }

    /// Writes the three decimal digits of register `x` to memory at the
    /// index register.
    fn store_bcd(&mut self, x: u8) -> (r: Result<(), CpuError>)
        requires
            old(self).wf(),
            x < 16,
        ensures
            final(self).wf(),
            carried_out(
                old(self)@,
                final(self)@,
                r,
                execute(old(self)@, Opcode::StoreBCD { x }),
            ),
    {
        let at = self.i as usize;
        if self.pc + 2 < MEMORY_SIZE && at + 3 <= MEMORY_SIZE {
            let value = self.v[x as usize];
            self.memory[at] = value / 100;
            self.memory[at + 1] = (value / 10) % 10;
            self.memory[at + 2] = value % 10;
            self.pc = self.pc + 2;
            assert(self.memory@ =~= write_bytes(old(self)@.memory, at as int, bcd(value)));
            Ok(())
        } else {
            Err(CpuError::OutOfBoundsAccess)
        }
    }

    /// Copies the registers V0 to V`x` to memory from the index register on.
    fn store_registers(&mut self, x: u8) -> (r: Result<(), CpuError>)
        requires
            old(self).wf(),
            x < 16,
        ensures
            final(self).wf(),
            carried_out(
                old(self)@,
                final(self)@,
                r,
                execute(old(self)@, Opcode::StoreRegisters { x }),
            ),
    {
        let at = self.i as usize;
        if !(self.pc + 2 < MEMORY_SIZE && at + (x as usize) < MEMORY_SIZE) {
            return Err(CpuError::OutOfBoundsAccess);
        }
        let mut k: usize = 0;
        assert(self@.memory =~= write_bytes(self@.memory, at as int, self@.v.subrange(0, 0)));
        while k <= x as usize
            invariant
                k <= x + 1,
                x < 16,
                at + x < MEMORY_SIZE,
                at == old(self)@.i,
                self@ == (Machine {
                    memory: write_bytes(
                        old(self)@.memory,
                        at as int,
                        old(self)@.v.subrange(0, k as int),
                    ),
                    ..old(self)@
                }),
            decreases x + 1 - k,
        {
            self.memory[at + k] = self.v[k];
            k = k + 1;
            assert(self@.memory =~= write_bytes(
                old(self)@.memory,
                at as int,
                old(self)@.v.subrange(0, k as int),
            ));
        }
        self.pc = self.pc + 2;
        Ok(())
    }

    /// Copies memory from the index register on into the registers V0 to
    /// V`x`.
    fn load_registers(&mut self, x: u8) -> (r: Result<(), CpuError>)
        requires
            old(self).wf(),
            x < 16,
        ensures
            final(self).wf(),
            carried_out(
                old(self)@,
                final(self)@,
                r,
                execute(old(self)@, Opcode::LoadRegisters { x }),
            ),
    {
        let at = self.i as usize;
        if !(self.pc + 2 < MEMORY_SIZE && at + (x as usize) < MEMORY_SIZE) {
            return Err(CpuError::OutOfBoundsAccess);
        }
        let mut k: usize = 0;
        assert(self@.v =~= Seq::new(
            16,
            |j: int|
                if j < 0 {
                    self@.memory[at + j]
                } else {
                    self@.v[j]
                },
        ));
        while k <= x as usize
            invariant
                k <= x + 1,
                x < 16,
                at + x < MEMORY_SIZE,
                at == old(self)@.i,
                self@ == (Machine {
                    v: Seq::new(
                        16,
                        |j: int|
                            if j < k {
                                old(self)@.memory[at + j]
                            } else {
                                old(self)@.v[j]
                            },
                    ),
                    ..old(self)@
                }),
            decreases x + 1 - k,
        {
            self.v[k] = self.memory[at + k];
            k = k + 1;
            assert(self@.v =~= Seq::new(
                16,
                |j: int|
                    if j < k {
                        old(self)@.memory[at + j]
                    } else {
                        old(self)@.v[j]
                    },
            ));
        }
        assert(self@.v =~= Seq::new(
            16,
            |j: int|
                if j <= x {
                    old(self)@.memory[at + j]
                } else {
                    old(self)@.v[j]
                },
        ));
        self.pc = self.pc + 2;
        Ok(())
    }
    /// The address of the next instruction.
    pub fn pc(&self) -> (r: usize)
        ensures
            r == self@.pc,
    {
        self.pc
    }

    /// The index register.
    pub fn index(&self) -> (r: u16)
        ensures
            r == self@.i,
    {
        self.i
    }

    /// The registers V0 to VF.
    pub fn registers(&self) -> (r: &[u8; 16])
        ensures
            r@ == self@.v,
    {
        &self.v
    }

    /// The 4096 bytes of memory.
    pub fn memory(&self) -> (r: &[u8; 4096])
        ensures
            r@ == self@.memory,
    {
        &self.memory
    }

    /// The display: 32 rows of 64 cells, row after row; `true` is lit.
    pub fn framebuffer(&self) -> (r: &[bool; 2048])
        ensures
            r@ == self@.gfx,
    {
        &self.gfx
    }

    /// The state of the sixteen keys as last taken over.
    pub fn keys(&self) -> (r: &[bool; 16])
        ensures
            r@ == self@.keys,
    {
        &self.key
    }

    /// The return addresses of the calls in progress, the latest last.
    pub fn stack(&self) -> (r: &Vec<u16>)
        ensures
            r@ == self@.stack,
    {
        &self.stack
    }

    /// The delay timer.
    pub fn delay_timer(&self) -> (r: u8)
        ensures
            r == self@.delay_timer,
    {
        self.delay_timer
    }

    /// The sound timer.
    pub fn sound_timer(&self) -> (r: u8)
        ensures
            r == self@.sound_timer,
    {
        self.sound_timer
    }

    /// Whether a tone should be playing now: the sound timer is not zero.
    pub fn sound_active(&self) -> (r: bool)
        ensures
            r == (self@.sound_timer > 0),
    {
        self.sound_timer > 0
    }

    /// The register that waits for a key press, while the machine is
    /// blocked.
    pub fn waiting_for_key(&self) -> (r: Option<u8>)
        ensures
            r == self@.waiting,
    {
        self.waiting
    }
}

} // verus!
