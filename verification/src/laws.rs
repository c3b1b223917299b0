//! What holds of the machine whatever the program: laws that relate the
//! operations to one another, proved over the model.

use vstd::prelude::*;
use crate::display::{
    blit, collides, collision_count, covers, flag_of, lemma_count_positive, lights, lit_count,
};
use crate::error::CpuError;
use crate::font::{FONTSET, MEMORY_SIZE};
use crate::machine::{
    bcd, cycle, execute, fetch, first_press, glyph_address, initial, load, press, tick, Machine,
};
use crate::opcode::{
    family_of, is_known, lemma_word_from_address, lemma_word_from_byte, lemma_word_from_nibbles,
    lemma_word_into_nibbles, n_of, Opcode,
};

verus! {

/// Decoding is total: a word of a known shape gives an operation whose
/// operands are in range, and every other word gives `UnknownOpcode` with
/// the word itself.
pub proof fn law_decode_total(word: u16)
    ensures
        is_known(word) ==> Opcode::spec_decode(word) is Ok && Opcode::spec_decode(
            word,
        )->Ok_0.well_formed(),
        !is_known(word) ==> Opcode::spec_decode(word) == Err::<Opcode, CpuError>(
            CpuError::UnknownOpcode(word),
        ),
{
}

/// Decoding undoes encoding: the word that stands for an operation decodes
/// to that operation, operands included. The two native routine calls whose
/// words are taken by `ClearScreen` and `Return` are the only exceptions.
pub proof fn law_decode_inverts_encoding(op: Opcode)
    requires
        op.well_formed(),
        op != (Opcode::CallMachineRoutine { addr: 0x0E0 }),
        op != (Opcode::CallMachineRoutine { addr: 0x0EE }),
    ensures
        Opcode::spec_decode(op.encoding()) == Ok::<Opcode, CpuError>(op),
{
    let word = op.encoding();
    match op {
        Opcode::CallMachineRoutine { addr } => {
            lemma_word_from_address(0, addr);
        },
        Opcode::ClearScreen => {
            lemma_word_from_nibbles(0, 0, 0xE, 0);
        },
        Opcode::Return => {
            lemma_word_from_nibbles(0, 0, 0xE, 0xE);
        },
        Opcode::Jump { addr } => {
            lemma_word_from_address(1, addr);
        },
        Opcode::CallSubroutine { addr } => {
            lemma_word_from_address(2, addr);
        },
        Opcode::SkipIfEqual { x, nn } => {
            lemma_word_from_byte(3, x, nn);
        },
        Opcode::SkipIfNotEqual { x, nn } => {
            lemma_word_from_byte(4, x, nn);
        },
        Opcode::SkipIfRegistersEqual { x, y } => {
            lemma_word_from_nibbles(5, x as int, y as int, 0);
        },
        Opcode::SetRegister { x, nn } => {
            lemma_word_from_byte(6, x, nn);
        },
        Opcode::AddToRegister { x, nn } => {
            lemma_word_from_byte(7, x, nn);
        },
        Opcode::AssignRegister { x, y } => {
            lemma_word_from_nibbles(8, x as int, y as int, 0);
        },
        Opcode::Or { x, y } => {
            lemma_word_from_nibbles(8, x as int, y as int, 1);
        },
        Opcode::And { x, y } => {
            lemma_word_from_nibbles(8, x as int, y as int, 2);
        },
        Opcode::Xor { x, y } => {
            lemma_word_from_nibbles(8, x as int, y as int, 3);
        },
        Opcode::AddRegisters { x, y } => {
            lemma_word_from_nibbles(8, x as int, y as int, 4);
        },
        Opcode::SubtractXY { x, y } => {
            lemma_word_from_nibbles(8, x as int, y as int, 5);
        },
        Opcode::ShiftRight { x, y } => {
            lemma_word_from_nibbles(8, x as int, y as int, 6);
        },
        Opcode::SubtractYX { x, y } => {
            lemma_word_from_nibbles(8, x as int, y as int, 7);
        },
        Opcode::ShiftLeft { x, y } => {
            lemma_word_from_nibbles(8, x as int, y as int, 0xE);
        },
        Opcode::SkipIfRegistersNotEqual { x, y } => {
            lemma_word_from_nibbles(9, x as int, y as int, 0);
        },
        Opcode::SetIndex { addr } => {
            lemma_word_from_address(10, addr);
        },
        Opcode::JumpWithOffset { addr } => {
            lemma_word_from_address(11, addr);
        },
        Opcode::Random { x, nn } => {
            lemma_word_from_byte(12, x, nn);
        },
        Opcode::Draw { x, y, height } => {
            lemma_word_from_nibbles(13, x as int, y as int, height as int);
        },
        Opcode::SkipIfKeyPressed { x } => {
            lemma_word_from_nibbles(14, x as int, 0x9, 0xE);
        },
        Opcode::SkipIfKeyNotPressed { x } => {
            lemma_word_from_nibbles(14, x as int, 0xA, 0x1);
        },
        Opcode::GetDelayTimer { x } => {
            lemma_word_from_nibbles(15, x as int, 0x0, 0x7);
        },
        Opcode::WaitForKey { x } => {
            lemma_word_from_nibbles(15, x as int, 0x0, 0xA);
        },
        Opcode::SetDelayTimer { x } => {
            lemma_word_from_nibbles(15, x as int, 0x1, 0x5);
        },
        Opcode::SetSoundTimer { x } => {
            lemma_word_from_nibbles(15, x as int, 0x1, 0x8);
        },
        Opcode::AddToIndex { x } => {
            lemma_word_from_nibbles(15, x as int, 0x1, 0xE);
        },
        Opcode::SetIndexToSprite { x } => {
            lemma_word_from_nibbles(15, x as int, 0x2, 0x9);
        },
        Opcode::StoreBCD { x } => {
            lemma_word_from_nibbles(15, x as int, 0x3, 0x3);
        },
        Opcode::StoreRegisters { x } => {
            lemma_word_from_nibbles(15, x as int, 0x5, 0x5);
        },
        Opcode::LoadRegisters { x } => {
            lemma_word_from_nibbles(15, x as int, 0x6, 0x5);
        },
    }
}

/// Encoding undoes decoding: a known word is the word that stands for the
/// operation it decodes to, but for the low nibble that families `5` and
/// `9` ignore. So two words decode to one operation only if they differ in
/// nothing but that nibble.
pub proof fn law_encoding_inverts_decode(word: u16)
    requires
        is_known(word),
    ensures
        Opcode::spec_decode(word) is Ok,
        Opcode::spec_decode(word)->Ok_0.encoding() == (if family_of(word) == 5 || family_of(word)
            == 9 {
            word - n_of(word)
        } else {
            word as int
        }),
{
    lemma_word_into_nibbles(word);
}

/// Adding two registers succeeds exactly when the next instruction lies in
/// memory. Register `x` then holds the sum modulo 256, and the flag register
/// holds 1 if the sum is above 255 and 0 if not, unless `x` is the flag
/// register itself, which then holds the sum.
pub proof fn law_add_registers(m: Machine, x: u8, y: u8)
    requires
        m.wf(),
        x < 16,
        y < 16,
    ensures
        execute(m, Opcode::AddRegisters { x, y }) is Ok <==> m.pc + 2 < MEMORY_SIZE,
        execute(m, Opcode::AddRegisters { x, y }) matches Ok(n) ==> {
            &&& n.reg(x) == (m.reg(x) + m.reg(y)) % 256
            &&& x != 0xF ==> n.reg(0xF) == (if m.reg(x) + m.reg(y) > 255 {
                1int
            } else {
                0int
            })
            &&& n == Machine { v: n.v, pc: m.pc + 2, ..m }
            &&& forall|k: int| 0 <= k < 15 && k != x ==> n.v[k] == m.v[k]
        },
{
}

/// Subtracting register `y` from register `x` succeeds exactly when the next
/// instruction lies in memory. Register `x` then holds the difference modulo
/// 256, and the flag register holds 1 if `x` was at least `y` and 0 if not,
/// unless `x` is the flag register itself, which then holds the difference.
pub proof fn law_subtract_xy(m: Machine, x: u8, y: u8)
    requires
        m.wf(),
        x < 16,
        y < 16,
    ensures
        execute(m, Opcode::SubtractXY { x, y }) is Ok <==> m.pc + 2 < MEMORY_SIZE,
        execute(m, Opcode::SubtractXY { x, y }) matches Ok(n) ==> {
            &&& n.reg(x) == (m.reg(x) - m.reg(y)) % 256
            &&& x != 0xF ==> n.reg(0xF) == (if m.reg(x) >= m.reg(y) {
                1int
            } else {
                0int
            })
            &&& n == Machine { v: n.v, pc: m.pc + 2, ..m }
            &&& forall|k: int| 0 <= k < 15 && k != x ==> n.v[k] == m.v[k]
        },
{
}

/// Drawing a sprite twice at one position gives back the framebuffer as it
/// was.
pub proof fn law_draw_twice_restores(fb: Seq<bool>, sprite: Seq<u8>, px: int, py: int)
    ensures
        blit(blit(fb, sprite, px, py), sprite, px, py) == fb,
{
    assert(blit(blit(fb, sprite, px, py), sprite, px, py) =~= fb);
}

/// The second of two draws of a sprite at one position turns a lit cell off
/// exactly when the first draw lit a dark cell.
pub proof fn law_second_draw_collides(fb: Seq<bool>, sprite: Seq<u8>, px: int, py: int)
    ensures
        collides(blit(fb, sprite, px, py), sprite, px, py) == lights(fb, sprite, px, py),
{
    let drawn = blit(fb, sprite, px, py);
    if collides(drawn, sprite, px, py) {
        let cell = choose|cell: int|
            0 <= cell < drawn.len() && drawn[cell] && #[trigger] covers(sprite, px, py, cell);
        assert(0 <= cell < fb.len() && !fb[cell] && covers(sprite, px, py, cell));
    }
    if lights(fb, sprite, px, py) {
        let cell = choose|cell: int|
            0 <= cell < fb.len() && !fb[cell] && #[trigger] covers(sprite, px, py, cell);
        assert(0 <= cell < drawn.len() && drawn[cell] && covers(sprite, px, py, cell));
    }
}

/// The flag of the second of two draws equals the number of cells that the
/// first draw turned off, for the draws where a flag can equal that number:
/// the first draw turned no cell off and lit none, or it turned one cell off
/// and lit at least one.
pub proof fn law_second_draw_flag_counts_first_collisions(
    fb: Seq<bool>,
    sprite: Seq<u8>,
    px: int,
    py: int,
)
    requires
        (collision_count(fb, sprite, px, py) == 0 && lit_count(fb, sprite, px, py) == 0) || (
        collision_count(fb, sprite, px, py) == 1 && lit_count(fb, sprite, px, py) >= 1),
    ensures
        flag_of(collides(blit(fb, sprite, px, py), sprite, px, py)) == collision_count(
            fb,
            sprite,
            px,
            py,
        ),
{
    law_second_draw_collides(fb, sprite, px, py);
    lemma_count_positive(fb, sprite, px, py, false, fb.len() as int);
}

/// The flag of a draw is 1 exactly when the draw turned at least one cell
/// off.
pub proof fn law_flag_is_set_by_collisions(fb: Seq<bool>, sprite: Seq<u8>, px: int, py: int)
    ensures
        flag_of(collides(fb, sprite, px, py)) == (if collision_count(fb, sprite, px, py) > 0 {
            1u8
        } else {
            0u8
        }),
{
    lemma_count_positive(fb, sprite, px, py, true, fb.len() as int);
}

/// Two draw instructions in a row that find the same position in their
/// registers leave the display as it was before the first, and the second
/// sets the flag register to 1 exactly when the first lit a dark cell.
pub proof fn law_draw_instruction_twice(m: Machine, x: u8, y: u8, height: u8)
    requires
        m.wf(),
        x < 16,
        y < 16,
        height < 16,
        execute(m, Opcode::Draw { x, y, height }) matches Ok(once) && once.reg(x) == m.reg(x)
            && once.reg(y) == m.reg(y) && execute(once, Opcode::Draw { x, y, height }) is Ok,
    ensures
        ({
            let once = execute(m, Opcode::Draw { x, y, height })->Ok_0;
            let twice = execute(once, Opcode::Draw { x, y, height })->Ok_0;
            let sprite = m.memory.subrange(m.i, m.i + height);
            &&& twice.gfx == m.gfx
            &&& twice.reg(0xF) == flag_of(
                lights(m.gfx, sprite, m.reg(x) as int, m.reg(y) as int),
            )
        }),
{
    let sprite = m.memory.subrange(m.i, m.i + height);
    law_draw_twice_restores(m.gfx, sprite, m.reg(x) as int, m.reg(y) as int);
    law_second_draw_collides(m.gfx, sprite, m.reg(x) as int, m.reg(y) as int);
}

/// A return on an empty stack is a stack underflow.
pub proof fn law_return_on_empty_stack(m: Machine)
    requires
        m.stack.len() == 0,
    ensures
        execute(m, Opcode::Return) == Err::<Machine, CpuError>(CpuError::StackUnderflow),
{
}

/// A call followed at once by a return continues at the instruction after
/// the call, with the stack as it was.
pub proof fn law_call_then_return(m: Machine, addr: u16)
    requires
        m.wf(),
        addr < 4096,
        m.pc + 2 < MEMORY_SIZE,
    ensures
        execute(m, Opcode::CallSubroutine { addr }) matches Ok(called) && called.pc == addr
            && execute(called, Opcode::Return) == Ok::<Machine, CpuError>(
            Machine { pc: m.pc + 2, ..m },
        ),
{
    let called = execute(m, Opcode::CallSubroutine { addr })->Ok_0;
    assert(called.stack.drop_last() =~= m.stack);
}

/// Every operation takes a machine in a reachable state to a reachable
/// state: the program counter and the index register stay inside memory,
/// every return address does, and all parts keep their size.
pub proof fn law_execute_keeps_invariant(m: Machine, op: Opcode)
    requires
        m.wf(),
        op.well_formed(),
    ensures
        execute(m, op) matches Ok(n) ==> n.wf(),
{
}

/// Every cycle takes a machine in a reachable state to a reachable state.
pub proof fn law_cycle_keeps_invariant(m: Machine)
    requires
        m.wf(),
    ensures
        cycle(m) matches Ok(n) ==> n.wf(),
{
    if m.waiting is None && fetch(m) is Ok {
        let word = fetch(m)->Ok_0;
        law_decode_total(word);
        if Opcode::spec_decode(word) is Ok {
            law_execute_keeps_invariant(m, Opcode::spec_decode(word)->Ok_0);
        }
    }
}

/// A machine that waits for a key runs no instruction: a cycle only counts
/// the timers down, and the program counter stays.
pub proof fn law_blocked_machine_stands_still(m: Machine)
    requires
        m.waiting is Some,
    ensures
        cycle(m) == Ok::<Machine, CpuError>(tick(m)),
        tick(m).pc == m.pc,
        tick(m).waiting == m.waiting,
{
}

/// The key that `first_press` finds went down, and no lower key did; it
/// finds none only when no key went down.
pub proof fn law_first_press_is_lowest(before: Seq<bool>, after: Seq<bool>, from: int)
    requires
        0 <= from <= 16,
    ensures
        match first_press(before, after, from) {
            Some(key) => from <= key < 16 && !before[key as int] && after[key as int]
                && forall|k: int| from <= k < key ==> before[k] || !after[k],
            None => forall|k: int| from <= k < 16 ==> before[k] || !after[k],
        },
    decreases 16 - from,
{
    if from < 16 && !(!before[from] && after[from]) {
        law_first_press_is_lowest(before, after, from + 1);
    }
}

/// A key press wakes a blocked machine: the waiting register receives the
/// lowest key that went down, and the machine runs again. Without such a
/// key it stays blocked. Nothing but the keys, that register and the
/// blocking is touched.
pub proof fn law_press_wakes(m: Machine, keys: Seq<bool>)
    requires
        m.wf(),
        keys.len() == 16,
        m.waiting is Some,
    ensures
        press(m, keys).wf(),
        press(m, keys).keys == keys,
        match first_press(m.keys, keys, 0) {
            Some(key) => press(m, keys).waiting is None && press(m, keys).reg(m.waiting->Some_0)
                == key,
            None => press(m, keys).waiting == m.waiting && press(m, keys).v == m.v,
        },
{
    law_first_press_is_lowest(m.keys, keys, 0);
}

/// A program is accepted exactly when it is no longer than 3584 bytes. It
/// then lies from address 512 on, and the rest of memory is as it was.
pub proof fn law_load_fits(m: Machine, program: Seq<u8>)
    requires
        m.wf(),
    ensures
        load(m, program) is Ok <==> program.len() <= 3584,
        load(m, program) is Err ==> load(m, program) == Err::<Machine, CpuError>(
            CpuError::ProgramTooLarge,
        ),
        load(m, program) matches Ok(n) ==> n.wf() && (forall|k: int|
            0 <= k < program.len() ==> n.memory[512 + k] == program[k]) && (forall|a: int|
            0 <= a < 512 ==> n.memory[a] == m.memory[a]) && (forall|a: int|
            512 + program.len() <= a < 4096 ==> n.memory[a] == m.memory[a]),
{
}

/// A conditional skip moves the program counter by four bytes when its
/// condition holds and by two when it does not, and touches nothing else.
pub proof fn law_skip_if_equal(m: Machine, x: u8, nn: u8)
    requires
        m.wf(),
        x < 16,
    ensures
        m.reg(x) == nn && m.pc + 4 < MEMORY_SIZE ==> execute(m, Opcode::SkipIfEqual { x, nn })
            == Ok::<Machine, CpuError>(Machine { pc: m.pc + 4, ..m }),
        m.reg(x) != nn && m.pc + 2 < MEMORY_SIZE ==> execute(m, Opcode::SkipIfEqual { x, nn })
            == Ok::<Machine, CpuError>(Machine { pc: m.pc + 2, ..m }),
{
}

/// The three bytes that the decimal store writes are decimal digits, and
/// they spell the value: hundreds, tens, ones.
pub proof fn law_bcd_digits(value: u8)
    ensures
        bcd(value).len() == 3,
        bcd(value)[0] < 10 && bcd(value)[1] < 10 && bcd(value)[2] < 10,
        100 * bcd(value)[0] + 10 * bcd(value)[1] + bcd(value)[2] == value,
{
}

/// Only the decimal store and the register store write to memory, and they
/// write nowhere but from the index register on: three bytes the one, the
/// registers up to `x` the other.
pub proof fn law_memory_written_only_by_stores(m: Machine, op: Opcode)
    requires
        m.wf(),
        op.well_formed(),
    ensures
        execute(m, op) matches Ok(n) ==> match op {
            Opcode::StoreBCD { x } => forall|a: int|
                0 <= a < MEMORY_SIZE && !(m.i <= a < m.i + 3) ==> n.memory[a] == m.memory[a],
            Opcode::StoreRegisters { x } => forall|a: int|
                0 <= a < MEMORY_SIZE && !(m.i <= a <= m.i + x) ==> n.memory[a] == m.memory[a],
            _ => n.memory == m.memory,
        },
{
}

/// In a machine that was switched on and given a program, the index
/// register is sent to the glyph of a value's low nibble: the five bytes
/// there are that glyph's rows.
pub proof fn law_glyphs_in_place(program: Seq<u8>, value: u8, row: int)
    requires
        load(initial(), program) is Ok,
        0 <= row < 5,
    ensures
        load(initial(), program)->Ok_0.memory[glyph_address(value) + row] == FONTSET@[5 * (value
            % 16) + row],
{
}

} // verus!
