use chip8::cpu::CPU;
use chip8::error::CpuError;
use chip8::font::{FONTSET, FONTSET_START, MEMORY_SIZE, PROGRAM_START};
use chip8::opcode::Opcode;
use chip8::random::{step, top_byte, INCREMENT, MULTIPLIER};

fn machine_with(program: &[u8]) -> CPU {
    let mut cpu = CPU::new();
    cpu.load_program(program).unwrap();
    cpu
}

fn run(cpu: &mut CPU, cycles: usize) {
    for _ in 0..cycles {
        cpu.emulate_cycle().unwrap();
    }
}

#[test]
fn a_new_machine_is_zeroed_with_the_font_in_place() {
    let cpu = CPU::new();
    assert_eq!(cpu.pc(), 512);
    assert_eq!(cpu.index(), 0);
    assert_eq!(cpu.registers(), &[0u8; 16]);
    assert!(cpu.stack().is_empty());
    assert!(cpu.framebuffer().iter().all(|lit| !lit));
    assert!(cpu.keys().iter().all(|down| !down));
    assert_eq!(cpu.delay_timer(), 0);
    assert_eq!(cpu.sound_timer(), 0);
    assert!(!cpu.sound_active());
    assert_eq!(cpu.waiting_for_key(), None);
    for (address, byte) in cpu.memory().iter().enumerate() {
        if address >= FONTSET_START && address < FONTSET_START + 80 {
            assert_eq!(*byte, FONTSET[address - FONTSET_START]);
        } else {
            assert_eq!(*byte, 0);
        }
    }
    assert_eq!(&cpu.memory()[80..85], &[0xF0, 0x90, 0x90, 0x90, 0xF0]);
    assert_eq!(&cpu.memory()[155..160], &[0xF0, 0x80, 0xF0, 0x80, 0x80]);
}

#[test]
fn a_program_of_3584_bytes_is_the_longest_that_loads() {
    let mut cpu = CPU::new();
    assert_eq!(cpu.load_program(&vec![0xAB; 3584]), Ok(()));
    assert_eq!(cpu.memory()[512], 0xAB);
    assert_eq!(cpu.memory()[4095], 0xAB);
    assert_eq!(cpu.memory()[511], 0);

    let mut cpu = CPU::new();
    assert_eq!(cpu.load_program(&vec![0xAB; 3585]), Err(CpuError::ProgramTooLarge));
    assert!(cpu.memory()[512..].iter().all(|byte| *byte == 0));
    assert_eq!(MEMORY_SIZE - PROGRAM_START, 3584);
}

#[test]
fn a_loaded_program_lies_at_the_program_base() {
    let mut cpu = CPU::new();
    assert_eq!(cpu.load_program(&[1, 2, 3]), Ok(()));
    assert_eq!(&cpu.memory()[510..517], &[0, 0, 1, 2, 3, 0, 0]);
    assert_eq!(cpu.pc(), 512);
    assert_eq!(cpu.load_program(&[]), Ok(()));
    assert_eq!(&cpu.memory()[510..517], &[0, 0, 1, 2, 3, 0, 0]);
    assert_eq!(&cpu.memory()[80..85], &[0xF0, 0x90, 0x90, 0x90, 0xF0]);
}

#[test]
fn fetch_reads_the_high_byte_first() {
    let cpu = machine_with(&[0x12, 0x34]);
    assert_eq!(cpu.get_opcode(), Ok(0x1234));
    let cpu = machine_with(&[0xFF, 0x01]);
    assert_eq!(cpu.get_opcode(), Ok(0xFF01));
}

#[test]
fn skip_if_equal_moves_by_four_or_two() {
    let mut cpu = machine_with(&[0x65, 0x05, 0x35, 0x05]);
    run(&mut cpu, 1);
    let before = cpu.pc();
    run(&mut cpu, 1);
    assert_eq!(cpu.pc(), before + 4);

    let mut cpu = machine_with(&[0x65, 0x05, 0x35, 0x06]);
    run(&mut cpu, 1);
    let before = cpu.pc();
    run(&mut cpu, 1);
    assert_eq!(cpu.pc(), before + 2);
}

#[test]
fn the_other_skips() {
    let mut cpu = machine_with(&[0x65, 0x05, 0x45, 0x05]);
    run(&mut cpu, 2);
    assert_eq!(cpu.pc(), 512 + 4);
    let mut cpu = machine_with(&[0x65, 0x05, 0x45, 0x06]);
    run(&mut cpu, 2);
    assert_eq!(cpu.pc(), 512 + 6);
    // V5 == V6 == 0
    let mut cpu = machine_with(&[0x55, 0x60]);
    run(&mut cpu, 1);
    assert_eq!(cpu.pc(), 512 + 4);
    let mut cpu = machine_with(&[0x95, 0x60]);
    run(&mut cpu, 1);
    assert_eq!(cpu.pc(), 512 + 2);
    let mut cpu = machine_with(&[0x65, 0x01, 0x95, 0x60, 0x00, 0x00, 0x55, 0x60]);
    run(&mut cpu, 2);
    assert_eq!(cpu.pc(), 512 + 6);
    run(&mut cpu, 1);
    assert_eq!(cpu.pc(), 512 + 8);
}

#[test]
fn return_on_an_empty_stack_is_an_underflow() {
    let mut cpu = machine_with(&[0x00, 0xEE]);
    let before = cpu.pc();
    assert_eq!(cpu.emulate_cycle(), Err(CpuError::StackUnderflow));
    assert_eq!(cpu.pc(), before);
    assert!(cpu.stack().is_empty());

    let mut cpu = CPU::new();
    assert_eq!(cpu.execute_opcode(Opcode::Return), Err(CpuError::StackUnderflow));
    assert_eq!(cpu.pc(), 512);
}

#[test]
fn call_and_return() {
    // 0x200: call 0x206; 0x202: V1 = 7; ...; 0x206: V0 = 9; 0x208: return
    let mut cpu = machine_with(&[0x22, 0x06, 0x61, 0x07, 0x00, 0x00, 0x60, 0x09, 0x00, 0xEE]);
    run(&mut cpu, 1);
    assert_eq!(cpu.pc(), 0x206);
    assert_eq!(cpu.stack(), &vec![0x202u16]);
    run(&mut cpu, 2);
    assert_eq!(cpu.pc(), 0x202);
    assert!(cpu.stack().is_empty());
    assert_eq!(cpu.registers()[0], 9);
    run(&mut cpu, 1);
    assert_eq!(cpu.registers()[1], 7);
}

#[test]
fn nested_calls_return_in_reverse_order() {
    let mut cpu = CPU::new();
    cpu.execute_opcode(Opcode::CallSubroutine { addr: 0x300 }).unwrap();
    cpu.execute_opcode(Opcode::CallSubroutine { addr: 0x400 }).unwrap();
    assert_eq!(cpu.stack(), &vec![0x202u16, 0x302]);
    cpu.execute_opcode(Opcode::Return).unwrap();
    assert_eq!(cpu.pc(), 0x302);
    cpu.execute_opcode(Opcode::Return).unwrap();
    assert_eq!(cpu.pc(), 0x202);
    assert_eq!(cpu.execute_opcode(Opcode::Return), Err(CpuError::StackUnderflow));
}

#[test]
fn the_stack_is_deeper_than_sixteen() {
    let mut cpu = CPU::new();
    for _ in 0..100 {
        cpu.execute_opcode(Opcode::CallSubroutine { addr: 0x300 }).unwrap();
    }
    assert_eq!(cpu.stack().len(), 100);
}

#[test]
fn jumps() {
    let mut cpu = CPU::new();
    cpu.execute_opcode(Opcode::Jump { addr: 0xABC }).unwrap();
    assert_eq!(cpu.pc(), 0xABC);
    cpu.execute_opcode(Opcode::SetRegister { x: 0, nn: 0x10 }).unwrap();
    cpu.execute_opcode(Opcode::JumpWithOffset { addr: 0x300 }).unwrap();
    assert_eq!(cpu.pc(), 0x310);
    cpu.execute_opcode(Opcode::SetRegister { x: 0, nn: 0xFF }).unwrap();
    let before = cpu.pc();
    assert_eq!(
        cpu.execute_opcode(Opcode::JumpWithOffset { addr: 0xFFF }),
        Err(CpuError::OutOfBoundsAccess)
    );
    assert_eq!(cpu.pc(), before);
    cpu.execute_opcode(Opcode::JumpWithOffset { addr: 0xF00 }).unwrap();
    assert_eq!(cpu.pc(), 0xFFF);
}

#[test]
fn an_unknown_word_is_reported_and_changes_nothing() {
    let mut cpu = machine_with(&[0x6A, 0x05, 0x8A, 0xB9]);
    run(&mut cpu, 1);
    let pc = cpu.pc();
    assert_eq!(cpu.emulate_cycle(), Err(CpuError::UnknownOpcode(0x8AB9)));
    assert_eq!(cpu.pc(), pc);
    assert_eq!(cpu.registers()[0xA], 5);
    assert_eq!(cpu.emulate_cycle(), Err(CpuError::UnknownOpcode(0x8AB9)));
}

#[test]
fn a_failed_cycle_leaves_the_timers() {
    // V0 = 9; delay = V0; sound = V0; unknown word
    let mut cpu = machine_with(&[0x60, 0x09, 0xF0, 0x15, 0xF0, 0x18, 0xE0, 0x00]);
    run(&mut cpu, 3);
    assert_eq!(cpu.delay_timer(), 7);
    assert_eq!(cpu.sound_timer(), 8);
    assert_eq!(cpu.emulate_cycle(), Err(CpuError::UnknownOpcode(0xE000)));
    assert_eq!(cpu.delay_timer(), 7);
    assert_eq!(cpu.sound_timer(), 8);
}

#[test]
fn fetching_past_the_end_of_memory_is_reported() {
    let mut cpu = CPU::new();
    cpu.execute_opcode(Opcode::Jump { addr: 0xFFF }).unwrap();
    assert_eq!(cpu.get_opcode(), Err(CpuError::OutOfBoundsAccess));
    assert_eq!(cpu.emulate_cycle(), Err(CpuError::OutOfBoundsAccess));
    assert_eq!(cpu.pc(), 0xFFF);
}

#[test]
fn the_program_counter_never_leaves_memory() {
    let mut cpu = CPU::new();
    cpu.execute_opcode(Opcode::Jump { addr: 0xFFE }).unwrap();
    assert_eq!(
        cpu.execute_opcode(Opcode::SetRegister { x: 1, nn: 5 }),
        Err(CpuError::OutOfBoundsAccess)
    );
    assert_eq!(cpu.registers()[1], 0);
    assert_eq!(cpu.pc(), 0xFFE);
    assert_eq!(
        cpu.execute_opcode(Opcode::CallSubroutine { addr: 0x300 }),
        Err(CpuError::OutOfBoundsAccess)
    );
    assert!(cpu.stack().is_empty());
    assert_eq!(cpu.execute_opcode(Opcode::ClearScreen), Err(CpuError::OutOfBoundsAccess));

    cpu.execute_opcode(Opcode::Jump { addr: 0xFFC }).unwrap();
    // V0 == 0: the skip is taken and would land on 4096.
    assert_eq!(
        cpu.execute_opcode(Opcode::SkipIfEqual { x: 0, nn: 0 }),
        Err(CpuError::OutOfBoundsAccess)
    );
    assert_eq!(cpu.pc(), 0xFFC);
    assert_eq!(cpu.execute_opcode(Opcode::SkipIfEqual { x: 0, nn: 1 }), Ok(()));
    assert_eq!(cpu.pc(), 0xFFE);
}

#[test]
fn running_off_the_end_of_an_empty_memory() {
    let mut cpu = CPU::new();
    let mut cycles = 0;
    let error = loop {
        match cpu.emulate_cycle() {
            Ok(()) => cycles += 1,
            Err(e) => break e,
        }
    };
    assert_eq!(error, CpuError::OutOfBoundsAccess);
    assert_eq!(cpu.pc(), 4094);
    assert_eq!(cycles, (4094 - 512) / 2);
}

#[test]
fn a_native_routine_call_does_nothing() {
    let mut cpu = machine_with(&[0x01, 0x23]);
    run(&mut cpu, 1);
    assert_eq!(cpu.pc(), 514);
    assert_eq!(cpu.registers(), &[0u8; 16]);
    assert!(cpu.stack().is_empty());
}

#[test]
fn timers_count_down_once_per_cycle() {
    // V0 = 3; delay = V0; then native no-ops
    let mut cpu = machine_with(&[0x60, 0x03, 0xF0, 0x15]);
    run(&mut cpu, 2);
    assert_eq!(cpu.delay_timer(), 2);
    run(&mut cpu, 1);
    assert_eq!(cpu.delay_timer(), 1);
    run(&mut cpu, 1);
    assert_eq!(cpu.delay_timer(), 0);
    run(&mut cpu, 1);
    assert_eq!(cpu.delay_timer(), 0);
}

#[test]
fn the_tone_is_due_while_the_sound_timer_runs() {
    let mut cpu = machine_with(&[0x60, 0x02, 0xF0, 0x18]);
    run(&mut cpu, 1);
    assert!(!cpu.sound_active());
    run(&mut cpu, 1);
    assert_eq!(cpu.sound_timer(), 1);
    assert!(cpu.sound_active());
    run(&mut cpu, 1);
    assert_eq!(cpu.sound_timer(), 0);
    assert!(!cpu.sound_active());
}

#[test]
fn the_delay_timer_is_read_into_a_register() {
    let mut cpu = machine_with(&[0x60, 0x0A, 0xF0, 0x15, 0xF3, 0x07]);
    run(&mut cpu, 3);
    assert_eq!(cpu.registers()[3], 9);
    assert_eq!(cpu.delay_timer(), 8);
}

#[test]
fn timers_set_by_an_operation_alone_are_not_counted_down() {
    let mut cpu = CPU::new();
    cpu.execute_opcode(Opcode::SetRegister { x: 4, nn: 60 }).unwrap();
    cpu.execute_opcode(Opcode::SetDelayTimer { x: 4 }).unwrap();
    cpu.execute_opcode(Opcode::SetSoundTimer { x: 4 }).unwrap();
    assert_eq!(cpu.delay_timer(), 60);
    assert_eq!(cpu.sound_timer(), 60);
    cpu.execute_opcode(Opcode::GetDelayTimer { x: 5 }).unwrap();
    assert_eq!(cpu.registers()[5], 60);
}

#[test]
fn store_bcd_writes_three_digits() {
    // V3 = 234; I = 0x300; BCD
    let mut cpu = machine_with(&[0x63, 0xEA, 0xA3, 0x00, 0xF3, 0x33]);
    run(&mut cpu, 3);
    assert_eq!(&cpu.memory()[0x300..0x303], &[2, 3, 4]);
    assert_eq!(cpu.memory()[0x2FF], 0);
    assert_eq!(cpu.memory()[0x303], 0);
    assert_eq!(cpu.index(), 0x300);
}

#[test]
fn store_bcd_edge_values() {
    for (value, digits) in [(0u8, [0u8, 0, 0]), (7, [0, 0, 7]), (90, [0, 9, 0]), (255, [2, 5, 5])] {
        let mut cpu = CPU::new();
        cpu.execute_opcode(Opcode::SetRegister { x: 1, nn: value }).unwrap();
        cpu.execute_opcode(Opcode::SetIndex { addr: 0xFFD }).unwrap();
        cpu.execute_opcode(Opcode::StoreBCD { x: 1 }).unwrap();
        assert_eq!(&cpu.memory()[0xFFD..], &digits);
    }
}

#[test]
fn store_bcd_past_the_end_of_memory_is_reported() {
    let mut cpu = CPU::new();
    cpu.execute_opcode(Opcode::SetRegister { x: 1, nn: 234 }).unwrap();
    cpu.execute_opcode(Opcode::SetIndex { addr: 0xFFE }).unwrap();
    let pc = cpu.pc();
    assert_eq!(cpu.execute_opcode(Opcode::StoreBCD { x: 1 }), Err(CpuError::OutOfBoundsAccess));
    assert_eq!(&cpu.memory()[0xFFE..], &[0, 0]);
    assert_eq!(cpu.pc(), pc);
}

#[test]
fn registers_are_stored_and_loaded_inclusive_of_x() {
    let mut cpu = CPU::new();
    for x in 0..16u8 {
        cpu.execute_opcode(Opcode::SetRegister { x, nn: 0x10 + x }).unwrap();
    }
    cpu.execute_opcode(Opcode::SetIndex { addr: 0x400 }).unwrap();
    cpu.execute_opcode(Opcode::StoreRegisters { x: 3 }).unwrap();
    assert_eq!(&cpu.memory()[0x400..0x405], &[0x10, 0x11, 0x12, 0x13, 0]);
    assert_eq!(cpu.index(), 0x400);

    for x in 0..16u8 {
        cpu.execute_opcode(Opcode::SetRegister { x, nn: 0 }).unwrap();
    }
    cpu.execute_opcode(Opcode::LoadRegisters { x: 2 }).unwrap();
    assert_eq!(&cpu.registers()[0..4], &[0x10, 0x11, 0x12, 0]);
    assert_eq!(cpu.index(), 0x400);

    cpu.execute_opcode(Opcode::StoreRegisters { x: 0 }).unwrap();
    assert_eq!(&cpu.memory()[0x400..0x402], &[0x10, 0x11]);
}

#[test]
fn all_sixteen_registers_round_trip() {
    let mut cpu = CPU::new();
    for x in 0..16u8 {
        cpu.execute_opcode(Opcode::SetRegister { x, nn: 0xA0 + x }).unwrap();
    }
    cpu.execute_opcode(Opcode::SetIndex { addr: 0xFF0 }).unwrap();
    cpu.execute_opcode(Opcode::StoreRegisters { x: 15 }).unwrap();
    let stored: Vec<u8> = (0..16u8).map(|x| 0xA0 + x).collect();
    assert_eq!(&cpu.memory()[0xFF0..], &stored[..]);
    for x in 0..16u8 {
        cpu.execute_opcode(Opcode::SetRegister { x, nn: 0 }).unwrap();
    }
    cpu.execute_opcode(Opcode::LoadRegisters { x: 15 }).unwrap();
    assert_eq!(&cpu.registers()[..], &stored[..]);
}

#[test]
fn bulk_copies_past_the_end_of_memory_are_reported() {
    let mut cpu = CPU::new();
    cpu.execute_opcode(Opcode::SetRegister { x: 0, nn: 1 }).unwrap();
    cpu.execute_opcode(Opcode::SetIndex { addr: 0xFFF }).unwrap();
    assert_eq!(
        cpu.execute_opcode(Opcode::StoreRegisters { x: 1 }),
        Err(CpuError::OutOfBoundsAccess)
    );
    assert_eq!(cpu.memory()[0xFFF], 0);
    assert_eq!(
        cpu.execute_opcode(Opcode::LoadRegisters { x: 1 }),
        Err(CpuError::OutOfBoundsAccess)
    );
    assert_eq!(cpu.registers()[0], 1);
    assert_eq!(cpu.execute_opcode(Opcode::StoreRegisters { x: 0 }), Ok(()));
    assert_eq!(cpu.memory()[0xFFF], 1);
}

#[test]
fn the_index_register_stays_a_twelve_bit_value() {
    let mut cpu = CPU::new();
    cpu.execute_opcode(Opcode::SetIndex { addr: 0xF00 }).unwrap();
    cpu.execute_opcode(Opcode::SetRegister { x: 2, nn: 0xFF }).unwrap();
    cpu.execute_opcode(Opcode::AddToIndex { x: 2 }).unwrap();
    assert_eq!(cpu.index(), 0xFFF);
    cpu.execute_opcode(Opcode::SetRegister { x: 2, nn: 1 }).unwrap();
    let pc = cpu.pc();
    assert_eq!(cpu.execute_opcode(Opcode::AddToIndex { x: 2 }), Err(CpuError::OutOfBoundsAccess));
    assert_eq!(cpu.index(), 0xFFF);
    assert_eq!(cpu.pc(), pc);
}

#[test]
fn the_index_register_finds_the_glyph_of_the_low_nibble() {
    let mut cpu = CPU::new();
    cpu.execute_opcode(Opcode::SetRegister { x: 6, nn: 0x0A }).unwrap();
    cpu.execute_opcode(Opcode::SetIndexToSprite { x: 6 }).unwrap();
    assert_eq!(cpu.index(), 130);
    let at = cpu.index() as usize;
    assert_eq!(&cpu.memory()[at..at + 5], &[0xF0, 0x90, 0xF0, 0x90, 0x90]);

    cpu.execute_opcode(Opcode::SetRegister { x: 6, nn: 0x31 }).unwrap();
    cpu.execute_opcode(Opcode::SetIndexToSprite { x: 6 }).unwrap();
    assert_eq!(cpu.index(), 85);
    let at = cpu.index() as usize;
    assert_eq!(&cpu.memory()[at..at + 5], &[0x20, 0x60, 0x20, 0x20, 0x70]);
}

#[test]
fn random_bytes_follow_the_generator_and_the_mask() {
    let mut cpu = CPU::new();
    cpu.seed(0);
    cpu.execute_opcode(Opcode::Random { x: 1, nn: 0xFF }).unwrap();
    // 0 * 1664525 + 1013904223 = 0x3C6EF35F
    assert_eq!(cpu.registers()[1], 0x3C);
    cpu.execute_opcode(Opcode::Random { x: 2, nn: 0xFF }).unwrap();
    // 0x3C6EF35F * 1664525 + 1013904223 = 0x47502932 modulo 2^32
    assert_eq!(cpu.registers()[2], 0x47);
    assert_eq!(cpu.pc(), 516);

    let mut cpu = CPU::new();
    cpu.seed(0);
    cpu.execute_opcode(Opcode::Random { x: 1, nn: 0x0F }).unwrap();
    assert_eq!(cpu.registers()[1], 0x0C);
    cpu.execute_opcode(Opcode::Random { x: 1, nn: 0x00 }).unwrap();
    assert_eq!(cpu.registers()[1], 0);
}

#[test]
fn random_bytes_depend_on_the_seed() {
    let mut a = CPU::new();
    let mut b = CPU::new();
    a.seed(1);
    b.seed(0x8000_0000);
    a.execute_opcode(Opcode::Random { x: 0, nn: 0xFF }).unwrap();
    b.execute_opcode(Opcode::Random { x: 0, nn: 0xFF }).unwrap();
    // 1664525 + 1013904223 = 0x3C88596C
    assert_eq!(a.registers()[0], 0x3C);
    // 0x80000000 * 1664525 = 0x80000000 modulo 2^32; plus 0x3C6EF35F = 0xBC6EF35F
    assert_eq!(b.registers()[0], 0xBC);
}

#[test]
fn a_whole_program_counts_to_ten() {
    // V0 = 0; loop: V0 += 1; skip if V0 == 10; jump loop; V1 = 0xEE
    let mut cpu = machine_with(&[0x60, 0x00, 0x70, 0x01, 0x30, 0x0A, 0x12, 0x02, 0x61, 0xEE]);
    let mut cycles = 0;
    while cpu.registers()[1] != 0xEE {
        cpu.emulate_cycle().unwrap();
        cycles += 1;
        assert!(cycles < 100);
    }
    assert_eq!(cpu.registers()[0], 10);
    assert_eq!(cycles, 1 + 10 * 3 - 1 + 1);
}

#[test]
fn the_generator_steps_by_its_formula() {
    assert_eq!(MULTIPLIER, 1664525);
    assert_eq!(INCREMENT, 1013904223);
    assert_eq!(step(0), 1013904223);
    assert_eq!(step(1), 1664525 + 1013904223);
    assert_eq!(step(0x3C6EF35F), 0x47502932);
    assert_eq!(step(u32::MAX), 1013904223u32.wrapping_sub(1664525));
    assert_eq!(top_byte(0x3C6EF35F), 0x3C);
    assert_eq!(top_byte(0x00FF_FFFF), 0);
    assert_eq!(top_byte(0xFF00_0000), 0xFF);
}
