use chip8::cpu::CPU;
use chip8::error::CpuError;
use chip8::opcode::Opcode;

fn keys_down(down: &[usize]) -> [bool; 16] {
    let mut keys = [false; 16];
    for key in down {
        keys[*key] = true;
    }
    keys
}

#[test]
fn skips_follow_the_key_in_the_register() {
    let mut cpu = CPU::new();
    cpu.set_keys(keys_down(&[0xA]));
    assert_eq!(cpu.keys(), &keys_down(&[0xA]));
    cpu.execute_opcode(Opcode::SetRegister { x: 3, nn: 0xA }).unwrap();
    let pc = cpu.pc();
    cpu.execute_opcode(Opcode::SkipIfKeyPressed { x: 3 }).unwrap();
    assert_eq!(cpu.pc(), pc + 4);
    cpu.execute_opcode(Opcode::SkipIfKeyNotPressed { x: 3 }).unwrap();
    assert_eq!(cpu.pc(), pc + 6);

    cpu.set_keys(keys_down(&[]));
    cpu.execute_opcode(Opcode::SkipIfKeyPressed { x: 3 }).unwrap();
    assert_eq!(cpu.pc(), pc + 8);
    cpu.execute_opcode(Opcode::SkipIfKeyNotPressed { x: 3 }).unwrap();
    assert_eq!(cpu.pc(), pc + 12);
}

#[test]
fn a_register_above_fifteen_is_no_key() {
    let mut cpu = CPU::new();
    cpu.execute_opcode(Opcode::SetRegister { x: 3, nn: 16 }).unwrap();
    let pc = cpu.pc();
    assert_eq!(
        cpu.execute_opcode(Opcode::SkipIfKeyPressed { x: 3 }),
        Err(CpuError::InvalidKeyIndex)
    );
    assert_eq!(
        cpu.execute_opcode(Opcode::SkipIfKeyNotPressed { x: 3 }),
        Err(CpuError::InvalidKeyIndex)
    );
    assert_eq!(cpu.pc(), pc);
    cpu.execute_opcode(Opcode::SetRegister { x: 3, nn: 15 }).unwrap();
    assert_eq!(cpu.execute_opcode(Opcode::SkipIfKeyPressed { x: 3 }), Ok(()));
}

#[test]
fn an_invalid_key_index_through_a_cycle() {
    let mut cpu = CPU::new();
    cpu.load_program(&[0x63, 0xFF, 0xE3, 0x9E]).unwrap();
    cpu.emulate_cycle().unwrap();
    assert_eq!(cpu.emulate_cycle(), Err(CpuError::InvalidKeyIndex));
    assert_eq!(cpu.pc(), 514);
}

#[test]
fn waiting_for_a_key_blocks_the_machine() {
    // wait into V4; V0 = 1
    let mut cpu = CPU::new();
    cpu.load_program(&[0xF4, 0x0A, 0x60, 0x01]).unwrap();
    cpu.emulate_cycle().unwrap();
    assert_eq!(cpu.waiting_for_key(), Some(4));
    let pc = cpu.pc();
    assert_eq!(pc, 514);
    for _ in 0..10 {
        cpu.emulate_cycle().unwrap();
    }
    assert_eq!(cpu.pc(), pc);
    assert_eq!(cpu.registers()[0], 0);
    assert_eq!(cpu.waiting_for_key(), Some(4));

    cpu.set_keys(keys_down(&[7]));
    assert_eq!(cpu.waiting_for_key(), None);
    assert_eq!(cpu.registers()[4], 7);
    assert_eq!(cpu.pc(), pc);
    cpu.emulate_cycle().unwrap();
    assert_eq!(cpu.registers()[0], 1);
    assert_eq!(cpu.pc(), pc + 2);
}

#[test]
fn timers_run_while_the_machine_is_blocked() {
    // V0 = 5; delay = V0; wait into V1
    let mut cpu = CPU::new();
    cpu.load_program(&[0x60, 0x05, 0xF0, 0x15, 0xF1, 0x0A]).unwrap();
    for _ in 0..3 {
        cpu.emulate_cycle().unwrap();
    }
    assert_eq!(cpu.delay_timer(), 3);
    cpu.emulate_cycle().unwrap();
    assert_eq!(cpu.delay_timer(), 2);
    for _ in 0..5 {
        cpu.emulate_cycle().unwrap();
    }
    assert_eq!(cpu.delay_timer(), 0);
    assert_eq!(cpu.waiting_for_key(), Some(1));
}

#[test]
fn only_a_key_that_goes_down_wakes_the_machine() {
    let mut cpu = CPU::new();
    cpu.set_keys(keys_down(&[2, 9]));
    cpu.execute_opcode(Opcode::WaitForKey { x: 0 }).unwrap();
    // The same keys again: nothing went down.
    cpu.set_keys(keys_down(&[2, 9]));
    assert_eq!(cpu.waiting_for_key(), Some(0));
    // A release is no press.
    cpu.set_keys(keys_down(&[9]));
    assert_eq!(cpu.waiting_for_key(), Some(0));
    assert_eq!(cpu.keys(), &keys_down(&[9]));
    // Key 2 goes down again.
    cpu.set_keys(keys_down(&[2, 9]));
    assert_eq!(cpu.waiting_for_key(), None);
    assert_eq!(cpu.registers()[0], 2);
}

#[test]
fn the_lowest_of_several_keys_is_taken() {
    let mut cpu = CPU::new();
    cpu.set_keys(keys_down(&[1]));
    cpu.execute_opcode(Opcode::WaitForKey { x: 0xE }).unwrap();
    cpu.set_keys(keys_down(&[1, 5, 0xC, 0xF]));
    assert_eq!(cpu.registers()[0xE], 5);
    assert_eq!(cpu.waiting_for_key(), None);
}

#[test]
fn key_zero_and_key_fifteen_wake_the_machine() {
    let mut cpu = CPU::new();
    cpu.execute_opcode(Opcode::SetRegister { x: 2, nn: 0x55 }).unwrap();
    cpu.execute_opcode(Opcode::WaitForKey { x: 2 }).unwrap();
    cpu.set_keys(keys_down(&[0]));
    assert_eq!(cpu.registers()[2], 0);
    cpu.execute_opcode(Opcode::WaitForKey { x: 2 }).unwrap();
    cpu.set_keys(keys_down(&[0, 0xF]));
    assert_eq!(cpu.registers()[2], 0xF);
}

#[test]
fn keys_change_no_register_while_the_machine_runs() {
    let mut cpu = CPU::new();
    cpu.set_keys(keys_down(&[3]));
    assert_eq!(cpu.registers(), &[0u8; 16]);
    assert_eq!(cpu.pc(), 512);
    assert_eq!(cpu.keys(), &keys_down(&[3]));
}
