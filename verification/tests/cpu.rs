use chip8_core::cpu::Cpu;
use chip8_core::model::Fault;

#[test]
fn add_with_carry_sets_sum_and_flag() {
    let mut cpu = Cpu::new();
    cpu.set_register(0, 200);
    cpu.set_register(1, 100);
    cpu.add_xy(0, 1);
    assert_eq!(cpu.register(0), 44);
    assert_eq!(cpu.register(15), 1);

    let mut cpu = Cpu::new();
    cpu.set_register(2, 7);
    cpu.set_register(3, 8);
    cpu.add_xy(2, 3);
    assert_eq!(cpu.register(2), 15);
    assert_eq!(cpu.register(3), 8);
    assert_eq!(cpu.register(15), 0);
}

#[test]
fn read_opcode_combines_big_endian() {
    let mut cpu = Cpu::new();
    cpu.write_memory(0, 0x12);
    cpu.write_memory(1, 0x34);
    assert_eq!(cpu.read_opcode(), 0x1234);
    assert_eq!(cpu.program_counter(), 0);
}

#[test]
fn call_then_return_restores_counter_and_stack_pointer() {
    let mut cpu = Cpu::new();
    // 0x000: CALL 0x100; 0x002: HALT.
    cpu.write_memory(0x000, 0x21);
    cpu.write_memory(0x001, 0x00);
    // 0x100: RETURN.
    cpu.write_memory(0x100, 0x00);
    cpu.write_memory(0x101, 0xEE);
    assert_eq!(cpu.run(), Ok(()));
    // Halted by the instruction just after the call.
    assert_eq!(cpu.program_counter(), 4);
    assert_eq!(cpu.stack_pointer(), 0);
    // The popped slot keeps the return address it held.
    assert_eq!(cpu.stack_slot(0), 2);
}

#[test]
fn sixteen_nested_calls_succeed_and_a_seventeenth_overflows() {
    let mut cpu = Cpu::new();
    // Seventeen call instructions, each calling the next address.
    for k in 0u16..17 {
        let target = 2 * k + 2;
        cpu.write_memory((2 * k) as usize, 0x20 | (target >> 8) as u8);
        cpu.write_memory((2 * k + 1) as usize, (target & 0xFF) as u8);
    }
    assert_eq!(cpu.run(), Err(Fault::StackOverflow));
    // All sixteen slots were taken by the first sixteen calls.
    assert_eq!(cpu.stack_pointer(), 16);
    // The counter is past the call that faulted.
    assert_eq!(cpu.program_counter(), 34);
}

#[test]
fn return_with_empty_stack_underflows() {
    let mut cpu = Cpu::new();
    cpu.write_memory(0, 0x00);
    cpu.write_memory(1, 0xEE);
    assert_eq!(cpu.run(), Err(Fault::StackUnderflow));
}

#[test]
fn halt_stops_the_run_at_once() {
    let mut cpu = Cpu::new();
    cpu.set_register(0, 9);
    // Memory is all zero, so the first word is the halt instruction.
    assert_eq!(cpu.run(), Ok(()));
    assert_eq!(cpu.program_counter(), 2);
    assert_eq!(cpu.stack_pointer(), 0);
    assert_eq!(cpu.register(0), 9);
    for index in 1..16 {
        assert_eq!(cpu.register(index), 0);
    }
}

#[test]
fn unknown_opcode_faults_with_its_word() {
    let mut cpu = Cpu::new();
    cpu.write_memory(0, 0x12);
    cpu.write_memory(1, 0x34);
    assert_eq!(cpu.run(), Err(Fault::Unimplemented(0x1234)));
}

#[test]
fn counter_running_off_memory_faults() {
    let mut cpu = Cpu::new();
    // Fill all of memory with add instructions on register 0 alone, so
    // the counter walks off the end without ever halting.
    for addr in 0..4096 {
        cpu.write_memory(addr, if addr % 2 == 0 { 0x80 } else { 0x04 });
    }
    assert_eq!(cpu.run(), Err(Fault::OutOfBoundsFetch));
    assert_eq!(cpu.program_counter(), 4096);
}

#[test]
fn call_and_ret_report_their_own_faults() {
    let mut cpu = Cpu::new();
    assert_eq!(cpu.ret(), Err(Fault::StackUnderflow));
    for _ in 0..16 {
        assert_eq!(cpu.call(0x200), Ok(()));
    }
    assert_eq!(cpu.call(0x200), Err(Fault::StackOverflow));
    assert_eq!(cpu.stack_pointer(), 16);
}

#[test]
fn three_additions_scenario() {
    // Compute 5 + 10 + 10 + 10.
    let mut cpu = Cpu::new();
    cpu.set_register(0, 5);
    cpu.set_register(1, 10);
    cpu.set_register(2, 10);
    cpu.set_register(3, 10);
    let program = [0x80, 0x14, 0x80, 0x24, 0x80, 0x34];
    for (i, byte) in program.iter().enumerate() {
        cpu.write_memory(i, *byte);
    }
    assert_eq!(cpu.run(), Ok(()));
    assert_eq!(cpu.register(0), 35);
}

#[test]
fn two_calls_to_a_doubling_subroutine_scenario() {
    // Compute 5 + (10 * 2) + (10 * 2).
    let mut cpu = Cpu::new();
    cpu.set_register(0, 5);
    cpu.set_register(1, 10);
    // Call the subroutine at 0x100 twice, then halt.
    let program = [0x21, 0x00, 0x21, 0x00, 0x00, 0x00];
    for (i, byte) in program.iter().enumerate() {
        cpu.write_memory(i, *byte);
    }
    // The subroutine adds register 1 into register 0 twice and returns.
    let subroutine = [0x80, 0x14, 0x80, 0x14, 0x00, 0xEE];
    for (i, byte) in subroutine.iter().enumerate() {
        cpu.write_memory(0x100 + i, *byte);
    }
    assert_eq!(cpu.run(), Ok(()));
    assert_eq!(cpu.register(0), 45);
}

#[test]
fn fresh_machines_start_zeroed() {
    let cpu = Cpu::new();
    assert_eq!(cpu.program_counter(), 0);
    assert_eq!(cpu.stack_pointer(), 0);
    for index in 0..16 {
        assert_eq!(cpu.register(index), 0);
        assert_eq!(cpu.stack_slot(index), 0);
    }
    for addr in 0..4096 {
        assert_eq!(cpu.read_memory(addr), 0);
    }
}
