use chudtendo::emulator::component::{CpuRegisters, HardwareMode, MemoryCommand, ReadResult};
use chudtendo::emulator::cpu::{
    add_signed_offset, should_report, wall_target_cycles, CoreState, CpuThread, FlatMemory,
};

fn cpu_with_program(program: &[u8]) -> (CpuThread, FlatMemory) {
    let mut cpu = CpuThread::default();
    cpu.registers.pc = 0x0100;
    cpu.registers.sp = 0xd000;
    let memory = FlatMemory::with_program(0x0100, &program.to_vec());
    (cpu, memory)
}

fn run(cpu: &mut CpuThread, memory: &mut FlatMemory, steps: usize) {
    for _ in 0..steps {
        assert!(cpu.step(memory));
    }
}

fn a(cpu: &CpuThread) -> u8 {
    (cpu.registers.af >> 8) as u8
}

fn f(cpu: &CpuThread) -> u8 {
    cpu.registers.af as u8
}

#[test]
fn add_immediate_sets_flags() {
    // LD A,0x12 ; ADD A,0x34
    let (mut cpu, mut memory) = cpu_with_program(&[0x3e, 0x12, 0xc6, 0x34]);
    run(&mut cpu, &mut memory, 2);
    assert_eq!(a(&cpu), 0x46);
    assert_eq!(f(&cpu), 0x00);
    assert_eq!(cpu.registers.pc, 0x0104);
}

#[test]
fn add_overflow_sets_zero_half_carry_and_carry() {
    // LD A,0xFF ; ADD A,0x01
    let (mut cpu, mut memory) = cpu_with_program(&[0x3e, 0xff, 0xc6, 0x01]);
    run(&mut cpu, &mut memory, 2);
    assert_eq!(a(&cpu), 0x00);
    assert_eq!(f(&cpu), 0xb0);
}

#[test]
fn subtract_borrow_flags() {
    // LD A,0x10 ; SUB 0x01 ; CP 0x0F
    let (mut cpu, mut memory) = cpu_with_program(&[0x3e, 0x10, 0xd6, 0x01, 0xfe, 0x0f]);
    run(&mut cpu, &mut memory, 2);
    assert_eq!(a(&cpu), 0x0f);
    assert_eq!(f(&cpu), 0x60);
    run(&mut cpu, &mut memory, 1);
    assert_eq!(a(&cpu), 0x0f);
    assert_eq!(f(&cpu), 0xc0);
}

#[test]
fn daa_corrects_bcd_addition() {
    // LD A,0x09 ; ADD A,0x06 ; DAA
    let (mut cpu, mut memory) = cpu_with_program(&[0x3e, 0x09, 0xc6, 0x06, 0x27]);
    run(&mut cpu, &mut memory, 3);
    assert_eq!(a(&cpu), 0x15);
    assert_eq!(f(&cpu), 0x00);
}

#[test]
fn pop_af_clears_low_nibble_of_f() {
    // LD BC,0x12FF ; PUSH BC ; POP AF
    let (mut cpu, mut memory) = cpu_with_program(&[0x01, 0xff, 0x12, 0xc5, 0xf1]);
    run(&mut cpu, &mut memory, 3);
    assert_eq!(cpu.registers.af, 0x12f0);
    assert_eq!(cpu.registers.sp, 0xd000);
}

#[test]
fn call_and_return() {
    // CALL 0x0200 ; at 0x0200: RET
    let (mut cpu, mut memory) = cpu_with_program(&[0xcd, 0x00, 0x02]);
    memory.bytes[0x0200] = 0xc9;
    run(&mut cpu, &mut memory, 1);
    assert_eq!(cpu.registers.pc, 0x0200);
    assert_eq!(cpu.registers.sp, 0xcffe);
    assert_eq!(memory.bytes[0xcfff], 0x01);
    assert_eq!(memory.bytes[0xcffe], 0x03);
    run(&mut cpu, &mut memory, 1);
    assert_eq!(cpu.registers.pc, 0x0103);
    assert_eq!(cpu.registers.sp, 0xd000);
}

#[test]
fn stack_in_hram_stays_with_the_cpu() {
    // CALL 0x0200 with SP at the top of HRAM: the return address lands in HRAM.
    let (mut cpu, mut memory) = cpu_with_program(&[0xcd, 0x00, 0x02]);
    cpu.registers.sp = 0xfffe;
    run(&mut cpu, &mut memory, 1);
    assert_eq!(cpu.io.hram[0x7d], 0x01);
    assert_eq!(cpu.io.hram[0x7c], 0x03);
    assert_eq!(memory.bytes[0xfffd], 0x00);
}

#[test]
fn load_through_hl() {
    // LD HL,0xC000 ; LD (HL),0x42 ; LD A,(HL) ; INC (HL)
    let (mut cpu, mut memory) = cpu_with_program(&[0x21, 0x00, 0xc0, 0x36, 0x42, 0x7e, 0x34]);
    run(&mut cpu, &mut memory, 4);
    assert_eq!(a(&cpu), 0x42);
    assert_eq!(memory.bytes[0xc000], 0x43);
}

#[test]
fn illegal_opcode_faults_the_core() {
    let (mut cpu, mut memory) = cpu_with_program(&[0xd3]);
    assert!(cpu.step(&mut memory));
    assert_eq!(cpu.state, CoreState::Faulted { opcode: 0xd3, prefixed: false });
    let before = cpu.registers;
    assert!(!cpu.step(&mut memory));
    assert_eq!(cpu.registers, before);
}

#[test]
fn enabled_interrupt_is_served() {
    let (mut cpu, mut memory) = cpu_with_program(&[0x00]);
    cpu.interrupt_master_enable = true;
    cpu.io.interrupt_enable = 0x05;
    cpu.io.interrupt_flags.flags = 0x04;
    assert!(cpu.step(&mut memory));
    assert_eq!(cpu.registers.pc, 0x0050);
    assert_eq!(cpu.registers.sp, 0xcffe);
    assert!(!cpu.interrupt_master_enable);
    assert_eq!(cpu.io.interrupt_flags.flags, 0x00);
}

#[test]
fn ei_takes_effect_after_the_next_instruction() {
    // EI ; NOP ; NOP
    let (mut cpu, mut memory) = cpu_with_program(&[0xfb, 0x00, 0x00]);
    run(&mut cpu, &mut memory, 1);
    assert!(!cpu.interrupt_master_enable);
    run(&mut cpu, &mut memory, 1);
    assert!(cpu.interrupt_master_enable);
}

#[test]
fn halt_waits_for_an_interrupt() {
    // HALT
    let (mut cpu, mut memory) = cpu_with_program(&[0x76, 0x00]);
    cpu.io.interrupt_enable = 0x01;
    run(&mut cpu, &mut memory, 1);
    assert_eq!(cpu.state, CoreState::Halted);
    assert!(!cpu.step(&mut memory));
    cpu.io.interrupt_flags.flags = 0x01;
    assert!(!cpu.step(&mut memory));
    assert_eq!(cpu.state, CoreState::Running);
}

#[test]
fn halt_bug_repeats_the_next_byte() {
    // HALT with IME off and an interrupt pending: the next opcode byte is read twice.
    // INC A is fetched twice.
    let (mut cpu, mut memory) = cpu_with_program(&[0x76, 0x3c]);
    cpu.io.interrupt_enable = 0x01;
    cpu.io.interrupt_flags.flags = 0x01;
    run(&mut cpu, &mut memory, 3);
    assert_eq!(a(&cpu), 0x02);
    assert_eq!(cpu.registers.pc, 0x0102);
}

#[test]
fn cb_swap_and_bit() {
    // LD A,0xAB ; SWAP A ; BIT 7,A
    let (mut cpu, mut memory) = cpu_with_program(&[0x3e, 0xab, 0xcb, 0x37, 0xcb, 0x7f]);
    run(&mut cpu, &mut memory, 2);
    assert_eq!(a(&cpu), 0xba);
    assert_eq!(f(&cpu), 0x00);
    run(&mut cpu, &mut memory, 1);
    assert_eq!(f(&cpu), 0x20);
}

#[test]
fn relative_jump_backwards() {
    // NOP ; JR -3
    let (mut cpu, mut memory) = cpu_with_program(&[0x00, 0x18, 0xfd]);
    run(&mut cpu, &mut memory, 2);
    assert_eq!(cpu.registers.pc, 0x0100);
}

#[test]
fn cycles_count_at_least_the_table() {
    let (mut cpu, mut memory) = cpu_with_program(&[0x00, 0xc3, 0x00, 0x01]);
    run(&mut cpu, &mut memory, 1);
    assert_eq!(cpu.cycles, 4);
    run(&mut cpu, &mut memory, 1);
    assert_eq!(cpu.cycles, 20);
}

#[test]
fn cpu_owns_hram_and_interrupt_registers() {
    let mut cpu = CpuThread::default();
    assert!(cpu.io.write_cpu_owned(0xff80, 0x12));
    assert_eq!(cpu.io.read_cpu_owned(0xff80), Some(0x12));
    assert!(cpu.io.write_cpu_owned(0xffff, 0x1f));
    assert_eq!(cpu.io.read_cpu_owned(0xffff), Some(0x1f));
    assert!(cpu.io.write_cpu_owned(0xff0f, 0xff));
    assert_eq!(cpu.io.read_cpu_owned(0xff0f), Some(0xff));
    assert_eq!(cpu.io.read_cpu_owned(0xc000), None);
    assert!(!cpu.io.write_cpu_owned(0xc000, 1));
}

#[test]
fn dmg_mode_hides_cgb_registers() {
    let mut cpu = CpuThread::default();
    cpu.io.hardware_mode = HardwareMode::DmgCompatibility;
    assert_eq!(cpu.io.read_cpu_owned(0xff4d), Some(0xff));
    assert!(cpu.io.write_cpu_owned(0xff4d, 0x01));
    assert!(!cpu.io.speed_switch_armed);
    cpu.io.hardware_mode = HardwareMode::Cgb;
    assert!(cpu.io.write_cpu_owned(0xff4d, 0x01));
    assert_eq!(cpu.io.read_cpu_owned(0xff4d), Some(0x7f));
}

#[test]
fn memory_commands_are_answered() {
    let mut cpu = CpuThread::default();
    cpu.io.hram[0] = 0x5a;
    let (sender, receiver) = std::sync::mpsc::channel();
    cpu.io.handle_memory(MemoryCommand::Read { address: 0xff80, respond_to: sender });
    assert_eq!(receiver.recv().unwrap(), ReadResult::Ready(0x5a));
}

#[test]
fn serial_transfer_without_cable_shifts_in_ones() {
    let mut cpu = CpuThread::default();
    assert!(cpu.io.write_cpu_owned(0xff01, 0x42));
    assert!(cpu.io.write_cpu_owned(0xff02, 0x81));
    assert_eq!(cpu.io.serial_transfer_countdown, 4096);
}

#[test]
fn signed_offset_flags() {
    assert_eq!(add_signed_offset(0x00ff, 1), (0x0100, true, true));
    assert_eq!(add_signed_offset(0x0100, -1), (0x00ff, false, false));
}

#[test]
fn pacing_helpers() {
    assert_eq!(wall_target_cycles(1_000_000_000), 4_194_304);
    assert_eq!(wall_target_cycles(u64::MAX), u64::MAX);
    assert!(should_report(4));
    assert!(should_report(2048));
    assert!(!should_report(5));
}

#[test]
fn registers_start_zeroed() {
    let cpu = CpuThread::default();
    assert_eq!(
        cpu.registers,
        CpuRegisters { af: 0, bc: 0, de: 0, hl: 0, sp: 0, pc: 0 }
    );
}

#[test]
fn a_quantum_runs_four_instructions_and_sets_the_clock() {
    let (mut cpu, mut memory) = cpu_with_program(&[0x00, 0x00, 0x00, 0x00, 0x00]);
    let steps = cpu.run_quantum(&mut memory);
    assert_eq!(steps, 4);
    assert_eq!(cpu.cycles, 16);
    assert_eq!(cpu.clock.target(), 16);
    assert_eq!(cpu.registers.pc, 0x0104);
}

#[test]
fn a_halted_quantum_still_moves_the_clock() {
    let (mut cpu, mut memory) = cpu_with_program(&[0x76, 0x00]);
    cpu.step(&mut memory);
    assert_eq!(cpu.state, CoreState::Halted);
    let before = cpu.cycles;
    let steps = cpu.run_quantum(&mut memory);
    assert_eq!(steps, 0);
    assert_eq!(cpu.cycles, before + 16);
    assert_eq!(cpu.clock.target(), before + 16);
}
