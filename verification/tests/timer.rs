use chudtendo::emulator::component::{
    InterruptFlags, MasterClock, SharedTimerState, TimerInitState, WriteResult,
};
use chudtendo::emulator::timer::TimerThread;

fn test_timer() -> TimerThread {
    TimerThread::from_init_state(
        TimerInitState::default(),
        InterruptFlags::new(),
        MasterClock::new(),
        SharedTimerState::new(),
    )
}

#[test]
fn writing_div_with_bit4_high_emits_div_apu_edge() {
    let mut timer = test_timer();
    timer.regs.system_counter = 0x1000;
    timer.regs.div = 0x10;

    let (result, edges) = timer.handle_write(0xff04, 0x00);

    assert_eq!(result, WriteResult::Accepted);
    assert!(edges >= 1);
    assert_eq!(timer.regs.system_counter, 0);
}

#[test]
fn writing_div_with_bit4_low_emits_no_edge() {
    let mut timer = test_timer();
    let (result, edges) = timer.handle_write(0xff04, 0x00);
    assert_eq!(result, WriteResult::Accepted);
    assert_eq!(edges, 0);
    assert_eq!(timer.regs.system_counter, 0);
}

#[test]
fn timer_ignores_addresses_it_does_not_own() {
    let mut timer = test_timer();
    let (result, _) = timer.handle_write(0xff08, 0x12);
    assert_eq!(result, WriteResult::NoData);
}

#[test]
fn tac_keeps_three_bits() {
    let mut timer = test_timer();
    let (result, _) = timer.handle_write(0xff07, 0xff);
    assert_eq!(result, WriteResult::Accepted);
    assert_eq!(timer.regs.tac, 0x07);
}

#[test]
fn raised_interrupts_move_to_the_cpu() {
    let mut cpu = InterruptFlags::new();
    cpu.set(0x10);
    let mut ppu = InterruptFlags::new();
    ppu.set(0x01);
    let mut timer = InterruptFlags::new();
    timer.set(0x04);
    cpu.take_raised(&mut ppu, &mut timer);
    assert_eq!(cpu.load(), 0x15);
    assert_eq!(ppu.load(), 0);
    assert_eq!(timer.load(), 0);
    let mut quiet_ppu = InterruptFlags::new();
    let mut quiet_timer = InterruptFlags::new();
    cpu.take_raised(&mut quiet_ppu, &mut quiet_timer);
    assert_eq!(cpu.load(), 0x15);
}
