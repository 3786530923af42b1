use vstd::prelude::*;

use crate::bits::{lemma_byte_masks, lemma_word_masks};

use super::component::{InterruptFlags, MasterClock, ReadResult, SharedTimerState, TimerInitState, TimerReport, WriteResult};

verus! {

pub const TIMER_CLOCKS_PER_SAMPLE: u16 = 4;
pub const TIMER_INTERRUPT_MASK: u8 = 0x04;
pub const TIMER_REPORT_INTERVAL: u64 = 1024;

/// The timer's part of a save state.
#[derive(Clone, Copy, Debug, PartialEq, Eq, Structural)]
pub struct TimerSaveState {
    pub div: u8,
    pub tima: u8,
    pub tma: u8,
    pub tac: u8,
    pub ticks: u64,
    pub cycles: u64,
    pub system_counter: u16,
    pub pending_reload: bool,
}

/// The registers and counters of the timer.
#[derive(Clone, Copy, Debug, PartialEq, Eq, Structural)]
pub struct TimerRegs {
    pub div: u8,
    pub tima: u8,
    pub tma: u8,
    pub tac: u8,
    pub ticks: u64,
    pub cycles: u64,
    pub system_counter: u16,
    pub pending_reload: bool,
    pub reload_just_happened: bool,
}

/// The timer: DIV, TIMA, TMA and TAC driven by a 16-bit system counter.
/// Falling edges of DIV-APU (counter bit 12) are reported to the caller,
/// which passes them on to the APU.
#[derive(Debug)]
pub struct TimerThread {
    pub interrupt_flags: InterruptFlags,
    pub clock: MasterClock,
    pub shared: SharedTimerState,
    pub regs: TimerRegs,
}

/// The counter bit that TAC selects, where the timer is enabled.
pub open spec fn spec_timer_signal(counter: u16, tac: u8) -> bool {
    if tac & 0x04 == 0 {
        false
    } else {
        let bit: u16 = if tac & 0x03 == 0 {
            9
        } else if tac & 0x03 == 1 {
            3
        } else if tac & 0x03 == 2 {
            5
        } else {
            7
        };
        counter & (1u16 << bit) != 0
    }
}

pub open spec fn spec_div_apu_signal(counter: u16) -> bool {
    counter & 0x1000 != 0
}

/// TIMA after one increment: an overflow leaves 0 and a reload pending; no
/// increment while a reload is pending.
pub open spec fn tima_incremented(r: TimerRegs) -> TimerRegs {
    if r.pending_reload {
        r
    } else if r.tima.wrapping_add(1) == 0 {
        TimerRegs { tima: 0, pending_reload: true, ..r }
    } else {
        TimerRegs { tima: r.tima.wrapping_add(1), ..r }
    }
}

/// The registers after the system counter becomes `next_counter` and TAC
/// `next_tac`: DIV follows the counter, a falling edge of the selected bit
/// increments TIMA. The flag tells whether DIV-APU had a falling edge.
pub open spec fn counter_changed(r: TimerRegs, next_counter: u16, next_tac: u8) -> (TimerRegs, bool) {
    let before = spec_timer_signal(r.system_counter, r.tac);
    let apu_before = spec_div_apu_signal(r.system_counter);
    let s = TimerRegs { system_counter: next_counter, tac: next_tac & 0x07, div: (next_counter >> 8u16) as u8, ..r };
    let after = spec_timer_signal(s.system_counter, s.tac);
    let apu_after = spec_div_apu_signal(s.system_counter);
    (if before && !after { tima_incremented(s) } else { s }, apu_before && !apu_after)
}

/// One timer step of four clocks: the registers after it, whether DIV-APU had
/// a falling edge, and whether a reload raised the timer interrupt.
pub open spec fn stepped(r: TimerRegs) -> (TimerRegs, bool, bool) {
    let reloading = r.pending_reload;
    let r0 = TimerRegs { ticks: r.ticks.wrapping_add(1), reload_just_happened: false, ..r };
    let (r1, edge) = counter_changed(r0, r.system_counter.wrapping_add(4), r.tac);
    if reloading {
        (TimerRegs { pending_reload: false, tima: r1.tma, reload_just_happened: true, ..r1 }, edge, true)
    } else {
        (r1, edge, false)
    }
}

/// The registers after stepping until the cycle count reaches `target`: with
/// the number of DIV-APU falling edges and whether the interrupt was raised.
pub open spec fn run_until(r: TimerRegs, target: u64) -> (TimerRegs, nat, bool)
    decreases target + 4 - r.cycles,
{
    if r.cycles >= target || r.cycles > u64::MAX - 4 {
        (r, 0, false)
    } else {
        let (s, edge, irq) = stepped(r);
        let next = (r.cycles + 4) as u64;
        proof {
            assert(next == r.cycles + 4);
        }
        let (t, edges, irq2) = run_until(TimerRegs { cycles: next, ..s }, target);
        (t, edges + if edge { 1nat } else { 0nat }, irq || irq2)
    }
}

pub fn timer_signal(counter: u16, tac: u8) -> (signal: bool)
    ensures
        signal == spec_timer_signal(counter, tac),
{
    if tac & 0x04 == 0 {
        return false;
    }
    let bit: u16 = if tac & 0x03 == 0 {
        9
    } else if tac & 0x03 == 1 {
        3
    } else if tac & 0x03 == 2 {
        5
    } else {
        7
    };
    counter & (1u16 << bit) != 0
}

pub fn div_apu_signal(counter: u16) -> (signal: bool)
    ensures
        signal == spec_div_apu_signal(counter),
{
    counter & 0x1000 != 0
}

impl TimerThread {
    /// The registers as the CPU sees them are published.
    pub open spec fn published(&self) -> bool {
        &&& self.shared.div == self.regs.div
        &&& self.shared.tima == self.regs.tima
        &&& self.shared.tma == self.regs.tma
        &&& self.shared.tac == self.regs.tac
        &&& self.shared.cycles == self.regs.cycles
    }

    pub fn from_init_state(
        init_state: TimerInitState,
        interrupt_flags: InterruptFlags,
        clock: MasterClock,
        shared: SharedTimerState,
    ) -> (t: Self)
        ensures
            t.regs == (TimerRegs {
                div: init_state.div,
                tima: init_state.tima,
                tma: init_state.tma,
                tac: init_state.tac & 0x07,
                ticks: 0,
                cycles: 0,
                system_counter: (init_state.div as u16) << 8u16,
                pending_reload: false,
                reload_just_happened: false,
            }),
            t.published(),
            t.interrupt_flags == interrupt_flags,
            t.clock == clock,
    {
        let mut shared = shared;
        let tac = init_state.tac & 0x07;
        shared.publish(init_state.div, init_state.tima, init_state.tma, tac, 0);
        TimerThread {
            interrupt_flags,
            clock,
            shared,
            regs: TimerRegs {
                div: init_state.div,
                tima: init_state.tima,
                tma: init_state.tma,
                tac,
                ticks: 0,
                cycles: 0,
                system_counter: (init_state.div as u16) << 8,
                pending_reload: false,
                reload_just_happened: false,
            },
        }
    }

    pub fn publish_shared(&mut self)
        ensures
            final(self).published(),
            final(self).regs == old(self).regs,
            final(self).interrupt_flags == old(self).interrupt_flags,
            final(self).clock == old(self).clock,
    {
        let r = self.regs;
        self.shared.publish(r.div, r.tima, r.tma, r.tac, r.cycles);
    }

    pub fn increment_tima(&mut self)
        ensures
            final(self).regs == tima_incremented(old(self).regs),
            final(self).interrupt_flags == old(self).interrupt_flags,
            final(self).clock == old(self).clock,
            final(self).shared == old(self).shared,
    {
        if self.regs.pending_reload {
            return;
        }
        let next = self.regs.tima.wrapping_add(1);
        self.regs.tima = next;
        if next == 0 {
            self.regs.tima = 0;
            self.regs.pending_reload = true;
        }
    }

    /// Moves the system counter and TAC; true where DIV-APU had a falling edge.
    pub fn apply_counter_change(&mut self, next_counter: u16, next_tac: u8) -> (edge: bool)
        ensures
            (final(self).regs, edge) == counter_changed(old(self).regs, next_counter, next_tac),
            final(self).interrupt_flags == old(self).interrupt_flags,
            final(self).clock == old(self).clock,
            final(self).shared == old(self).shared,
    {
        let previous_signal = timer_signal(self.regs.system_counter, self.regs.tac);
        let previous_apu = div_apu_signal(self.regs.system_counter);
        self.regs.system_counter = next_counter;
        self.regs.tac = next_tac & 0x07;
        self.regs.div = (next_counter >> 8) as u8;
        let next_signal = timer_signal(self.regs.system_counter, self.regs.tac);
        let next_apu = div_apu_signal(self.regs.system_counter);
        if previous_signal && !next_signal {
            self.increment_tima();
        }
        previous_apu && !next_apu
    }

    /// One step of four clocks; true where DIV-APU had a falling edge.
    pub fn step(&mut self) -> (edge: bool)
        ensures
            ({
                let (r, e, irq) = stepped(old(self).regs);
                &&& final(self).regs == r
                &&& edge == e
                &&& final(self).interrupt_flags.flags == if irq {
                    old(self).interrupt_flags.flags | TIMER_INTERRUPT_MASK
                } else {
                    old(self).interrupt_flags.flags
                }
            }),
            final(self).clock == old(self).clock,
            final(self).shared == old(self).shared,
    {
        self.regs.ticks = self.regs.ticks.wrapping_add(1);
        self.regs.reload_just_happened = false;
        let reloading = self.regs.pending_reload;
        let next_counter = self.regs.system_counter.wrapping_add(TIMER_CLOCKS_PER_SAMPLE);
        let tac = self.regs.tac;
        let edge = self.apply_counter_change(next_counter, tac);
        if reloading {
            self.regs.pending_reload = false;
            self.regs.tima = self.regs.tma;
            self.interrupt_flags.set(TIMER_INTERRUPT_MASK);
            self.regs.reload_just_happened = true;
        }
        edge
    }

    /// Steps until the cycle count reaches `target`; returns the number of
    /// DIV-APU falling edges on the way.
    pub fn run_to(&mut self, target: u64) -> (edges: u64)
        requires
            target <= u64::MAX - 4,
        ensures
            ({
                let (r, e, irq) = run_until(old(self).regs, target);
                &&& final(self).regs == r
                &&& edges == e
                &&& final(self).interrupt_flags.flags == if irq {
                    old(self).interrupt_flags.flags | TIMER_INTERRUPT_MASK
                } else {
                    old(self).interrupt_flags.flags
                }
            }),
            final(self).clock == old(self).clock,
            final(self).shared == old(self).shared,
    {
        let mut edges: u64 = 0;
        let ghost start = self.regs;
        let ghost flags0 = self.interrupt_flags.flags;
        let ghost mut irq_so_far = false;
        while self.regs.cycles < target
            invariant
                target <= u64::MAX - 4,
                self.clock == old(self).clock,
                self.shared == old(self).shared,
                start == old(self).regs,
                flags0 == old(self).interrupt_flags.flags,
                edges <= self.regs.cycles / 4,
                run_until(start, target).0 == run_until(self.regs, target).0,
                run_until(start, target).1 == edges + run_until(self.regs, target).1,
                run_until(start, target).2 == (irq_so_far || run_until(self.regs, target).2),
                self.interrupt_flags.flags == if irq_so_far { flags0 | TIMER_INTERRUPT_MASK } else { flags0 },
            decreases target + 4 - self.regs.cycles,
        {
            let ghost before = self.regs;
            let ghost f = self.interrupt_flags.flags;
            let edge = self.step();
            proof {
                let (_, _, irq) = stepped(before);
                if irq {
                    irq_so_far = true;
                    assert((flags0 | 4u8) | 4u8 == flags0 | 4u8) by {
                        lemma_byte_masks();
                        lemma_word_masks();
                    }
                }
            }
            self.regs.cycles = self.regs.cycles + 4;
            if edge {
                edges = edges + 1;
            }
        }
        edges
    }

    /// Catches up with the master clock and publishes; returns the DIV-APU edges.
    pub fn chase_clock(&mut self) -> (edges: u64)
        requires
            old(self).clock.target_cycle <= u64::MAX - 8,
        ensures
            ({
                let (r, e, irq) = run_until(old(self).regs, old(self).clock.target_cycle);
                &&& final(self).regs == r
                &&& edges == e
                &&& final(self).interrupt_flags.flags == if irq {
                    old(self).interrupt_flags.flags | TIMER_INTERRUPT_MASK
                } else {
                    old(self).interrupt_flags.flags
                }
            }),
            final(self).published(),
            final(self).clock == old(self).clock,
    {
        let target = self.clock.target();
        let edges = self.run_to(target);
        self.publish_shared();
        edges
    }

    /// Catches up with one step past the master clock, as a register write
    /// lands after the cycle that issues it.
    pub fn chase_clock_for_register_write(&mut self) -> (edges: u64)
        requires
            old(self).clock.target_cycle <= u64::MAX - 8,
        ensures
            ({
                let (r, e, irq) = run_until(old(self).regs, (old(self).clock.target_cycle + 4) as u64);
                &&& final(self).regs == r
                &&& edges == e
                &&& final(self).interrupt_flags.flags == if irq {
                    old(self).interrupt_flags.flags | TIMER_INTERRUPT_MASK
                } else {
                    old(self).interrupt_flags.flags
                }
            }),
            final(self).published(),
            final(self).clock == old(self).clock,
    {
        let target = self.clock.target().saturating_add(TIMER_CLOCKS_PER_SAMPLE as u64);
        let edges = self.run_to(target);
        self.publish_shared();
        edges
    }

    /// A register read once the timer has caught up with the clock; with the
    /// DIV-APU edges passed on the way.
    pub fn handle_read(&mut self, address: u16) -> (result: (ReadResult, u64))
        requires
            old(self).clock.target_cycle <= u64::MAX - 8,
        ensures
            ({
                let (r, e, irq) = run_until(old(self).regs, old(self).clock.target_cycle);
                &&& final(self).regs == r
                &&& result.1 == e
                &&& result.0 == if address == 0xff04 {
                    ReadResult::Ready(r.div)
                } else if address == 0xff05 {
                    ReadResult::Ready(r.tima)
                } else if address == 0xff06 {
                    ReadResult::Ready(r.tma)
                } else if address == 0xff07 {
                    ReadResult::Ready(0xf8 | r.tac)
                } else {
                    ReadResult::NoData
                }
            }),
            final(self).published(),
            final(self).clock == old(self).clock,
    {
        let edges = self.chase_clock();
        let result = if address == 0xff04 {
            ReadResult::Ready(self.regs.div)
        } else if address == 0xff05 {
            ReadResult::Ready(self.regs.tima)
        } else if address == 0xff06 {
            ReadResult::Ready(self.regs.tma)
        } else if address == 0xff07 {
            ReadResult::Ready(0xf8 | self.regs.tac)
        } else {
            ReadResult::NoData
        };
        (result, edges)
    }

    /// A register write once the timer has caught up: writing DIV clears the
    /// system counter, TIMA is ignored in the cycle of a reload, TMA also
    /// lands in TIMA then. Returns the answer and the DIV-APU edges.
    pub fn handle_write(&mut self, address: u16, value: u8) -> (result: (WriteResult, u64))
        requires
            old(self).clock.target_cycle <= u64::MAX - 8,
        ensures
            ({
                let (r, e, irq) = run_until(old(self).regs, (old(self).clock.target_cycle + 4) as u64);
                if address == 0xff04 {
                    let (r2, edge) = counter_changed(r, 0, r.tac);
                    final(self).regs == r2 && result == (WriteResult::Accepted, (e + if edge { 1nat } else { 0nat }) as u64)
                } else if address == 0xff05 {
                    final(self).regs == (if r.reload_just_happened { r } else { TimerRegs { pending_reload: false, tima: value, ..r } })
                        && result == (WriteResult::Accepted, e as u64)
                } else if address == 0xff06 {
                    final(self).regs == TimerRegs { tma: value, tima: if r.reload_just_happened { value } else { r.tima }, ..r }
                        && result == (WriteResult::Accepted, e as u64)
                } else if address == 0xff07 {
                    let (r2, edge) = counter_changed(r, r.system_counter, value & 0x07);
                    final(self).regs == r2 && result == (WriteResult::Accepted, (e + if edge { 1nat } else { 0nat }) as u64)
                } else {
                    final(self).regs == r && result == (WriteResult::NoData, e as u64)
                }
            }),
            final(self).published(),
            final(self).clock == old(self).clock,
    {
        let edges = self.chase_clock_for_register_write();
        let mut extra: u64 = 0;
        let result = if address == 0xff04 {
            let tac = self.regs.tac;
            if self.apply_counter_change(0, tac) {
                extra = 1;
            }
            WriteResult::Accepted
        } else if address == 0xff05 {
            if !self.regs.reload_just_happened {
                self.regs.pending_reload = false;
                self.regs.tima = value;
            }
            WriteResult::Accepted
        } else if address == 0xff06 {
            self.regs.tma = value;
            if self.regs.reload_just_happened {
                self.regs.tima = value;
            }
            WriteResult::Accepted
        } else if address == 0xff07 {
            let counter = self.regs.system_counter;
            if self.apply_counter_change(counter, value & 0x07) {
                extra = 1;
            }
            WriteResult::Accepted
        } else {
            WriteResult::NoData
        };
        self.publish_shared();
        proof {
            lemma_run_until_edges_bounded(old(self).regs, (old(self).clock.target_cycle + 4) as u64);
        }
        (result, edges + extra)
    }

    /// One step of the timer's loop where it is behind the clock: the DIV-APU
    /// edge flag and a report on the first and every 1024th tick. `None`
    /// where the timer has caught up.
    pub fn run_once(&mut self) -> (r: Option<(bool, Option<TimerReport>)>)
        requires
            old(self).clock.target_cycle <= u64::MAX - 8,
        ensures
            old(self).regs.cycles >= old(self).clock.target_cycle ==> r is None && final(self).regs == old(self).regs,
            old(self).regs.cycles < old(self).clock.target_cycle ==> ({
                let (s, edge, irq) = stepped(old(self).regs);
                &&& final(self).regs == TimerRegs { cycles: (old(self).regs.cycles + 4) as u64, ..s }
                &&& r matches Some((e, report)) && e == edge && report == if s.ticks == 1 || s.ticks % 1024 == 0 {
                    Some(TimerReport { ticks: s.ticks })
                } else {
                    None
                }
                &&& final(self).published()
            }),
            final(self).clock == old(self).clock,
    {
        if self.regs.cycles >= self.clock.target() {
            return None;
        }
        let edge = self.step();
        self.regs.cycles = self.regs.cycles + TIMER_CLOCKS_PER_SAMPLE as u64;
        self.publish_shared();
        let ticks = self.regs.ticks;
        let report = if ticks == 1 || ticks % TIMER_REPORT_INTERVAL == 0 { Some(TimerReport { ticks }) } else { None };
        Some((edge, report))
    }

    pub fn create_save_state(&self) -> (state: TimerSaveState)
        ensures
            state == (TimerSaveState {
                div: self.regs.div,
                tima: self.regs.tima,
                tma: self.regs.tma,
                tac: self.regs.tac,
                ticks: self.regs.ticks,
                cycles: self.regs.cycles,
                system_counter: self.regs.system_counter,
                pending_reload: self.regs.pending_reload,
            }),
    {
        let r = self.regs;
        TimerSaveState {
            div: r.div,
            tima: r.tima,
            tma: r.tma,
            tac: r.tac,
            ticks: r.ticks,
            cycles: r.cycles,
            system_counter: r.system_counter,
            pending_reload: r.pending_reload,
        }
    }

    pub fn apply_save_state(&mut self, state: TimerSaveState)
        ensures
            final(self).regs == (TimerRegs {
                div: state.div,
                tima: state.tima,
                tma: state.tma,
                tac: state.tac,
                ticks: state.ticks,
                cycles: state.cycles,
                system_counter: state.system_counter,
                pending_reload: state.pending_reload,
                reload_just_happened: false,
            }),
            final(self).published(),
            final(self).interrupt_flags == old(self).interrupt_flags,
            final(self).clock == old(self).clock,
    {
        self.regs = TimerRegs {
            div: state.div,
            tima: state.tima,
            tma: state.tma,
            tac: state.tac,
            ticks: state.ticks,
            cycles: state.cycles,
            system_counter: state.system_counter,
            pending_reload: state.pending_reload,
            reload_just_happened: false,
        };
        self.publish_shared();
    }
}

/// Each step has at most one DIV-APU edge.
pub proof fn lemma_run_until_edges_bounded(r: TimerRegs, target: u64)
    ensures
        run_until(r, target).1 <= if r.cycles >= target { 0 } else { (target + 4 - r.cycles) / 4 },
    decreases target + 4 - r.cycles,
{
    if r.cycles >= target || r.cycles > u64::MAX - 4 {
    } else {
        let (s, edge, irq) = stepped(r);
        lemma_run_until_edges_bounded(TimerRegs { cycles: (r.cycles + 4) as u64, ..s }, target);
    }
}

/// Saving the timer and loading the save gives back its registers and
/// counters (the reload of the current cycle is not part of the state).
pub proof fn lemma_timer_save_roundtrip(before: TimerRegs, after: TimerRegs, save: TimerSaveState)
    requires
        save == (TimerSaveState {
            div: before.div,
            tima: before.tima,
            tma: before.tma,
            tac: before.tac,
            ticks: before.ticks,
            cycles: before.cycles,
            system_counter: before.system_counter,
            pending_reload: before.pending_reload,
        }),
        after == (TimerRegs {
            div: save.div,
            tima: save.tima,
            tma: save.tma,
            tac: save.tac,
            ticks: save.ticks,
            cycles: save.cycles,
            system_counter: save.system_counter,
            pending_reload: save.pending_reload,
            reload_just_happened: false,
        }),
    ensures
        after == (TimerRegs { reload_just_happened: false, ..before }),
{
}

} // verus!
