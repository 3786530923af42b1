use vstd::prelude::*;

use crate::bits::{lemma_byte_masks, lemma_word_masks};

use super::component::{
    flattened_banks, restored_banks, select_wram_bank, wram_offset, HardwareMode, ReadResult, SharedWramState,
    WramReport, WriteResult, WRAM_BANKS, WRAM_BANK_SIZE,
};

verus! {

pub const WRAM_REPORT_INTERVAL: u64 = 4096;

/// Work RAM's part of a save state.
#[derive(Debug)]
pub struct WramSaveState {
    pub banks: Vec<Vec<u8>>,
    pub selected_bank: u8,
    pub hardware_mode: HardwareMode,
}

/// How work RAM starts: its banks, the selected bank and the hardware mode,
/// or a shared state to use as it is.
#[derive(Clone, Debug)]
pub struct WramInitState {
    pub banks: Vec<Vec<u8>>,
    pub selected_bank: u8,
    pub hardware_mode: HardwareMode,
    pub shared: Option<SharedWramState>,
}

impl WramInitState {
    /// Eight zeroed banks, bank 1 selected, CGB mode.
    pub fn default() -> (s: Self)
        ensures
            s.banks@.len() == 8,
            forall|k: int| 0 <= k < 8 ==> #[trigger] s.banks@[k]@ == Seq::new(0x1000, |i: int| 0u8),
            s.selected_bank == 1,
            s.hardware_mode == HardwareMode::Cgb,
            s.shared is None,
    {
        let mut banks: Vec<Vec<u8>> = Vec::with_capacity(WRAM_BANKS);
        let mut k: usize = 0;
        while k < WRAM_BANKS
            invariant
                k <= 8,
                banks@.len() == k,
                forall|m: int| 0 <= m < k ==> #[trigger] banks@[m]@ == Seq::new(0x1000, |i: int| 0u8),
            decreases 8 - k,
        {
            let bank = vec![0u8; WRAM_BANK_SIZE];
            assert(bank@ =~= Seq::new(0x1000, |i: int| 0u8));
            banks.push(bank);
            k += 1;
        }
        WramInitState { banks, selected_bank: 1, hardware_mode: HardwareMode::Cgb, shared: None }
    }
}

/// Work RAM: eight 4 KiB banks, one fixed at 0xC000 and one selectable at
/// 0xD000, mirrored at 0xE000..=0xFDFF.
#[derive(Debug)]
pub struct WramThread {
    pub shared: SharedWramState,
    pub hardware_mode: HardwareMode,
    pub steps: u64,
    pub last_reported_bank: u8,
}

impl WramThread {
    pub open spec fn wf(&self) -> bool {
        self.shared.wf() && self.shared.hardware_mode == self.hardware_mode
    }

    pub fn from_init_state(init_state: WramInitState) -> (w: Self)
        requires
            init_state.banks@.len() <= 8,
            init_state.shared matches Some(s) ==> s.wf(),
        ensures
            w.wf(),
            w.hardware_mode == init_state.hardware_mode,
            w.steps == 0,
            w.last_reported_bank == w.shared.selected_bank,
            init_state.shared is None ==> w.shared.banks@ == flattened_banks(init_state.banks@)
                && w.shared.selected_bank == (if init_state.selected_bank & 7 == 0 { 1u8 } else { init_state.selected_bank & 7 }),
            init_state.shared matches Some(s) ==> w.shared.banks@ == s.banks@ && w.shared.selected_bank == s.selected_bank,
    {
        let mode = init_state.hardware_mode;
        let mut shared = match init_state.shared {
            Some(s) => s,
            None => SharedWramState::new(init_state.banks, select_wram_bank(init_state.selected_bank), mode),
        };
        shared.set_hardware_mode(mode);
        let selected_bank = shared.selected_bank();
        WramThread { shared, hardware_mode: mode, steps: 0, last_reported_bank: selected_bank }
    }

    pub fn default() -> (w: Self)
        ensures
            w.wf(),
            w.hardware_mode == HardwareMode::Cgb,
            w.shared.selected_bank == 1,
            forall|i: int| 0 <= i < 0x8000 ==> #[trigger] w.shared.banks@[i] == 0,
    {
        let init = WramInitState::default();
        assert(1u8 & 7 == 1) by {
            lemma_byte_masks();
            lemma_word_masks();
        }
        let w = Self::from_init_state(init);
        assert forall|i: int| 0 <= i < 0x8000 implies #[trigger] w.shared.banks@[i] == 0 by {
            assert(flattened_banks(init.banks@)[i] == 0);
        }
        w
    }

    pub fn handle_read(&self, address: u16) -> (r: ReadResult)
        requires
            self.wf(),
        ensures
            r == match self.shared.spec_read(address) {
                Some(b) => ReadResult::Ready(b),
                None => ReadResult::NoData,
            },
    {
        match self.shared.read(address) {
            Some(b) => ReadResult::Ready(b),
            None => ReadResult::NoData,
        }
    }

    pub fn handle_write(&mut self, address: u16, value: u8) -> (r: WriteResult)
        requires
            old(self).wf(),
        ensures
            final(self).wf(),
            final(self).hardware_mode == old(self).hardware_mode,
            final(self).steps == old(self).steps,
            address == 0xff70 ==> r == WriteResult::Accepted && final(self).shared.banks@ == old(self).shared.banks@
                && final(self).shared.selected_bank == if old(self).shared.is_dmg() {
                old(self).shared.selected_bank
            } else {
                (if value & 7 == 0 { 1u8 } else { value & 7 })
            },
            address != 0xff70 ==> final(self).shared.selected_bank == old(self).shared.selected_bank && match wram_offset(
                old(self).shared.selected_bank,
                address,
            ) {
                Some(i) => r == WriteResult::Accepted && final(self).shared.banks@ == old(self).shared.banks@.update(i, value),
                None => r == WriteResult::NoData && final(self).shared.banks@ == old(self).shared.banks@,
            },
    {
        if self.shared.write(address, value) {
            WriteResult::Accepted
        } else {
            WriteResult::NoData
        }
    }

    pub fn set_hardware_mode(&mut self, mode: HardwareMode)
        requires
            old(self).wf(),
        ensures
            final(self).wf(),
            final(self).hardware_mode == mode,
            final(self).shared.banks@ == old(self).shared.banks@,
            final(self).shared.selected_bank == old(self).shared.selected_bank,
    {
        self.hardware_mode = mode;
        self.shared.set_hardware_mode(mode);
    }

    /// One pass of the loop: counts a step and reports on the first step,
    /// every 4096 steps, and when the selected bank changed.
    pub fn step(&mut self) -> (report: Option<WramReport>)
        requires
            old(self).steps < u64::MAX,
        ensures
            final(self).steps == old(self).steps + 1,
            final(self).shared == old(self).shared,
            final(self).hardware_mode == old(self).hardware_mode,
            ({
                let bank = old(self).shared.selected_bank;
                if final(self).steps == 1 || final(self).steps % 4096 == 0 || bank != old(self).last_reported_bank {
                    report == Some(WramReport { steps: final(self).steps, selected_bank: bank })
                        && final(self).last_reported_bank == bank
                } else {
                    report is None && final(self).last_reported_bank == old(self).last_reported_bank
                }
            }),
    {
        let bank = self.shared.selected_bank();
        self.steps = self.steps + 1;
        if self.steps == 1 || self.steps % WRAM_REPORT_INTERVAL == 0 || bank != self.last_reported_bank {
            self.last_reported_bank = bank;
            Some(WramReport { steps: self.steps, selected_bank: bank })
        } else {
            None
        }
    }

    pub fn create_save_state(&self) -> (state: WramSaveState)
        requires
            self.wf(),
        ensures
            state.banks@.len() == 8,
            forall|k: int| 0 <= k < 8 ==> #[trigger] state.banks@[k]@ == self.shared.banks@.subrange(k * 0x1000, k * 0x1000 + 0x1000),
            state.selected_bank == self.shared.selected_bank,
            state.hardware_mode == self.hardware_mode,
    {
        WramSaveState {
            banks: self.shared.snapshot_banks(),
            selected_bank: self.shared.selected_bank(),
            hardware_mode: self.hardware_mode,
        }
    }

    pub fn apply_save_state(&mut self, state: WramSaveState)
        requires
            old(self).wf(),
        ensures
            final(self).wf(),
            final(self).shared.banks@ == restored_banks(old(self).shared.banks@, state.banks@, state.banks@.len() as int),
            final(self).shared.selected_bank == (if state.selected_bank & 7 == 0 { 1u8 } else { state.selected_bank & 7 }),
            final(self).hardware_mode == state.hardware_mode,
    {
        self.shared.restore_banks(state.banks.as_slice());
        self.shared.set_selected_bank(select_wram_bank(state.selected_bank));
        self.hardware_mode = state.hardware_mode;
        self.shared.set_hardware_mode(state.hardware_mode);
    }
}

/// A byte written to work RAM reads back, at that address and at its mirror.
pub proof fn lemma_wram_read_after_write(before: SharedWramState, after: SharedWramState, address: u16, value: u8)
    requires
        before.wf(),
        address != 0xff70,
        wram_offset(before.selected_bank, address) is Some,
        after.selected_bank == before.selected_bank,
        after.hardware_mode == before.hardware_mode,
        after.banks@ == before.banks@.update(wram_offset(before.selected_bank, address)->0, value),
    ensures
        after.spec_read(address) == Some(value),
        0xc000 <= address <= 0xddff ==> after.spec_read((address + 0x2000) as u16) == Some(value),
        0xe000 <= address <= 0xfdff ==> after.spec_read((address - 0x2000) as u16) == Some(value),
{
}

/// The echo area 0xE000..=0xFDFF shows the bytes of 0xC000..=0xDDFF.
pub proof fn lemma_wram_echo(s: SharedWramState, address: u16)
    requires
        0xe000 <= address <= 0xfdff,
    ensures
        s.spec_read(address) == s.spec_read((address - 0x2000) as u16),
{
}

/// Saving work RAM and loading the save gives back every byte and the bank.
pub proof fn lemma_wram_save_roundtrip(saved: SharedWramState, before: SharedWramState, banks: Seq<Vec<u8>>)
    requires
        saved.wf(),
        before.wf(),
        banks.len() == 8,
        forall|k: int| 0 <= k < 8 ==> #[trigger] banks[k]@ == saved.banks@.subrange(k * 0x1000, k * 0x1000 + 0x1000),
    ensures
        restored_banks(before.banks@, banks, 8) == saved.banks@,
{
    assert forall|n: int| 0 <= n <= 8 implies #[trigger] restored_banks(before.banks@, banks, n).len() == 0x8000 && (
    forall|i: int| 0 <= i < 0x8000 ==> #[trigger] restored_banks(before.banks@, banks, n)[i] == if i < n * 0x1000 {
        saved.banks@[i]
    } else {
        before.banks@[i]
    }) by {
        lemma_restored_prefix(before.banks@, saved.banks@, banks, n);
    }
    assert(restored_banks(before.banks@, banks, 8) =~= saved.banks@);
}

proof fn lemma_restored_prefix(flat: Seq<u8>, saved: Seq<u8>, banks: Seq<Vec<u8>>, n: int)
    requires
        flat.len() == 0x8000,
        saved.len() == 0x8000,
        0 <= n <= 8,
        banks.len() == 8,
        forall|k: int| 0 <= k < 8 ==> #[trigger] banks[k]@ == saved.subrange(k * 0x1000, k * 0x1000 + 0x1000),
    ensures
        restored_banks(flat, banks, n).len() == 0x8000,
        forall|i: int| 0 <= i < 0x8000 ==> #[trigger] restored_banks(flat, banks, n)[i] == if i < n * 0x1000 {
            saved[i]
        } else {
            flat[i]
        },
    decreases n,
{
    if n > 0 {
        lemma_restored_prefix(flat, saved, banks, n - 1);
        let b = banks[n - 1]@;
        assert(b.len() == 0x1000);
        assert forall|i: int| 0 <= i < 0x8000 implies #[trigger] restored_banks(flat, banks, n)[i] == if i < n * 0x1000 {
            saved[i]
        } else {
            flat[i]
        } by {
            let start = (n - 1) * 0x1000;
            if start <= i < start + 0x1000 {
                assert(b[i - start] == saved[i]);
            }
        }
    }
}

} // verus!
