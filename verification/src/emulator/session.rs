//! What the emulator keeps across its components: the save-state bundle,
//! the rewind history, the initial states it hands each component, and the
//! views of OAM and the LCD registers it offers to debuggers.

use vstd::prelude::*;

use crate::bits::{lemma_byte_masks, lemma_word_masks};

use std::collections::VecDeque;
use std::path::PathBuf;

use super::cartridge::{BootMode, CartridgeImage, CartridgeMetadata};
use super::component::{
    CpuInitState, CpuRegisters, HardwareMode, PpuInitState, SharedCartridgeReadState,
    ThreadDelays, TimerInitState, HRAM_LEN, WRAM_BANKS, WRAM_BANK_SIZE, test_pattern,
};
use super::wram::WramInitState;
use crate::platform::{random_seed, seeded_bytes, seeded_fill};

verus! {

// ---------------------------------------------------------------------------
// Save states and rewind
// ---------------------------------------------------------------------------

/// The save state of the whole machine: one blob per component and the
/// master clock.
#[derive(Clone, Debug)]
pub struct FullSaveState {
    pub cpu: Vec<u8>,
    pub ppu: Vec<u8>,
    pub wram: Vec<u8>,
    pub cartridge: Vec<u8>,
    pub timer: Vec<u8>,
    pub apu: Vec<u8>,
    pub clock_cycles: u64,
}

/// A save state with the framebuffer shown when it was taken, so that rewind
/// can show it at once.
#[derive(Clone, Debug)]
pub struct RewindSnapshot {
    pub state: FullSaveState,
    pub framebuffer: Vec<u8>,
}

/// About 30 seconds of history at one capture every four frames.
pub const REWIND_BUFFER_DEFAULT_CAPACITY: usize = 450;

/// The most recent snapshots, oldest first, at most `capacity` of them.
pub struct RewindBuffer {
    buffer: VecDeque<RewindSnapshot>,
    capacity: usize,
}

impl RewindBuffer {
    /// The snapshots held, oldest first.
    pub closed spec fn snapshots(&self) -> Seq<RewindSnapshot> {
        self.buffer@
    }

    pub closed spec fn spec_capacity(&self) -> nat {
        self.capacity as nat
    }

    /// Never more snapshots than the capacity allows (one, where it is zero).
    pub open spec fn wf(&self) -> bool {
        self.snapshots().len() <= if self.spec_capacity() == 0 {
            1
        } else {
            self.spec_capacity()
        }
    }

    pub fn new(capacity: usize) -> (buffer: Self)
        ensures
            buffer.wf(),
            buffer.snapshots() == Seq::<RewindSnapshot>::empty(),
            buffer.spec_capacity() == capacity,
    {
        RewindBuffer { buffer: VecDeque::new(), capacity }
    }

    /// Adds `snapshot` as the newest, dropping the oldest where the buffer
    /// is full.
    pub fn push(&mut self, snapshot: RewindSnapshot)
        requires
            old(self).wf(),
        ensures
            final(self).wf(),
            final(self).spec_capacity() == old(self).spec_capacity(),
            final(self).snapshots() == if old(self).snapshots().len() >= old(self).spec_capacity()
                && old(self).snapshots().len() > 0 {
                old(self).snapshots().drop_first().push(snapshot)
            } else {
                old(self).snapshots().push(snapshot)
            },
    {
        if self.buffer.len() >= self.capacity {
            let _ = self.buffer.pop_front();
        }
        self.buffer.push_back(snapshot);
    }

    /// Takes the newest snapshot, if any.
    pub fn pop(&mut self) -> (snapshot: Option<RewindSnapshot>)
        requires
            old(self).wf(),
        ensures
            final(self).wf(),
            final(self).spec_capacity() == old(self).spec_capacity(),
            old(self).snapshots().len() == 0 ==> snapshot is None && final(self).snapshots() == old(
                self,
            ).snapshots(),
            old(self).snapshots().len() > 0 ==> snapshot == Some(old(self).snapshots().last())
                && final(self).snapshots() == old(self).snapshots().drop_last(),
    {
        self.buffer.pop_back()
    }

    pub fn clear(&mut self)
        ensures
            final(self).wf(),
            final(self).spec_capacity() == old(self).spec_capacity(),
            final(self).snapshots() == Seq::<RewindSnapshot>::empty(),
    {
        self.buffer.clear();
    }

    pub fn len(&self) -> (len: usize)
        ensures
            len == self.snapshots().len(),
    {
        self.buffer.len()
    }
}

/// Rewinding right after a capture gives back that capture, and leaves the
/// history as it was before it, unless the capture pushed out the oldest.
pub proof fn lemma_rewind_returns_last_capture(
    before: Seq<RewindSnapshot>,
    capacity: nat,
    snapshot: RewindSnapshot,
)
    ensures
        ({
            let after_push = if before.len() >= capacity && before.len() > 0 {
                before.drop_first().push(snapshot)
            } else {
                before.push(snapshot)
            };
            &&& after_push.len() > 0
            &&& after_push.last() == snapshot
            &&& (before.len() < capacity || before.len() == 0) ==> after_push.drop_last() == before
        }),
{
    let after_push = if before.len() >= capacity && before.len() > 0 {
        before.drop_first().push(snapshot)
    } else {
        before.push(snapshot)
    };
    if before.len() < capacity || before.len() == 0 {
        assert(after_push.drop_last() =~= before);
    }
}

// ---------------------------------------------------------------------------
// Initial states of the components
// ---------------------------------------------------------------------------

/// The mode the machine ends up in after the boot ROM: DMG compatibility
/// for a DMG cartridge, Game Boy Color otherwise.
pub fn hardware_mode_for_boot(boot_mode: BootMode) -> (mode: HardwareMode)
    ensures
        mode == if boot_mode == BootMode::Dmg {
            HardwareMode::DmgCompatibility
        } else {
            HardwareMode::Cgb
        },
{
    match boot_mode {
        BootMode::Dmg => HardwareMode::DmgCompatibility,
        _ => HardwareMode::Cgb,
    }
}

/// The seed of the power-on contents of HRAM.
pub open spec fn hram_seed(boot_seed: u64) -> u64 {
    boot_seed ^ 0xcafe_f00d_1234_5678
}

/// The seed of the power-on contents of work RAM.
pub open spec fn wram_seed(boot_seed: u64) -> u64 {
    boot_seed ^ 0x1234_5678_dead_beef
}

/// The CPU at power-on: in CGB mode at PC 0 with the boot ROM, heading for
/// the mode the cartridge asks for, HRAM filled from the seeded generator,
/// no interrupt enabled, reading the cartridge through `shared_cartridge`.
pub fn build_cpu_init_state(
    metadata: &CartridgeMetadata,
    boot_seed: u64,
    shared_cartridge: Option<SharedCartridgeReadState>,
) -> (init: CpuInitState)
    ensures
        init.hardware_mode == HardwareMode::Cgb,
        init.boot_target_mode == (if metadata.boot_mode == BootMode::Dmg {
            HardwareMode::DmgCompatibility
        } else {
            HardwareMode::Cgb
        }),
        init.registers == (CpuRegisters { af: 0, bc: 0, de: 0, hl: 0, sp: 0, pc: 0 }),
        init.hram@ == seeded_bytes(hram_seed(boot_seed), HRAM_LEN as nat),
        init.interrupt_enable == 0,
        init.shared_cartridge == shared_cartridge,
        forall|i: int| 0 <= i < 0x80 ==> #[trigger] init.io_registers@[i] == 0,
        init.joypad.packed == 0xff && init.interrupt_flags.flags == 0,
{
    let mut init_state = CpuInitState::default();
    init_state.hardware_mode = HardwareMode::Cgb;
    init_state.boot_target_mode = hardware_mode_for_boot(metadata.boot_mode);
    init_state.registers = CpuRegisters { pc: 0x0000, ..CpuRegisters::default() };
    let seed = boot_seed ^ 0xcafe_f00d_1234_5678;
    let bytes = seeded_fill(seed, HRAM_LEN);
    let mut i: usize = 0;
    while i < HRAM_LEN
        invariant
            i <= HRAM_LEN,
            bytes@.len() == HRAM_LEN,
            forall|j: int| 0 <= j < i ==> #[trigger] init_state.hram@[j] == bytes@[j],
            init_state.hardware_mode == HardwareMode::Cgb,
            init_state.boot_target_mode == (if metadata.boot_mode == BootMode::Dmg {
                HardwareMode::DmgCompatibility
            } else {
                HardwareMode::Cgb
            }),
            init_state.registers == (CpuRegisters { af: 0, bc: 0, de: 0, hl: 0, sp: 0, pc: 0 }),
            init_state.interrupt_enable == 0,
            forall|j: int| 0 <= j < 0x80 ==> #[trigger] init_state.io_registers@[j] == 0,
            init_state.joypad.packed == 0xff && init_state.interrupt_flags.flags == 0,
        decreases HRAM_LEN - i,
    {
        init_state.hram[i] = bytes[i];
        i = i + 1;
    }
    init_state.interrupt_enable = 0x00;
    init_state.shared_cartridge = shared_cartridge;
    assert(init_state.hram@ =~= bytes@);
    init_state
}

/// The PPU at power-on: its defaults, in CGB mode.
pub fn build_ppu_init_state(metadata: &CartridgeMetadata) -> (init: PpuInitState)
    ensures
        init.hardware_mode == HardwareMode::Cgb,
        init.selected_vram_bank == 0 && init.bg_palette_index == 0 && init.obj_palette_index == 0,
        forall|i: int| 0 <= i < 160 ==> #[trigger] init.oam@[i] == 0,
        forall|i: int| 0 <= i < 12 ==> #[trigger] init.lcd_registers@[i] == 0,
        forall|i: int| 0 <= i < 5 ==> #[trigger] init.hdma_registers@[i] == 0,
        forall|i: int| 0 <= i < 64 ==> #[trigger] init.bg_palette_ram@[i] == 0 && init.obj_palette_ram@[i] == 0,
        init.framebuffer@ == test_pattern(),
{
    let mut init_state = PpuInitState::default();
    init_state.hardware_mode = HardwareMode::Cgb;
    init_state
}

/// Byte `index` of a CGB palette RAM that shows a DMG game in grays: each
/// palette holds white, light gray, dark gray and black as RGB555 words
/// (0x7FFF, 0x4A10, 0x2108, 0x0000), low byte first.
pub open spec fn dmg_gray_palette_byte(index: int) -> u8 {
    let color = (index % 8) / 2;
    let low = index % 2 == 0;
    if color == 0 {
        if low { 0xff } else { 0x7f }
    } else if color == 1 {
        if low { 0x10 } else { 0x4a }
    } else if color == 2 {
        if low { 0x08 } else { 0x21 }
    } else {
        0x00
    }
}

fn gray_palette_byte(index: usize) -> (byte: u8)
    ensures
        byte == dmg_gray_palette_byte(index as int),
{
    let color = (index % 8) / 2;
    let low = index % 2 == 0;
    if color == 0 {
        if low { 0xff } else { 0x7f }
    } else if color == 1 {
        if low { 0x10 } else { 0x4a }
    } else if color == 2 {
        if low { 0x08 } else { 0x21 }
    } else {
        0x00
    }
}

/// Turns a PPU's power-on state into that of a DMG boot: DMG compatibility
/// mode, and every background and object palette set to the four grays,
/// which the DMG boot ROM leaves to the hardware.
pub fn use_dmg_palettes(init: &mut PpuInitState)
    ensures
        final(init).hardware_mode == HardwareMode::DmgCompatibility,
        forall|i: int|
            0 <= i < 64 ==> #[trigger] final(init).bg_palette_ram@[i] == dmg_gray_palette_byte(i)
                && final(init).obj_palette_ram@[i] == dmg_gray_palette_byte(i),
        *final(init) == (PpuInitState {
            hardware_mode: HardwareMode::DmgCompatibility,
            bg_palette_ram: final(init).bg_palette_ram,
            obj_palette_ram: final(init).obj_palette_ram,
            ..*old(init)
        }),
{
    init.hardware_mode = HardwareMode::DmgCompatibility;
    let mut i: usize = 0;
    while i < 64
        invariant
            i <= 64,
            forall|j: int| 0 <= j < i ==> #[trigger] init.bg_palette_ram@[j] == dmg_gray_palette_byte(j)
                && init.obj_palette_ram@[j] == dmg_gray_palette_byte(j),
            *init == (PpuInitState {
                hardware_mode: HardwareMode::DmgCompatibility,
                bg_palette_ram: init.bg_palette_ram,
                obj_palette_ram: init.obj_palette_ram,
                ..*old(init)
            }),
        decreases 64 - i,
    {
        let byte = gray_palette_byte(i);
        init.bg_palette_ram[i] = byte;
        init.obj_palette_ram[i] = byte;
        i = i + 1;
    }
}

/// The timer at power-on: all registers zero.
pub fn build_timer_init_state(metadata: &CartridgeMetadata) -> (init: TimerInitState)
    ensures
        init == (TimerInitState { div: 0, tima: 0, tma: 0, tac: 0 }),
{
    TimerInitState { div: 0x00, tima: 0x00, tma: 0x00, tac: 0x00 }
}

/// Work RAM at power-on: bank 1 selected, CGB mode, and the eight banks
/// filled in turn from one generator seeded from `boot_seed`.
pub fn build_wram_init_state(metadata: &CartridgeMetadata, boot_seed: u64) -> (init: WramInitState)
    ensures
        init.banks@.len() == 8,
        forall|k: int|
            0 <= k < 8 ==> #[trigger] init.banks@[k]@ == seeded_bytes(
                wram_seed(boot_seed),
                0x8000,
            ).subrange(k * 0x1000, k * 0x1000 + 0x1000),
        init.selected_bank == 1,
        init.hardware_mode == HardwareMode::Cgb,
        init.shared is None,
{
    let seed = boot_seed ^ 0x1234_5678_dead_beef;
    let bytes = seeded_fill(seed, WRAM_BANKS * WRAM_BANK_SIZE);
    let mut banks: Vec<Vec<u8>> = Vec::with_capacity(WRAM_BANKS);
    let mut k: usize = 0;
    while k < WRAM_BANKS
        invariant
            k <= 8,
            bytes@.len() == 0x8000,
            bytes@ == seeded_bytes(seed, 0x8000),
            banks@.len() == k,
            forall|m: int|
                0 <= m < k ==> #[trigger] banks@[m]@ == bytes@.subrange(m * 0x1000, m * 0x1000 + 0x1000),
        decreases 8 - k,
    {
        let mut bank: Vec<u8> = Vec::with_capacity(WRAM_BANK_SIZE);
        let mut i: usize = 0;
        while i < WRAM_BANK_SIZE
            invariant
                k < 8,
                i <= 0x1000,
                bytes@.len() == 0x8000,
                bank@.len() == i,
                forall|j: int| 0 <= j < i ==> #[trigger] bank@[j] == bytes@[k * 0x1000 + j],
            decreases 0x1000 - i,
        {
            bank.push(bytes[k * WRAM_BANK_SIZE + i]);
            i = i + 1;
        }
        assert(bank@ =~= bytes@.subrange(k * 0x1000, k * 0x1000 + 0x1000));
        banks.push(bank);
        k = k + 1;
    }
    WramInitState { banks, selected_bank: 1, hardware_mode: HardwareMode::Cgb, shared: None }
}

// ---------------------------------------------------------------------------
// Configuration
// ---------------------------------------------------------------------------

/// What an emulator is built from: the thread delays, the cartridge, the
/// seed of the power-on RAM contents, and where the boot ROM and the saves
/// live.
#[derive(Clone, Debug)]
pub struct EmulatorConfig {
    pub delays: ThreadDelays,
    pub cartridge: CartridgeImage,
    pub boot_seed: u64,
    pub boot_rom_path: PathBuf,
    pub save_path: Option<PathBuf>,
}

impl EmulatorConfig {
    /// A configuration for `cartridge`, with the default delays, a fresh
    /// random boot seed, the boot ROM at `boot_rom_path`, and no save path.
    pub fn with_cartridge(cartridge: CartridgeImage, boot_rom_path: PathBuf) -> (config: Self)
        ensures
            config.cartridge == cartridge,
            config.boot_rom_path == boot_rom_path,
            config.save_path is None,
    {
        EmulatorConfig {
            delays: ThreadDelays::default(),
            cartridge,
            boot_seed: random_seed(),
            boot_rom_path,
            save_path: None,
        }
    }
}

// ---------------------------------------------------------------------------
// Debugger views
// ---------------------------------------------------------------------------

/// A single OAM sprite entry.
#[derive(Clone, Copy, Debug, PartialEq, Eq, Structural)]
pub struct OamEntry {
    pub y: u8,
    pub x: u8,
    pub tile: u8,
    pub flags: u8,
}

impl OamEntry {
    /// The left edge on screen: X is stored plus 8.
    pub fn screen_x(&self) -> (x: i16)
        ensures
            x == self.x - 8,
    {
        self.x as i16 - 8
    }

    /// The top edge on screen: Y is stored plus 16.
    pub fn screen_y(&self) -> (y: i16)
        ensures
            y == self.y - 16,
    {
        self.y as i16 - 16
    }

    pub fn x_flip(&self) -> (flip: bool)
        ensures
            flip == (self.flags & 0x20 != 0),
    {
        self.flags & 0x20 != 0
    }

    pub fn y_flip(&self) -> (flip: bool)
        ensures
            flip == (self.flags & 0x40 != 0),
    {
        self.flags & 0x40 != 0
    }

    /// Whether background colours 1-3 cover the sprite.
    pub fn behind_bg(&self) -> (behind: bool)
        ensures
            behind == (self.flags & 0x80 != 0),
    {
        self.flags & 0x80 != 0
    }

    pub fn cgb_palette(&self) -> (palette: u8)
        ensures
            palette == self.flags & 0x07,
            palette < 8,
    {
        let flags = self.flags;
        proof {
            assert(flags & 0x07 < 8) by {
                lemma_byte_masks();
                lemma_word_masks();
            }
        }
        flags & 0x07
    }

    pub fn cgb_vram_bank(&self) -> (bank: u8)
        ensures
            bank == (self.flags >> 3) & 1,
            bank < 2,
    {
        let flags = self.flags;
        proof {
            assert((flags >> 3) & 1 < 2) by {
                lemma_byte_masks();
                lemma_word_masks();
            }
        }
        (flags >> 3) & 1
    }
}

/// The LCD registers at one moment.
#[derive(Clone, Copy, Debug, PartialEq, Eq, Structural)]
pub struct LcdRegisters {
    pub lcdc: u8,
    pub stat: u8,
    pub scy: u8,
    pub scx: u8,
    pub ly: u8,
    pub lyc: u8,
    pub dma: u8,
    pub bgp: u8,
    pub obp0: u8,
    pub obp1: u8,
    pub wy: u8,
    pub wx: u8,
}

/// The OAM entries in `raw`, four bytes each (Y, X, tile, flags); a tail
/// shorter than an entry is left out.
pub open spec fn oam_entries_of(raw: Seq<u8>) -> Seq<OamEntry> {
    Seq::new(
        (raw.len() / 4) as nat,
        |k: int| OamEntry { y: raw[4 * k], x: raw[4 * k + 1], tile: raw[4 * k + 2], flags: raw[4 * k + 3] },
    )
}

/// The entries `oam_entries_of` reads from `raw`.
pub fn oam_entries_from_bytes(raw: &[u8]) -> (entries: Vec<OamEntry>)
    ensures
        entries@ == oam_entries_of(raw@),
{
    let count = raw.len() / 4;
    let mut entries: Vec<OamEntry> = Vec::new();
    let mut k: usize = 0;
    while k < count
        invariant
            count == raw@.len() / 4,
            k <= count,
            entries@ == oam_entries_of(raw@).subrange(0, k as int),
        decreases count - k,
    {
        let len = raw.len();
        assert(4 * k + 3 < len) by (nonlinear_arith)
            requires
                k < count,
                count == len / 4,
        ;
        let entry = OamEntry { y: raw[4 * k], x: raw[4 * k + 1], tile: raw[4 * k + 2], flags: raw[4 * k + 3] };
        entries.push(entry);
        k = k + 1;
        assert(entries@ =~= oam_entries_of(raw@).subrange(0, k as int));
    }
    assert(oam_entries_of(raw@).subrange(0, count as int) =~= oam_entries_of(raw@));
    entries
}

/// Where the background tile map that `map_select` names begins (LCDC bit 3
/// off: 0x9800, on: 0x9C00); it holds 32 x 32 tile indices.
pub fn tile_map_base(map_select: bool) -> (base: u16)
    ensures
        base == if map_select { 0x9c00u16 } else { 0x9800u16 },
{
    if map_select {
        0x9c00
    } else {
        0x9800
    }
}

impl LcdRegisters {
    /// The twelve registers from 0xFF40 on, in address order: LCDC, STAT,
    /// SCY, SCX, LY, LYC, DMA, BGP, OBP0, OBP1, WY, WX.
    pub fn from_bytes(raw: &[u8]) -> (registers: Self)
        requires
            raw@.len() >= 12,
        ensures
            registers == (LcdRegisters {
                lcdc: raw@[0],
                stat: raw@[1],
                scy: raw@[2],
                scx: raw@[3],
                ly: raw@[4],
                lyc: raw@[5],
                dma: raw@[6],
                bgp: raw@[7],
                obp0: raw@[8],
                obp1: raw@[9],
                wy: raw@[10],
                wx: raw@[11],
            }),
    {
        LcdRegisters {
            lcdc: raw[0],
            stat: raw[1],
            scy: raw[2],
            scx: raw[3],
            ly: raw[4],
            lyc: raw[5],
            dma: raw[6],
            bgp: raw[7],
            obp0: raw[8],
            obp1: raw[9],
            wy: raw[10],
            wx: raw[11],
        }
    }
}

} // verus!
