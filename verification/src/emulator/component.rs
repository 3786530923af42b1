use vstd::prelude::*;

use crate::bits::{lemma_byte_masks, lemma_word_masks};

use crate::input::JoypadState;
use crate::platform::{duration_from_nanos, nanos_duration};

verus! {

pub const SCREEN_WIDTH: usize = 160;
pub const SCREEN_HEIGHT: usize = 144;
pub const BYTES_PER_PIXEL: usize = 4;
pub const FRAMEBUFFER_SIZE: usize = 92160;
pub const IO_REGISTERS_LEN: usize = 0x80;
pub const HRAM_LEN: usize = 0x7f;
pub const WRAM_BANK_SIZE: usize = 0x1000;
pub const WRAM_BANKS: usize = 8;
pub const SHARED_ROM_BANK_SIZE: usize = 0x4000;
pub const CPU_CLOCK_HZ: u64 = 4_194_304;

/// The interrupt flag register (IF at 0xFF0F): components raise bits, the CPU
/// reads and clears them.
/// A plain value: a clone is a copy and does not share later changes with
/// the original; whoever owns it hands the new value on.
#[derive(Clone, Debug)]
pub struct InterruptFlags {
    pub flags: u8,
}

impl InterruptFlags {
    pub fn new() -> (f: Self)
        ensures
            f.flags == 0,
    {
        InterruptFlags { flags: 0 }
    }

    pub fn load(&self) -> (value: u8)
        ensures
            value == self.flags,
    {
        self.flags
    }

    /// Stores the five interrupt bits of `value`.
    pub fn store(&mut self, value: u8)
        ensures
            final(self).flags == value & 0x1f,
    {
        self.flags = value & 0x1f;
    }

    pub fn set(&mut self, mask: u8)
        ensures
            final(self).flags == old(self).flags | mask,
    {
        self.flags = self.flags | mask;
    }

    /// Moves the requests raised in `first` and `second` (the PPU's and the
    /// timer's) into `self` (the CPU's IF): where any was raised, `self` takes
    /// them all and both sources are cleared; otherwise nothing changes.
    pub fn take_raised(&mut self, first: &mut InterruptFlags, second: &mut InterruptFlags)
        ensures
            old(first).flags | old(second).flags != 0 ==> final(self).flags == old(self).flags | (old(first).flags
                | old(second).flags) && final(first).flags == 0 && final(second).flags == 0,
            old(first).flags | old(second).flags == 0 ==> final(self).flags == old(self).flags
                && final(first).flags == old(first).flags && final(second).flags == old(second).flags,
    {
        let raised = first.load() | second.load();
        if raised != 0 {
            self.set(raised);
            first.store(0);
            second.store(0);
            assert(0u8 & 0x1f == 0) by (bit_vector);
        }
    }

    pub fn clear(&mut self, mask: u8)
        ensures
            final(self).flags == old(self).flags & !mask,
    {
        self.flags = self.flags & !mask;
    }
}

/// The cycle up to which the components may run.
/// A plain value: a clone is a copy and does not share later changes with
/// the original; whoever owns it hands the new value on.
#[derive(Clone, Debug)]
pub struct MasterClock {
    pub target_cycle: u64,
}

impl MasterClock {
    pub fn new() -> (c: Self)
        ensures
            c.target_cycle == 0,
    {
        MasterClock { target_cycle: 0 }
    }

    pub fn target(&self) -> (t: u64)
        ensures
            t == self.target_cycle,
    {
        self.target_cycle
    }

    /// Sets the target to the absolute cycle count `cycles`.
    pub fn advance(&mut self, cycles: u64)
        ensures
            final(self).target_cycle == cycles,
    {
        self.target_cycle = cycles;
    }

    pub fn store(&mut self, value: u64)
        ensures
            final(self).target_cycle == value,
    {
        self.target_cycle = value;
    }
}

/// How many dots the PPU has run.
#[derive(Clone, Debug)]
pub struct PpuProgress {
    pub dots: u64,
}

impl PpuProgress {
    pub fn new() -> (p: Self)
        ensures
            p.dots == 0,
    {
        PpuProgress { dots: 0 }
    }

    pub fn get(&self) -> (dots: u64)
        ensures
            dots == self.dots,
    {
        self.dots
    }

    pub fn set(&mut self, dots: u64)
        ensures
            final(self).dots == dots,
    {
        self.dots = dots;
    }
}

/// Result of a read on the memory bus.
#[derive(Clone, Copy, Debug, PartialEq, Eq, Structural)]
pub enum ReadResult {
    Ready(u8),
    NoData,
}

/// Result of a write on the memory bus.
#[derive(Clone, Copy, Debug, PartialEq, Eq, Structural)]
pub enum WriteResult {
    Accepted,
    NoData,
}

/// Whether the machine runs as a Game Boy Color or in DMG compatibility mode.
#[derive(Clone, Copy, Debug, PartialEq, Eq, Structural)]
pub enum HardwareMode {
    Cgb,
    DmgCompatibility,
}

pub fn select_wram_bank(value: u8) -> (bank: u8)
    ensures
        bank == (if value & 7 == 0 { 1u8 } else { value & 7 }),
        1 <= bank <= 7,
{
    let selected = value & 0x07;
    assert(value & 7 <= 7) by {
        lemma_byte_masks();
        lemma_word_masks();
    }
    if selected == 0 { 1 } else { selected }
}


/// Pauses between the steps of each component's loop.
#[derive(Clone, Copy, Debug)]
pub struct ThreadDelays {
    pub cpu: std::time::Duration,
    pub ppu: std::time::Duration,
    pub wram: std::time::Duration,
    pub cartridge: std::time::Duration,
    pub timer: std::time::Duration,
    pub apu: std::time::Duration,
}

impl ThreadDelays {
    /// No pause anywhere but 16.536 ms between PPU frames.
    pub fn default() -> (delays: Self)
        ensures
            delays.ppu == nanos_duration(16_536_000),
            delays.cpu == nanos_duration(0) && delays.wram == nanos_duration(0),
            delays.cartridge == nanos_duration(0) && delays.timer == nanos_duration(0),
            delays.apu == nanos_duration(0),
    {
        ThreadDelays {
            cpu: duration_from_nanos(0),
            ppu: duration_from_nanos(16_536_000),
            wram: duration_from_nanos(0),
            cartridge: duration_from_nanos(0),
            timer: duration_from_nanos(0),
            apu: duration_from_nanos(0),
        }
    }
}

/// The state of the machine as the front end shows it.
#[derive(Clone, Debug, PartialEq, Eq)]
pub struct Snapshot {
    pub cpu_steps: u64,
    pub cpu_af: u16,
    pub cpu_bc: u16,
    pub cpu_de: u16,
    pub cpu_hl: u16,
    pub cpu_sp: u16,
    pub cpu_pc: u16,
    pub ppu_frames: u64,
    pub wram_steps: u64,
    pub cartridge_steps: u64,
    pub timer_ticks: u64,
    pub selected_vram_bank: u8,
    pub selected_wram_bank: u8,
    pub selected_rom_bank: u8,
    pub selected_ram_bank: u8,
    pub framebuffer: Vec<u8>,
}

impl Snapshot {
    /// All counters zero, WRAM and ROM bank 1 selected, the test pattern on screen.
    pub fn default() -> (s: Self)
        ensures
            s.cpu_steps == 0 && s.cpu_af == 0 && s.cpu_bc == 0 && s.cpu_de == 0 && s.cpu_hl == 0 && s.cpu_sp
                == 0 && s.cpu_pc == 0,
            s.ppu_frames == 0 && s.wram_steps == 0 && s.cartridge_steps == 0 && s.timer_ticks == 0,
            s.selected_vram_bank == 0 && s.selected_wram_bank == 1 && s.selected_rom_bank == 1
                && s.selected_ram_bank == 0,
            s.framebuffer@ == test_pattern(),
    {
        Snapshot {
            cpu_steps: 0,
            cpu_af: 0,
            cpu_bc: 0,
            cpu_de: 0,
            cpu_hl: 0,
            cpu_sp: 0,
            cpu_pc: 0,
            ppu_frames: 0,
            wram_steps: 0,
            cartridge_steps: 0,
            timer_ticks: 0,
            selected_vram_bank: 0,
            selected_wram_bank: 1,
            selected_rom_bank: 1,
            selected_ram_bank: 0,
            framebuffer: default_framebuffer(),
        }
    }
}

/// A finished frame handed to the front end.
#[derive(Debug)]
pub struct PublishedFrame {
    pub frame: u64,
    pub framebuffer: Vec<u8>,
    pub published_at: std::time::Instant,
}

/// The OAM and LCD registers, for the debugging views.
#[derive(Clone, Debug)]
pub struct PpuFeatures {
    pub oam: [u8; 160],
    pub lcdc: u8,
    pub stat: u8,
    pub scy: u8,
    pub scx: u8,
    pub ly: u8,
    pub wy: u8,
    pub wx: u8,
}

/// A message to a component.
#[derive(Debug)]
pub enum Command {
    Memory(MemoryCommand),
    SetHardwareMode(HardwareMode),
    SaveState(std::sync::mpsc::Sender<Vec<u8>>),
    LoadState(Vec<u8>),
    RequestPpuFeatures(std::sync::mpsc::Sender<PpuFeatures>),
    Stop,
}

/// A bus access routed to a component, with the channel for its answer.
#[derive(Debug)]
pub enum MemoryCommand {
    Read { address: u16, respond_to: std::sync::mpsc::Sender<ReadResult> },
    Write { address: u16, value: u8, respond_to: Option<std::sync::mpsc::Sender<WriteResult>> },
}

/// A progress report of a component.
#[derive(Clone, Debug, PartialEq, Eq)]
pub enum ComponentReport {
    Cpu(CpuReport),
    Ppu(PpuReport),
    Wram(WramReport),
    Cartridge(CartridgeReport),
    Timer(TimerReport),
    Apu(ApuReport),
}

#[derive(Clone, Copy, Debug, PartialEq, Eq, Structural)]
pub struct CpuReport {
    pub steps: u64,
    pub registers: CpuRegisters,
}

#[derive(Clone, Debug, PartialEq, Eq)]
pub struct PpuReport {
    pub frames: u64,
    pub selected_vram_bank: u8,
    pub framebuffer: Option<Vec<u8>>,
}

#[derive(Clone, Copy, Debug, PartialEq, Eq, Structural)]
pub struct WramReport {
    pub steps: u64,
    pub selected_bank: u8,
}

#[derive(Clone, Copy, Debug, PartialEq, Eq, Structural)]
pub struct CartridgeReport {
    pub steps: u64,
    pub selected_rom_bank: u8,
    pub selected_ram_bank: u8,
}

#[derive(Clone, Copy, Debug, PartialEq, Eq, Structural)]
pub struct TimerReport {
    pub ticks: u64,
}

#[derive(Clone, Copy, Debug, PartialEq, Eq, Structural)]
pub struct ApuReport {
    pub samples: u64,
}

/// The register pairs of the CPU.
#[derive(Clone, Copy, Debug, PartialEq, Eq, Structural)]
pub struct CpuRegisters {
    pub af: u16,
    pub bc: u16,
    pub de: u16,
    pub hl: u16,
    pub sp: u16,
    pub pc: u16,
}

impl CpuRegisters {
    pub fn default() -> (r: Self)
        ensures
            r == (CpuRegisters { af: 0, bc: 0, de: 0, hl: 0, sp: 0, pc: 0 }),
    {
        CpuRegisters { af: 0, bc: 0, de: 0, hl: 0, sp: 0, pc: 0 }
    }
}

/// The initial state of the timer registers.
#[derive(Clone, Copy, Debug, PartialEq, Eq, Structural)]
pub struct TimerInitState {
    pub div: u8,
    pub tima: u8,
    pub tma: u8,
    pub tac: u8,
}

impl TimerInitState {
    pub fn default() -> (s: Self)
        ensures
            s == (TimerInitState { div: 0, tima: 0, tma: 0, tac: 0 }),
    {
        TimerInitState { div: 0, tima: 0, tma: 0, tac: 0 }
    }
}

/// The test pattern shown before the first frame: 16-pixel colour bands
/// across, 12-pixel waves down, opaque.
pub open spec fn pattern_byte(index: int) -> u8 {
    let pixel = index / 4;
    let x = pixel % 160;
    let y = pixel / 160;
    let band = (x / 16) as u8;
    let wave = ((y / 12) * 9) as u8;
    let channel = index % 4;
    if channel == 0 {
        (band * 5) as u8
    } else if channel == 1 {
        wave
    } else if channel == 2 {
        band ^ wave
    } else {
        0xffu8
    }
}

pub open spec fn test_pattern() -> Seq<u8> {
    Seq::new(92160, |i: int| pattern_byte(i))
}

pub fn default_framebuffer() -> (framebuffer: Vec<u8>)
    ensures
        framebuffer@ == test_pattern(),
{
    let mut framebuffer: Vec<u8> = Vec::with_capacity(FRAMEBUFFER_SIZE);
    let mut y: usize = 0;
    while y < SCREEN_HEIGHT
        invariant
            y <= 144,
            framebuffer@.len() == y * 640,
            forall|i: int| 0 <= i < framebuffer@.len() ==> #[trigger] framebuffer@[i] == pattern_byte(i),
        decreases 144 - y,
    {
        let mut x: usize = 0;
        while x < SCREEN_WIDTH
            invariant
                y < 144,
                x <= 160,
                framebuffer@.len() == y * 640 + x * 4,
                forall|i: int| 0 <= i < framebuffer@.len() ==> #[trigger] framebuffer@[i] == pattern_byte(i),
            decreases 160 - x,
        {
            let band = (x / 16) as u8;
            let wave = ((y / 12) as u8).wrapping_mul(9);
            let base = framebuffer.len();
            proof {
                let idx = base as int;
                assert(idx == (y * 160 + x) * 4) by (nonlinear_arith)
                    requires idx == y * 640 + x * 4;
                assert(idx / 4 == y * 160 + x);
                assert((y * 160 + x) % 160 == x && (y * 160 + x) / 160 == y) by (nonlinear_arith)
                    requires x < 160, y < 144;
                assert(((y / 12) * 9) as u8 == ((y / 12) as u8 * 9) as u8) by (nonlinear_arith)
                    requires y < 144;
                assert((idx + 1) / 4 == idx / 4 && (idx + 2) / 4 == idx / 4 && (idx + 3) / 4 == idx / 4);
                assert(idx % 4 == 0 && (idx + 1) % 4 == 1 && (idx + 2) % 4 == 2 && (idx + 3) % 4 == 3);
            }
            framebuffer.push(band.wrapping_mul(5));
            framebuffer.push(wave);
            framebuffer.push(band ^ wave);
            framebuffer.push(0xff);
            x += 1;
        }
        y += 1;
    }
    assert(framebuffer@ =~= test_pattern());
    framebuffer
}


// ---------------------------------------------------------------------------
// Cartridge ROM as the CPU reads it directly
// ---------------------------------------------------------------------------

/// The ROM, the boot ROM and the banks mapped at 0x0000 and 0x4000, which the
/// CPU reads without asking the cartridge.
/// A plain value: a clone is a copy and does not share later changes with
/// the original; whoever owns it hands the new value on.
#[derive(Clone, Debug)]
pub struct SharedCartridgeReadState {
    pub rom: Vec<u8>,
    pub boot_rom: Vec<u8>,
    pub boot_rom_mapped: bool,
    pub lower_rom_bank: usize,
    pub selected_rom_bank: usize,
}

/// Byte `index` of `bytes`, where there is one.
pub open spec fn byte_at(bytes: Seq<u8>, index: int) -> Option<u8> {
    if 0 <= index < bytes.len() {
        Some(bytes[index])
    } else {
        None
    }
}

/// Whether the boot ROM answers at `address` while it is mapped.
pub open spec fn boot_rom_window(address: u16) -> bool {
    address <= 0x00ff || (0x0200 <= address <= 0x08ff)
}

/// Byte `offset` of bank `bank`, as an index that may be out of any range.
fn banked_index(bank: usize, offset: usize) -> (index: Option<usize>)
    ensures
        index matches Some(i) ==> i == bank * 0x4000 + offset,
        index is None ==> bank * 0x4000 + offset > usize::MAX,
{
    match bank.checked_mul(SHARED_ROM_BANK_SIZE) {
        Some(start) => start.checked_add(offset),
        None => {
            assert(bank * 0x4000 + offset > usize::MAX) by (nonlinear_arith)
                requires bank * 0x4000 > usize::MAX, offset >= 0;
            None
        },
    }
}

/// Byte `index` of `bytes`, where there is one.
fn get_byte(bytes: &Vec<u8>, index: Option<usize>) -> (b: Option<u8>)
    ensures
        index is None ==> b is None,
        index matches Some(i) ==> b == byte_at(bytes@, i as int),
{
    match index {
        Some(i) => if i < bytes.len() { Some(bytes[i]) } else { None },
        None => None,
    }
}

impl SharedCartridgeReadState {
    pub fn new(rom: Vec<u8>, boot_rom: Vec<u8>, lower_rom_bank: usize, selected_rom_bank: usize) -> (s: Self)
        ensures
            s.rom@ == rom@ && s.boot_rom@ == boot_rom@,
            s.boot_rom_mapped,
            s.lower_rom_bank == lower_rom_bank && s.selected_rom_bank == selected_rom_bank,
    {
        SharedCartridgeReadState { rom, boot_rom, boot_rom_mapped: true, lower_rom_bank, selected_rom_bank }
    }

    pub open spec fn spec_read(&self, address: u16) -> Option<u8> {
        if self.boot_rom_mapped && boot_rom_window(address) {
            byte_at(self.boot_rom@, address as int)
        } else if address <= 0x3fff {
            byte_at(self.rom@, self.lower_rom_bank * 0x4000 + address)
        } else if address <= 0x7fff {
            byte_at(self.rom@, self.selected_rom_bank * 0x4000 + (address - 0x4000))
        } else {
            None
        }
    }

    /// The byte of ROM (or boot ROM) at `address`, where there is one.
    pub fn read(&self, address: u16) -> (b: Option<u8>)
        ensures
            b == self.spec_read(address),
    {
        if self.boot_rom_mapped && (address <= 0x00ff || (0x0200 <= address && address <= 0x08ff)) {
            return get_byte(&self.boot_rom, Some(address as usize));
        }
        assert(self.rom@.len() == self.rom.len());
        if address <= 0x3fff {
            get_byte(&self.rom, banked_index(self.lower_rom_bank, address as usize))
        } else if address <= 0x7fff {
            get_byte(&self.rom, banked_index(self.selected_rom_bank, address as usize - SHARED_ROM_BANK_SIZE))
        } else {
            None
        }
    }

    pub fn set_boot_rom_mapped(&mut self, mapped: bool)
        ensures
            *final(self) == (SharedCartridgeReadState { boot_rom_mapped: mapped, ..*old(self) }),
    {
        self.boot_rom_mapped = mapped;
    }

    pub fn set_lower_rom_bank(&mut self, bank: usize)
        ensures
            *final(self) == (SharedCartridgeReadState { lower_rom_bank: bank, ..*old(self) }),
    {
        self.lower_rom_bank = bank;
    }

    pub fn set_selected_rom_bank(&mut self, bank: usize)
        ensures
            *final(self) == (SharedCartridgeReadState { selected_rom_bank: bank, ..*old(self) }),
    {
        self.selected_rom_bank = bank;
    }
}

// ---------------------------------------------------------------------------
// Cartridge RAM as the CPU reaches it directly
// ---------------------------------------------------------------------------

/// The cartridge RAM with the enable flag and bank of a standard controller.
/// For other controllers (`standard_ram` false) every access goes to the cartridge.
#[derive(Clone, Debug)]
pub struct SharedCartridgeRamState {
    pub ram: Vec<u8>,
    pub ram_enabled: bool,
    pub selected_ram_bank: usize,
    pub standard_ram: bool,
    pub ram_bank_count: usize,
    pub ram_size: usize,
}

impl SharedCartridgeRamState {
    /// The RAM holds as many bytes as its layout says.
    pub open spec fn wf(&self) -> bool {
        self.ram@.len() == self.ram_size
    }

    /// Where byte `address` of the 0xA000 window lies in RAM, if anywhere.
    pub open spec fn spec_ram_index(&self, address: u16) -> Option<int> {
        if self.ram_bank_count == 0 || self.ram_size == 0 {
            None
        } else if address - 0xa000 >= self.ram_size / self.ram_bank_count {
            None
        } else {
            Some(
                (self.selected_ram_bank % self.ram_bank_count) * (self.ram_size / self.ram_bank_count) + (address
                    - 0xa000),
            )
        }
    }

    pub open spec fn spec_read(&self, address: u16) -> Option<u8> {
        if !self.standard_ram {
            None
        } else if !self.ram_enabled {
            Some(0xff)
        } else {
            match self.spec_ram_index(address) {
                Some(i) => Some(self.ram@[i]),
                None => None,
            }
        }
    }

    pub fn new(ram: Vec<u8>, ram_bank_count: usize, ram_size: usize, standard: bool) -> (s: Self)
        ensures
            s.ram@ == ram@,
            !s.ram_enabled && s.selected_ram_bank == 0,
            s.standard_ram == standard,
            s.ram_bank_count == ram_bank_count && s.ram_size == ram_size,
    {
        SharedCartridgeRamState {
            ram,
            ram_enabled: false,
            selected_ram_bank: 0,
            standard_ram: standard,
            ram_bank_count,
            ram_size,
        }
    }

    fn ram_index(&self, address: u16) -> (index: Option<usize>)
        requires
            self.wf(),
            address >= 0xa000,
        ensures
            index matches Some(i) ==> self.spec_ram_index(address) == Some(i as int) && i < self.ram@.len(),
            index is None ==> self.spec_ram_index(address) is None,
    {
        if self.ram_bank_count == 0 || self.ram_size == 0 {
            return None;
        }
        let bank_size = self.ram_size / self.ram_bank_count;
        let offset = (address - 0xa000) as usize;
        if offset >= bank_size {
            return None;
        }
        let bank = self.selected_ram_bank % self.ram_bank_count;
        proof {
            let count = self.ram_bank_count as int;
            assert(bank * bank_size + offset < count * bank_size) by (nonlinear_arith)
                requires bank < count, offset < bank_size;
            assert(count * bank_size <= self.ram_size) by (nonlinear_arith)
                requires count > 0, bank_size == self.ram_size as int / count;
        }
        Some(bank * bank_size + offset)
    }

    /// A read of cartridge RAM: `None` where the cartridge must answer itself,
    /// 0xFF while RAM is disabled.
    pub fn read(&self, address: u16) -> (b: Option<u8>)
        requires
            self.wf(),
            self.standard_ram && self.ram_enabled ==> address >= 0xa000,
        ensures
            b == self.spec_read(address),
    {
        if !self.standard_ram {
            return None;
        }
        if !self.ram_enabled {
            return Some(0xff);
        }
        match self.ram_index(address) {
            Some(i) => Some(self.ram[i]),
            None => None,
        }
    }

    /// A write of cartridge RAM; false where the cartridge must take it itself.
    pub fn write(&mut self, address: u16, value: u8) -> (handled: bool)
        requires
            old(self).wf(),
            old(self).standard_ram && old(self).ram_enabled ==> address >= 0xa000,
        ensures
            handled == old(self).standard_ram,
            final(self).wf(),
            final(self).ram@ == if old(self).standard_ram && old(self).ram_enabled {
                match old(self).spec_ram_index(address) {
                    Some(i) => old(self).ram@.update(i, value),
                    None => old(self).ram@,
                }
            } else {
                old(self).ram@
            },
            final(self).ram_enabled == old(self).ram_enabled && final(self).selected_ram_bank
                == old(self).selected_ram_bank && final(self).standard_ram == old(self).standard_ram
                && final(self).ram_bank_count == old(self).ram_bank_count && final(self).ram_size
                == old(self).ram_size,
    {
        if !self.standard_ram {
            return false;
        }
        if !self.ram_enabled {
            return true;
        }
        if let Some(i) = self.ram_index(address) {
            self.ram.set(i, value);
        }
        true
    }

    pub fn set_ram_enabled(&mut self, enabled: bool)
        ensures
            final(self).ram_enabled == enabled,
            final(self).ram@ == old(self).ram@ && final(self).selected_ram_bank == old(self).selected_ram_bank
                && final(self).standard_ram == old(self).standard_ram && final(self).ram_bank_count
                == old(self).ram_bank_count && final(self).ram_size == old(self).ram_size,
    {
        self.ram_enabled = enabled;
    }

    pub fn set_selected_ram_bank(&mut self, bank: usize)
        ensures
            final(self).selected_ram_bank == bank,
            final(self).ram@ == old(self).ram@ && final(self).ram_enabled == old(self).ram_enabled
                && final(self).standard_ram == old(self).standard_ram && final(self).ram_bank_count
                == old(self).ram_bank_count && final(self).ram_size == old(self).ram_size,
    {
        self.selected_ram_bank = bank;
    }

    pub fn set_standard_ram(&mut self, standard: bool)
        ensures
            final(self).standard_ram == standard,
            final(self).ram@ == old(self).ram@ && final(self).ram_enabled == old(self).ram_enabled
                && final(self).selected_ram_bank == old(self).selected_ram_bank && final(self).ram_bank_count
                == old(self).ram_bank_count && final(self).ram_size == old(self).ram_size,
    {
        self.standard_ram = standard;
    }

    pub fn ram_slice(&self) -> (bytes: &[u8])
        ensures
            bytes@ == self.ram@,
    {
        self.ram.as_slice()
    }

    pub fn ram_mut_slice(&mut self) -> (bytes: &mut [u8])
        ensures
            bytes@ == old(self).ram@,
            final(self).ram@ == final(bytes)@,
            final(self).ram_enabled == old(self).ram_enabled && final(self).selected_ram_bank
                == old(self).selected_ram_bank && final(self).standard_ram == old(self).standard_ram
                && final(self).ram_bank_count == old(self).ram_bank_count && final(self).ram_size
                == old(self).ram_size,
    {
        self.ram.as_mut_slice()
    }
}


// ---------------------------------------------------------------------------
// Work RAM as the CPU reaches it directly
// ---------------------------------------------------------------------------

/// The eight 4 KiB banks of work RAM, flat, with the bank mapped at 0xD000.
#[derive(Clone, Debug)]
pub struct SharedWramState {
    pub banks: Vec<u8>,
    pub selected_bank: u8,
    pub hardware_mode: HardwareMode,
}

/// Where `address` lies in the flat work RAM with bank `bank` mapped at 0xD000
/// (0xE000..=0xFDFF mirrors 0xC000..=0xDDFF).
pub open spec fn wram_offset(bank: u8, address: u16) -> Option<int> {
    if 0xc000 <= address <= 0xcfff {
        Some(address - 0xc000)
    } else if 0xd000 <= address <= 0xdfff {
        Some(bank * 0x1000 + (address - 0xd000))
    } else if 0xe000 <= address <= 0xefff {
        Some(address - 0xe000)
    } else if 0xf000 <= address <= 0xfdff {
        Some(bank * 0x1000 + (address - 0xf000))
    } else {
        None
    }
}

/// Byte `i` of the flat work RAM built from `banks`: each bank at its 4 KiB
/// slot, as far as it reaches; zero elsewhere.
pub open spec fn flattened_banks(banks: Seq<Vec<u8>>) -> Seq<u8> {
    Seq::new(
        0x8000,
        |i: int|
            if i / 0x1000 < banks.len() && i % 0x1000 < banks[i / 0x1000]@.len() {
                banks[i / 0x1000]@[i % 0x1000]
            } else {
                0u8
            },
    )
}

/// The flat work RAM after writing the first `n` of `banks` over `flat`:
/// bank `k` from position `k * 0x1000` on, as far as the RAM reaches.
pub open spec fn restored_banks(flat: Seq<u8>, banks: Seq<Vec<u8>>, n: int) -> Seq<u8>
    decreases n,
{
    if n <= 0 {
        flat
    } else {
        let prior = restored_banks(flat, banks, n - 1);
        let start = (n - 1) * 0x1000;
        Seq::new(
            prior.len(),
            |i: int|
                if start <= i < start + banks[n - 1]@.len() {
                    banks[n - 1]@[i - start]
                } else {
                    prior[i]
                },
        )
    }
}

pub proof fn lemma_restored_len(flat: Seq<u8>, banks: Seq<Vec<u8>>, n: int)
    ensures
        restored_banks(flat, banks, n).len() == flat.len(),
    decreases n,
{
    if n > 0 {
        lemma_restored_len(flat, banks, n - 1);
    }
}

/// After restoring the first `n` of eight full banks into 32 KiB of RAM,
/// each of those banks reads back as it was given.
proof fn lemma_restored_prefix(flat: Seq<u8>, banks: Seq<Vec<u8>>, n: int)
    requires
        flat.len() == 0x8000,
        0 <= n <= 8,
        banks.len() == 8,
        forall|i: int| 0 <= i < 8 ==> (#[trigger] banks[i])@.len() == 0x1000,
    ensures
        restored_banks(flat, banks, n).len() == 0x8000,
        forall|k: int|
            0 <= k < n ==> #[trigger] restored_banks(flat, banks, n).subrange(k * 0x1000, k * 0x1000 + 0x1000)
                == banks[k]@,
    decreases n,
{
    lemma_restored_len(flat, banks, n);
    if n > 0 {
        lemma_restored_prefix(flat, banks, n - 1);
        let prior = restored_banks(flat, banks, n - 1);
        let now = restored_banks(flat, banks, n);
        assert forall|k: int| 0 <= k < n implies #[trigger] now.subrange(k * 0x1000, k * 0x1000 + 0x1000)
            == banks[k]@ by {
            assert(banks[k]@.len() == 0x1000);
            if k < n - 1 {
                assert(prior.subrange(k * 0x1000, k * 0x1000 + 0x1000) == banks[k]@);
                assert forall|i: int| 0 <= i < 0x1000 implies now[k * 0x1000 + i] == banks[k]@[i] by {
                    assert(prior.subrange(k * 0x1000, k * 0x1000 + 0x1000)[i] == prior[k * 0x1000 + i]);
                }
            }
            assert(now.subrange(k * 0x1000, k * 0x1000 + 0x1000) =~= banks[k]@);
        }
    }
}

/// Restoring eight full banks and then taking a snapshot gives the banks
/// back: with `after` the RAM that `restore_banks(banks)` leaves of
/// `before`, each bank of `snapshot_banks` on `after` is the one given.
pub proof fn lemma_restore_then_snapshot(before: SharedWramState, after: SharedWramState, banks: Seq<Vec<u8>>)
    requires
        before.wf(),
        banks.len() == 8,
        forall|i: int| 0 <= i < 8 ==> (#[trigger] banks[i])@.len() == 0x1000,
        after.banks@ == restored_banks(before.banks@, banks, 8),
    ensures
        after.banks@.len() == 0x8000,
        forall|k: int|
            0 <= k < 8 ==> #[trigger] after.banks@.subrange(k * 0x1000, k * 0x1000 + 0x1000) == banks[k]@,
        after.spec_snapshot() == banks.map_values(|b: Vec<u8>| b@),
{
    lemma_restored_prefix(before.banks@, banks, 8);
    assert(after.spec_snapshot() =~= banks.map_values(|b: Vec<u8>| b@));
}

impl SharedWramState {
    /// The eight banks as `snapshot_banks` gives them.
    pub open spec fn spec_snapshot(&self) -> Seq<Seq<u8>> {
        Seq::new(8, |k: int| self.banks@.subrange(k * 0x1000, k * 0x1000 + 0x1000))
    }

    /// Eight banks of RAM and a valid bank number.
    pub open spec fn wf(&self) -> bool {
        self.banks@.len() == 0x8000 && self.selected_bank < 8
    }

    pub open spec fn is_dmg(&self) -> bool {
        self.hardware_mode == HardwareMode::DmgCompatibility
    }

    pub open spec fn spec_read(&self, address: u16) -> Option<u8> {
        if address == 0xff70 {
            if self.is_dmg() { Some(0xffu8) } else { Some(0xf8 | self.selected_bank) }
        } else {
            match wram_offset(self.selected_bank, address) {
                Some(i) => Some(self.banks@[i]),
                None => None,
            }
        }
    }

    pub fn new(banks: Vec<Vec<u8>>, selected_bank: u8, hardware_mode: HardwareMode) -> (s: Self)
        requires
            banks@.len() <= 8,
            selected_bank < 8,
        ensures
            s.wf(),
            s.banks@ == flattened_banks(banks@),
            s.selected_bank == selected_bank,
            s.hardware_mode == hardware_mode,
    {
        let mut flat: Vec<u8> = Vec::with_capacity(0x8000);
        let mut i: usize = 0;
        while i < 0x8000
            invariant
                i <= 0x8000,
                banks@.len() <= 8,
                flat@.len() == i,
                forall|k: int| 0 <= k < i ==> #[trigger] flat@[k] == flattened_banks(banks@)[k],
            decreases 0x8000 - i,
        {
            let bank = i / WRAM_BANK_SIZE;
            let offset = i % WRAM_BANK_SIZE;
            let byte = if bank < banks.len() && offset < banks[bank].len() { banks[bank][offset] } else { 0 };
            flat.push(byte);
            i += 1;
        }
        assert(flat@ =~= flattened_banks(banks@));
        SharedWramState { banks: flat, selected_bank, hardware_mode }
    }

    fn translate(&self, address: u16) -> (offset: Option<usize>)
        requires
            self.wf(),
        ensures
            offset matches Some(i) ==> wram_offset(self.selected_bank, address) == Some(i as int) && i < 0x8000,
            offset is None ==> wram_offset(self.selected_bank, address) is None,
    {
        let bank = self.selected_bank as usize;
        if 0xc000 <= address && address <= 0xcfff {
            Some((address - 0xc000) as usize)
        } else if 0xd000 <= address && address <= 0xdfff {
            Some(bank * WRAM_BANK_SIZE + (address - 0xd000) as usize)
        } else if 0xe000 <= address && address <= 0xefff {
            Some((address - 0xe000) as usize)
        } else if 0xf000 <= address && address <= 0xfdff {
            Some(bank * WRAM_BANK_SIZE + (address - 0xf000) as usize)
        } else {
            None
        }
    }

    fn is_dmg_compat(&self) -> (dmg: bool)
        ensures
            dmg == self.is_dmg(),
    {
        self.hardware_mode == HardwareMode::DmgCompatibility
    }

    /// A read of work RAM or of the bank register SVBK (0xFF70).
    pub fn read(&self, address: u16) -> (b: Option<u8>)
        requires
            self.wf(),
        ensures
            b == self.spec_read(address),
    {
        if address == 0xff70 {
            if self.is_dmg_compat() { Some(0xff) } else { Some(0xf8 | self.selected_bank) }
        } else {
            match self.translate(address) {
                Some(offset) => Some(self.banks[offset]),
                None => None,
            }
        }
    }

    /// A write of work RAM or of SVBK; false where the address is not work RAM.
    pub fn write(&mut self, address: u16, value: u8) -> (handled: bool)
        requires
            old(self).wf(),
        ensures
            final(self).wf(),
            final(self).hardware_mode == old(self).hardware_mode,
            address == 0xff70 ==> handled && final(self).banks@ == old(self).banks@ && final(self).selected_bank == if old(
                self,
            ).is_dmg() {
                old(self).selected_bank
            } else {
                (if value & 7 == 0 { 1u8 } else { value & 7 })
            },
            address != 0xff70 ==> final(self).selected_bank == old(self).selected_bank && match wram_offset(
                old(self).selected_bank,
                address,
            ) {
                Some(i) => handled && final(self).banks@ == old(self).banks@.update(i, value),
                None => !handled && final(self).banks@ == old(self).banks@,
            },
    {
        if address == 0xff70 {
            if !self.is_dmg_compat() {
                self.selected_bank = select_wram_bank(value);
            }
            true
        } else {
            match self.translate(address) {
                Some(offset) => {
                    self.banks.set(offset, value);
                    true
                },
                None => false,
            }
        }
    }

    /// The eight banks, each as its own 4 KiB vector.
    pub fn snapshot_banks(&self) -> (banks: Vec<Vec<u8>>)
        requires
            self.wf(),
        ensures
            banks@.len() == 8,
            forall|k: int| 0 <= k < 8 ==> #[trigger] banks@[k]@ == self.banks@.subrange(k * 0x1000, k * 0x1000 + 0x1000),
            banks@.map_values(|b: Vec<u8>| b@) == self.spec_snapshot(),
    {
        let mut banks: Vec<Vec<u8>> = Vec::with_capacity(WRAM_BANKS);
        let mut k: usize = 0;
        while k < WRAM_BANKS
            invariant
                k <= 8,
                self.wf(),
                banks@.len() == k,
                forall|m: int| 0 <= m < k ==> #[trigger] banks@[m]@ == self.banks@.subrange(m * 0x1000, m * 0x1000 + 0x1000),
            decreases 8 - k,
        {
            let start = k * WRAM_BANK_SIZE;
            let mut bank: Vec<u8> = Vec::with_capacity(WRAM_BANK_SIZE);
            let mut j: usize = 0;
            while j < WRAM_BANK_SIZE
                invariant
                    j <= 0x1000,
                    k < 8,
                    start == k * 0x1000,
                    self.wf(),
                    bank@ == self.banks@.subrange(start as int, start + j),
                decreases 0x1000 - j,
            {
                bank.push(self.banks[start + j]);
                j += 1;
            }
            banks.push(bank);
            k += 1;
        }
        banks
    }

    /// Writes `banks` back: bank `k` from position `k * 0x1000` on, as far as
    /// the RAM reaches (a longer bank runs into the next).
    pub fn restore_banks(&mut self, banks: &[Vec<u8>])
        requires
            old(self).wf(),
        ensures
            final(self).wf(),
            final(self).banks@ == restored_banks(old(self).banks@, banks@, banks@.len() as int),
            final(self).selected_bank == old(self).selected_bank,
            final(self).hardware_mode == old(self).hardware_mode,
    {
        let mut k: usize = 0;
        while k < banks.len()
            invariant
                k <= banks@.len(),
                self.wf(),
                self.selected_bank == old(self).selected_bank,
                self.hardware_mode == old(self).hardware_mode,
                self.banks@ == restored_banks(old(self).banks@, banks@, k as int),
            decreases banks@.len() - k,
        {
            proof {
                lemma_restored_len(old(self).banks@, banks@, k as int);
            }
            let ghost prior = self.banks@;
            let bank = &banks[k];
            let mut j: usize = 0;
            while j < bank.len()
                invariant
                    j <= bank@.len(),
                    k < banks@.len(),
                    bank == banks@[k as int],
                    self.wf(),
                    self.selected_bank == old(self).selected_bank,
                    self.hardware_mode == old(self).hardware_mode,
                    prior.len() == 0x8000,
                    forall|i: int|
                        0 <= i < 0x8000 ==> #[trigger] self.banks@[i] == if k * 0x1000 <= i < k * 0x1000 + j {
                            bank@[i - k * 0x1000]
                        } else {
                            prior[i]
                        },
                decreases bank@.len() - j,
            {
                if k < WRAM_BANKS && j < WRAM_BANK_SIZE * (WRAM_BANKS - k) {
                    let start = k * WRAM_BANK_SIZE;
                    self.banks.set(start + j, bank[j]);
                } else {
                    assert(k * 0x1000 + j >= 0x8000) by (nonlinear_arith)
                        requires !(k < 8 && j < 0x1000 * (8 - k)), j >= 0;
                }
                j += 1;
            }
            assert(self.banks@ =~= restored_banks(old(self).banks@, banks@, (k + 1) as int));
            k += 1;
        }
    }

    pub fn selected_bank(&self) -> (bank: u8)
        ensures
            bank == self.selected_bank,
    {
        self.selected_bank
    }

    pub fn set_selected_bank(&mut self, bank: u8)
        requires
            bank < 8,
        ensures
            final(self).selected_bank == bank,
            final(self).banks@ == old(self).banks@ && final(self).hardware_mode == old(self).hardware_mode,
    {
        self.selected_bank = bank;
    }

    pub fn set_hardware_mode(&mut self, mode: HardwareMode)
        ensures
            final(self).hardware_mode == mode,
            final(self).banks@ == old(self).banks@ && final(self).selected_bank == old(self).selected_bank,
    {
        self.hardware_mode = mode;
    }
}


// ---------------------------------------------------------------------------
// Timer registers as the CPU reads them directly
// ---------------------------------------------------------------------------

/// The timer registers as last published, and the cycle they belong to.
/// A plain value: a clone is a copy and does not share later changes with
/// the original; whoever owns it hands the new value on.
#[derive(Clone, Debug)]
pub struct SharedTimerState {
    pub cycles: u64,
    pub div: u8,
    pub tima: u8,
    pub tma: u8,
    pub tac: u8,
}

impl SharedTimerState {
    pub fn new() -> (s: Self)
        ensures
            s.cycles == 0 && s.div == 0 && s.tima == 0 && s.tma == 0 && s.tac == 0,
    {
        SharedTimerState { cycles: 0, div: 0, tima: 0, tma: 0, tac: 0 }
    }

    pub open spec fn spec_read(&self, address: u16) -> Option<u8> {
        if address == 0xff04 {
            Some(self.div)
        } else if address == 0xff05 {
            Some(self.tima)
        } else if address == 0xff06 {
            Some(self.tma)
        } else if address == 0xff07 {
            Some(0xf8 | self.tac)
        } else {
            None
        }
    }

    /// DIV, TIMA, TMA or TAC (whose unused bits read as 1).
    pub fn read(&self, address: u16) -> (b: Option<u8>)
        ensures
            b == self.spec_read(address),
    {
        if address == 0xff04 {
            Some(self.div)
        } else if address == 0xff05 {
            Some(self.tima)
        } else if address == 0xff06 {
            Some(self.tma)
        } else if address == 0xff07 {
            Some(0xf8 | self.tac)
        } else {
            None
        }
    }

    pub fn publish(&mut self, div: u8, tima: u8, tma: u8, tac: u8, cycles: u64)
        ensures
            final(self).div == div && final(self).tima == tima && final(self).tma == tma && final(self).tac == tac
                && final(self).cycles == cycles,
    {
        self.div = div;
        self.tima = tima;
        self.tma = tma;
        self.tac = tac;
        self.cycles = cycles;
    }
}

// ---------------------------------------------------------------------------
// APU registers as the CPU reads them directly
// ---------------------------------------------------------------------------

pub const APU_REGISTER_COUNT: usize = 0x17;
pub const SHARED_WAVE_RAM_LEN: usize = 16;

/// The bits of APU register `index` (from 0xFF10) that always read as 1.
pub open spec fn spec_apu_read_mask(index: int) -> u8 {
    if index == 0 {
        0x80
    } else if index == 1 || index == 6 {
        0x3f
    } else if index == 4 || index == 9 || index == 14 || index == 19 {
        0xbf
    } else if index == 10 {
        0x7f
    } else if index == 12 {
        0x9f
    } else if index == 22 {
        0x70
    } else if index == 2 || index == 7 || index == 17 || index == 18 || index == 20 || index == 21 {
        0x00
    } else {
        0xff
    }
}

pub fn apu_read_mask(index: usize) -> (mask: u8)
    ensures
        mask == spec_apu_read_mask(index as int),
{
    if index == 0 {
        0x80
    } else if index == 1 || index == 6 {
        0x3f
    } else if index == 4 || index == 9 || index == 14 || index == 19 {
        0xbf
    } else if index == 10 {
        0x7f
    } else if index == 12 {
        0x9f
    } else if index == 22 {
        0x70
    } else if index == 2 || index == 7 || index == 17 || index == 18 || index == 20 || index == 21 {
        0x00
    } else {
        0xff
    }
}

/// The APU registers as last written, the NR52 status bits and wave RAM.
#[derive(Clone, Debug)]
pub struct SharedApuState {
    pub registers: [u8; 23],
    pub nr52_status: u8,
    pub wave_ram: [u8; 16],
    pub ch3_enabled: bool,
}

impl SharedApuState {
    pub fn new() -> (s: Self)
        ensures
            forall|i: int| 0 <= i < 23 ==> #[trigger] s.registers@[i] == 0,
            forall|i: int| 0 <= i < 16 ==> #[trigger] s.wave_ram@[i] == 0,
            s.nr52_status == 0 && !s.ch3_enabled,
    {
        SharedApuState { registers: [0; 23], nr52_status: 0, wave_ram: [0; 16], ch3_enabled: false }
    }

    pub open spec fn spec_read(&self, address: u16) -> Option<u8> {
        if 0xff10 <= address <= 0xff25 {
            Some(self.registers@[address - 0xff10] | spec_apu_read_mask(address - 0xff10))
        } else if address == 0xff26 {
            Some(0x70 | self.nr52_status)
        } else if 0xff27 <= address <= 0xff2f {
            Some(0xffu8)
        } else if 0xff30 <= address <= 0xff3f {
            if self.ch3_enabled { None } else { Some(self.wave_ram@[address - 0xff30]) }
        } else {
            None
        }
    }

    /// A read of the APU registers or of wave RAM; `None` where the APU must
    /// answer itself (wave RAM while channel 3 plays, or another address).
    pub fn read(&self, address: u16) -> (b: Option<u8>)
        ensures
            b == self.spec_read(address),
    {
        if 0xff10 <= address && address <= 0xff25 {
            let index = (address - 0xff10) as usize;
            Some(self.registers[index] | apu_read_mask(index))
        } else if address == 0xff26 {
            Some(0x70 | self.nr52_status)
        } else if 0xff27 <= address && address <= 0xff2f {
            Some(0xff)
        } else if 0xff30 <= address && address <= 0xff3f {
            if self.ch3_enabled { None } else { Some(self.wave_ram[(address - 0xff30) as usize]) }
        } else {
            None
        }
    }

    pub fn set_register(&mut self, index: usize, value: u8)
        ensures
            final(self).registers@ == if index < 23 { old(self).registers@.update(index as int, value) } else { old(self).registers@ },
            final(self).wave_ram == old(self).wave_ram && final(self).nr52_status == old(self).nr52_status
                && final(self).ch3_enabled == old(self).ch3_enabled,
    {
        if index < APU_REGISTER_COUNT {
            self.registers[index] = value;
        }
    }

    pub fn zero_registers(&mut self)
        ensures
            forall|i: int| 0 <= i < 23 ==> #[trigger] final(self).registers@[i] == 0,
            final(self).wave_ram == old(self).wave_ram && final(self).nr52_status == old(self).nr52_status
                && final(self).ch3_enabled == old(self).ch3_enabled,
    {
        self.registers = [0; 23];
    }

    pub fn set_nr52_status(&mut self, status: u8)
        ensures
            final(self).nr52_status == status,
            final(self).registers == old(self).registers && final(self).wave_ram == old(self).wave_ram
                && final(self).ch3_enabled == old(self).ch3_enabled,
    {
        self.nr52_status = status;
    }

    pub fn set_ch3_enabled(&mut self, enabled: bool)
        ensures
            final(self).ch3_enabled == enabled,
            final(self).registers == old(self).registers && final(self).wave_ram == old(self).wave_ram
                && final(self).nr52_status == old(self).nr52_status,
    {
        self.ch3_enabled = enabled;
    }

    pub fn wave_ram_slice(&self) -> (bytes: &[u8])
        ensures
            bytes@ == self.wave_ram@,
    {
        &self.wave_ram
    }

    pub fn wave_ram_mut_slice(&mut self) -> (bytes: &mut [u8])
        ensures
            bytes@ == old(self).wave_ram@,
            final(self).wave_ram@ == final(bytes)@,
            final(self).registers == old(self).registers && final(self).nr52_status == old(self).nr52_status
                && final(self).ch3_enabled == old(self).ch3_enabled,
    {
        &mut self.wave_ram
    }

    pub fn set_wave_ram(&mut self, index: usize, value: u8)
        requires
            index < 16,
        ensures
            final(self).wave_ram@ == old(self).wave_ram@.update(index as int, value),
            final(self).registers == old(self).registers && final(self).nr52_status == old(self).nr52_status
                && final(self).ch3_enabled == old(self).ch3_enabled,
    {
        self.wave_ram[index] = value;
    }
}


// ---------------------------------------------------------------------------
// PPU memory as the CPU reaches it directly
// ---------------------------------------------------------------------------

pub const SHARED_VRAM_BANK_SIZE: usize = 0x2000;
pub const SHARED_OAM_SIZE: usize = 0xa0;
pub const SHARED_LCD_REGISTERS_LEN: usize = 0x0c;
pub const SHARED_PALETTE_RAM_LEN: usize = 64;
pub const SHARED_HDMA_REGISTERS_LEN: usize = 5;

/// The single-valued state of the PPU that decides what the CPU may access.
#[derive(Clone, Copy, Debug, PartialEq, Eq, Structural)]
pub struct PpuGates {
    pub selected_vram_bank: u8,
    /// The PPU mode, 0 to 3.
    pub mode: u8,
    pub lcd_enabled: bool,
    pub oam_dma_active: bool,
    pub hardware_mode: HardwareMode,
    pub bg_palette_index: u8,
    pub obj_palette_index: u8,
    /// 0xFF when no HDMA transfer runs, else the blocks left minus one.
    pub hdma_status: u8,
}

impl PpuGates {
    /// The mode as seen by the CPU: 0 while the LCD is off.
    pub open spec fn effective_mode(self) -> u8 {
        if self.lcd_enabled { self.mode } else { 0 }
    }

    pub open spec fn is_dmg(self) -> bool {
        self.hardware_mode == HardwareMode::DmgCompatibility
    }
}

/// VRAM (two banks), OAM, LCD registers, palettes and HDMA registers, which
/// the CPU reads and partly writes without asking the PPU.
#[derive(Clone, Debug)]
pub struct SharedPpuState {
    pub vram: Vec<u8>,
    pub oam: [u8; 160],
    pub lcd_registers: [u8; 12],
    pub bg_palette_ram: [u8; 64],
    pub obj_palette_ram: [u8; 64],
    pub hdma_registers: [u8; 5],
    pub gates: PpuGates,
}

impl SharedPpuState {
    pub open spec fn wf(&self) -> bool {
        self.vram@.len() == 0x4000 && self.gates.selected_vram_bank <= 1
    }

    /// All memory zero, bank 0, mode 0 with the LCD off, no HDMA.
    pub fn new() -> (s: Self)
        ensures
            s.wf(),
            forall|i: int| 0 <= i < 0x4000 ==> #[trigger] s.vram@[i] == 0,
            forall|i: int| 0 <= i < 160 ==> #[trigger] s.oam@[i] == 0,
            forall|i: int| 0 <= i < 12 ==> #[trigger] s.lcd_registers@[i] == 0,
            forall|i: int| 0 <= i < 64 ==> #[trigger] s.bg_palette_ram@[i] == 0 && s.obj_palette_ram@[i] == 0,
            forall|i: int| 0 <= i < 5 ==> #[trigger] s.hdma_registers@[i] == 0,
            s.gates == (PpuGates {
                selected_vram_bank: 0,
                mode: 0,
                lcd_enabled: false,
                oam_dma_active: false,
                hardware_mode: HardwareMode::Cgb,
                bg_palette_index: 0,
                obj_palette_index: 0,
                hdma_status: 0xff,
            }),
    {
        SharedPpuState {
            vram: vec![0u8; 0x4000],
            oam: [0; 160],
            lcd_registers: [0; 12],
            bg_palette_ram: [0; 64],
            obj_palette_ram: [0; 64],
            hdma_registers: [0; 5],
            gates: PpuGates {
                selected_vram_bank: 0,
                mode: 0,
                lcd_enabled: false,
                oam_dma_active: false,
                hardware_mode: HardwareMode::Cgb,
                bg_palette_index: 0,
                obj_palette_index: 0,
                hdma_status: 0xff,
            },
        }
    }

    pub open spec fn spec_read(&self, address: u16) -> Option<ReadResult> {
        let g = self.gates;
        let mode = g.effective_mode();
        if 0x8000 <= address <= 0x9fff {
            Some(
                if mode == 3 {
                    ReadResult::Ready(0xff)
                } else {
                    ReadResult::Ready(self.vram@[g.selected_vram_bank * 0x2000 + (address - 0x8000)])
                },
            )
        } else if 0xfe00 <= address <= 0xfe9f {
            Some(
                if g.oam_dma_active || mode >= 2 {
                    ReadResult::Ready(0xff)
                } else {
                    ReadResult::Ready(self.oam@[address - 0xfe00])
                },
            )
        } else if 0xff40 <= address <= 0xff4b {
            Some(ReadResult::Ready(self.lcd_registers@[address - 0xff40]))
        } else if address == 0xff4f {
            Some(ReadResult::Ready(if g.is_dmg() { 0xff } else { 0xfe | g.selected_vram_bank }))
        } else if 0xff51 <= address <= 0xff55 && g.is_dmg() {
            Some(ReadResult::Ready(0xff))
        } else if 0xff51 <= address <= 0xff54 {
            Some(ReadResult::Ready(self.hdma_registers@[address - 0xff51]))
        } else if address == 0xff55 {
            Some(ReadResult::Ready(g.hdma_status))
        } else if 0xff68 <= address <= 0xff6b && g.is_dmg() {
            Some(ReadResult::Ready(0xff))
        } else if address == 0xff68 {
            Some(ReadResult::Ready(g.bg_palette_index))
        } else if address == 0xff69 {
            Some(ReadResult::Ready(self.bg_palette_ram@[(g.bg_palette_index & 0x3f) as int]))
        } else if address == 0xff6a {
            Some(ReadResult::Ready(g.obj_palette_index))
        } else if address == 0xff6b {
            Some(ReadResult::Ready(self.obj_palette_ram@[(g.obj_palette_index & 0x3f) as int]))
        } else {
            None
        }
    }

    fn is_dmg_compat(&self) -> (dmg: bool)
        ensures
            dmg == self.gates.is_dmg(),
    {
        self.gates.hardware_mode == HardwareMode::DmgCompatibility
    }

    fn effective_mode(&self) -> (mode: u8)
        ensures
            mode == self.gates.effective_mode(),
    {
        if self.gates.lcd_enabled { self.gates.mode } else { 0 }
    }

    /// A read of VRAM, OAM or a PPU register; `None` where the PPU must answer.
    /// VRAM reads 0xFF during mode 3, OAM during modes 2 and 3 and OAM DMA.
    pub fn read(&self, address: u16) -> (r: Option<ReadResult>)
        requires
            self.wf(),
        ensures
            r == self.spec_read(address),
    {
        let mode = self.effective_mode();
        if 0x8000 <= address && address <= 0x9fff {
            if mode == 3 {
                Some(ReadResult::Ready(0xff))
            } else {
                let offset = self.gates.selected_vram_bank as usize * SHARED_VRAM_BANK_SIZE + (address - 0x8000) as usize;
                Some(ReadResult::Ready(self.vram[offset]))
            }
        } else if 0xfe00 <= address && address <= 0xfe9f {
            if self.gates.oam_dma_active || mode >= 2 {
                Some(ReadResult::Ready(0xff))
            } else {
                Some(ReadResult::Ready(self.oam[(address - 0xfe00) as usize]))
            }
        } else if 0xff40 <= address && address <= 0xff4b {
            Some(ReadResult::Ready(self.lcd_registers[(address - 0xff40) as usize]))
        } else if address == 0xff4f {
            Some(ReadResult::Ready(if self.is_dmg_compat() { 0xff } else { 0xfe | self.gates.selected_vram_bank }))
        } else if 0xff51 <= address && address <= 0xff55 && self.is_dmg_compat() {
            Some(ReadResult::Ready(0xff))
        } else if 0xff51 <= address && address <= 0xff54 {
            Some(ReadResult::Ready(self.hdma_registers[(address - 0xff51) as usize]))
        } else if address == 0xff55 {
            Some(ReadResult::Ready(self.gates.hdma_status))
        } else if 0xff68 <= address && address <= 0xff6b && self.is_dmg_compat() {
            Some(ReadResult::Ready(0xff))
        } else if address == 0xff68 {
            Some(ReadResult::Ready(self.gates.bg_palette_index))
        } else if address == 0xff69 {
            let raw: u8 = self.gates.bg_palette_index;
            let index = raw & 0x3f;
            assert(raw & 0x3f < 64) by {
                lemma_byte_masks();
                lemma_word_masks();
            }
            Some(ReadResult::Ready(self.bg_palette_ram[index as usize]))
        } else if address == 0xff6a {
            Some(ReadResult::Ready(self.gates.obj_palette_index))
        } else if address == 0xff6b {
            let raw: u8 = self.gates.obj_palette_index;
            let index = raw & 0x3f;
            assert(raw & 0x3f < 64) by {
                lemma_byte_masks();
                lemma_word_masks();
            }
            Some(ReadResult::Ready(self.obj_palette_ram[index as usize]))
        } else {
            None
        }
    }

    /// A write of VRAM, OAM, a side-effect-free LCD register or VBK; false
    /// where the PPU must take the write itself. Blocked VRAM and OAM writes
    /// are taken and dropped.
    pub fn write(&mut self, address: u16, value: u8) -> (handled: bool)
        requires
            old(self).wf(),
        ensures
            final(self).wf(),
            final(self).hdma_registers == old(self).hdma_registers,
            final(self).bg_palette_ram == old(self).bg_palette_ram,
            final(self).obj_palette_ram == old(self).obj_palette_ram,
            ({
                let g = old(self).gates;
                if 0x8000 <= address <= 0x9fff {
                    &&& handled
                    &&& final(self).vram@ == if g.effective_mode() != 3 {
                        old(self).vram@.update(g.selected_vram_bank * 0x2000 + (address - 0x8000), value)
                    } else {
                        old(self).vram@
                    }
                    &&& final(self).oam == old(self).oam && final(self).lcd_registers == old(self).lcd_registers
                        && final(self).gates == g
                } else if 0xfe00 <= address <= 0xfe9f {
                    &&& handled
                    &&& final(self).oam@ == if !g.oam_dma_active && g.effective_mode() < 2 {
                        old(self).oam@.update(address - 0xfe00, value)
                    } else {
                        old(self).oam@
                    }
                    &&& final(self).vram@ == old(self).vram@ && final(self).lcd_registers == old(self).lcd_registers
                        && final(self).gates == g
                } else if address == 0xff42 || address == 0xff43 || (0xff47 <= address <= 0xff4b) {
                    &&& handled
                    &&& final(self).lcd_registers@ == old(self).lcd_registers@.update(address - 0xff40, value)
                    &&& final(self).vram@ == old(self).vram@ && final(self).oam == old(self).oam
                        && final(self).gates == g
                } else if address == 0xff4f {
                    &&& handled
                    &&& final(self).gates == if g.is_dmg() {
                        g
                    } else {
                        PpuGates { selected_vram_bank: value & 0x01, ..g }
                    }
                    &&& final(self).vram@ == old(self).vram@ && final(self).oam == old(self).oam
                        && final(self).lcd_registers == old(self).lcd_registers
                } else {
                    &&& !handled
                    &&& final(self).vram@ == old(self).vram@ && final(self).oam == old(self).oam
                        && final(self).lcd_registers == old(self).lcd_registers && final(self).gates == g
                }
            }),
    {
        let mode = self.effective_mode();
        if 0x8000 <= address && address <= 0x9fff {
            if mode != 3 {
                let offset = self.gates.selected_vram_bank as usize * SHARED_VRAM_BANK_SIZE + (address - 0x8000) as usize;
                self.vram.set(offset, value);
            }
            true
        } else if 0xfe00 <= address && address <= 0xfe9f {
            if !self.gates.oam_dma_active && mode < 2 {
                self.oam[(address - 0xfe00) as usize] = value;
            }
            true
        } else if address == 0xff42 || address == 0xff43 || (0xff47 <= address && address <= 0xff4b) {
            self.lcd_registers[(address - 0xff40) as usize] = value;
            true
        } else if address == 0xff4f {
            if !self.is_dmg_compat() {
                self.gates.selected_vram_bank = value & 0x01;
                assert(value & 0x01 <= 1) by {
                    lemma_byte_masks();
                    lemma_word_masks();
                }
            }
            true
        } else {
            false
        }
    }

    pub fn vram_bank_slice(&self, bank: usize) -> (bytes: &[u8])
        requires
            self.wf(),
            bank < 2,
        ensures
            bytes@ == self.vram@.subrange(bank * 0x2000, bank * 0x2000 + 0x2000),
    {
        let (low, high) = self.vram.as_slice().split_at(SHARED_VRAM_BANK_SIZE);
        if bank == 0 { low } else { high }
    }

    pub fn vram_bank_slice_mut(&mut self, bank: usize) -> (bytes: &mut [u8])
        requires
            old(self).wf(),
            bank < 2,
        ensures
            bytes@ == old(self).vram@.subrange(bank * 0x2000, bank * 0x2000 + 0x2000),
            final(self).vram@ == if bank == 0 {
                final(bytes)@ + old(self).vram@.subrange(0x2000, 0x4000)
            } else {
                old(self).vram@.subrange(0, 0x2000) + final(bytes)@
            },
            final(self).oam == old(self).oam && final(self).lcd_registers == old(self).lcd_registers
                && final(self).gates == old(self).gates && final(self).hdma_registers == old(self).hdma_registers
                && final(self).bg_palette_ram == old(self).bg_palette_ram && final(self).obj_palette_ram
                == old(self).obj_palette_ram,
    {
        let (low, high) = self.vram.as_mut_slice().split_at_mut(SHARED_VRAM_BANK_SIZE);
        if bank == 0 { low } else { high }
    }

    pub fn oam_slice(&self) -> (bytes: &[u8])
        ensures
            bytes@ == self.oam@,
    {
        &self.oam
    }

    pub fn oam_mut_slice(&mut self) -> (bytes: &mut [u8])
        ensures
            bytes@ == old(self).oam@,
            final(self).oam@ == final(bytes)@,
            final(self).vram@ == old(self).vram@ && final(self).lcd_registers == old(self).lcd_registers
                && final(self).gates == old(self).gates && final(self).hdma_registers == old(self).hdma_registers
                && final(self).bg_palette_ram == old(self).bg_palette_ram && final(self).obj_palette_ram
                == old(self).obj_palette_ram,
    {
        &mut self.oam
    }

    pub fn lcd_reg_read(&self, index: usize) -> (value: u8)
        requires
            index < 12,
        ensures
            value == self.lcd_registers@[index as int],
    {
        self.lcd_registers[index]
    }

    pub fn lcd_reg_write(&mut self, index: usize, value: u8)
        requires
            index < 12,
        ensures
            final(self).lcd_registers@ == old(self).lcd_registers@.update(index as int, value),
            final(self).vram@ == old(self).vram@ && final(self).oam == old(self).oam && final(self).gates
                == old(self).gates && final(self).hdma_registers == old(self).hdma_registers
                && final(self).bg_palette_ram == old(self).bg_palette_ram && final(self).obj_palette_ram
                == old(self).obj_palette_ram,
    {
        self.lcd_registers[index] = value;
    }

    pub fn set_mode(&mut self, mode: u8)
        ensures
            final(self).gates == (PpuGates { mode, ..old(self).gates }),
            final(self).vram@ == old(self).vram@ && final(self).oam == old(self).oam && final(self).lcd_registers
                == old(self).lcd_registers && final(self).hdma_registers == old(self).hdma_registers
                && final(self).bg_palette_ram == old(self).bg_palette_ram && final(self).obj_palette_ram
                == old(self).obj_palette_ram,
    {
        self.gates.mode = mode;
    }

    pub fn set_lcd_enabled(&mut self, enabled: bool)
        ensures
            final(self).gates == (PpuGates { lcd_enabled: enabled, ..old(self).gates }),
            final(self).vram@ == old(self).vram@ && final(self).oam == old(self).oam && final(self).lcd_registers
                == old(self).lcd_registers && final(self).hdma_registers == old(self).hdma_registers
                && final(self).bg_palette_ram == old(self).bg_palette_ram && final(self).obj_palette_ram
                == old(self).obj_palette_ram,
    {
        self.gates.lcd_enabled = enabled;
    }

    pub fn set_oam_dma_active(&mut self, active: bool)
        ensures
            final(self).gates == (PpuGates { oam_dma_active: active, ..old(self).gates }),
            final(self).vram@ == old(self).vram@ && final(self).oam == old(self).oam && final(self).lcd_registers
                == old(self).lcd_registers && final(self).hdma_registers == old(self).hdma_registers
                && final(self).bg_palette_ram == old(self).bg_palette_ram && final(self).obj_palette_ram
                == old(self).obj_palette_ram,
    {
        self.gates.oam_dma_active = active;
    }

    pub fn set_selected_vram_bank(&mut self, bank: u8)
        requires
            bank <= 1,
        ensures
            final(self).gates == (PpuGates { selected_vram_bank: bank, ..old(self).gates }),
            final(self).vram@ == old(self).vram@ && final(self).oam == old(self).oam && final(self).lcd_registers
                == old(self).lcd_registers && final(self).hdma_registers == old(self).hdma_registers
                && final(self).bg_palette_ram == old(self).bg_palette_ram && final(self).obj_palette_ram
                == old(self).obj_palette_ram,
    {
        self.gates.selected_vram_bank = bank;
    }

    pub fn set_hardware_mode(&mut self, mode: HardwareMode)
        ensures
            final(self).gates == (PpuGates { hardware_mode: mode, ..old(self).gates }),
            final(self).vram@ == old(self).vram@ && final(self).oam == old(self).oam && final(self).lcd_registers
                == old(self).lcd_registers && final(self).hdma_registers == old(self).hdma_registers
                && final(self).bg_palette_ram == old(self).bg_palette_ram && final(self).obj_palette_ram
                == old(self).obj_palette_ram,
    {
        self.gates.hardware_mode = mode;
    }

    pub fn set_bg_palette_index(&mut self, index: u8)
        ensures
            final(self).gates == (PpuGates { bg_palette_index: index, ..old(self).gates }),
            final(self).vram@ == old(self).vram@ && final(self).oam == old(self).oam && final(self).lcd_registers
                == old(self).lcd_registers && final(self).hdma_registers == old(self).hdma_registers
                && final(self).bg_palette_ram == old(self).bg_palette_ram && final(self).obj_palette_ram
                == old(self).obj_palette_ram,
    {
        self.gates.bg_palette_index = index;
    }

    pub fn set_obj_palette_index(&mut self, index: u8)
        ensures
            final(self).gates == (PpuGates { obj_palette_index: index, ..old(self).gates }),
            final(self).vram@ == old(self).vram@ && final(self).oam == old(self).oam && final(self).lcd_registers
                == old(self).lcd_registers && final(self).hdma_registers == old(self).hdma_registers
                && final(self).bg_palette_ram == old(self).bg_palette_ram && final(self).obj_palette_ram
                == old(self).obj_palette_ram,
    {
        self.gates.obj_palette_index = index;
    }

    pub fn bg_palette_slice(&self) -> (bytes: &[u8])
        ensures
            bytes@ == self.bg_palette_ram@,
    {
        &self.bg_palette_ram
    }

    pub fn bg_palette_mut_slice(&mut self) -> (bytes: &mut [u8])
        ensures
            bytes@ == old(self).bg_palette_ram@,
            final(self).bg_palette_ram@ == final(bytes)@,
            final(self).vram@ == old(self).vram@ && final(self).oam == old(self).oam && final(self).lcd_registers
                == old(self).lcd_registers && final(self).gates == old(self).gates && final(self).hdma_registers
                == old(self).hdma_registers && final(self).obj_palette_ram == old(self).obj_palette_ram,
    {
        &mut self.bg_palette_ram
    }

    pub fn obj_palette_slice(&self) -> (bytes: &[u8])
        ensures
            bytes@ == self.obj_palette_ram@,
    {
        &self.obj_palette_ram
    }

    pub fn obj_palette_mut_slice(&mut self) -> (bytes: &mut [u8])
        ensures
            bytes@ == old(self).obj_palette_ram@,
            final(self).obj_palette_ram@ == final(bytes)@,
            final(self).vram@ == old(self).vram@ && final(self).oam == old(self).oam && final(self).lcd_registers
                == old(self).lcd_registers && final(self).gates == old(self).gates && final(self).hdma_registers
                == old(self).hdma_registers && final(self).bg_palette_ram == old(self).bg_palette_ram,
    {
        &mut self.obj_palette_ram
    }

    pub fn set_hdma_register(&mut self, index: usize, value: u8)
        requires
            index < 5,
        ensures
            final(self).hdma_registers@ == old(self).hdma_registers@.update(index as int, value),
            final(self).vram@ == old(self).vram@ && final(self).oam == old(self).oam && final(self).lcd_registers
                == old(self).lcd_registers && final(self).gates == old(self).gates && final(self).bg_palette_ram
                == old(self).bg_palette_ram && final(self).obj_palette_ram == old(self).obj_palette_ram,
    {
        self.hdma_registers[index] = value;
    }

    pub fn set_hdma_status(&mut self, status: u8)
        ensures
            final(self).gates == (PpuGates { hdma_status: status, ..old(self).gates }),
            final(self).vram@ == old(self).vram@ && final(self).oam == old(self).oam && final(self).lcd_registers
                == old(self).lcd_registers && final(self).hdma_registers == old(self).hdma_registers
                && final(self).bg_palette_ram == old(self).bg_palette_ram && final(self).obj_palette_ram
                == old(self).obj_palette_ram,
    {
        self.gates.hdma_status = status;
    }
}


/// How the PPU starts: its mode, registers, OAM, palettes and framebuffer.
#[derive(Clone, Debug, PartialEq, Eq)]
pub struct PpuInitState {
    pub hardware_mode: HardwareMode,
    pub selected_vram_bank: u8,
    pub oam: [u8; 160],
    pub lcd_registers: [u8; 12],
    pub hdma_registers: [u8; 5],
    pub bg_palette_index: u8,
    pub obj_palette_index: u8,
    pub bg_palette_ram: [u8; 64],
    pub obj_palette_ram: [u8; 64],
    pub framebuffer: Vec<u8>,
}

impl PpuInitState {
    /// CGB mode, everything zero, the test pattern on screen.
    pub fn default() -> (s: Self)
        ensures
            s.hardware_mode == HardwareMode::Cgb,
            s.selected_vram_bank == 0 && s.bg_palette_index == 0 && s.obj_palette_index == 0,
            forall|i: int| 0 <= i < 160 ==> #[trigger] s.oam@[i] == 0,
            forall|i: int| 0 <= i < 12 ==> #[trigger] s.lcd_registers@[i] == 0,
            forall|i: int| 0 <= i < 5 ==> #[trigger] s.hdma_registers@[i] == 0,
            forall|i: int| 0 <= i < 64 ==> #[trigger] s.bg_palette_ram@[i] == 0 && s.obj_palette_ram@[i] == 0,
            s.framebuffer@ == test_pattern(),
    {
        PpuInitState {
            hardware_mode: HardwareMode::Cgb,
            selected_vram_bank: 0,
            oam: [0; 160],
            lcd_registers: [0; 12],
            hdma_registers: [0; 5],
            bg_palette_index: 0,
            obj_palette_index: 0,
            bg_palette_ram: [0; 64],
            obj_palette_ram: [0; 64],
            framebuffer: default_framebuffer(),
        }
    }
}

/// How the CPU starts: its registers, I/O page, HRAM, the views of the other
/// components it reads directly, the joypad, the serial output, and the
/// speed and pause settings as they stand at start.
#[derive(Clone, Debug)]
pub struct CpuInitState {
    pub hardware_mode: HardwareMode,
    pub boot_target_mode: HardwareMode,
    pub registers: CpuRegisters,
    pub io_registers: [u8; IO_REGISTERS_LEN],
    pub hram: [u8; HRAM_LEN],
    pub interrupt_enable: u8,
    pub shared_cartridge: Option<SharedCartridgeReadState>,
    pub shared_cartridge_ram: Option<SharedCartridgeRamState>,
    pub shared_wram: Option<SharedWramState>,
    pub shared_timer: Option<SharedTimerState>,
    pub shared_apu: Option<SharedApuState>,
    pub shared_ppu: Option<SharedPpuState>,
    pub joypad: JoypadState,
    pub serial_output: Option<std::sync::mpsc::SyncSender<u8>>,
    pub interrupt_flags: InterruptFlags,
    /// Speed multiplier: 100 = 1.0x, 200 = 2.0x, 0 = uncapped.
    pub speed: u32,
    pub paused: bool,
    pub ppu_progress: PpuProgress,
}

impl CpuInitState {
    /// CGB mode, all registers zero, no button held, normal speed, running.
    pub fn default() -> (s: Self)
        ensures
            s.hardware_mode == HardwareMode::Cgb && s.boot_target_mode == HardwareMode::Cgb,
            s.registers == (CpuRegisters { af: 0, bc: 0, de: 0, hl: 0, sp: 0, pc: 0 }),
            forall|i: int| 0 <= i < IO_REGISTERS_LEN ==> #[trigger] s.io_registers@[i] == 0,
            forall|i: int| 0 <= i < HRAM_LEN ==> #[trigger] s.hram@[i] == 0,
            s.interrupt_enable == 0,
            s.shared_cartridge is None && s.shared_cartridge_ram is None && s.shared_wram is None,
            s.shared_timer is None && s.shared_apu is None && s.shared_ppu is None,
            s.joypad.packed == 0xff,
            s.serial_output is None,
            s.interrupt_flags.flags == 0,
            s.speed == 100 && !s.paused,
            s.ppu_progress.dots == 0,
    {
        CpuInitState {
            hardware_mode: HardwareMode::Cgb,
            boot_target_mode: HardwareMode::Cgb,
            registers: CpuRegisters::default(),
            io_registers: [0u8; 0x80],
            hram: [0u8; 0x7f],
            interrupt_enable: 0,
            shared_cartridge: None,
            shared_cartridge_ram: None,
            shared_wram: None,
            shared_timer: None,
            shared_apu: None,
            shared_ppu: None,
            joypad: JoypadState::new(),
            serial_output: None,
            interrupt_flags: InterruptFlags::new(),
            speed: 100,
            paused: false,
            ppu_progress: PpuProgress::new(),
        }
    }
}

} // verus!
