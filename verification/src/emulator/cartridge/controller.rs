use vstd::prelude::*;

use crate::bits::{lemma_byte_masks, lemma_word_masks};

use crate::emulator::component::{ReadResult, WriteResult};
use crate::platform::{duration_secs, instant_elapsed, instant_now, seeded_bytes, seeded_fill};

use super::image::CartridgeMetadata;
use super::{
    ram_layout_ok, read_ram_bank, read_rom_bank, rom_byte_index, spec_read_ram, spec_write_ram,
    write_ram_bank,
};

verus! {

/// The ROM matches the header's bank count and the RAM matches its layout.
pub open spec fn mapping_ok(metadata: CartridgeMetadata, rom: Seq<u8>, ram: Seq<u8>) -> bool {
    &&& metadata.rom_bank_count > 0
    &&& rom.len() == metadata.rom_bank_count * 0x4000
    &&& ram_layout_ok(metadata, ram.len())
}

pub open spec fn rom_read(metadata: CartridgeMetadata, rom: Seq<u8>, bank: int, offset: int) -> ReadResult {
    ReadResult::Ready(rom[rom_byte_index(metadata.rom_bank_count, bank, offset)])
}

/// Writing a RAM-enable register: the low nibble 0xA enables RAM.
pub open spec fn enables_ram(value: u8) -> bool {
    value & 0x0f == 0x0a
}

// ---------------------------------------------------------------------------
// MBC1
// ---------------------------------------------------------------------------

#[derive(Clone, Copy, Debug, PartialEq, Eq, Structural)]
pub enum Mbc1Mode {
    RomBanking,
    RamBanking,
}

pub open spec fn mode_of(value: u8) -> Mbc1Mode {
    if value & 0x01 == 0 { Mbc1Mode::RomBanking } else { Mbc1Mode::RamBanking }
}

fn mode_from_value(value: u8) -> (mode: Mbc1Mode)
    ensures
        mode == mode_of(value),
{
    if value & 0x01 == 0 { Mbc1Mode::RomBanking } else { Mbc1Mode::RamBanking }
}

/// Bank register state of an MBC1 (and of the MBC1-like HuC1 and MMM01).
#[derive(Debug)]
pub struct Mbc1State {
    pub ram_enabled: bool,
    pub rom_bank_low5: u8,
    pub bank_high2: u8,
    pub mode: Mbc1Mode,
}

/// The 5-bit bank register, where 0 selects bank 1.
pub open spec fn low5_or_one(low5: u8) -> usize {
    if low5 == 0 { 1 } else { low5 as usize }
}

impl Mbc1State {
    pub open spec fn spec_lower_rom_bank(&self, metadata: CartridgeMetadata) -> usize {
        match self.mode {
            Mbc1Mode::RomBanking => 0,
            Mbc1Mode::RamBanking => (((self.bank_high2 as usize) << 5usize) % metadata.rom_bank_count) as usize,
        }
    }

    pub open spec fn spec_selected_rom_bank(&self, metadata: CartridgeMetadata) -> usize {
        ((((self.bank_high2 as usize) << 5usize) | low5_or_one(self.rom_bank_low5)) % metadata.rom_bank_count) as usize
    }

    pub open spec fn spec_selected_ram_bank(&self, metadata: CartridgeMetadata) -> usize {
        if metadata.ram_bank_count == 0 {
            0
        } else {
            match self.mode {
                Mbc1Mode::RomBanking => 0,
                Mbc1Mode::RamBanking => ((self.bank_high2 as usize) % metadata.ram_bank_count) as usize,
            }
        }
    }

    pub open spec fn spec_read(&self, metadata: CartridgeMetadata, rom: Seq<u8>, ram: Seq<u8>, address: u16) -> ReadResult {
        if address <= 0x3fff {
            rom_read(metadata, rom, self.spec_lower_rom_bank(metadata) as int, address as int)
        } else if address <= 0x7fff {
            rom_read(metadata, rom, self.spec_selected_rom_bank(metadata) as int, address - 0x4000)
        } else if 0xa000 <= address <= 0xbfff && self.ram_enabled {
            spec_read_ram(metadata, ram, self.spec_selected_ram_bank(metadata) as int, address - 0xa000)
        } else {
            ReadResult::NoData
        }
    }

    /// The register file after a write to the control area 0x0000..=0x7fff.
    pub open spec fn spec_registers_after(self, address: u16, value: u8) -> Mbc1State {
        if address <= 0x1fff {
            Mbc1State { ram_enabled: enables_ram(value), ..self }
        } else if address <= 0x3fff {
            Mbc1State { rom_bank_low5: value & 0x1f, ..self }
        } else if address <= 0x5fff {
            Mbc1State { bank_high2: value & 0x03, ..self }
        } else {
            Mbc1State { mode: mode_of(value), ..self }
        }
    }

    pub fn lower_rom_bank(&self, metadata: &CartridgeMetadata) -> (bank: usize)
        requires
            metadata.rom_bank_count > 0,
        ensures
            bank == self.spec_lower_rom_bank(*metadata),
            bank < metadata.rom_bank_count,
    {
        match self.mode {
            Mbc1Mode::RomBanking => 0,
            Mbc1Mode::RamBanking => ((self.bank_high2 as usize) << 5) % metadata.rom_bank_count,
        }
    }

    pub fn selected_rom_bank(&self, metadata: &CartridgeMetadata) -> (bank: usize)
        requires
            metadata.rom_bank_count > 0,
        ensures
            bank == self.spec_selected_rom_bank(*metadata),
            bank < metadata.rom_bank_count,
    {
        let low = if self.rom_bank_low5 == 0 { 1 } else { self.rom_bank_low5 as usize };
        let high = (self.bank_high2 as usize) << 5;
        (high | low) % metadata.rom_bank_count
    }

    pub fn selected_ram_bank(&self, metadata: &CartridgeMetadata) -> (bank: usize)
        ensures
            bank == self.spec_selected_ram_bank(*metadata),
            metadata.ram_bank_count > 0 ==> bank < metadata.ram_bank_count,
    {
        if metadata.ram_bank_count == 0 {
            return 0;
        }
        match self.mode {
            Mbc1Mode::RomBanking => 0,
            Mbc1Mode::RamBanking => (self.bank_high2 as usize) % metadata.ram_bank_count,
        }
    }

    pub fn read(&self, metadata: &CartridgeMetadata, rom: &[u8], ram: &[u8], address: u16) -> (r: ReadResult)
        requires
            mapping_ok(*metadata, rom@, ram@),
        ensures
            r == self.spec_read(*metadata, rom@, ram@, address),
    {
        if address <= 0x3fff {
            read_rom_bank(rom, metadata, self.lower_rom_bank(metadata), address)
        } else if address <= 0x7fff {
            read_rom_bank(rom, metadata, self.selected_rom_bank(metadata), address - 0x4000)
        } else if 0xa000 <= address && address <= 0xbfff && self.ram_enabled {
            read_ram_bank(ram, metadata, self.selected_ram_bank(metadata), address - 0xa000)
        } else {
            ReadResult::NoData
        }
    }

    /// What a write of `value` at `address` does: `self` and `ram_pre` before, `post` and `ram_post` after.
    pub open spec fn write_post(
        self,
        post: Self,
        metadata: CartridgeMetadata,
        ram_pre: Seq<u8>,
        ram_post: Seq<u8>,
        address: u16,
        value: u8,
        r: WriteResult,
    ) -> bool {
        &&& ram_post.len() == ram_pre.len()
        &&& (address <= 0x7fff ==> post == self.spec_registers_after(address, value)
                    && ram_post == ram_pre && r == WriteResult::Accepted)
        &&& (0xa000 <= address <= 0xbfff && self.ram_enabled ==> post == self
                    && (ram_post, r) == spec_write_ram(metadata, ram_pre,
                        self.spec_selected_ram_bank(metadata) as int, address - 0xa000, value))
        &&& (!(address <= 0x7fff) && !(0xa000 <= address <= 0xbfff && self.ram_enabled) ==> post
                    == self && ram_post == ram_pre && r == WriteResult::NoData)
    }

    pub fn write(&mut self, metadata: &CartridgeMetadata, ram: &mut [u8], address: u16, value: u8) -> (r: WriteResult)
        requires
            ram_layout_ok(*metadata, old(ram)@.len()),
        ensures
            old(self).write_post(*final(self), *metadata, old(ram)@, final(ram)@, address, value, r),
    {
        if address <= 0x1fff {
            self.ram_enabled = value & 0x0f == 0x0a;
            WriteResult::Accepted
        } else if address <= 0x3fff {
            self.rom_bank_low5 = value & 0x1f;
            WriteResult::Accepted
        } else if address <= 0x5fff {
            self.bank_high2 = value & 0x03;
            WriteResult::Accepted
        } else if address <= 0x7fff {
            self.mode = mode_from_value(value);
            WriteResult::Accepted
        } else if 0xa000 <= address && address <= 0xbfff && self.ram_enabled {
            let bank = self.selected_ram_bank(metadata);
            write_ram_bank(ram, metadata, bank, address - 0xa000, value)
        } else {
            WriteResult::NoData
        }
    }

    pub fn default() -> (state: Self)
        ensures
            state == (Mbc1State { ram_enabled: false, rom_bank_low5: 1, bank_high2: 0, mode: Mbc1Mode::RomBanking }),
    {
        Mbc1State { ram_enabled: false, rom_bank_low5: 1, bank_high2: 0, mode: Mbc1Mode::RomBanking }
    }
}

// ---------------------------------------------------------------------------
// MBC2
// ---------------------------------------------------------------------------

pub const MBC2_RAM_SIZE: usize = 512;

/// MBC2: 4-bit ROM bank register and 512 half-bytes of built-in RAM.
#[derive(Debug)]
pub struct Mbc2State {
    pub ram_enabled: bool,
    pub rom_bank: u8,
    pub ram: [u8; 512],
}

/// The seed from which the built-in MBC2 RAM is filled at power-on.
pub open spec fn mbc2_seed(boot_seed: u64) -> u64 {
    boot_seed ^ 0x0bc2_cafe_0000_0000u64
}

impl Mbc2State {
    /// Power-on state: RAM holds the low nibbles of seeded noise.
    pub fn new(boot_seed: u64) -> (state: Self)
        ensures
            !state.ram_enabled,
            state.rom_bank == 1,
            forall|i: int| 0 <= i < 512 ==> #[trigger] state.ram@[i] == seeded_bytes(mbc2_seed(boot_seed), 512)[i] & 0x0f,
    {
        let noise = seeded_fill(boot_seed ^ 0x0bc2_cafe_0000_0000, MBC2_RAM_SIZE);
        let mut ram = [0u8; 512];
        let mut i: usize = 0;
        while i < MBC2_RAM_SIZE
            invariant
                i <= 512,
                noise@ == seeded_bytes(mbc2_seed(boot_seed), 512),
                noise@.len() == 512,
                forall|j: int| 0 <= j < i ==> #[trigger] ram@[j] == noise@[j] & 0x0f,
            decreases 512 - i,
        {
            ram[i] = noise[i] & 0x0f;
            i += 1;
        }
        Mbc2State { ram_enabled: false, rom_bank: 1, ram }
    }

    pub open spec fn spec_selected_rom_bank(&self, metadata: CartridgeMetadata) -> usize {
        ((self.rom_bank as usize) % metadata.rom_bank_count) as usize
    }

    pub open spec fn spec_read(&self, metadata: CartridgeMetadata, rom: Seq<u8>, address: u16) -> ReadResult {
        if address <= 0x3fff {
            rom_read(metadata, rom, 0, address as int)
        } else if address <= 0x7fff {
            rom_read(metadata, rom, self.spec_selected_rom_bank(metadata) as int, address - 0x4000)
        } else if 0xa000 <= address <= 0xbfff && self.ram_enabled {
            ReadResult::Ready(0xf0 | self.ram@[((address - 0xa000) as u16 & 0x1ff) as int])
        } else {
            ReadResult::NoData
        }
    }

    pub fn selected_rom_bank(&self, metadata: &CartridgeMetadata) -> (bank: usize)
        requires
            metadata.rom_bank_count > 0,
        ensures
            bank == self.spec_selected_rom_bank(*metadata),
            bank < metadata.rom_bank_count,
    {
        (self.rom_bank as usize) % metadata.rom_bank_count
    }

    pub fn read(&self, metadata: &CartridgeMetadata, rom: &[u8], address: u16) -> (r: ReadResult)
        requires
            metadata.rom_bank_count > 0,
            rom@.len() == metadata.rom_bank_count * 0x4000,
        ensures
            r == self.spec_read(*metadata, rom@, address),
    {
        if address <= 0x3fff {
            read_rom_bank(rom, metadata, 0, address)
        } else if address <= 0x7fff {
            read_rom_bank(rom, metadata, self.selected_rom_bank(metadata), address - 0x4000)
        } else if 0xa000 <= address && address <= 0xbfff && self.ram_enabled {
            let index = ((address - 0xa000) & 0x1ff) as usize;
            assert(((address - 0xa000) as u16 & 0x1ff) < 512) by {
                lemma_byte_masks();
                lemma_word_masks();
            }
            ReadResult::Ready(0xf0 | self.ram[index])
        } else {
            ReadResult::NoData
        }
    }

    /// What a write of `value` at `address` does: `self` before, `post` after.
    pub open spec fn write_post(
        self,
        post: Self,
        address: u16,
        value: u8,
        r: WriteResult,
    ) -> bool {
        &&& (address <= 0x3fff && address & 0x0100 == 0 ==> post.ram_enabled == enables_ram(value)
                    && post.rom_bank == self.rom_bank && post.ram == self.ram)
        &&& (address <= 0x3fff && address & 0x0100 != 0 ==> post.rom_bank == (if value & 0x0f == 0 {
                    1
                } else {
                    value & 0x0f
                }) && post.ram_enabled == self.ram_enabled && post.ram == self.ram)
        &&& (address <= 0x3fff ==> r == WriteResult::Accepted)
        &&& (0xa000 <= address <= 0xbfff && self.ram_enabled ==> post.ram@ == self.ram@.update(
                    ((address - 0xa000) as u16 & 0x1ff) as int,
                    value & 0x0f,
                ) && post.ram_enabled == self.ram_enabled && post.rom_bank == self.rom_bank
                    && r == WriteResult::Accepted)
        &&& (!(address <= 0x3fff) && !(0xa000 <= address <= 0xbfff && self.ram_enabled) ==> post
                    == self && r == WriteResult::NoData)
    }

    pub fn write(&mut self, address: u16, value: u8) -> (r: WriteResult)
        ensures
            old(self).write_post(*final(self), address, value, r),
    {
        if address <= 0x3fff {
            if address & 0x0100 == 0 {
                self.ram_enabled = value & 0x0f == 0x0a;
            } else {
                let bank = value & 0x0f;
                self.rom_bank = if bank == 0 { 1 } else { bank };
            }
            WriteResult::Accepted
        } else if 0xa000 <= address && address <= 0xbfff && self.ram_enabled {
            let index = ((address - 0xa000) & 0x1ff) as usize;
            assert(((address - 0xa000) as u16 & 0x1ff) < 512) by {
                lemma_byte_masks();
                lemma_word_masks();
            }
            self.ram[index] = value & 0x0f;
            WriteResult::Accepted
        } else {
            WriteResult::NoData
        }
    }
}

// ---------------------------------------------------------------------------
// MBC5
// ---------------------------------------------------------------------------

/// MBC5: 9-bit ROM bank register and 4-bit RAM bank register.
#[derive(Debug)]
pub struct Mbc5State {
    pub ram_enabled: bool,
    pub rom_bank_low: u8,
    pub rom_bank_high: u8,
    pub ram_bank: u8,
}

/// On MBC5 a write to 0x2000..=0x2FFF stores all eight bits of the low ROM
/// bank number and a write to 0x3000..=0x3FFF bit 0 of the ninth bit: the
/// bank then read at 0x4000..=0x7FFF is 256 times the ninth bit plus the low
/// number, modulo the bank count.
pub proof fn lemma_mbc5_rom_bank_writes(
    s: Mbc5State,
    post: Mbc5State,
    metadata: CartridgeMetadata,
    rom: Seq<u8>,
    ram_pre: Seq<u8>,
    ram_post: Seq<u8>,
    address: u16,
    value: u8,
    r: WriteResult,
    read_at: u16,
)
    requires
        s.write_post(post, metadata, ram_pre, ram_post, address, value, r),
        metadata.rom_bank_count > 0,
        0x4000 <= read_at <= 0x7fff,
    ensures
        0x2000 <= address <= 0x2fff ==> post.spec_selected_rom_bank(metadata) == (s.rom_bank_high as int * 256
            + value) % metadata.rom_bank_count as int,
        0x2000 <= address <= 0x2fff ==> post.spec_read(metadata, rom, ram_post, read_at) == rom_read(
            metadata,
            rom,
            (s.rom_bank_high as int * 256 + value) % metadata.rom_bank_count as int,
            read_at - 0x4000,
        ),
        0x3000 <= address <= 0x3fff ==> post.spec_selected_rom_bank(metadata) == ((value % 2) * 256
            + s.rom_bank_low) % metadata.rom_bank_count as int,
{
    let high = post.rom_bank_high;
    let low = post.rom_bank_low;
    assert((((high as usize) << 8usize) | (low as usize)) == high as usize * 256 + low as usize) by (bit_vector);
    assert(value & 0x01 == value % 2) by (bit_vector);
}

impl Mbc5State {
    pub fn default() -> (state: Self)
        ensures
            state == (Mbc5State { ram_enabled: false, rom_bank_low: 1, rom_bank_high: 0, ram_bank: 0 }),
    {
        Mbc5State { ram_enabled: false, rom_bank_low: 1, rom_bank_high: 0, ram_bank: 0 }
    }

    pub open spec fn spec_selected_rom_bank(&self, metadata: CartridgeMetadata) -> usize {
        ((((self.rom_bank_high as usize) << 8usize) | (self.rom_bank_low as usize)) % metadata.rom_bank_count) as usize
    }

    pub open spec fn spec_selected_ram_bank(&self, metadata: CartridgeMetadata) -> usize {
        if metadata.ram_bank_count == 0 {
            0
        } else {
            ((self.ram_bank as usize) % metadata.ram_bank_count) as usize
        }
    }

    pub open spec fn spec_read(&self, metadata: CartridgeMetadata, rom: Seq<u8>, ram: Seq<u8>, address: u16) -> ReadResult {
        if address <= 0x3fff {
            rom_read(metadata, rom, 0, address as int)
        } else if address <= 0x7fff {
            rom_read(metadata, rom, self.spec_selected_rom_bank(metadata) as int, address - 0x4000)
        } else if 0xa000 <= address <= 0xbfff && self.ram_enabled {
            spec_read_ram(metadata, ram, self.ram_bank as int, address - 0xa000)
        } else {
            ReadResult::NoData
        }
    }

    pub open spec fn spec_registers_after(self, address: u16, value: u8) -> Mbc5State {
        if address <= 0x1fff {
            Mbc5State { ram_enabled: enables_ram(value), ..self }
        } else if address <= 0x2fff {
            Mbc5State { rom_bank_low: value, ..self }
        } else if address <= 0x3fff {
            Mbc5State { rom_bank_high: value & 0x01, ..self }
        } else {
            Mbc5State { ram_bank: value & 0x0f, ..self }
        }
    }

    pub fn selected_rom_bank(&self, metadata: &CartridgeMetadata) -> (bank: usize)
        requires
            metadata.rom_bank_count > 0,
        ensures
            bank == self.spec_selected_rom_bank(*metadata),
            bank < metadata.rom_bank_count,
    {
        let bank = ((self.rom_bank_high as usize) << 8) | self.rom_bank_low as usize;
        bank % metadata.rom_bank_count
    }

    pub fn selected_ram_bank(&self, metadata: &CartridgeMetadata) -> (bank: usize)
        ensures
            bank == self.spec_selected_ram_bank(*metadata),
            metadata.ram_bank_count > 0 ==> bank < metadata.ram_bank_count,
    {
        if metadata.ram_bank_count == 0 {
            return 0;
        }
        (self.ram_bank as usize) % metadata.ram_bank_count
    }

    pub fn read(&self, metadata: &CartridgeMetadata, rom: &[u8], ram: &[u8], address: u16) -> (r: ReadResult)
        requires
            mapping_ok(*metadata, rom@, ram@),
        ensures
            r == self.spec_read(*metadata, rom@, ram@, address),
    {
        if address <= 0x3fff {
            read_rom_bank(rom, metadata, 0, address)
        } else if address <= 0x7fff {
            read_rom_bank(rom, metadata, self.selected_rom_bank(metadata), address - 0x4000)
        } else if 0xa000 <= address && address <= 0xbfff && self.ram_enabled {
            read_ram_bank(ram, metadata, self.ram_bank as usize, address - 0xa000)
        } else {
            ReadResult::NoData
        }
    }

    /// What a write of `value` at `address` does: `self` and `ram_pre` before, `post` and `ram_post` after.
    pub open spec fn write_post(
        self,
        post: Self,
        metadata: CartridgeMetadata,
        ram_pre: Seq<u8>,
        ram_post: Seq<u8>,
        address: u16,
        value: u8,
        r: WriteResult,
    ) -> bool {
        &&& ram_post.len() == ram_pre.len()
        &&& (address <= 0x5fff ==> post == self.spec_registers_after(address, value)
                    && ram_post == ram_pre && r == WriteResult::Accepted)
        &&& (0xa000 <= address <= 0xbfff && self.ram_enabled ==> post == self
                    && (ram_post, r) == spec_write_ram(metadata, ram_pre, self.ram_bank as int,
                        address - 0xa000, value))
        &&& (!(address <= 0x5fff) && !(0xa000 <= address <= 0xbfff && self.ram_enabled) ==> post
                    == self && ram_post == ram_pre && r == WriteResult::NoData)
    }

    #[verifier::rlimit(40)]
    pub fn write(&mut self, metadata: &CartridgeMetadata, ram: &mut [u8], address: u16, value: u8) -> (r: WriteResult)
        requires
            ram_layout_ok(*metadata, old(ram)@.len()),
        ensures
            old(self).write_post(*final(self), *metadata, old(ram)@, final(ram)@, address, value, r),
    {
        if address <= 0x1fff {
            self.ram_enabled = value & 0x0f == 0x0a;
            WriteResult::Accepted
        } else if address <= 0x2fff {
            self.rom_bank_low = value;
            WriteResult::Accepted
        } else if address <= 0x3fff {
            self.rom_bank_high = value & 0x01;
            WriteResult::Accepted
        } else if address <= 0x5fff {
            self.ram_bank = value & 0x0f;
            WriteResult::Accepted
        } else if 0xa000 <= address && address <= 0xbfff && self.ram_enabled {
            write_ram_bank(ram, metadata, self.ram_bank as usize, address - 0xa000, value)
        } else {
            WriteResult::NoData
        }
    }
}

} // verus!

verus! {

// ---------------------------------------------------------------------------
// MBC3 real-time clock
// ---------------------------------------------------------------------------

/// The five live clock registers of the MBC3 RTC: seconds, minutes, hours,
/// day counter low byte, and day-high (bit 0 day bit 8, bit 6 halt, bit 7 carry).
pub type ClockFields = (u8, u8, u8, u8, u8);

/// MBC3 real-time clock: live registers, latched copies, and the instant
/// from which unaccounted wall time is measured.
#[derive(Debug)]
pub struct RtcState {
    pub seconds: u8,
    pub minutes: u8,
    pub hours: u8,
    pub day_low: u8,
    pub day_high: u8,
    pub latched_seconds: u8,
    pub latched_minutes: u8,
    pub latched_hours: u8,
    pub latched_day_low: u8,
    pub latched_day_high: u8,
    pub base_instant: std::time::Instant,
}

/// The clock registers that a count of `total` seconds sets, given the
/// previous day-high byte (whose halt and carry bits are kept; carry is set
/// when the day count passes 511).
pub open spec fn fields_from_total(day_high: u8, total: u64) -> ClockFields {
    let days = total / 86400;
    let carried = if days > 511 { day_high | 0x80 } else { day_high };
    let days9 = days % 512;
    (
        (total % 60) as u8,
        ((total / 60) % 60) as u8,
        ((total / 3600) % 24) as u8,
        (days9 % 256) as u8,
        (carried & 0xc0) | ((days9 / 256) as u8),
    )
}

impl RtcState {
    pub fn new() -> (rtc: Self)
        ensures
            rtc.clock_fields() == (0u8, 0u8, 0u8, 0u8, 0u8),
            rtc.latched_fields() == (0u8, 0u8, 0u8, 0u8, 0u8),
    {
        RtcState {
            seconds: 0,
            minutes: 0,
            hours: 0,
            day_low: 0,
            day_high: 0,
            latched_seconds: 0,
            latched_minutes: 0,
            latched_hours: 0,
            latched_day_low: 0,
            latched_day_high: 0,
            base_instant: instant_now(),
        }
    }

    pub open spec fn clock_fields(&self) -> ClockFields {
        (self.seconds, self.minutes, self.hours, self.day_low, self.day_high)
    }

    pub open spec fn latched_fields(&self) -> ClockFields {
        (self.latched_seconds, self.latched_minutes, self.latched_hours, self.latched_day_low, self.latched_day_high)
    }

    pub open spec fn spec_halted(&self) -> bool {
        self.day_high & 0x40 != 0
    }

    /// Seconds counted by the live registers (day counter is 9 bits).
    pub open spec fn spec_total_seconds(&self) -> int {
        ((self.day_high & 0x01) as int * 256 + self.day_low as int) * 86400 + self.hours as int * 3600
            + self.minutes as int * 60 + self.seconds as int
    }

    /// The live registers after `elapsed` seconds of wall time pass.
    pub open spec fn advanced_fields(&self, elapsed: u64) -> ClockFields {
        if self.spec_halted() || elapsed == 0 {
            self.clock_fields()
        } else {
            fields_from_total(self.day_high, clamp_u64(self.spec_total_seconds() + elapsed))
        }
    }

    pub fn is_halted(&self) -> (halted: bool)
        ensures
            halted == self.spec_halted(),
    {
        self.day_high & 0x40 != 0
    }

    pub fn total_seconds(&self) -> (total: u64)
        ensures
            total == self.spec_total_seconds(),
    {
        let day_bit = (self.day_high & 0x01) as u64;
        let day_low = self.day_low as u64;
        let days = (day_bit << 8) | day_low;
        let high = self.day_high;
        assert(high & 0x01 <= 1) by {
            lemma_byte_masks();
            lemma_word_masks();
        }
        assert(((day_bit << 8) | day_low) == day_bit * 256 + day_low) by {
            lemma_word_masks();
        }
        days * 86400 + self.hours as u64 * 3600 + self.minutes as u64 * 60 + self.seconds as u64
    }

    pub fn set_from_total_seconds(&mut self, total: u64)
        ensures
            final(self).clock_fields() == fields_from_total(old(self).day_high, total),
            final(self).latched_fields() == old(self).latched_fields(),
            final(self).base_instant == old(self).base_instant,
    {
        self.seconds = (total % 60) as u8;
        self.minutes = ((total / 60) % 60) as u8;
        self.hours = ((total / 3600) % 24) as u8;
        let days = total / 86400;
        if days > 511 {
            self.day_high = self.day_high | 0x80;
        }
        let days = days & 0x1ff;
        assert(total / 86400 & 0x1ff == (total / 86400) % 512) by {
            lemma_byte_masks();
            lemma_word_masks();
        }
        self.day_low = (days & 0xff) as u8;
        assert(days & 0xff == days % 256) by {
            lemma_byte_masks();
            lemma_word_masks();
        }
        let high_bit = (days >> 8) as u8 & 0x01;
        assert(days < 512 ==> ((days >> 8) as u8 & 0x01) == (days / 256) as u8) by {
            lemma_byte_masks();
            lemma_word_masks();
        }
        self.day_high = (self.day_high & 0xc0) | high_bit;
    }

    /// Folds `elapsed` seconds into the live registers (no-op when halted).
    pub fn apply_elapsed(&mut self, elapsed: u64)
        ensures
            final(self).clock_fields() == old(self).advanced_fields(elapsed),
            final(self).latched_fields() == old(self).latched_fields(),
            final(self).base_instant == old(self).base_instant,
    {
        if self.is_halted() || elapsed == 0 {
            return;
        }
        let total = self.total_seconds().saturating_add(elapsed);
        self.set_from_total_seconds(total);
    }

    /// Brings the live registers up to the wall clock.
    pub fn advance(&mut self)
        ensures
            exists|elapsed: u64| final(self).clock_fields() == #[trigger] old(self).advanced_fields(elapsed),
            final(self).latched_fields() == old(self).latched_fields(),
            old(self).spec_halted() ==> final(self).base_instant == old(self).base_instant,
    {
        if self.is_halted() {
            assert(old(self).advanced_fields(0) == old(self).clock_fields());
            return;
        }
        let elapsed = duration_secs(&instant_elapsed(&self.base_instant));
        self.base_instant = instant_now();
        self.apply_elapsed(elapsed);
        assert(self.clock_fields() == old(self).advanced_fields(elapsed));
    }

    /// Copies the (advanced) live registers into the latched ones.
    pub fn latch(&mut self)
        ensures
            exists|elapsed: u64| final(self).clock_fields() == #[trigger] old(self).advanced_fields(elapsed),
            final(self).latched_fields() == final(self).clock_fields(),
    {
        self.advance();
        self.latched_seconds = self.seconds;
        self.latched_minutes = self.minutes;
        self.latched_hours = self.hours;
        self.latched_day_low = self.day_low;
        self.latched_day_high = self.day_high;
    }

    /// Writes RTC register 0x08..=0x0c after bringing the clock up to date.
    pub fn write_register(&mut self, register: u8, value: u8)
        ensures
            exists|elapsed: u64| {
                let (s, m, h, dl, dh) = #[trigger] old(self).advanced_fields(elapsed);
                final(self).clock_fields() == (if register == 0x08 {
                    (value & 0x3f, m, h, dl, dh)
                } else if register == 0x09 {
                    (s, value & 0x3f, h, dl, dh)
                } else if register == 0x0a {
                    (s, m, value & 0x1f, dl, dh)
                } else if register == 0x0b {
                    (s, m, h, value, dh)
                } else if register == 0x0c {
                    (s, m, h, dl, value & 0xc1)
                } else {
                    (s, m, h, dl, dh)
                })
            },
            final(self).latched_fields() == old(self).latched_fields(),
    {
        self.advance();
        let ghost advanced = self.clock_fields();
        match register {
            0x08 => self.seconds = value & 0x3f,
            0x09 => self.minutes = value & 0x3f,
            0x0a => self.hours = value & 0x1f,
            0x0b => self.day_low = value,
            0x0c => {
                let was_halted = self.is_halted();
                self.day_high = value & 0xc1;
                if was_halted && !self.is_halted() {
                    self.base_instant = instant_now();
                }
            },
            _ => {},
        }
    }
}

pub open spec fn clamp_u64(value: int) -> u64 {
    if value > u64::MAX { u64::MAX } else { value as u64 }
}

} // verus!

verus! {

// ---------------------------------------------------------------------------
// MBC3
// ---------------------------------------------------------------------------

/// MBC3: 7-bit ROM bank, RAM bank / RTC register select, and latch sequencing.
#[derive(Debug)]
pub struct Mbc3State {
    pub ram_enabled: bool,
    pub rom_bank: u8,
    pub bank_select: u8,
    pub latch_prep: bool,
    pub rtc: RtcState,
}

impl Mbc3State {
    pub fn new() -> (state: Self)
        ensures
            !state.ram_enabled,
            state.rom_bank == 1,
            state.bank_select == 0,
            !state.latch_prep,
            state.rtc.clock_fields() == (0u8, 0u8, 0u8, 0u8, 0u8),
            state.rtc.latched_fields() == (0u8, 0u8, 0u8, 0u8, 0u8),
    {
        Mbc3State { ram_enabled: false, rom_bank: 1, bank_select: 0, latch_prep: false, rtc: RtcState::new() }
    }

    pub open spec fn spec_selected_rom_bank(&self, metadata: CartridgeMetadata) -> usize {
        ((self.rom_bank as usize) % metadata.rom_bank_count) as usize
    }

    pub open spec fn spec_selected_ram_bank(&self, metadata: CartridgeMetadata) -> usize {
        if metadata.ram_bank_count == 0 {
            0
        } else if (self.bank_select as usize) < metadata.ram_bank_count - 1 {
            self.bank_select as usize
        } else {
            (metadata.ram_bank_count - 1) as usize
        }
    }

    pub open spec fn spec_read(&self, metadata: CartridgeMetadata, rom: Seq<u8>, ram: Seq<u8>, address: u16) -> ReadResult {
        if address <= 0x3fff {
            rom_read(metadata, rom, 0, address as int)
        } else if address <= 0x7fff {
            rom_read(metadata, rom, self.spec_selected_rom_bank(metadata) as int, address - 0x4000)
        } else if 0xa000 <= address <= 0xbfff && self.ram_enabled {
            if self.bank_select <= 0x07 {
                spec_read_ram(metadata, ram, self.bank_select as int, address - 0xa000)
            } else if self.bank_select == 0x08 {
                ReadResult::Ready(self.rtc.latched_seconds)
            } else if self.bank_select == 0x09 {
                ReadResult::Ready(self.rtc.latched_minutes)
            } else if self.bank_select == 0x0a {
                ReadResult::Ready(self.rtc.latched_hours)
            } else if self.bank_select == 0x0b {
                ReadResult::Ready(self.rtc.latched_day_low)
            } else if self.bank_select == 0x0c {
                ReadResult::Ready(self.rtc.latched_day_high)
            } else {
                ReadResult::NoData
            }
        } else {
            ReadResult::NoData
        }
    }

    pub fn selected_rom_bank(&self, metadata: &CartridgeMetadata) -> (bank: usize)
        requires
            metadata.rom_bank_count > 0,
        ensures
            bank == self.spec_selected_rom_bank(*metadata),
            bank < metadata.rom_bank_count,
    {
        (self.rom_bank as usize) % metadata.rom_bank_count
    }

    pub fn selected_ram_bank(&self, metadata: &CartridgeMetadata) -> (bank: usize)
        ensures
            bank == self.spec_selected_ram_bank(*metadata),
    {
        if metadata.ram_bank_count == 0 {
            return 0;
        }
        let last = metadata.ram_bank_count - 1;
        if (self.bank_select as usize) < last { self.bank_select as usize } else { last }
    }

    pub fn read(&self, metadata: &CartridgeMetadata, rom: &[u8], ram: &[u8], address: u16) -> (r: ReadResult)
        requires
            mapping_ok(*metadata, rom@, ram@),
        ensures
            r == self.spec_read(*metadata, rom@, ram@, address),
    {
        if address <= 0x3fff {
            read_rom_bank(rom, metadata, 0, address)
        } else if address <= 0x7fff {
            read_rom_bank(rom, metadata, self.selected_rom_bank(metadata), address - 0x4000)
        } else if 0xa000 <= address && address <= 0xbfff && self.ram_enabled {
            match self.bank_select {
                0x00..=0x07 => read_ram_bank(ram, metadata, self.bank_select as usize, address - 0xa000),
                0x08 => ReadResult::Ready(self.rtc.latched_seconds),
                0x09 => ReadResult::Ready(self.rtc.latched_minutes),
                0x0a => ReadResult::Ready(self.rtc.latched_hours),
                0x0b => ReadResult::Ready(self.rtc.latched_day_low),
                0x0c => ReadResult::Ready(self.rtc.latched_day_high),
                _ => ReadResult::NoData,
            }
        } else {
            ReadResult::NoData
        }
    }

    /// What a write of `value` at `address` does: `self` and `ram_pre` before, `post` and `ram_post` after.
    pub open spec fn write_post(
        self,
        post: Self,
        metadata: CartridgeMetadata,
        ram_pre: Seq<u8>,
        ram_post: Seq<u8>,
        address: u16,
        value: u8,
        r: WriteResult,
    ) -> bool {
        &&& ram_post.len() == ram_pre.len()
        &&& (address <= 0x7fff ==> r == WriteResult::Accepted && ram_post == ram_pre)
        &&& (address <= 0x1fff ==> post.ram_enabled == enables_ram(value) && post.rom_bank
                    == self.rom_bank && post.bank_select == self.bank_select
                    && post.latch_prep == self.latch_prep && post.rtc == self.rtc)
        &&& (0x2000 <= address <= 0x3fff ==> post.rom_bank == (if value & 0x7f == 0 {
                    1
                } else {
                    value & 0x7f
                }) && post.ram_enabled == self.ram_enabled && post.bank_select
                    == self.bank_select && post.latch_prep == self.latch_prep && post.rtc
                    == self.rtc)
        &&& (0x4000 <= address <= 0x5fff ==> post.bank_select == value && post.ram_enabled
                    == self.ram_enabled && post.rom_bank == self.rom_bank && post.latch_prep
                    == self.latch_prep && post.rtc == self.rtc)
        &&& (0x6000 <= address <= 0x7fff ==> post.latch_prep == (value == 0x00) && post.ram_enabled
                    == self.ram_enabled && post.rom_bank == self.rom_bank && post.bank_select
                    == self.bank_select)
        &&& (0x6000 <= address <= 0x7fff && !(value == 0x01 && self.latch_prep) ==> post.rtc
                    == self.rtc)
        &&& (0x6000 <= address <= 0x7fff && value == 0x01 && self.latch_prep ==> (exists|elapsed: u64|
                    post.rtc.clock_fields() == #[trigger] self.rtc.advanced_fields(elapsed))
                    && post.rtc.latched_fields() == post.rtc.clock_fields())
        &&& (0xa000 <= address <= 0xbfff && self.ram_enabled && self.bank_select <= 0x07 ==> post
                    == self && (ram_post, r) == spec_write_ram(metadata, ram_pre,
                        self.bank_select as int, address - 0xa000, value))
        &&& (0xa000 <= address <= 0xbfff && self.ram_enabled && 0x08 <= self.bank_select <= 0x0c ==> r
                    == WriteResult::Accepted && ram_post == ram_pre && post.ram_enabled
                    == self.ram_enabled && post.rom_bank == self.rom_bank && post.bank_select
                    == self.bank_select && post.latch_prep == self.latch_prep
                    && post.rtc.latched_fields() == self.rtc.latched_fields())
        &&& (0xa000 <= address <= 0xbfff && self.ram_enabled && self.bank_select > 0x0c ==> post
                    == self && ram_post == ram_pre && r == WriteResult::NoData)
        &&& (!(address <= 0x7fff) && !(0xa000 <= address <= 0xbfff && self.ram_enabled) ==> post
                    == self && ram_post == ram_pre && r == WriteResult::NoData)
    }

    pub fn write(&mut self, metadata: &CartridgeMetadata, ram: &mut [u8], address: u16, value: u8) -> (r: WriteResult)
        requires
            ram_layout_ok(*metadata, old(ram)@.len()),
        ensures
            old(self).write_post(*final(self), *metadata, old(ram)@, final(ram)@, address, value, r),
    {
        if address <= 0x1fff {
            self.ram_enabled = value & 0x0f == 0x0a;
            WriteResult::Accepted
        } else if address <= 0x3fff {
            let bank = value & 0x7f;
            self.rom_bank = if bank == 0 { 1 } else { bank };
            WriteResult::Accepted
        } else if address <= 0x5fff {
            self.bank_select = value;
            WriteResult::Accepted
        } else if address <= 0x7fff {
            if value == 0x00 {
                self.latch_prep = true;
            } else if value == 0x01 && self.latch_prep {
                self.rtc.latch();
                self.latch_prep = false;
            } else {
                self.latch_prep = false;
            }
            WriteResult::Accepted
        } else if 0xa000 <= address && address <= 0xbfff && self.ram_enabled {
            match self.bank_select {
                0x00..=0x07 => write_ram_bank(ram, metadata, self.bank_select as usize, address - 0xa000, value),
                0x08..=0x0c => {
                    self.rtc.write_register(self.bank_select, value);
                    WriteResult::Accepted
                },
                _ => WriteResult::NoData,
            }
        } else {
            WriteResult::NoData
        }
    }
}

// ---------------------------------------------------------------------------
// HuC1
// ---------------------------------------------------------------------------

/// HuC1: MBC1-style banking plus an infrared mode selected by writing 0x0E.
#[derive(Debug)]
pub struct HuC1State {
    pub ram_enabled: bool,
    pub rom_bank_low5: u8,
    pub bank_high2: u8,
    pub mode: Mbc1Mode,
    pub ir_mode: bool,
}

impl HuC1State {
    pub fn default() -> (state: Self)
        ensures
            state == (HuC1State {
                ram_enabled: false,
                rom_bank_low5: 1,
                bank_high2: 0,
                mode: Mbc1Mode::RomBanking,
                ir_mode: false,
            }),
    {
        HuC1State { ram_enabled: false, rom_bank_low5: 1, bank_high2: 0, mode: Mbc1Mode::RomBanking, ir_mode: false }
    }

    pub open spec fn spec_selected_rom_bank(&self, metadata: CartridgeMetadata) -> usize {
        ((((self.bank_high2 as usize) << 5usize) | low5_or_one(self.rom_bank_low5)) % metadata.rom_bank_count) as usize
    }

    pub open spec fn spec_selected_ram_bank(&self, metadata: CartridgeMetadata) -> usize {
        if metadata.ram_bank_count == 0 {
            0
        } else {
            match self.mode {
                Mbc1Mode::RomBanking => 0,
                Mbc1Mode::RamBanking => ((self.bank_high2 as usize) % metadata.ram_bank_count) as usize,
            }
        }
    }

    pub open spec fn spec_read(&self, metadata: CartridgeMetadata, rom: Seq<u8>, ram: Seq<u8>, address: u16) -> ReadResult {
        if address <= 0x3fff {
            rom_read(metadata, rom, 0, address as int)
        } else if address <= 0x7fff {
            rom_read(metadata, rom, self.spec_selected_rom_bank(metadata) as int, address - 0x4000)
        } else if 0xa000 <= address <= 0xbfff && self.ir_mode {
            ReadResult::Ready(0xc0)
        } else if 0xa000 <= address <= 0xbfff && self.ram_enabled {
            spec_read_ram(metadata, ram, self.spec_selected_ram_bank(metadata) as int, address - 0xa000)
        } else {
            ReadResult::NoData
        }
    }

    pub open spec fn spec_registers_after(self, address: u16, value: u8) -> HuC1State {
        if address <= 0x1fff {
            if value == 0x0e {
                HuC1State { ir_mode: true, ram_enabled: false, ..self }
            } else {
                HuC1State { ir_mode: false, ram_enabled: enables_ram(value), ..self }
            }
        } else if address <= 0x3fff {
            HuC1State { rom_bank_low5: value & 0x1f, ..self }
        } else if address <= 0x5fff {
            HuC1State { bank_high2: value & 0x03, ..self }
        } else {
            HuC1State { mode: mode_of(value), ..self }
        }
    }

    pub fn selected_rom_bank(&self, metadata: &CartridgeMetadata) -> (bank: usize)
        requires
            metadata.rom_bank_count > 0,
        ensures
            bank == self.spec_selected_rom_bank(*metadata),
            bank < metadata.rom_bank_count,
    {
        let low = if self.rom_bank_low5 == 0 { 1 } else { self.rom_bank_low5 as usize };
        let high = (self.bank_high2 as usize) << 5;
        (high | low) % metadata.rom_bank_count
    }

    pub fn selected_ram_bank(&self, metadata: &CartridgeMetadata) -> (bank: usize)
        ensures
            bank == self.spec_selected_ram_bank(*metadata),
    {
        if metadata.ram_bank_count == 0 {
            return 0;
        }
        match self.mode {
            Mbc1Mode::RomBanking => 0,
            Mbc1Mode::RamBanking => (self.bank_high2 as usize) % metadata.ram_bank_count,
        }
    }

    pub fn read(&self, metadata: &CartridgeMetadata, rom: &[u8], ram: &[u8], address: u16) -> (r: ReadResult)
        requires
            mapping_ok(*metadata, rom@, ram@),
        ensures
            r == self.spec_read(*metadata, rom@, ram@, address),
    {
        if address <= 0x3fff {
            read_rom_bank(rom, metadata, 0, address)
        } else if address <= 0x7fff {
            read_rom_bank(rom, metadata, self.selected_rom_bank(metadata), address - 0x4000)
        } else if 0xa000 <= address && address <= 0xbfff && self.ir_mode {
            ReadResult::Ready(0xc0)
        } else if 0xa000 <= address && address <= 0xbfff && self.ram_enabled {
            read_ram_bank(ram, metadata, self.selected_ram_bank(metadata), address - 0xa000)
        } else {
            ReadResult::NoData
        }
    }

    /// What a write of `value` at `address` does: `self` and `ram_pre` before, `post` and `ram_post` after.
    pub open spec fn write_post(
        self,
        post: Self,
        metadata: CartridgeMetadata,
        ram_pre: Seq<u8>,
        ram_post: Seq<u8>,
        address: u16,
        value: u8,
        r: WriteResult,
    ) -> bool {
        &&& ram_post.len() == ram_pre.len()
        &&& (address <= 0x7fff ==> post == self.spec_registers_after(address, value)
                    && ram_post == ram_pre && r == WriteResult::Accepted)
        &&& (0xa000 <= address <= 0xbfff && self.ir_mode ==> post == self && ram_post
                    == ram_pre && r == WriteResult::Accepted)
        &&& (0xa000 <= address <= 0xbfff && !self.ir_mode && self.ram_enabled ==> post
                    == self && (ram_post, r) == spec_write_ram(metadata, ram_pre,
                        self.spec_selected_ram_bank(metadata) as int, address - 0xa000, value))
        &&& (!(address <= 0x7fff) && !(0xa000 <= address <= 0xbfff && (self.ir_mode || self.ram_enabled))
                    ==> post == self && ram_post == ram_pre && r == WriteResult::NoData)
    }

    pub fn write(&mut self, metadata: &CartridgeMetadata, ram: &mut [u8], address: u16, value: u8) -> (r: WriteResult)
        requires
            ram_layout_ok(*metadata, old(ram)@.len()),
        ensures
            old(self).write_post(*final(self), *metadata, old(ram)@, final(ram)@, address, value, r),
    {
        if address <= 0x1fff {
            if value == 0x0e {
                self.ir_mode = true;
                self.ram_enabled = false;
            } else {
                self.ir_mode = false;
                self.ram_enabled = value & 0x0f == 0x0a;
            }
            WriteResult::Accepted
        } else if address <= 0x3fff {
            self.rom_bank_low5 = value & 0x1f;
            WriteResult::Accepted
        } else if address <= 0x5fff {
            self.bank_high2 = value & 0x03;
            WriteResult::Accepted
        } else if address <= 0x7fff {
            self.mode = mode_from_value(value);
            WriteResult::Accepted
        } else if 0xa000 <= address && address <= 0xbfff && self.ir_mode {
            WriteResult::Accepted
        } else if 0xa000 <= address && address <= 0xbfff && self.ram_enabled {
            let bank = self.selected_ram_bank(metadata);
            write_ram_bank(ram, metadata, bank, address - 0xa000, value)
        } else {
            WriteResult::NoData
        }
    }
}

// ---------------------------------------------------------------------------
// MMM01
// ---------------------------------------------------------------------------

/// MMM01 multicart mapper: unmapped at power-on (the menu in the last two
/// banks), then MBC1-like banking on top of a latched base bank.
#[derive(Debug)]
pub struct Mmm01State {
    pub mapped: bool,
    pub ram_enabled: bool,
    pub rom_bank_low5: u8,
    pub bank_high2: u8,
    pub mode: Mbc1Mode,
    pub rom_bank_base: usize,
}

pub open spec fn saturating_sub_usize(a: usize, b: usize) -> usize {
    if a >= b { (a - b) as usize } else { 0 }
}

impl Mmm01State {
    pub fn new() -> (state: Self)
        ensures
            state == (Mmm01State {
                mapped: false,
                ram_enabled: false,
                rom_bank_low5: 1,
                bank_high2: 0,
                mode: Mbc1Mode::RomBanking,
                rom_bank_base: 0,
            }),
    {
        Mmm01State {
            mapped: false,
            ram_enabled: false,
            rom_bank_low5: 1,
            bank_high2: 0,
            mode: Mbc1Mode::RomBanking,
            rom_bank_base: 0,
        }
    }

    pub open spec fn spec_selected_rom_bank(&self, metadata: CartridgeMetadata) -> usize {
        ((self.rom_bank_base | low5_or_one(self.rom_bank_low5)) % metadata.rom_bank_count) as usize
    }

    pub open spec fn spec_selected_ram_bank(&self, metadata: CartridgeMetadata) -> usize {
        if metadata.ram_bank_count == 0 {
            0
        } else {
            match self.mode {
                Mbc1Mode::RomBanking => 0,
                Mbc1Mode::RamBanking => ((self.bank_high2 as usize) % metadata.ram_bank_count) as usize,
            }
        }
    }

    pub open spec fn spec_read(&self, metadata: CartridgeMetadata, rom: Seq<u8>, ram: Seq<u8>, address: u16) -> ReadResult {
        if !self.mapped {
            if address <= 0x3fff {
                rom_read(metadata, rom, saturating_sub_usize(metadata.rom_bank_count, 2) as int, address as int)
            } else if address <= 0x7fff {
                rom_read(metadata, rom, saturating_sub_usize(metadata.rom_bank_count, 1) as int, address - 0x4000)
            } else {
                ReadResult::NoData
            }
        } else if address <= 0x3fff {
            rom_read(metadata, rom, self.rom_bank_base as int, address as int)
        } else if address <= 0x7fff {
            rom_read(metadata, rom, self.spec_selected_rom_bank(metadata) as int, address - 0x4000)
        } else if 0xa000 <= address <= 0xbfff && self.ram_enabled {
            spec_read_ram(metadata, ram, self.spec_selected_ram_bank(metadata) as int, address - 0xa000)
        } else {
            ReadResult::NoData
        }
    }

    /// Register file after a control write, before or after mapping.
    pub open spec fn spec_registers_after(self, metadata: CartridgeMetadata, address: u16, value: u8) -> Mmm01State {
        if address <= 0x1fff {
            if self.mapped {
                Mmm01State { ram_enabled: enables_ram(value), ..self }
            } else {
                Mmm01State {
                    rom_bank_base: ((((self.bank_high2 as usize) << 5usize) | (self.rom_bank_low5 as usize))
                        % metadata.rom_bank_count) as usize,
                    ram_enabled: enables_ram(value),
                    mapped: true,
                    rom_bank_low5: 1,
                    bank_high2: 0,
                    mode: Mbc1Mode::RomBanking,
                }
            }
        } else if address <= 0x3fff {
            Mmm01State { rom_bank_low5: value & 0x1f, ..self }
        } else if address <= 0x5fff {
            Mmm01State { bank_high2: value & 0x03, ..self }
        } else {
            Mmm01State { mode: mode_of(value), ..self }
        }
    }

    pub fn read_unmapped(&self, metadata: &CartridgeMetadata, rom: &[u8], address: u16) -> (r: ReadResult)
        requires
            !self.mapped,
            metadata.rom_bank_count > 0,
            rom@.len() == metadata.rom_bank_count * 0x4000,
        ensures
            r == self.spec_read(*metadata, rom@, Seq::empty(), address),
    {
        if address <= 0x3fff {
            let bank = metadata.rom_bank_count.saturating_sub(2);
            read_rom_bank(rom, metadata, bank, address)
        } else if address <= 0x7fff {
            let bank = metadata.rom_bank_count.saturating_sub(1);
            read_rom_bank(rom, metadata, bank, address - 0x4000)
        } else {
            ReadResult::NoData
        }
    }

    pub fn selected_rom_bank(&self, metadata: &CartridgeMetadata) -> (bank: usize)
        requires
            metadata.rom_bank_count > 0,
        ensures
            bank == self.spec_selected_rom_bank(*metadata),
            bank < metadata.rom_bank_count,
    {
        let low = if self.rom_bank_low5 == 0 { 1 } else { self.rom_bank_low5 as usize };
        (self.rom_bank_base | low) % metadata.rom_bank_count
    }

    pub fn selected_ram_bank(&self, metadata: &CartridgeMetadata) -> (bank: usize)
        ensures
            bank == self.spec_selected_ram_bank(*metadata),
    {
        if metadata.ram_bank_count == 0 {
            return 0;
        }
        match self.mode {
            Mbc1Mode::RomBanking => 0,
            Mbc1Mode::RamBanking => (self.bank_high2 as usize) % metadata.ram_bank_count,
        }
    }

    pub fn read(&self, metadata: &CartridgeMetadata, rom: &[u8], ram: &[u8], address: u16) -> (r: ReadResult)
        requires
            mapping_ok(*metadata, rom@, ram@),
        ensures
            r == self.spec_read(*metadata, rom@, ram@, address),
    {
        if !self.mapped {
            return self.read_unmapped(metadata, rom, address);
        }
        if address <= 0x3fff {
            read_rom_bank(rom, metadata, self.rom_bank_base, address)
        } else if address <= 0x7fff {
            read_rom_bank(rom, metadata, self.selected_rom_bank(metadata), address - 0x4000)
        } else if 0xa000 <= address && address <= 0xbfff && self.ram_enabled {
            read_ram_bank(ram, metadata, self.selected_ram_bank(metadata), address - 0xa000)
        } else {
            ReadResult::NoData
        }
    }

    pub fn write_unmapped(&mut self, metadata: &CartridgeMetadata, address: u16, value: u8) -> (r: WriteResult)
        requires
            !old(self).mapped,
            metadata.rom_bank_count > 0,
        ensures
            address <= 0x7fff ==> *final(self) == old(self).spec_registers_after(*metadata, address, value)
                && r == WriteResult::Accepted,
            address > 0x7fff ==> *final(self) == *old(self) && r == WriteResult::NoData,
    {
        if address <= 0x1fff {
            let base = ((self.bank_high2 as usize) << 5) | self.rom_bank_low5 as usize;
            self.rom_bank_base = base % metadata.rom_bank_count;
            self.ram_enabled = value & 0x0f == 0x0a;
            self.mapped = true;
            self.rom_bank_low5 = 1;
            self.bank_high2 = 0;
            self.mode = Mbc1Mode::RomBanking;
            WriteResult::Accepted
        } else if address <= 0x3fff {
            self.rom_bank_low5 = value & 0x1f;
            WriteResult::Accepted
        } else if address <= 0x5fff {
            self.bank_high2 = value & 0x03;
            WriteResult::Accepted
        } else if address <= 0x7fff {
            self.mode = mode_from_value(value);
            WriteResult::Accepted
        } else {
            WriteResult::NoData
        }
    }

    /// What a write of `value` at `address` does: `self` and `ram_pre` before, `post` and `ram_post` after.
    pub open spec fn write_post(
        self,
        post: Self,
        metadata: CartridgeMetadata,
        ram_pre: Seq<u8>,
        ram_post: Seq<u8>,
        address: u16,
        value: u8,
        r: WriteResult,
    ) -> bool {
        &&& ram_post.len() == ram_pre.len()
        &&& (address <= 0x7fff ==> post == self.spec_registers_after(metadata, address, value)
                    && ram_post == ram_pre && r == WriteResult::Accepted)
        &&& (0xa000 <= address <= 0xbfff && self.mapped && self.ram_enabled ==> post
                    == self && (ram_post, r) == spec_write_ram(metadata, ram_pre,
                        self.spec_selected_ram_bank(metadata) as int, address - 0xa000, value))
        &&& (!(address <= 0x7fff) && !(0xa000 <= address <= 0xbfff && self.mapped && self.ram_enabled)
                    ==> post == self && ram_post == ram_pre && r == WriteResult::NoData)
    }

    pub fn write(&mut self, metadata: &CartridgeMetadata, ram: &mut [u8], address: u16, value: u8) -> (r: WriteResult)
        requires
            metadata.rom_bank_count > 0,
            ram_layout_ok(*metadata, old(ram)@.len()),
        ensures
            old(self).write_post(*final(self), *metadata, old(ram)@, final(ram)@, address, value, r),
    {
        if !self.mapped {
            return self.write_unmapped(metadata, address, value);
        }
        if address <= 0x1fff {
            self.ram_enabled = value & 0x0f == 0x0a;
            WriteResult::Accepted
        } else if address <= 0x3fff {
            self.rom_bank_low5 = value & 0x1f;
            WriteResult::Accepted
        } else if address <= 0x5fff {
            self.bank_high2 = value & 0x03;
            WriteResult::Accepted
        } else if address <= 0x7fff {
            self.mode = mode_from_value(value);
            WriteResult::Accepted
        } else if 0xa000 <= address && address <= 0xbfff && self.ram_enabled {
            let bank = self.selected_ram_bank(metadata);
            write_ram_bank(ram, metadata, bank, address - 0xa000, value)
        } else {
            WriteResult::NoData
        }
    }
}

} // verus!

verus! {

// ---------------------------------------------------------------------------
// Pocket Camera
// ---------------------------------------------------------------------------

pub const CAMERA_REG_COUNT: usize = 0x36;

/// Game Boy Camera: MBC5-style banking; RAM bank values with bit 4 set map
/// the camera registers into 0xA000..=0xBFFF instead of RAM.
#[derive(Debug)]
pub struct PocketCameraState {
    pub ram_enabled: bool,
    pub rom_bank_low: u8,
    pub rom_bank_high: u8,
    pub ram_bank: u8,
    pub camera_mode: bool,
    pub camera_regs: [u8; 0x36],
}

/// The RAM after a capture: the tile buffer at 0x0100..0x0F00 blanked.
pub open spec fn blank_capture(ram: Seq<u8>) -> Seq<u8> {
    Seq::new(ram.len(), |i: int| if 0x100 <= i < 0xf00 { 0u8 } else { ram[i] })
}

impl PocketCameraState {
    pub fn new() -> (state: Self)
        ensures
            !state.ram_enabled,
            state.rom_bank_low == 1,
            state.rom_bank_high == 0,
            state.ram_bank == 0,
            !state.camera_mode,
            forall|i: int| 0 <= i < 0x36 ==> #[trigger] state.camera_regs@[i] == 0,
    {
        PocketCameraState {
            ram_enabled: false,
            rom_bank_low: 1,
            rom_bank_high: 0,
            ram_bank: 0,
            camera_mode: false,
            camera_regs: [0; 0x36],
        }
    }

    pub open spec fn spec_selected_rom_bank(&self, metadata: CartridgeMetadata) -> usize {
        ((((self.rom_bank_high as usize) << 8usize) | (self.rom_bank_low as usize)) % metadata.rom_bank_count) as usize
    }

    pub open spec fn spec_read(&self, metadata: CartridgeMetadata, rom: Seq<u8>, ram: Seq<u8>, address: u16) -> ReadResult {
        if address <= 0x3fff {
            rom_read(metadata, rom, 0, address as int)
        } else if address <= 0x7fff {
            rom_read(metadata, rom, self.spec_selected_rom_bank(metadata) as int, address - 0x4000)
        } else if 0xa000 <= address <= 0xbfff && self.camera_mode {
            let offset = address - 0xa000;
            if offset < 0x36 {
                ReadResult::Ready(
                    if offset == 0 { self.camera_regs@[0] & 0xfe } else { self.camera_regs@[offset] },
                )
            } else {
                ReadResult::Ready(0)
            }
        } else if 0xa000 <= address <= 0xbfff && self.ram_enabled {
            spec_read_ram(metadata, ram, self.ram_bank as int, address - 0xa000)
        } else {
            ReadResult::NoData
        }
    }

    pub fn selected_rom_bank(&self, metadata: &CartridgeMetadata) -> (bank: usize)
        requires
            metadata.rom_bank_count > 0,
        ensures
            bank == self.spec_selected_rom_bank(*metadata),
            bank < metadata.rom_bank_count,
    {
        let bank = ((self.rom_bank_high as usize) << 8) | self.rom_bank_low as usize;
        bank % metadata.rom_bank_count
    }

    pub fn selected_ram_bank(&self) -> (bank: usize)
        ensures
            bank == self.ram_bank as usize,
    {
        self.ram_bank as usize
    }

    pub fn read(&self, metadata: &CartridgeMetadata, rom: &[u8], ram: &[u8], address: u16) -> (r: ReadResult)
        requires
            mapping_ok(*metadata, rom@, ram@),
        ensures
            r == self.spec_read(*metadata, rom@, ram@, address),
    {
        if address <= 0x3fff {
            read_rom_bank(rom, metadata, 0, address)
        } else if address <= 0x7fff {
            read_rom_bank(rom, metadata, self.selected_rom_bank(metadata), address - 0x4000)
        } else if 0xa000 <= address && address <= 0xbfff && self.camera_mode {
            let offset = (address - 0xa000) as usize;
            if offset < CAMERA_REG_COUNT {
                let mask: u8 = if offset == 0 { 0xfe } else { 0xff };
                let value = self.camera_regs[offset];
                assert(value & 0xff == value) by {
                    lemma_byte_masks();
                    lemma_word_masks();
                }
                ReadResult::Ready(value & mask)
            } else {
                ReadResult::Ready(0x00)
            }
        } else if 0xa000 <= address && address <= 0xbfff && self.ram_enabled {
            read_ram_bank(ram, metadata, self.ram_bank as usize, address - 0xa000)
        } else {
            ReadResult::NoData
        }
    }

    /// Completes a capture at once: the tile buffer (RAM 0x0100..0x0F00) is
    /// blanked and the busy bit of register 0 is cleared.
    pub fn trigger_capture(&mut self, ram: &mut [u8])
        ensures
            final(ram)@ == blank_capture(old(ram)@),
            final(self).camera_regs@ == old(self).camera_regs@.update(0, old(self).camera_regs@[0] & 0xfe),
            final(self).ram_enabled == old(self).ram_enabled,
            final(self).rom_bank_low == old(self).rom_bank_low,
            final(self).rom_bank_high == old(self).rom_bank_high,
            final(self).ram_bank == old(self).ram_bank,
            final(self).camera_mode == old(self).camera_mode,
    {
        let end = if ram.len() < 0x0f00 { ram.len() } else { 0x0f00 };
        let mut i: usize = 0x0100;
        while i < end
            invariant
                0x100 <= i,
                end <= 0xf00,
                end <= ram@.len(),
                ram@.len() == old(ram)@.len(),
                end == (if old(ram)@.len() < 0xf00 { old(ram)@.len() } else { 0xf00 }),
                forall|k: int| 0 <= k < ram@.len() ==> #[trigger] ram@[k] == (if 0x100 <= k < i && k < end {
                    0u8
                } else {
                    old(ram)@[k]
                }),
            decreases end - i,
        {
            ram[i] = 0;
            i += 1;
        }
        self.camera_regs[0] = self.camera_regs[0] & 0xfe;
        assert(ram@ =~= blank_capture(old(ram)@));
    }

    /// What a write of `value` at `address` does: `self` and `ram_pre` before, `post` and `ram_post` after.
    pub open spec fn write_post(
        self,
        post: Self,
        metadata: CartridgeMetadata,
        ram_pre: Seq<u8>,
        ram_post: Seq<u8>,
        address: u16,
        value: u8,
        r: WriteResult,
    ) -> bool {
        &&& ram_post.len() == ram_pre.len()
        &&& (address <= 0x5fff ==> r == WriteResult::Accepted && ram_post == ram_pre && post.camera_regs
                    == self.camera_regs)
        &&& (address <= 0x1fff ==> post.ram_enabled == enables_ram(value) && post.rom_bank_low
                    == self.rom_bank_low && post.rom_bank_high == self.rom_bank_high
                    && post.ram_bank == self.ram_bank && post.camera_mode == self.camera_mode)
        &&& (0x2000 <= address <= 0x2fff ==> post.rom_bank_low == value && post.ram_enabled
                    == self.ram_enabled && post.rom_bank_high == self.rom_bank_high
                    && post.ram_bank == self.ram_bank && post.camera_mode == self.camera_mode)
        &&& (0x3000 <= address <= 0x3fff ==> post.rom_bank_high == value & 0x01 && post.ram_enabled
                    == self.ram_enabled && post.rom_bank_low == self.rom_bank_low
                    && post.ram_bank == self.ram_bank && post.camera_mode == self.camera_mode)
        &&& (0x4000 <= address <= 0x5fff ==> post.camera_mode == (value & 0x10 != 0) && post.ram_bank
                    == (if value & 0x10 != 0 { self.ram_bank } else { value & 0x0f }) && post.ram_enabled
                    == self.ram_enabled && post.rom_bank_low == self.rom_bank_low
                    && post.rom_bank_high == self.rom_bank_high)
        &&& (0xa000 <= address <= 0xbfff && self.camera_mode ==> r == WriteResult::Accepted
                    && post.ram_enabled == self.ram_enabled && post.ram_bank == self.ram_bank
                    && post.camera_mode == self.camera_mode && (address - 0xa000 >= 0x36
                    ==> post.camera_regs == self.camera_regs && ram_post == ram_pre)
                    && (0 < address - 0xa000 < 0x36 ==> post.camera_regs@ == self.camera_regs@.update(
                    address - 0xa000,
                    value,
                ) && ram_post == ram_pre))
        &&& (address == 0xa000 && self.camera_mode ==> post.camera_regs@ == self.camera_regs@.update(
                    0,
                    if value & 0x01 != 0 { value & 0xfe } else { value },
                ) && ram_post == if value & 0x01 != 0 { blank_capture(ram_pre) } else { ram_pre })
        &&& (0xa000 <= address <= 0xbfff && !self.camera_mode && self.ram_enabled ==> post
                    == self && (ram_post, r) == spec_write_ram(metadata, ram_pre, self.ram_bank as int,
                    address - 0xa000, value))
        &&& (!(address <= 0x5fff) && !(0xa000 <= address <= 0xbfff && (self.camera_mode || self.ram_enabled))
                    ==> post == self && ram_post == ram_pre && r == WriteResult::NoData)
    }

    pub fn write(&mut self, metadata: &CartridgeMetadata, ram: &mut [u8], address: u16, value: u8) -> (r: WriteResult)
        requires
            ram_layout_ok(*metadata, old(ram)@.len()),
        ensures
            old(self).write_post(*final(self), *metadata, old(ram)@, final(ram)@, address, value, r),
    {
        if address <= 0x1fff {
            self.ram_enabled = value & 0x0f == 0x0a;
            WriteResult::Accepted
        } else if address <= 0x2fff {
            self.rom_bank_low = value;
            WriteResult::Accepted
        } else if address <= 0x3fff {
            self.rom_bank_high = value & 0x01;
            WriteResult::Accepted
        } else if address <= 0x5fff {
            if value & 0x10 != 0 {
                self.camera_mode = true;
            } else {
                self.camera_mode = false;
                self.ram_bank = value & 0x0f;
            }
            WriteResult::Accepted
        } else if 0xa000 <= address && address <= 0xbfff && self.camera_mode {
            let offset = (address - 0xa000) as usize;
            if offset < CAMERA_REG_COUNT {
                self.camera_regs[offset] = value;
                if offset == 0 && value & 0x01 != 0 {
                    self.trigger_capture(ram);
                    assert(self.camera_regs@ =~= old(self).camera_regs@.update(0, value & 0xfe));
                }
            }
            WriteResult::Accepted
        } else if 0xa000 <= address && address <= 0xbfff && self.ram_enabled {
            write_ram_bank(ram, metadata, self.ram_bank as usize, address - 0xa000, value)
        } else {
            WriteResult::NoData
        }
    }
}

} // verus!

verus! {

// ---------------------------------------------------------------------------
// HuC3
// ---------------------------------------------------------------------------

/// HuC3 clock: minutes of the day and a day counter.
#[derive(Debug)]
pub struct HuC3Rtc {
    pub minutes: u16,
    pub days: u16,
    pub base_instant: std::time::Instant,
}

impl HuC3Rtc {
    pub fn new() -> (rtc: Self)
        ensures
            rtc.minutes == 0,
            rtc.days == 0,
    {
        HuC3Rtc { minutes: 0, days: 0, base_instant: instant_now() }
    }

    /// Minutes and days after `elapsed` seconds of wall time (whole minutes only).
    pub open spec fn advanced(&self, elapsed: u64) -> (u16, u16) {
        if elapsed == 0 {
            (self.minutes, self.days)
        } else {
            let total = self.minutes as int + elapsed as int / 60;
            ((total % 1440) as u16, ((self.days as int + total / 1440) % 65536) as u16)
        }
    }

    pub fn apply_elapsed(&mut self, elapsed: u64)
        ensures
            (final(self).minutes, final(self).days) == old(self).advanced(elapsed),
            final(self).base_instant == old(self).base_instant,
    {
        if elapsed == 0 {
            return;
        }
        let elapsed_mins = elapsed / 60;
        let total_mins = self.minutes as u64 + elapsed_mins;
        let ghost old_days = self.days as int;
        let carried = total_mins / 1440;
        self.minutes = (total_mins % 1440) as u16;
        self.days = self.days.wrapping_add(carried as u16);
        proof {
            assert((carried as u16) as u64 == carried % 65536) by (bit_vector);
            vstd::arithmetic::div_mod::lemma_add_mod_noop(old_days, carried as int, 65536);
            vstd::arithmetic::div_mod::lemma_mod_twice(carried as int, 65536);
        }
    }

    pub fn advance(&mut self)
        ensures
            exists|elapsed: u64| (final(self).minutes, final(self).days) == #[trigger] old(self).advanced(elapsed),
    {
        let elapsed = duration_secs(&instant_elapsed(&self.base_instant));
        self.base_instant = instant_now();
        self.apply_elapsed(elapsed);
        assert((self.minutes, self.days) == old(self).advanced(elapsed));
    }
}

/// HuC3: MBC3-style ROM banking, a mode register choosing RAM, the command
/// interface (clock, semaphore, tone) or infrared, and a 24-bit shift register.
#[derive(Debug)]
pub struct HuC3State {
    pub mode: u8,
    pub rom_bank: u8,
    pub ram_bank: u8,
    pub shift: u32,
    pub output: u8,
    pub rtc: HuC3Rtc,
}

impl HuC3State {
    pub fn new() -> (state: Self)
        ensures
            state.mode == 0 && state.rom_bank == 1 && state.ram_bank == 0 && state.shift == 0 && state.output == 0,
            state.rtc.minutes == 0 && state.rtc.days == 0,
    {
        HuC3State { mode: 0x00, rom_bank: 1, ram_bank: 0, shift: 0, output: 0, rtc: HuC3Rtc::new() }
    }

    pub open spec fn spec_selected_rom_bank(&self, metadata: CartridgeMetadata) -> usize {
        ((self.rom_bank as usize) % metadata.rom_bank_count) as usize
    }

    pub open spec fn spec_selected_ram_bank(&self, metadata: CartridgeMetadata) -> usize {
        if metadata.ram_bank_count == 0 {
            0
        } else {
            ((self.ram_bank as usize) % metadata.ram_bank_count) as usize
        }
    }

    pub open spec fn spec_read(&self, metadata: CartridgeMetadata, rom: Seq<u8>, ram: Seq<u8>, address: u16) -> ReadResult {
        if address <= 0x3fff {
            rom_read(metadata, rom, 0, address as int)
        } else if address <= 0x7fff {
            rom_read(metadata, rom, self.spec_selected_rom_bank(metadata) as int, address - 0x4000)
        } else if 0xa000 <= address <= 0xbfff {
            if self.mode == 0x0a {
                spec_read_ram(metadata, ram, self.ram_bank as int, address - 0xa000)
            } else if self.mode == 0x0b {
                ReadResult::Ready(0x01 | ((self.output as u8) << 1u8))
            } else if self.mode == 0x0e {
                ReadResult::Ready(0xc1)
            } else {
                ReadResult::NoData
            }
        } else {
            ReadResult::NoData
        }
    }

    pub fn selected_rom_bank(&self, metadata: &CartridgeMetadata) -> (bank: usize)
        requires
            metadata.rom_bank_count > 0,
        ensures
            bank == self.spec_selected_rom_bank(*metadata),
            bank < metadata.rom_bank_count,
    {
        (self.rom_bank as usize) % metadata.rom_bank_count
    }

    pub fn selected_ram_bank(&self, metadata: &CartridgeMetadata) -> (bank: usize)
        ensures
            bank == self.spec_selected_ram_bank(*metadata),
    {
        if metadata.ram_bank_count == 0 {
            return 0;
        }
        (self.ram_bank as usize) % metadata.ram_bank_count
    }

    pub fn read(&self, metadata: &CartridgeMetadata, rom: &[u8], ram: &[u8], address: u16) -> (r: ReadResult)
        requires
            mapping_ok(*metadata, rom@, ram@),
        ensures
            r == self.spec_read(*metadata, rom@, ram@, address),
    {
        if address <= 0x3fff {
            read_rom_bank(rom, metadata, 0, address)
        } else if address <= 0x7fff {
            read_rom_bank(rom, metadata, self.selected_rom_bank(metadata), address - 0x4000)
        } else if 0xa000 <= address && address <= 0xbfff {
            match self.mode {
                0x0a => read_ram_bank(ram, metadata, self.ram_bank as usize, address - 0xa000),
                0x0b => ReadResult::Ready(0x01 | (self.output << 1)),
                0x0e => ReadResult::Ready(0xc1),
                _ => ReadResult::NoData,
            }
        } else {
            ReadResult::NoData
        }
    }

    /// Runs one byte of the command protocol (upper nibble: command, lower: data).
    pub fn handle_command(&mut self, value: u8)
        ensures
            final(self).mode == old(self).mode,
            final(self).rom_bank == old(self).rom_bank,
            final(self).ram_bank == old(self).ram_bank,
            value >> 4 == 0x1 ==> final(self).output == (old(self).shift & 0x0f) as u8 && final(self).shift
                == old(self).shift >> 4 && final(self).rtc == old(self).rtc,
            value >> 4 == 0x3 ==> final(self).shift == ((old(self).shift << 4) | (value & 0x0f) as u32)
                & 0x00ff_ffff && final(self).output == old(self).output && final(self).rtc == old(self).rtc,
            value >> 4 == 0x4 ==> final(self).output == old(self).output && exists|elapsed: u64| {
                let (minutes, days) = #[trigger] old(self).rtc.advanced(elapsed);
                let data = value & 0x0f;
                if data == 0 {
                    final(self).shift == minutes as u32 && final(self).rtc.minutes == minutes && final(self).rtc.days == days
                } else if data == 1 {
                    final(self).shift == days as u32 && final(self).rtc.minutes == minutes && final(self).rtc.days == days
                } else if data == 2 {
                    final(self).shift == 0 && final(self).rtc.minutes == minutes && final(self).rtc.days == days
                } else if data == 3 {
                    final(self).shift == old(self).shift && final(self).rtc.minutes == (old(self).shift as u16) % 1440
                        && final(self).rtc.days == days
                } else if data == 4 {
                    final(self).shift == old(self).shift && final(self).rtc.minutes == minutes
                        && final(self).rtc.days == old(self).shift as u16
                } else {
                    final(self).shift == old(self).shift && final(self).rtc.minutes == minutes && final(self).rtc.days == days
                }
            },
            value >> 4 != 0x1 && value >> 4 != 0x3 && value >> 4 != 0x4 ==> *final(self) == *old(self),
    {
        let cmd = value >> 4;
        let data = value & 0x0f;
        if cmd == 0x1 {
            self.output = (self.shift & 0x0f) as u8;
            self.shift = self.shift >> 4;
        } else if cmd == 0x3 {
            self.shift = ((self.shift << 4) | data as u32) & 0x00ff_ffff;
        } else if cmd == 0x4 {
            self.rtc.advance();
            let ghost elapsed = choose|elapsed: u64| (self.rtc.minutes, self.rtc.days) == #[trigger] old(self).rtc.advanced(elapsed);
            if data == 0x0 {
                self.shift = self.rtc.minutes as u32;
            } else if data == 0x1 {
                self.shift = self.rtc.days as u32;
            } else if data == 0x2 {
                self.shift = 0;
            } else if data == 0x3 {
                self.rtc.minutes = (self.shift as u16) % 1440;
            } else if data == 0x4 {
                self.rtc.days = self.shift as u16;
            }
            assert(old(self).rtc.advanced(elapsed) == old(self).rtc.advanced(elapsed));
        }
    }

    /// What a write of `value` at `address` does: `self` and `ram_pre` before, `post` and `ram_post` after.
    pub open spec fn write_post(
        self,
        post: Self,
        metadata: CartridgeMetadata,
        ram_pre: Seq<u8>,
        ram_post: Seq<u8>,
        address: u16,
        value: u8,
        r: WriteResult,
    ) -> bool {
        &&& ram_post.len() == ram_pre.len()
        &&& (address <= 0x5fff ==> r == WriteResult::Accepted && ram_post == ram_pre && post.shift
                    == self.shift && post.output == self.output && post.rtc == self.rtc)
        &&& (address <= 0x1fff ==> post.mode == value && post.rom_bank == self.rom_bank
                    && post.ram_bank == self.ram_bank)
        &&& (0x2000 <= address <= 0x3fff ==> post.rom_bank == (if value & 0x7f == 0 { 1 } else { value & 0x7f })
                    && post.mode == self.mode && post.ram_bank == self.ram_bank)
        &&& (0x4000 <= address <= 0x5fff ==> post.ram_bank == value & 0x0f && post.mode == self.mode
                    && post.rom_bank == self.rom_bank)
        &&& (0xa000 <= address <= 0xbfff && self.mode == 0x0a ==> post == self && (ram_post, r)
                    == spec_write_ram(metadata, ram_pre, self.ram_bank as int, address - 0xa000, value))
        &&& (0xa000 <= address <= 0xbfff && self.mode == 0x0b ==> r == WriteResult::Accepted && ram_post
                    == ram_pre && post.mode == self.mode && post.rom_bank == self.rom_bank
                    && post.ram_bank == self.ram_bank)
        &&& (0xa000 <= address <= 0xbfff && self.mode == 0x0e ==> r == WriteResult::Accepted && ram_post
                    == ram_pre && post == self)
        &&& (!(address <= 0x5fff) && !(0xa000 <= address <= 0xbfff && (self.mode == 0x0a || self.mode == 0x0b
                    || self.mode == 0x0e)) ==> post == self && ram_post == ram_pre && r
                    == WriteResult::NoData)
    }

    pub fn write(&mut self, metadata: &CartridgeMetadata, ram: &mut [u8], address: u16, value: u8) -> (r: WriteResult)
        requires
            ram_layout_ok(*metadata, old(ram)@.len()),
        ensures
            old(self).write_post(*final(self), *metadata, old(ram)@, final(ram)@, address, value, r),
    {
        if address <= 0x1fff {
            self.mode = value;
            WriteResult::Accepted
        } else if address <= 0x3fff {
            let bank = value & 0x7f;
            self.rom_bank = if bank == 0 { 1 } else { bank };
            WriteResult::Accepted
        } else if address <= 0x5fff {
            self.ram_bank = value & 0x0f;
            WriteResult::Accepted
        } else if 0xa000 <= address && address <= 0xbfff {
            match self.mode {
                0x0a => write_ram_bank(ram, metadata, self.ram_bank as usize, address - 0xa000, value),
                0x0b => {
                    self.handle_command(value);
                    WriteResult::Accepted
                },
                0x0e => WriteResult::Accepted,
                _ => WriteResult::NoData,
            }
        } else {
            WriteResult::NoData
        }
    }
}

} // verus!

verus! {

// ---------------------------------------------------------------------------
// Bandai TAMA5
// ---------------------------------------------------------------------------

pub const TAMA5_RAM_SIZE: usize = 32;

/// TAMA5 clock: eight nibble registers (seconds, minutes, hours as BCD
/// pairs, day of week, day counter).
#[derive(Debug)]
pub struct Tama5Rtc {
    pub regs: [u8; 8],
    pub base_instant: std::time::Instant,
}

pub open spec fn bcd_pair(regs: Seq<u8>, base: int) -> int {
    (regs[base + 1] & 0x0f) as int * 10 + (regs[base] & 0x0f) as int
}

pub open spec fn sat_add(a: int, b: int) -> int {
    if a + b > u64::MAX { u64::MAX as int } else { a + b }
}

/// The registers after `elapsed` seconds: seconds, minutes and hours carry
/// into each other; the day carry advances day-of-week (mod 7) and the day
/// counter (mod 256).
pub open spec fn tama5_advanced(regs: Seq<u8>, elapsed: u64) -> Seq<u8> {
    if elapsed == 0 {
        regs
    } else {
        let secs = sat_add(bcd_pair(regs, 0), elapsed as int);
        let mins = bcd_pair(regs, 2) + secs / 60;
        let hrs = bcd_pair(regs, 4) + mins / 60;
        let carry_days = hrs / 24;
        let timed = regs.update(0, (secs % 60 % 10) as u8).update(1, (secs % 60 / 10 % 10) as u8).update(
            2,
            (mins % 60 % 10) as u8,
        ).update(3, (mins % 60 / 10 % 10) as u8).update(4, (hrs % 24 % 10) as u8).update(
            5,
            (hrs % 24 / 10 % 10) as u8,
        );
        if carry_days > 0 {
            timed.update(6, ((regs[6] as int + carry_days) % 7) as u8).update(
                7,
                ((regs[7] as int + carry_days) % 256) as u8,
            )
        } else {
            timed
        }
    }
}

impl Tama5Rtc {
    pub fn new() -> (rtc: Self)
        ensures
            forall|i: int| 0 <= i < 8 ==> #[trigger] rtc.regs@[i] == 0,
    {
        Tama5Rtc { regs: [0; 8], base_instant: instant_now() }
    }

    /// The two-digit value held by registers `base` (ones) and `base + 1` (tens).
    pub fn decode_bcd(&self, base: usize) -> (value: u64)
        requires
            base + 1 < 8,
        ensures
            value == bcd_pair(self.regs@, base as int),
            value <= 165,
    {
        let lo = (self.regs[base] & 0x0f) as u64;
        let hi = (self.regs[base + 1] & 0x0f) as u64;
        let a = self.regs[base];
        let b = self.regs[base + 1];
        assert(a & 0x0f <= 15 && b & 0x0f <= 15) by {
            lemma_byte_masks();
            lemma_word_masks();
        }
        hi * 10 + lo
    }

    pub fn encode_bcd(&mut self, base: usize, value: u64)
        requires
            base + 1 < 8,
        ensures
            final(self).regs@ == old(self).regs@.update(base as int, (value % 10) as u8).update(
                base + 1,
                (value / 10 % 10) as u8,
            ),
            final(self).base_instant == old(self).base_instant,
    {
        self.regs[base] = (value % 10) as u8;
        self.regs[base + 1] = ((value / 10) % 10) as u8;
    }

    pub fn apply_elapsed(&mut self, elapsed: u64)
        ensures
            final(self).regs@ == tama5_advanced(old(self).regs@, elapsed),
            final(self).base_instant == old(self).base_instant,
    {
        if elapsed == 0 {
            return;
        }
        let secs = self.decode_bcd(0).saturating_add(elapsed);
        let total_secs = secs % 60;
        let carry_mins = secs / 60;
        let mins = self.decode_bcd(2) + carry_mins;
        let total_mins = mins % 60;
        let carry_hrs = mins / 60;
        let hrs = self.decode_bcd(4) + carry_hrs;
        let total_hrs = hrs % 24;
        let carry_days = hrs / 24;
        self.encode_bcd(0, total_secs);
        self.encode_bcd(2, total_mins);
        self.encode_bcd(4, total_hrs);
        if carry_days > 0 {
            let dow = (self.regs[6] as u64 + carry_days) % 7;
            self.regs[6] = dow as u8;
            let count = self.regs[7];
            self.regs[7] = count.wrapping_add(carry_days as u8);
            proof {
                assert((carry_days as u8) as u64 == carry_days % 256) by (bit_vector);
                vstd::arithmetic::div_mod::lemma_add_mod_noop(count as int, carry_days as int, 256);
                vstd::arithmetic::div_mod::lemma_mod_twice(carry_days as int, 256);
            }
        }
        assert(self.regs@ =~= tama5_advanced(old(self).regs@, elapsed));
    }

    pub fn advance(&mut self)
        ensures
            exists|elapsed: u64| final(self).regs@ == #[trigger] tama5_advanced(old(self).regs@, elapsed),
    {
        let elapsed = duration_secs(&instant_elapsed(&self.base_instant));
        self.base_instant = instant_now();
        self.apply_elapsed(elapsed);
    }
}

/// TAMA5: all access goes through a data register (0xA000) and a
/// command/address register (0xA001) acting on 32 nibbles of RAM and the clock.
#[derive(Debug)]
pub struct Tama5State {
    pub rom_bank: u8,
    pub data_reg: u8,
    pub output: u8,
    pub ram: [u8; 32],
    pub rtc: Tama5Rtc,
}

impl Tama5State {
    pub fn new() -> (state: Self)
        ensures
            state.rom_bank == 1 && state.data_reg == 0 && state.output == 0,
            forall|i: int| 0 <= i < 32 ==> #[trigger] state.ram@[i] == 0,
            forall|i: int| 0 <= i < 8 ==> #[trigger] state.rtc.regs@[i] == 0,
    {
        Tama5State { rom_bank: 1, data_reg: 0, output: 0, ram: [0; 32], rtc: Tama5Rtc::new() }
    }

    pub open spec fn spec_selected_rom_bank(&self, metadata: CartridgeMetadata) -> usize {
        ((self.rom_bank as usize) % metadata.rom_bank_count) as usize
    }

    pub open spec fn spec_read(&self, metadata: CartridgeMetadata, rom: Seq<u8>, address: u16) -> ReadResult {
        if address <= 0x3fff {
            rom_read(metadata, rom, 0, address as int)
        } else if address <= 0x7fff {
            rom_read(metadata, rom, self.spec_selected_rom_bank(metadata) as int, address - 0x4000)
        } else if address == 0xa000 {
            ReadResult::Ready(self.output)
        } else if 0xa001 <= address <= 0xbfff {
            ReadResult::Ready(0xff)
        } else {
            ReadResult::NoData
        }
    }

    pub fn selected_rom_bank(&self, metadata: &CartridgeMetadata) -> (bank: usize)
        requires
            metadata.rom_bank_count > 0,
        ensures
            bank == self.spec_selected_rom_bank(*metadata),
            bank < metadata.rom_bank_count,
    {
        (self.rom_bank as usize) % metadata.rom_bank_count
    }

    pub fn read(&self, metadata: &CartridgeMetadata, rom: &[u8], address: u16) -> (r: ReadResult)
        requires
            metadata.rom_bank_count > 0,
            rom@.len() == metadata.rom_bank_count * 0x4000,
        ensures
            r == self.spec_read(*metadata, rom@, address),
    {
        if address <= 0x3fff {
            read_rom_bank(rom, metadata, 0, address)
        } else if address <= 0x7fff {
            read_rom_bank(rom, metadata, self.selected_rom_bank(metadata), address - 0x4000)
        } else if address == 0xa000 {
            ReadResult::Ready(self.output)
        } else if 0xa001 <= address && address <= 0xbfff {
            ReadResult::Ready(0xff)
        } else {
            ReadResult::NoData
        }
    }

    /// Executes a command byte: bits 5-7 select the command, bits 0-4 the address.
    pub fn execute_command(&mut self, cmd_byte: u8)
        ensures
            ({
                let cmd = (cmd_byte >> 5) & 0x07;
                let addr = (cmd_byte & 0x1f) as int;
                let data = old(self).data_reg;
                final(self).data_reg == data && (if cmd == 0 {
                    final(self).ram@ == old(self).ram@.update(addr, (old(self).ram@[addr] & 0xf0) | (data & 0x0f))
                        && final(self).output == old(self).output && final(self).rom_bank == old(self).rom_bank
                        && final(self).rtc == old(self).rtc
                } else if cmd == 1 {
                    final(self).ram@ == old(self).ram@.update(addr, (old(self).ram@[addr] & 0x0f) | ((data & 0x0f) << 4u8))
                        && final(self).output == old(self).output && final(self).rom_bank == old(self).rom_bank
                        && final(self).rtc == old(self).rtc
                } else if cmd == 2 {
                    final(self).output == old(self).ram@[addr] & 0x0f && final(self).ram == old(self).ram
                        && final(self).rom_bank == old(self).rom_bank && final(self).rtc == old(self).rtc
                } else if cmd == 3 {
                    final(self).output == (old(self).ram@[addr] >> 4u8) & 0x0f && final(self).ram == old(self).ram
                        && final(self).rom_bank == old(self).rom_bank && final(self).rtc == old(self).rtc
                } else if cmd == 4 {
                    final(self).rom_bank == (if data & 0x0f == 0 { 1 } else { data & 0x0f })
                        && final(self).ram == old(self).ram && final(self).output == old(self).output
                        && final(self).rtc == old(self).rtc
                } else {
                    final(self).ram == old(self).ram && final(self).rom_bank == old(self).rom_bank && exists|
                        elapsed: u64,
                    | {
                        let regs = #[trigger] tama5_advanced(old(self).rtc.regs@, elapsed);
                        let reg = addr % 8;
                        if cmd == 5 {
                            final(self).rtc.regs@ == regs.update(reg, (regs[reg] & 0xf0) | (data & 0x0f))
                                && final(self).output == old(self).output
                        } else if cmd == 6 {
                            final(self).rtc.regs@ == regs && final(self).output == regs[reg] & 0x0f
                        } else {
                            final(self).rtc.regs@ == regs && final(self).output == (regs[reg] >> 4u8) & 0x0f
                        }
                    }
                })
            }),
    {
        let cmd = (cmd_byte >> 5) & 0x07;
        let addr = (cmd_byte & 0x1f) as usize;
        assert(cmd_byte & 0x1f < 32) by {
            lemma_byte_masks();
            lemma_word_masks();
        }
        assert((cmd_byte >> 5) & 0x07 <= 7) by {
            lemma_byte_masks();
            lemma_word_masks();
        }
        if cmd == 0 {
            self.ram[addr] = (self.ram[addr] & 0xf0) | (self.data_reg & 0x0f);
        } else if cmd == 1 {
            self.ram[addr] = (self.ram[addr] & 0x0f) | ((self.data_reg & 0x0f) << 4);
        } else if cmd == 2 {
            self.output = self.ram[addr] & 0x0f;
        } else if cmd == 3 {
            self.output = (self.ram[addr] >> 4) & 0x0f;
        } else if cmd == 4 {
            let bank = self.data_reg & 0x0f;
            self.rom_bank = if bank == 0 { 1 } else { bank };
        } else {
            self.rtc.advance();
            let ghost elapsed = choose|elapsed: u64| self.rtc.regs@ == #[trigger] tama5_advanced(old(self).rtc.regs@, elapsed);
            let reg = addr & 0x07;
            assert(addr & 0x07 == addr % 8) by {
                lemma_byte_masks();
                lemma_word_masks();
            }
            if cmd == 5 {
                self.rtc.regs[reg] = (self.rtc.regs[reg] & 0xf0) | (self.data_reg & 0x0f);
            } else if cmd == 6 {
                self.output = self.rtc.regs[reg] & 0x0f;
            } else {
                self.output = (self.rtc.regs[reg] >> 4) & 0x0f;
            }
            assert(tama5_advanced(old(self).rtc.regs@, elapsed) == tama5_advanced(old(self).rtc.regs@, elapsed));
        }
    }

    /// What a write of `value` at `address` does: `self` before, `post` after.
    pub open spec fn write_post(
        self,
        post: Self,
        address: u16,
        value: u8,
        r: WriteResult,
    ) -> bool {
        &&& (address == 0xa000 ==> post.data_reg == value && post.rom_bank == self.rom_bank
                    && post.output == self.output && post.ram == self.ram && post.rtc
                    == self.rtc && r == WriteResult::Accepted)
        &&& (address == 0xa001 ==> r == WriteResult::Accepted)
        &&& (address <= 0x7fff ==> post == self && r == WriteResult::Accepted)
        &&& (address > 0x7fff && address != 0xa000 && address != 0xa001 ==> post == self && r
                    == WriteResult::NoData)
    }

    pub fn write(&mut self, address: u16, value: u8) -> (r: WriteResult)
        ensures
            old(self).write_post(*final(self), address, value, r),
    {
        if address == 0xa000 {
            self.data_reg = value;
            WriteResult::Accepted
        } else if address == 0xa001 {
            self.execute_command(value);
            WriteResult::Accepted
        } else if address <= 0x7fff {
            WriteResult::Accepted
        } else {
            WriteResult::NoData
        }
    }
}


// ---------------------------------------------------------------------------
// MBC6
// ---------------------------------------------------------------------------

pub const MBC6_ROM_BANK_SIZE: usize = 0x2000;
pub const MBC6_RAM_BANK_SIZE: usize = 0x1000;

/// Where the flash programming command sequence stands.
#[derive(Clone, Copy, Debug, PartialEq, Eq, Structural)]
pub enum FlashPhase {
    Ready,
    AwaitCmd55,
    AwaitCmd,
    Programming,
    EraseAwaitAA,
    EraseAwait55,
    EraseAwaitSector,
}

/// The phase after a write of `value` at `offset` of a flash window.
pub open spec fn next_flash_phase(phase: FlashPhase, offset: u16, value: u8) -> FlashPhase {
    match phase {
        FlashPhase::Ready => if offset == 0x0aaa && value == 0xaa {
            FlashPhase::AwaitCmd55
        } else {
            FlashPhase::Ready
        },
        FlashPhase::AwaitCmd55 => if offset == 0x0555 && value == 0x55 {
            FlashPhase::AwaitCmd
        } else {
            FlashPhase::Ready
        },
        FlashPhase::AwaitCmd => if offset == 0x0aaa && value == 0xa0 {
            FlashPhase::Programming
        } else if offset == 0x0aaa && value == 0x80 {
            FlashPhase::EraseAwaitAA
        } else {
            FlashPhase::Ready
        },
        FlashPhase::EraseAwaitAA => if offset == 0x0aaa && value == 0xaa {
            FlashPhase::EraseAwait55
        } else {
            FlashPhase::Ready
        },
        FlashPhase::EraseAwait55 => if offset == 0x0555 && value == 0x55 {
            FlashPhase::EraseAwaitSector
        } else {
            FlashPhase::Ready
        },
        FlashPhase::Programming | FlashPhase::EraseAwaitSector => FlashPhase::Ready,
    }
}

/// The position in flash of byte `offset` of 8 KiB bank `bank`.
pub open spec fn flash_index(bank: u8, offset: u16) -> int {
    bank as int * 0x2000 + offset as int
}

/// The flash contents after a write of `value` at `offset` of bank `bank`:
/// programming can only clear bits, and a sector erase sets a whole bank to 0xFF.
pub open spec fn flash_after(phase: FlashPhase, flash: Seq<u8>, bank: u8, offset: u16, value: u8) -> Seq<u8> {
    match phase {
        FlashPhase::Programming => {
            let index = flash_index(bank, offset);
            if index < flash.len() {
                flash.update(index, flash[index] & value)
            } else {
                flash
            }
        },
        FlashPhase::EraseAwaitSector => if value == 0x30 {
            Seq::new(
                flash.len(),
                |i: int|
                    if flash_index(bank, 0) <= i < flash_index(bank, 0) + 0x2000 {
                        0xffu8
                    } else {
                        flash[i]
                    },
            )
        } else {
            flash
        },
        _ => flash,
    }
}

/// The register file of an MBC6.
#[derive(Clone, Copy, Debug, PartialEq, Eq, Structural)]
pub struct Mbc6Registers {
    pub ram_enabled: bool,
    pub ram_bank_a: u8,
    pub ram_bank_b: u8,
    pub rom_bank_a: u8,
    pub rom_bank_b: u8,
    pub flash_select_a: bool,
    pub flash_select_b: bool,
    pub flash_write_enabled: bool,
    pub flash_state: FlashPhase,
}

/// Whether `address` is one of the MBC6 control registers.
pub open spec fn mbc6_control_address(address: u16) -> bool {
    address <= 0x0fff || (0x2000 <= address <= 0x3fff)
}

impl Mbc6Registers {
    /// The registers after a write to a control register.
    pub open spec fn control_after(self, address: u16, value: u8) -> Mbc6Registers {
        if address <= 0x03ff {
            Mbc6Registers { ram_enabled: enables_ram(value), ..self }
        } else if address <= 0x07ff {
            Mbc6Registers { ram_bank_a: value & 0x07, ..self }
        } else if address <= 0x0bff {
            Mbc6Registers { ram_bank_b: value & 0x07, ..self }
        } else if address <= 0x0fff {
            Mbc6Registers {
                flash_write_enabled: value == 0x01,
                flash_state: if value == 0x01 { self.flash_state } else { FlashPhase::Ready },
                ..self
            }
        } else if address <= 0x27ff {
            Mbc6Registers { rom_bank_a: value & 0x7f, ..self }
        } else if address <= 0x2fff {
            Mbc6Registers { flash_select_a: value & 0x08 != 0, ..self }
        } else if address <= 0x37ff {
            Mbc6Registers { rom_bank_b: value & 0x7f, ..self }
        } else {
            Mbc6Registers { flash_select_b: value & 0x08 != 0, ..self }
        }
    }
}

/// MBC6: two switchable 8 KiB ROM/flash windows, two switchable 4 KiB RAM
/// windows, and flash that can be reprogrammed by command sequences.
#[derive(Debug)]
pub struct Mbc6State {
    pub regs: Mbc6Registers,
    pub flash: Vec<u8>,
}

/// A read of the flash byte at `offset` of bank `bank`.
pub open spec fn spec_flash_read(flash: Seq<u8>, bank: u8, offset: u16) -> ReadResult {
    if flash_index(bank, offset) < flash.len() {
        ReadResult::Ready(flash[flash_index(bank, offset)])
    } else {
        ReadResult::NoData
    }
}

/// The position in RAM of byte `offset` of 4 KiB RAM bank `bank`.
pub open spec fn mbc6_ram_index(bank: u8, offset: int) -> int {
    bank as int * 0x1000 + offset
}

impl Mbc6State {
    pub fn new(rom: &[u8]) -> (state: Self)
        ensures
            state.flash@ == rom@,
            state.regs == (Mbc6Registers {
                ram_enabled: false,
                ram_bank_a: 0,
                ram_bank_b: 0,
                rom_bank_a: 2,
                rom_bank_b: 3,
                flash_select_a: false,
                flash_select_b: false,
                flash_write_enabled: false,
                flash_state: FlashPhase::Ready,
            }),
    {
        Mbc6State {
            regs: Mbc6Registers {
                ram_enabled: false,
                ram_bank_a: 0,
                ram_bank_b: 0,
                rom_bank_a: 2,
                rom_bank_b: 3,
                flash_select_a: false,
                flash_select_b: false,
                flash_write_enabled: false,
                flash_state: FlashPhase::Ready,
            },
            flash: super::image::copy_bytes(rom),
        }
    }

    pub open spec fn spec_read(&self, metadata: CartridgeMetadata, rom: Seq<u8>, ram: Seq<u8>, address: u16) -> ReadResult {
        if address <= 0x3fff {
            rom_read(metadata, rom, 0, address as int)
        } else if address <= 0x5fff {
            spec_flash_read(self.flash@, self.regs.rom_bank_a, (address - 0x4000) as u16)
        } else if address <= 0x7fff {
            spec_flash_read(self.flash@, self.regs.rom_bank_b, (address - 0x6000) as u16)
        } else if 0xa000 <= address <= 0xbfff && self.regs.ram_enabled {
            let index = if address <= 0xafff {
                mbc6_ram_index(self.regs.ram_bank_a, address - 0xa000)
            } else {
                mbc6_ram_index(self.regs.ram_bank_b, address - 0xb000)
            };
            if index < ram.len() {
                ReadResult::Ready(ram[index])
            } else {
                ReadResult::NoData
            }
        } else {
            ReadResult::NoData
        }
    }

    pub fn read_flash_bank(&self, bank: u8, offset: u16) -> (r: ReadResult)
        requires
            offset < 0x2000,
        ensures
            r == spec_flash_read(self.flash@, bank, offset),
    {
        let index = bank as usize * MBC6_ROM_BANK_SIZE + offset as usize;
        if index < self.flash.len() {
            ReadResult::Ready(self.flash[index])
        } else {
            ReadResult::NoData
        }
    }

    pub fn read(&self, metadata: &CartridgeMetadata, rom: &[u8], ram: &[u8], address: u16) -> (r: ReadResult)
        requires
            metadata.rom_bank_count > 0,
            rom@.len() == metadata.rom_bank_count * 0x4000,
        ensures
            r == self.spec_read(*metadata, rom@, ram@, address),
    {
        if address <= 0x3fff {
            read_rom_bank(rom, metadata, 0, address)
        } else if address <= 0x5fff {
            self.read_flash_bank(self.regs.rom_bank_a, address - 0x4000)
        } else if address <= 0x7fff {
            self.read_flash_bank(self.regs.rom_bank_b, address - 0x6000)
        } else if 0xa000 <= address && address <= 0xbfff && self.regs.ram_enabled {
            let index = if address <= 0xafff {
                self.regs.ram_bank_a as usize * MBC6_RAM_BANK_SIZE + (address as usize - 0xa000)
            } else {
                self.regs.ram_bank_b as usize * MBC6_RAM_BANK_SIZE + (address as usize - 0xb000)
            };
            if index < ram.len() {
                ReadResult::Ready(ram[index])
            } else {
                ReadResult::NoData
            }
        } else {
            ReadResult::NoData
        }
    }

    /// A write into flash bank `bank` while flash writes are enabled: one step
    /// of the command sequence, which may program a byte or erase a sector.
    pub fn flash_write(&mut self, bank: u8, offset: u16, value: u8)
        requires
            offset < 0x2000,
        ensures
            final(self).regs == (Mbc6Registers {
                flash_state: next_flash_phase(old(self).regs.flash_state, offset, value),
                ..old(self).regs
            }),
            final(self).flash@ == flash_after(old(self).regs.flash_state, old(self).flash@, bank, offset, value),
    {
        let phase = self.regs.flash_state;
        let next = match phase {
            FlashPhase::Ready => if offset == 0x0aaa && value == 0xaa {
                FlashPhase::AwaitCmd55
            } else {
                FlashPhase::Ready
            },
            FlashPhase::AwaitCmd55 => if offset == 0x0555 && value == 0x55 {
                FlashPhase::AwaitCmd
            } else {
                FlashPhase::Ready
            },
            FlashPhase::AwaitCmd => if offset == 0x0aaa && value == 0xa0 {
                FlashPhase::Programming
            } else if offset == 0x0aaa && value == 0x80 {
                FlashPhase::EraseAwaitAA
            } else {
                FlashPhase::Ready
            },
            FlashPhase::Programming => {
                let index = bank as usize * MBC6_ROM_BANK_SIZE + offset as usize;
                if index < self.flash.len() {
                    let old_byte = self.flash[index];
                    self.flash.set(index, old_byte & value);
                }
                FlashPhase::Ready
            },
            FlashPhase::EraseAwaitAA => if offset == 0x0aaa && value == 0xaa {
                FlashPhase::EraseAwait55
            } else {
                FlashPhase::Ready
            },
            FlashPhase::EraseAwait55 => if offset == 0x0555 && value == 0x55 {
                FlashPhase::EraseAwaitSector
            } else {
                FlashPhase::Ready
            },
            FlashPhase::EraseAwaitSector => {
                if value == 0x30 {
                    let start = bank as usize * MBC6_ROM_BANK_SIZE;
                    let end = if start + MBC6_ROM_BANK_SIZE < self.flash.len() {
                        start + MBC6_ROM_BANK_SIZE
                    } else {
                        self.flash.len()
                    };
                    let mut i = start;
                    while i < end
                        invariant
                            start == flash_index(bank, 0),
                            end <= self.flash@.len(),
                            end == start + 0x2000 || end == self.flash@.len(),
                            self.flash@.len() == old(self).flash@.len(),
                            self.regs == old(self).regs,
                            start <= i,
                            i <= end || i == start,
                            forall|j: int|
                                0 <= j < self.flash@.len() ==> #[trigger] self.flash@[j] == if start <= j < i {
                                    0xffu8
                                } else {
                                    old(self).flash@[j]
                                },
                        decreases end - i,
                    {
                        self.flash.set(i, 0xff);
                        i += 1;
                    }
                    assert(self.flash@ =~= flash_after(phase, old(self).flash@, bank, offset, value));
                }
                FlashPhase::Ready
            },
        };
        self.regs.flash_state = next;
    }

    /// What a write of `value` at `address` does: `self` and `ram_pre` before, `post` and `ram_post` after.
    pub open spec fn write_post(
        self,
        post: Self,
        ram_pre: Seq<u8>,
        ram_post: Seq<u8>,
        address: u16,
        value: u8,
        r: WriteResult,
    ) -> bool {
        &&& ram_post.len() == ram_pre.len()
        &&& (mbc6_control_address(address) ==> post.regs == self.regs.control_after(address, value)
                    && post.flash@ == self.flash@ && ram_post == ram_pre && r == WriteResult::Accepted)
        &&& (0x4000 <= address <= 0x5fff && self.regs.flash_write_enabled && self.regs.flash_select_a
                    ==> post.regs == (Mbc6Registers {
                    flash_state: next_flash_phase(self.regs.flash_state, (address - 0x4000) as u16, value),
                    ..self.regs
                }) && post.flash@ == flash_after(
                    self.regs.flash_state,
                    self.flash@,
                    self.regs.rom_bank_a,
                    (address - 0x4000) as u16,
                    value,
                ) && ram_post == ram_pre && r == WriteResult::Accepted)
        &&& (0x6000 <= address <= 0x7fff && self.regs.flash_write_enabled && self.regs.flash_select_b
                    ==> post.regs == (Mbc6Registers {
                    flash_state: next_flash_phase(self.regs.flash_state, (address - 0x6000) as u16, value),
                    ..self.regs
                }) && post.flash@ == flash_after(
                    self.regs.flash_state,
                    self.flash@,
                    self.regs.rom_bank_b,
                    (address - 0x6000) as u16,
                    value,
                ) && ram_post == ram_pre && r == WriteResult::Accepted)
        &&& (0x4000 <= address <= 0x7fff && !(self.regs.flash_write_enabled && (if address <= 0x5fff {
                    self.regs.flash_select_a
                } else {
                    self.regs.flash_select_b
                })) ==> post.regs == self.regs && post.flash@ == self.flash@ && ram_post
                    == ram_pre && r == WriteResult::Accepted)
        &&& (0xa000 <= address <= 0xbfff && self.regs.ram_enabled ==> ({
                    let index = if address <= 0xafff {
                        mbc6_ram_index(self.regs.ram_bank_a, address - 0xa000)
                    } else {
                        mbc6_ram_index(self.regs.ram_bank_b, address - 0xb000)
                    };
                    &&& ram_post == if index < ram_pre.len() {
                        ram_pre.update(index, value)
                    } else {
                        ram_pre
                    }
                    &&& post.regs == self.regs
                    &&& post.flash@ == self.flash@
                    &&& r == WriteResult::Accepted
                }))
        &&& ((0x1000 <= address <= 0x1fff || 0x8000 <= address) && !(0xa000 <= address <= 0xbfff
                    && self.regs.ram_enabled) ==> post.regs == self.regs && post.flash@
                    == self.flash@ && ram_post == ram_pre && r == WriteResult::NoData)
    }

    pub fn write(&mut self, ram: &mut [u8], address: u16, value: u8) -> (r: WriteResult)
        ensures
            old(self).write_post(*final(self), old(ram)@, final(ram)@, address, value, r),
    {
        if address <= 0x03ff {
            self.regs.ram_enabled = value & 0x0f == 0x0a;
            WriteResult::Accepted
        } else if address <= 0x07ff {
            self.regs.ram_bank_a = value & 0x07;
            WriteResult::Accepted
        } else if address <= 0x0bff {
            self.regs.ram_bank_b = value & 0x07;
            WriteResult::Accepted
        } else if address <= 0x0fff {
            self.regs.flash_write_enabled = value == 0x01;
            if !self.regs.flash_write_enabled {
                self.regs.flash_state = FlashPhase::Ready;
            }
            WriteResult::Accepted
        } else if address <= 0x1fff {
            WriteResult::NoData
        } else if address <= 0x27ff {
            self.regs.rom_bank_a = value & 0x7f;
            WriteResult::Accepted
        } else if address <= 0x2fff {
            self.regs.flash_select_a = value & 0x08 != 0;
            WriteResult::Accepted
        } else if address <= 0x37ff {
            self.regs.rom_bank_b = value & 0x7f;
            WriteResult::Accepted
        } else if address <= 0x3fff {
            self.regs.flash_select_b = value & 0x08 != 0;
            WriteResult::Accepted
        } else if address <= 0x5fff {
            if self.regs.flash_write_enabled && self.regs.flash_select_a {
                let bank = self.regs.rom_bank_a;
                self.flash_write(bank, address - 0x4000, value);
            }
            WriteResult::Accepted
        } else if address <= 0x7fff {
            if self.regs.flash_write_enabled && self.regs.flash_select_b {
                let bank = self.regs.rom_bank_b;
                self.flash_write(bank, address - 0x6000, value);
            }
            WriteResult::Accepted
        } else if 0xa000 <= address && address <= 0xbfff && self.regs.ram_enabled {
            let index = if address <= 0xafff {
                self.regs.ram_bank_a as usize * MBC6_RAM_BANK_SIZE + (address as usize - 0xa000)
            } else {
                self.regs.ram_bank_b as usize * MBC6_RAM_BANK_SIZE + (address as usize - 0xb000)
            };
            if index < ram.len() {
                ram[index] = value;
            }
            WriteResult::Accepted
        } else {
            WriteResult::NoData
        }
    }

    /// The bank seen in the first switchable window.
    pub fn selected_rom_bank(&self) -> (bank: usize)
        ensures
            bank == self.regs.rom_bank_a,
    {
        self.regs.rom_bank_a as usize
    }
}


// ---------------------------------------------------------------------------
// MBC7 and its 93LC56 serial EEPROM
// ---------------------------------------------------------------------------

pub const EEPROM_WORD_COUNT: usize = 128;
pub const EEPROM_BYTE_COUNT: usize = 256;

/// Accelerometer reading with no tilt.
pub const ACCEL_CENTER: u16 = 0x8000;

#[derive(Clone, Copy, Debug, PartialEq, Eq, Structural)]
pub enum EepromPhase {
    /// Waiting for the start bit, then collecting opcode and address.
    Command,
    /// Clocking out 16 data bits.
    Reading,
    /// Clocking in 16 data bits.
    Writing,
    /// A command has completed.
    Done,
}

/// The serial port of the EEPROM: its lines and shift registers.
#[derive(Clone, Copy, Debug, PartialEq, Eq, Structural)]
pub struct EepromPort {
    pub write_enabled: bool,
    pub cs: bool,
    pub clk: bool,
    pub di: bool,
    pub do_bit: bool,
    pub command_buffer: u16,
    pub bits_in: u8,
    pub state: EepromPhase,
    pub data_buffer: u16,
    pub data_bits: u8,
}

/// 93LC56 serial EEPROM: 128 words of 16 bits, driven bit by bit.
#[derive(Debug)]
pub struct Eeprom93LC56 {
    pub data: [u16; 128],
    pub port: EepromPort,
}

/// A bool as the bit 0 or 1.
pub open spec fn bit_of(b: bool) -> u16 {
    if b { 1 } else { 0 }
}

impl EepromPort {
    /// The counters stay within the lengths of the transfers.
    pub open spec fn wf(self) -> bool {
        &&& self.state == EepromPhase::Command ==> self.bits_in < 10
        &&& (self.state == EepromPhase::Reading || self.state == EepromPhase::Writing) ==> self.data_bits < 16
    }

    pub open spec fn opcode(self) -> u16 {
        (self.command_buffer >> 7u16) & 0x03
    }

    pub open spec fn word_address(self) -> int {
        (self.command_buffer & 0x7f) as int
    }

    /// The two bits that select a special command when the opcode is 0.
    pub open spec fn sub_op(self) -> u16 {
        ((self.command_buffer & 0x7f) >> 5u16) & 0x03
    }

    pub open spec fn reset(self) -> EepromPort {
        EepromPort {
            command_buffer: 0,
            bits_in: 0,
            state: EepromPhase::Command,
            data_buffer: 0,
            data_bits: 0,
            do_bit: true,
            ..self
        }
    }

    pub open spec fn done(self) -> EepromPort {
        EepromPort { do_bit: true, state: EepromPhase::Done, ..self }
    }

    pub open spec fn start_writing(self) -> EepromPort {
        EepromPort { data_buffer: 0, data_bits: 0, state: EepromPhase::Writing, ..self }
    }
}

/// All 128 words set to `word`.
pub open spec fn all_words(word: u16) -> Seq<u16> {
    Seq::new(128, |i: int| word)
}

/// The port and memory after the command now in the command buffer.
pub open spec fn after_command(p: EepromPort, data: Seq<u16>) -> (EepromPort, Seq<u16>) {
    let a = p.word_address();
    if p.opcode() == 2 {
        (EepromPort { data_buffer: data[a], data_bits: 0, do_bit: false, state: EepromPhase::Reading, ..p }, data)
    } else if p.opcode() == 1 {
        if p.write_enabled {
            (p.start_writing(), data)
        } else {
            (EepromPort { state: EepromPhase::Done, ..p }, data)
        }
    } else if p.opcode() == 3 {
        (p.done(), if p.write_enabled { data.update(a, 0xffff) } else { data })
    } else if p.sub_op() == 3 {
        (EepromPort { write_enabled: true, ..p }.done(), data)
    } else if p.sub_op() == 0 {
        (EepromPort { write_enabled: false, ..p }.done(), data)
    } else if p.sub_op() == 2 {
        (p.done(), if p.write_enabled { all_words(0xffff) } else { data })
    } else if p.write_enabled {
        (p.start_writing(), data)
    } else {
        (p.done(), data)
    }
}

/// The memory once 16 data bits have been clocked in.
pub open spec fn after_finish_write(p: EepromPort, data: Seq<u16>) -> (EepromPort, Seq<u16>) {
    (
        p.done(),
        if p.opcode() == 1 {
            data.update(p.word_address(), p.data_buffer)
        } else if p.opcode() == 0 && p.sub_op() == 1 {
            all_words(p.data_buffer)
        } else {
            data
        },
    )
}

/// The effect of a rising clock edge while chip select is high.
pub open spec fn after_clock(p: EepromPort, data: Seq<u16>) -> (EepromPort, Seq<u16>) {
    match p.state {
        EepromPhase::Command => {
            let buffer = ((p.command_buffer << 1u16) | bit_of(p.di)) as u16;
            let bits = (p.bits_in + 1) as u8;
            if bits == 1 && buffer == 0 {
                (EepromPort { command_buffer: buffer, bits_in: 0, ..p }, data)
            } else if bits < 10 {
                (EepromPort { command_buffer: buffer, bits_in: bits, ..p }, data)
            } else {
                after_command(EepromPort { command_buffer: buffer, bits_in: bits, ..p }, data)
            }
        },
        EepromPhase::Reading => {
            let bits = (p.data_bits + 1) as u8;
            (
                EepromPort {
                    do_bit: p.data_buffer & 0x8000 != 0,
                    data_buffer: (p.data_buffer << 1u16) as u16,
                    data_bits: bits,
                    state: if bits >= 16 { EepromPhase::Done } else { EepromPhase::Reading },
                    ..p
                },
                data,
            )
        },
        EepromPhase::Writing => {
            let q = EepromPort {
                data_buffer: ((p.data_buffer << 1u16) | bit_of(p.di)) as u16,
                data_bits: (p.data_bits + 1) as u8,
                ..p
            };
            if q.data_bits >= 16 {
                after_finish_write(q, data)
            } else {
                (q, data)
            }
        },
        EepromPhase::Done => (EepromPort { do_bit: true, ..p }, data),
    }
}

/// The effect of writing `value` to the EEPROM port register
/// (bit 7 chip select, bit 6 clock, bit 1 data in).
pub open spec fn after_port_write(p: EepromPort, data: Seq<u16>, value: u8) -> (EepromPort, Seq<u16>) {
    let new_cs = value & 0x80 != 0;
    let new_clk = value & 0x40 != 0;
    let q = EepromPort { di: value & 0x02 != 0, ..p };
    if p.cs && !new_cs {
        (EepromPort { cs: false, clk: false, ..q.reset() }, data)
    } else if !p.cs && new_cs {
        (EepromPort { cs: true, clk: new_clk, ..q.reset() }, data)
    } else if !new_cs {
        (EepromPort { clk: new_clk, ..q }, data)
    } else if !p.clk && new_clk {
        let (r, d) = after_clock(q, data);
        (EepromPort { clk: new_clk, ..r }, d)
    } else {
        (EepromPort { clk: new_clk, ..q }, data)
    }
}

/// The byte read back from the port register.
pub open spec fn port_byte(p: EepromPort) -> u8 {
    (if p.do_bit { 0x01u8 } else { 0 }) | (if p.di { 0x02u8 } else { 0 }) | (if p.clk { 0x40u8 } else { 0 }) | (
    if p.cs { 0x80u8 } else { 0 })
}

/// The bytes of the EEPROM image: each word, high byte first.
pub open spec fn eeprom_image(data: Seq<u16>) -> Seq<u8> {
    Seq::new(
        256,
        |i: int|
            if i % 2 == 0 {
                (data[i / 2] >> 8u16) as u8
            } else {
                data[i / 2] as u8
            },
    )
}

/// The words after loading the image `bytes`: a word is loaded where both of
/// its bytes are present.
pub open spec fn words_loaded(data: Seq<u16>, bytes: Seq<u8>) -> Seq<u16> {
    Seq::new(
        128,
        |i: int|
            if 2 * i + 1 < bytes.len() {
                ((bytes[2 * i] as u16) << 8u16) | (bytes[2 * i + 1] as u16)
            } else {
                data[i]
            },
    )
}

impl Eeprom93LC56 {
    pub fn new() -> (e: Self)
        ensures
            e.data@ == all_words(0xffff),
            e.port == (EepromPort {
                write_enabled: false,
                cs: false,
                clk: false,
                di: false,
                do_bit: true,
                command_buffer: 0,
                bits_in: 0,
                state: EepromPhase::Command,
                data_buffer: 0,
                data_bits: 0,
            }),
    {
        let e = Eeprom93LC56 {
            data: [0xffff; 128],
            port: EepromPort {
                write_enabled: false,
                cs: false,
                clk: false,
                di: false,
                do_bit: true,
                command_buffer: 0,
                bits_in: 0,
                state: EepromPhase::Command,
                data_buffer: 0,
                data_bits: 0,
            },
        };
        assert(e.data@ =~= all_words(0xffff));
        e
    }

    pub fn read_do(&self) -> (value: u8)
        ensures
            value == port_byte(self.port),
    {
        let do_line: u8 = if self.port.do_bit { 0x01 } else { 0 };
        let di_line: u8 = if self.port.di { 0x02 } else { 0 };
        let clk_line: u8 = if self.port.clk { 0x40 } else { 0 };
        let cs_line: u8 = if self.port.cs { 0x80 } else { 0 };
        do_line | di_line | clk_line | cs_line
    }

    pub fn reset(&mut self)
        ensures
            final(self).port == old(self).port.reset(),
            final(self).data == old(self).data,
    {
        self.port.command_buffer = 0;
        self.port.bits_in = 0;
        self.port.state = EepromPhase::Command;
        self.port.data_buffer = 0;
        self.port.data_bits = 0;
        self.port.do_bit = true;
    }

    fn fill(&mut self, word: u16)
        ensures
            final(self).data@ == all_words(word),
            final(self).port == old(self).port,
    {
        let mut i: usize = 0;
        while i < EEPROM_WORD_COUNT
            invariant
                i <= 128,
                self.port == old(self).port,
                forall|j: int| 0 <= j < i ==> #[trigger] self.data@[j] == word,
            decreases 128 - i,
        {
            self.data[i] = word;
            i += 1;
        }
        assert(self.data@ =~= all_words(word));
    }

    pub fn execute_command(&mut self)
        ensures
            (final(self).port, final(self).data@) == after_command(old(self).port, old(self).data@),
    {
        let opcode = (self.port.command_buffer >> 7) & 0x03;
        let address = (self.port.command_buffer & 0x7f) as usize;
        let ghost cb: u16 = self.port.command_buffer;
        assert(cb & 0x7f < 128) by {
            lemma_byte_masks();
            lemma_word_masks();
        }
        if opcode == 2 {
            self.port.data_buffer = self.data[address];
            self.port.data_bits = 0;
            self.port.do_bit = false;
            self.port.state = EepromPhase::Reading;
        } else if opcode == 1 {
            if self.port.write_enabled {
                self.port.data_buffer = 0;
                self.port.data_bits = 0;
                self.port.state = EepromPhase::Writing;
            } else {
                self.port.state = EepromPhase::Done;
            }
        } else if opcode == 3 {
            if self.port.write_enabled {
                self.data[address] = 0xffff;
            }
            self.port.do_bit = true;
            self.port.state = EepromPhase::Done;
        } else {
            let sub = (address >> 5) & 0x03;
            proof {
                lemma_command_sub(cb);
            }
            if sub == 3 {
                self.port.write_enabled = true;
            } else if sub == 0 {
                self.port.write_enabled = false;
            } else if sub == 2 {
                if self.port.write_enabled {
                    self.fill(0xffff);
                }
            } else if self.port.write_enabled {
                self.port.data_buffer = 0;
                self.port.data_bits = 0;
                self.port.state = EepromPhase::Writing;
                return;
            }
            self.port.do_bit = true;
            self.port.state = EepromPhase::Done;
        }
    }

    pub fn finish_write(&mut self)
        ensures
            (final(self).port, final(self).data@) == after_finish_write(old(self).port, old(self).data@),
    {
        let opcode = (self.port.command_buffer >> 7) & 0x03;
        let address = (self.port.command_buffer & 0x7f) as usize;
        let ghost cb: u16 = self.port.command_buffer;
        assert(cb & 0x7f < 128) by {
            lemma_byte_masks();
            lemma_word_masks();
        }
        proof {
            lemma_command_sub(cb);
        }
        if opcode == 1 {
            self.data[address] = self.port.data_buffer;
        } else if opcode == 0 && (address >> 5) & 0x03 == 1 {
            let word = self.port.data_buffer;
            self.fill(word);
        }
        self.port.do_bit = true;
        self.port.state = EepromPhase::Done;
    }

    pub fn clock_rising_edge(&mut self)
        requires
            old(self).port.wf(),
        ensures
            (final(self).port, final(self).data@) == after_clock(old(self).port, old(self).data@),
            final(self).port.wf(),
    {
        match self.port.state {
            EepromPhase::Command => {
                let di: u16 = if self.port.di { 1 } else { 0 };
                self.port.command_buffer = (self.port.command_buffer << 1) | di;
                self.port.bits_in = self.port.bits_in + 1;
                if self.port.bits_in == 1 && self.port.command_buffer == 0 {
                    self.port.bits_in = 0;
                    return;
                }
                if self.port.bits_in < 10 {
                    return;
                }
                self.execute_command();
            },
            EepromPhase::Reading => {
                self.port.do_bit = self.port.data_buffer & 0x8000 != 0;
                self.port.data_buffer = self.port.data_buffer << 1;
                self.port.data_bits = self.port.data_bits + 1;
                if self.port.data_bits >= 16 {
                    self.port.state = EepromPhase::Done;
                }
            },
            EepromPhase::Writing => {
                let di: u16 = if self.port.di { 1 } else { 0 };
                self.port.data_buffer = (self.port.data_buffer << 1) | di;
                self.port.data_bits = self.port.data_bits + 1;
                if self.port.data_bits >= 16 {
                    self.finish_write();
                }
            },
            EepromPhase::Done => {
                self.port.do_bit = true;
            },
        }
    }

    pub fn write(&mut self, value: u8)
        requires
            old(self).port.wf(),
        ensures
            (final(self).port, final(self).data@) == after_port_write(old(self).port, old(self).data@, value),
            final(self).port.wf(),
    {
        let new_cs = value & 0x80 != 0;
        let new_clk = value & 0x40 != 0;
        self.port.di = value & 0x02 != 0;
        if self.port.cs && !new_cs {
            self.reset();
            self.port.cs = false;
            self.port.clk = false;
            return;
        }
        if !self.port.cs && new_cs {
            self.reset();
            self.port.cs = true;
            self.port.clk = new_clk;
            return;
        }
        self.port.cs = new_cs;
        if !self.port.cs {
            self.port.clk = new_clk;
            return;
        }
        if !self.port.clk && new_clk {
            self.clock_rising_edge();
        }
        self.port.clk = new_clk;
    }

    /// The memory image, each word high byte first.
    pub fn to_bytes(&self) -> (bytes: Vec<u8>)
        ensures
            bytes@ == eeprom_image(self.data@),
    {
        let mut bytes: Vec<u8> = Vec::with_capacity(EEPROM_BYTE_COUNT);
        let mut i: usize = 0;
        while i < EEPROM_WORD_COUNT
            invariant
                i <= 128,
                bytes@.len() == 2 * i,
                forall|j: int| 0 <= j < 2 * i ==> #[trigger] bytes@[j] == eeprom_image(self.data@)[j],
            decreases 128 - i,
        {
            let word = self.data[i];
            bytes.push((word >> 8) as u8);
            bytes.push(word as u8);
            assert((2 * i) as int % 2 == 0 && (2 * i) as int / 2 == i as int);
            assert((2 * i + 1) as int % 2 == 1 && (2 * i + 1) as int / 2 == i as int);
            i += 1;
        }
        assert(bytes@ =~= eeprom_image(self.data@));
        bytes
    }

    /// Loads words from an image; a word whose two bytes are not both present keeps its value.
    pub fn load_bytes(&mut self, bytes: &[u8])
        ensures
            final(self).data@ == words_loaded(old(self).data@, bytes@),
            final(self).port == old(self).port,
    {
        let mut i: usize = 0;
        while i < EEPROM_WORD_COUNT
            invariant
                i <= 128,
                self.port == old(self).port,
                forall|j: int|
                    0 <= j < 128 ==> #[trigger] self.data@[j] == if j < i {
                        words_loaded(old(self).data@, bytes@)[j]
                    } else {
                        old(self).data@[j]
                    },
            decreases 128 - i,
        {
            let offset = i * 2;
            if offset + 1 < bytes.len() {
                self.data[i] = ((bytes[offset] as u16) << 8) | bytes[offset + 1] as u16;
            }
            i += 1;
        }
        assert(self.data@ =~= words_loaded(old(self).data@, bytes@));
    }
}

/// Loading the image of a memory gives that memory back.
pub proof fn lemma_eeprom_image_roundtrip(data: Seq<u16>, other: Seq<u16>)
    requires
        data.len() == 128,
        other.len() == 128,
    ensures
        words_loaded(other, eeprom_image(data)) == data,
{
    assert forall|i: int| 0 <= i < 128 implies #[trigger] words_loaded(other, eeprom_image(data))[i] == data[i] by {
        let w = data[i];
        assert((2 * i) % 2 == 0 && (2 * i) / 2 == i);
        assert((2 * i + 1) % 2 == 1 && (2 * i + 1) / 2 == i);
        lemma_word_bytes(w);
    }
    assert(words_loaded(other, eeprom_image(data)) =~= data);
}


/// The MBC7 registers besides the EEPROM.
#[derive(Clone, Copy, Debug, PartialEq, Eq, Structural)]
pub struct Mbc7Registers {
    pub ram_enable_1: bool,
    pub ram_enable_2: bool,
    pub rom_bank: u8,
    pub latch_ready: bool,
    pub accel_x: u16,
    pub accel_y: u16,
}

impl Mbc7Registers {
    /// Both steps of the two-step RAM enable have been taken.
    pub open spec fn registers_active(self) -> bool {
        self.ram_enable_1 && self.ram_enable_2
    }

    /// The registers after a write of `value` at `address`.
    pub open spec fn after_write(self, address: u16, value: u8) -> Mbc7Registers {
        if address <= 0x1fff {
            Mbc7Registers {
                ram_enable_1: value == 0x0a,
                ram_enable_2: if value == 0x0a { self.ram_enable_2 } else { false },
                ..self
            }
        } else if address <= 0x3fff {
            Mbc7Registers { rom_bank: if value == 0 { 1 } else { value }, ..self }
        } else if address <= 0x5fff {
            Mbc7Registers { ram_enable_2: self.ram_enable_1 && value == 0x40, ..self }
        } else if 0xa000 <= address <= 0xafff && self.registers_active() {
            let reg = (address >> 4u16) & 0x0f;
            if reg == 0 {
                Mbc7Registers { latch_ready: value == 0x55, ..self }
            } else if reg == 1 {
                if value == 0xaa && self.latch_ready {
                    Mbc7Registers { accel_x: ACCEL_CENTER, accel_y: ACCEL_CENTER, latch_ready: false, ..self }
                } else {
                    Mbc7Registers { latch_ready: false, ..self }
                }
            } else {
                self
            }
        } else {
            self
        }
    }
}

/// MBC7: 8-bit ROM banking, an accelerometer and a serial EEPROM behind a
/// two-step RAM enable.
#[derive(Debug)]
pub struct Mbc7State {
    pub regs: Mbc7Registers,
    pub eeprom: Eeprom93LC56,
}

/// Whether a write reaches the EEPROM port register.
pub open spec fn mbc7_eeprom_write(regs: Mbc7Registers, address: u16) -> bool {
    0xa000 <= address <= 0xafff && regs.registers_active() && (address >> 4u16) & 0x0f == 8
}

impl Mbc7State {
    pub fn new() -> (state: Self)
        ensures
            state.regs == (Mbc7Registers {
                ram_enable_1: false,
                ram_enable_2: false,
                rom_bank: 1,
                latch_ready: false,
                accel_x: ACCEL_CENTER,
                accel_y: ACCEL_CENTER,
            }),
            state.eeprom.data@ == all_words(0xffff),
            state.eeprom.port.wf(),
            state.eeprom.port.state == EepromPhase::Command,
    {
        Mbc7State {
            regs: Mbc7Registers {
                ram_enable_1: false,
                ram_enable_2: false,
                rom_bank: 1,
                latch_ready: false,
                accel_x: ACCEL_CENTER,
                accel_y: ACCEL_CENTER,
            },
            eeprom: Eeprom93LC56::new(),
        }
    }

    pub fn registers_active(&self) -> (active: bool)
        ensures
            active == self.regs.registers_active(),
    {
        self.regs.ram_enable_1 && self.regs.ram_enable_2
    }

    pub open spec fn spec_selected_rom_bank(&self, metadata: CartridgeMetadata) -> usize {
        ((self.regs.rom_bank as usize) % metadata.rom_bank_count) as usize
    }

    /// The value of register `reg` of the 0xA000 window.
    pub open spec fn register_value(&self, reg: u16) -> u8 {
        if reg <= 1 {
            0x00
        } else if reg == 2 {
            (self.regs.accel_x & 0x00ff) as u8
        } else if reg == 3 {
            (self.regs.accel_x >> 8u16) as u8
        } else if reg == 4 {
            (self.regs.accel_y & 0x00ff) as u8
        } else if reg == 5 {
            (self.regs.accel_y >> 8u16) as u8
        } else if reg == 6 {
            0x00
        } else if reg == 8 {
            port_byte(self.eeprom.port)
        } else {
            0xff
        }
    }

    pub open spec fn spec_read(&self, metadata: CartridgeMetadata, rom: Seq<u8>, address: u16) -> ReadResult {
        if address <= 0x3fff {
            rom_read(metadata, rom, 0, address as int)
        } else if address <= 0x7fff {
            rom_read(metadata, rom, self.spec_selected_rom_bank(metadata) as int, address - 0x4000)
        } else if 0xa000 <= address <= 0xafff && self.regs.registers_active() {
            ReadResult::Ready(self.register_value((address >> 4u16) & 0x0f))
        } else {
            ReadResult::NoData
        }
    }

    pub fn selected_rom_bank(&self, metadata: &CartridgeMetadata) -> (bank: usize)
        requires
            metadata.rom_bank_count > 0,
        ensures
            bank == self.spec_selected_rom_bank(*metadata),
            bank < metadata.rom_bank_count,
    {
        (self.regs.rom_bank as usize) % metadata.rom_bank_count
    }

    pub fn read(&self, metadata: &CartridgeMetadata, rom: &[u8], address: u16) -> (r: ReadResult)
        requires
            metadata.rom_bank_count > 0,
            rom@.len() == metadata.rom_bank_count * 0x4000,
        ensures
            r == self.spec_read(*metadata, rom@, address),
    {
        if address <= 0x3fff {
            read_rom_bank(rom, metadata, 0, address)
        } else if address <= 0x7fff {
            read_rom_bank(rom, metadata, self.selected_rom_bank(metadata), address - 0x4000)
        } else if 0xa000 <= address && address <= 0xafff && self.registers_active() {
            let reg = (address >> 4) & 0x0f;
            let value = if reg <= 1 {
                0x00
            } else if reg == 2 {
                (self.regs.accel_x & 0x00ff) as u8
            } else if reg == 3 {
                (self.regs.accel_x >> 8) as u8
            } else if reg == 4 {
                (self.regs.accel_y & 0x00ff) as u8
            } else if reg == 5 {
                (self.regs.accel_y >> 8) as u8
            } else if reg == 6 {
                0x00
            } else if reg == 8 {
                self.eeprom.read_do()
            } else {
                0xff
            };
            ReadResult::Ready(value)
        } else {
            ReadResult::NoData
        }
    }

    /// What a write of `value` at `address` does: `self` before, `post` after.
    pub open spec fn write_post(
        self,
        post: Self,
        address: u16,
        value: u8,
        r: WriteResult,
    ) -> bool {
        &&& (post.regs == self.regs.after_write(address, value))
        &&& (mbc7_eeprom_write(self.regs, address) ==> (post.eeprom.port, post.eeprom.data@)
                    == after_port_write(self.eeprom.port, self.eeprom.data@, value))
        &&& (!mbc7_eeprom_write(self.regs, address) ==> post.eeprom == self.eeprom)
        &&& (post.eeprom.port.wf())
        &&& (r == if address <= 0x5fff || (0xa000 <= address <= 0xafff && self.regs.registers_active()) {
                    WriteResult::Accepted
                } else {
                    WriteResult::NoData
                })
    }

    pub fn write(&mut self, address: u16, value: u8) -> (r: WriteResult)
        requires
            old(self).eeprom.port.wf(),
        ensures
            old(self).write_post(*final(self), address, value, r),
    {
        if address <= 0x1fff {
            self.regs.ram_enable_1 = value == 0x0a;
            if !self.regs.ram_enable_1 {
                self.regs.ram_enable_2 = false;
            }
            WriteResult::Accepted
        } else if address <= 0x3fff {
            self.regs.rom_bank = if value == 0 { 1 } else { value };
            WriteResult::Accepted
        } else if address <= 0x5fff {
            self.regs.ram_enable_2 = self.regs.ram_enable_1 && value == 0x40;
            WriteResult::Accepted
        } else if 0xa000 <= address && address <= 0xafff && self.registers_active() {
            let reg = (address >> 4) & 0x0f;
            if reg == 0 {
                self.regs.latch_ready = value == 0x55;
            } else if reg == 1 {
                if value == 0xaa && self.regs.latch_ready {
                    self.regs.accel_x = ACCEL_CENTER;
                    self.regs.accel_y = ACCEL_CENTER;
                }
                self.regs.latch_ready = false;
            } else if reg == 8 {
                self.eeprom.write(value);
            }
            WriteResult::Accepted
        } else {
            WriteResult::NoData
        }
    }
}


// ---------------------------------------------------------------------------
// The controller of a cartridge
// ---------------------------------------------------------------------------

/// The memory bank controller of a cartridge, with the state of its registers.
#[derive(Debug)]
pub enum CartridgeController {
    RomOnly,
    Mbc1(Mbc1State),
    Mbc2(Mbc2State),
    Mbc3(Mbc3State),
    Mbc5(Mbc5State),
    HuC1(HuC1State),
    HuC3(HuC3State),
    Mbc7(Mbc7State),
    Mmm01(Mmm01State),
    Mbc6(Mbc6State),
    PocketCamera(PocketCameraState),
    BandaiTama5(Tama5State),
}

/// The bank seen at 0x4000 by a cartridge without a controller: bank 1 where
/// the ROM has one.
pub open spec fn rom_only_bank(metadata: CartridgeMetadata) -> usize {
    if metadata.rom_bank_count >= 2 { 1 } else { 0 }
}

impl CartridgeController {
    /// The EEPROM of an MBC7 keeps its transfer counters in range.
    pub open spec fn wf(&self) -> bool {
        match self {
            CartridgeController::Mbc7(s) => s.eeprom.port.wf(),
            _ => true,
        }
    }

    /// Which controller this is, by index.
    pub open spec fn variant_index(&self) -> int {
        match self {
            CartridgeController::RomOnly => 0,
            CartridgeController::Mbc1(_) => 1,
            CartridgeController::Mbc2(_) => 2,
            CartridgeController::Mbc3(_) => 3,
            CartridgeController::Mbc5(_) => 4,
            CartridgeController::HuC1(_) => 5,
            CartridgeController::HuC3(_) => 6,
            CartridgeController::Mbc7(_) => 7,
            CartridgeController::Mmm01(_) => 8,
            CartridgeController::Mbc6(_) => 9,
            CartridgeController::PocketCamera(_) => 10,
            CartridgeController::BandaiTama5(_) => 11,
        }
    }

    pub open spec fn spec_read(&self, metadata: CartridgeMetadata, rom: Seq<u8>, ram: Seq<u8>, address: u16) -> ReadResult {
        match self {
            CartridgeController::RomOnly => if address <= 0x3fff {
                rom_read(metadata, rom, 0, address as int)
            } else if address <= 0x7fff {
                rom_read(metadata, rom, rom_only_bank(metadata) as int, address - 0x4000)
            } else if 0xa000 <= address <= 0xbfff {
                spec_read_ram(metadata, ram, 0, address - 0xa000)
            } else {
                ReadResult::NoData
            },
            CartridgeController::Mbc1(s) => s.spec_read(metadata, rom, ram, address),
            CartridgeController::Mbc2(s) => s.spec_read(metadata, rom, address),
            CartridgeController::Mbc3(s) => s.spec_read(metadata, rom, ram, address),
            CartridgeController::Mbc5(s) => s.spec_read(metadata, rom, ram, address),
            CartridgeController::HuC1(s) => s.spec_read(metadata, rom, ram, address),
            CartridgeController::HuC3(s) => s.spec_read(metadata, rom, ram, address),
            CartridgeController::Mbc7(s) => s.spec_read(metadata, rom, address),
            CartridgeController::Mmm01(s) => s.spec_read(metadata, rom, ram, address),
            CartridgeController::Mbc6(s) => s.spec_read(metadata, rom, ram, address),
            CartridgeController::PocketCamera(s) => s.spec_read(metadata, rom, ram, address),
            CartridgeController::BandaiTama5(s) => s.spec_read(metadata, rom, address),
        }
    }

    /// What a write does, by controller: `self` and `ram_pre` before, `post` and `ram_post` after.
    pub open spec fn write_post(
        self,
        post: Self,
        metadata: CartridgeMetadata,
        ram_pre: Seq<u8>,
        ram_post: Seq<u8>,
        address: u16,
        value: u8,
        r: WriteResult,
    ) -> bool {
        &&& ram_post.len() == ram_pre.len()
        &&& match (self, post) {
            (CartridgeController::RomOnly, CartridgeController::RomOnly) => if address <= 0x7fff {
                ram_post == ram_pre && r == WriteResult::Accepted
            } else if 0xa000 <= address <= 0xbfff {
                (ram_post, r) == spec_write_ram(metadata, ram_pre, 0, address - 0xa000, value)
            } else {
                ram_post == ram_pre && r == WriteResult::NoData
            },
            (CartridgeController::Mbc1(s), CartridgeController::Mbc1(t)) => s.write_post(
                t,
                metadata,
                ram_pre,
                ram_post,
                address,
                value,
                r,
            ),
            (CartridgeController::Mbc2(s), CartridgeController::Mbc2(t)) => s.write_post(t, address, value, r)
                && ram_post == ram_pre,
            (CartridgeController::Mbc3(s), CartridgeController::Mbc3(t)) => s.write_post(
                t,
                metadata,
                ram_pre,
                ram_post,
                address,
                value,
                r,
            ),
            (CartridgeController::Mbc5(s), CartridgeController::Mbc5(t)) => s.write_post(
                t,
                metadata,
                ram_pre,
                ram_post,
                address,
                value,
                r,
            ),
            (CartridgeController::HuC1(s), CartridgeController::HuC1(t)) => s.write_post(
                t,
                metadata,
                ram_pre,
                ram_post,
                address,
                value,
                r,
            ),
            (CartridgeController::HuC3(s), CartridgeController::HuC3(t)) => s.write_post(
                t,
                metadata,
                ram_pre,
                ram_post,
                address,
                value,
                r,
            ),
            (CartridgeController::Mbc7(s), CartridgeController::Mbc7(t)) => s.write_post(t, address, value, r)
                && ram_post == ram_pre,
            (CartridgeController::Mmm01(s), CartridgeController::Mmm01(t)) => s.write_post(
                t,
                metadata,
                ram_pre,
                ram_post,
                address,
                value,
                r,
            ),
            (CartridgeController::Mbc6(s), CartridgeController::Mbc6(t)) => s.write_post(
                t,
                ram_pre,
                ram_post,
                address,
                value,
                r,
            ),
            (CartridgeController::PocketCamera(s), CartridgeController::PocketCamera(t)) => s.write_post(
                t,
                metadata,
                ram_pre,
                ram_post,
                address,
                value,
                r,
            ),
            (CartridgeController::BandaiTama5(s), CartridgeController::BandaiTama5(t)) => s.write_post(
                t,
                address,
                value,
                r,
            ) && ram_post == ram_pre,
            _ => false,
        }
    }

    pub open spec fn spec_selected_rom_bank(&self, metadata: CartridgeMetadata) -> usize {
        match self {
            CartridgeController::RomOnly => rom_only_bank(metadata),
            CartridgeController::Mbc1(s) => s.spec_selected_rom_bank(metadata),
            CartridgeController::Mbc2(s) => s.spec_selected_rom_bank(metadata),
            CartridgeController::Mbc3(s) => s.spec_selected_rom_bank(metadata),
            CartridgeController::Mbc5(s) => s.spec_selected_rom_bank(metadata),
            CartridgeController::HuC1(s) => s.spec_selected_rom_bank(metadata),
            CartridgeController::HuC3(s) => s.spec_selected_rom_bank(metadata),
            CartridgeController::Mbc7(s) => s.spec_selected_rom_bank(metadata),
            CartridgeController::Mmm01(s) => s.spec_selected_rom_bank(metadata),
            CartridgeController::Mbc6(s) => s.regs.rom_bank_a as usize,
            CartridgeController::PocketCamera(s) => s.spec_selected_rom_bank(metadata),
            CartridgeController::BandaiTama5(s) => s.spec_selected_rom_bank(metadata),
        }
    }

    pub open spec fn spec_lower_rom_bank(&self, metadata: CartridgeMetadata) -> usize {
        match self {
            CartridgeController::Mbc1(s) => s.spec_lower_rom_bank(metadata),
            _ => 0,
        }
    }

    pub open spec fn spec_uses_standard_ram(&self) -> bool {
        match self {
            CartridgeController::RomOnly | CartridgeController::Mbc1(_) | CartridgeController::Mbc5(_)
            | CartridgeController::Mmm01(_) => true,
            _ => false,
        }
    }

    pub open spec fn spec_ram_enabled(&self) -> bool {
        match self {
            CartridgeController::RomOnly => true,
            CartridgeController::Mbc1(s) => s.ram_enabled,
            CartridgeController::Mbc5(s) => s.ram_enabled,
            CartridgeController::Mmm01(s) => s.ram_enabled,
            _ => false,
        }
    }

    pub open spec fn spec_selected_ram_bank(&self, metadata: CartridgeMetadata) -> usize {
        match self {
            CartridgeController::Mbc1(s) => s.spec_selected_ram_bank(metadata),
            CartridgeController::Mbc3(s) => s.spec_selected_ram_bank(metadata),
            CartridgeController::Mbc5(s) => s.spec_selected_ram_bank(metadata),
            CartridgeController::HuC1(s) => s.spec_selected_ram_bank(metadata),
            CartridgeController::HuC3(s) => s.spec_selected_ram_bank(metadata),
            CartridgeController::Mmm01(s) => s.spec_selected_ram_bank(metadata),
            CartridgeController::PocketCamera(s) => s.ram_bank as usize,
            _ => 0,
        }
    }

    pub fn read(&self, metadata: &CartridgeMetadata, rom: &[u8], ram: &[u8], address: u16) -> (r: ReadResult)
        requires
            mapping_ok(*metadata, rom@, ram@),
        ensures
            r == self.spec_read(*metadata, rom@, ram@, address),
    {
        match self {
            CartridgeController::RomOnly => if address <= 0x3fff {
                read_rom_bank(rom, metadata, 0, address)
            } else if address <= 0x7fff {
                let bank = if metadata.rom_bank_count >= 2 { 1 } else { 0 };
                read_rom_bank(rom, metadata, bank, address - 0x4000)
            } else if 0xa000 <= address && address <= 0xbfff {
                read_ram_bank(ram, metadata, 0, address - 0xa000)
            } else {
                ReadResult::NoData
            },
            CartridgeController::Mbc1(s) => s.read(metadata, rom, ram, address),
            CartridgeController::Mbc2(s) => s.read(metadata, rom, address),
            CartridgeController::Mbc3(s) => s.read(metadata, rom, ram, address),
            CartridgeController::Mbc5(s) => s.read(metadata, rom, ram, address),
            CartridgeController::HuC1(s) => s.read(metadata, rom, ram, address),
            CartridgeController::HuC3(s) => s.read(metadata, rom, ram, address),
            CartridgeController::Mbc7(s) => s.read(metadata, rom, address),
            CartridgeController::Mmm01(s) => s.read(metadata, rom, ram, address),
            CartridgeController::Mbc6(s) => s.read(metadata, rom, ram, address),
            CartridgeController::PocketCamera(s) => s.read(metadata, rom, ram, address),
            CartridgeController::BandaiTama5(s) => s.read(metadata, rom, address),
        }
    }

    pub fn write(&mut self, metadata: &CartridgeMetadata, ram: &mut [u8], address: u16, value: u8) -> (r: WriteResult)
        requires
            old(self).wf(),
            metadata.rom_bank_count > 0,
            ram_layout_ok(*metadata, old(ram)@.len()),
        ensures
            final(self).wf(),
            final(self).variant_index() == old(self).variant_index(),
            final(ram)@.len() == old(ram)@.len(),
            old(self).write_post(*final(self), *metadata, old(ram)@, final(ram)@, address, value, r),
    {
        match self {
            CartridgeController::RomOnly => if address <= 0x7fff {
                WriteResult::Accepted
            } else if 0xa000 <= address && address <= 0xbfff {
                write_ram_bank(ram, metadata, 0, address - 0xa000, value)
            } else {
                WriteResult::NoData
            },
            CartridgeController::Mbc1(s) => s.write(metadata, ram, address, value),
            CartridgeController::Mbc2(s) => s.write(address, value),
            CartridgeController::Mbc3(s) => s.write(metadata, ram, address, value),
            CartridgeController::Mbc5(s) => s.write(metadata, ram, address, value),
            CartridgeController::HuC1(s) => s.write(metadata, ram, address, value),
            CartridgeController::HuC3(s) => s.write(metadata, ram, address, value),
            CartridgeController::Mbc7(s) => s.write(address, value),
            CartridgeController::Mmm01(s) => s.write(metadata, ram, address, value),
            CartridgeController::Mbc6(s) => s.write(ram, address, value),
            CartridgeController::PocketCamera(s) => s.write(metadata, ram, address, value),
            CartridgeController::BandaiTama5(s) => s.write(address, value),
        }
    }

    pub fn selected_rom_bank(&self, metadata: &CartridgeMetadata) -> (bank: usize)
        requires
            metadata.rom_bank_count > 0,
        ensures
            bank == self.spec_selected_rom_bank(*metadata),
    {
        match self {
            CartridgeController::RomOnly => if metadata.rom_bank_count >= 2 { 1 } else { 0 },
            CartridgeController::Mbc1(s) => s.selected_rom_bank(metadata),
            CartridgeController::Mbc2(s) => s.selected_rom_bank(metadata),
            CartridgeController::Mbc3(s) => s.selected_rom_bank(metadata),
            CartridgeController::Mbc5(s) => s.selected_rom_bank(metadata),
            CartridgeController::HuC1(s) => s.selected_rom_bank(metadata),
            CartridgeController::HuC3(s) => s.selected_rom_bank(metadata),
            CartridgeController::Mbc7(s) => s.selected_rom_bank(metadata),
            CartridgeController::Mmm01(s) => s.selected_rom_bank(metadata),
            CartridgeController::Mbc6(s) => s.selected_rom_bank(),
            CartridgeController::PocketCamera(s) => s.selected_rom_bank(metadata),
            CartridgeController::BandaiTama5(s) => s.selected_rom_bank(metadata),
        }
    }

    pub fn lower_rom_bank(&self, metadata: &CartridgeMetadata) -> (bank: usize)
        requires
            metadata.rom_bank_count > 0,
        ensures
            bank == self.spec_lower_rom_bank(*metadata),
            bank < metadata.rom_bank_count,
    {
        match self {
            CartridgeController::Mbc1(s) => s.lower_rom_bank(metadata),
            _ => 0,
        }
    }

    /// Whether RAM at 0xA000..=0xBFFF is a plain banked array that others may
    /// read and write directly.
    pub fn uses_standard_ram(&self) -> (standard: bool)
        ensures
            standard == self.spec_uses_standard_ram(),
    {
        match self {
            CartridgeController::RomOnly | CartridgeController::Mbc1(_) | CartridgeController::Mbc5(_)
            | CartridgeController::Mmm01(_) => true,
            _ => false,
        }
    }

    pub fn ram_enabled(&self) -> (enabled: bool)
        ensures
            enabled == self.spec_ram_enabled(),
    {
        match self {
            CartridgeController::RomOnly => true,
            CartridgeController::Mbc1(s) => s.ram_enabled,
            CartridgeController::Mbc5(s) => s.ram_enabled,
            CartridgeController::Mmm01(s) => s.ram_enabled,
            _ => false,
        }
    }

    pub fn selected_ram_bank(&self, metadata: &CartridgeMetadata) -> (bank: usize)
        ensures
            bank == self.spec_selected_ram_bank(*metadata),
    {
        match self {
            CartridgeController::Mbc1(s) => s.selected_ram_bank(metadata),
            CartridgeController::Mbc3(s) => s.selected_ram_bank(metadata),
            CartridgeController::Mbc5(s) => s.selected_ram_bank(metadata),
            CartridgeController::HuC1(s) => s.selected_ram_bank(metadata),
            CartridgeController::HuC3(s) => s.selected_ram_bank(metadata),
            CartridgeController::Mmm01(s) => s.selected_ram_bank(metadata),
            CartridgeController::PocketCamera(s) => s.selected_ram_bank(),
            _ => 0,
        }
    }
}

/// Bits 6-5 of the 7-bit address of an EEPROM command, taken as a word or
/// as an index.
proof fn lemma_command_sub(cb: u16)
    ensures
        ((cb & 0x7f) as usize >> 5usize) & 0x03 == (((cb & 0x7f) >> 5u16) & 0x03) as usize,
{
    assert(((cb & 0x7f) as usize >> 5usize) & 0x03 == (((cb & 0x7f) >> 5u16) & 0x03) as usize)
        by (bit_vector);
}

/// A word is its high byte shifted up, joined with its low byte.
proof fn lemma_word_bytes(w: u16)
    ensures
        (((w >> 8u16) as u8 as u16) << 8u16) | ((w as u8) as u16) == w,
{
    assert((((w >> 8u16) as u8 as u16) << 8u16) | ((w as u8) as u16) == w) by (bit_vector);
}

} // verus!
