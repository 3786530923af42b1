pub mod controller;
pub mod error;
pub mod image;
pub mod save_state;
pub mod thread;
pub mod types;

pub use error::{BootRomLoadError, CartridgeLoadError};
pub use image::{BootRomImage, CartridgeImage, CartridgeMetadata};
pub use types::{BootMode, MbcKind};

use vstd::prelude::*;

use crate::emulator::component::{ReadResult, WriteResult};

verus! {

pub const MIN_ROM_BYTES: usize = 0x150;
pub const ROM_BANK_SIZE: usize = 0x4000;
pub const RAM_WINDOW_SIZE: usize = 0x2000;
pub const DMG_BOOT_ROM_BYTES: usize = 0x0100;
pub const CGB_BOOT_ROM_BYTES: usize = 0x0900;
pub const HEADER_TITLE_START: usize = 0x134;
pub const HEADER_TITLE_END: usize = 0x143;
pub const HEADER_CGB_FLAG: usize = 0x143;
pub const HEADER_NEW_LICENSEE_START: usize = 0x144;
pub const HEADER_NEW_LICENSEE_END: usize = 0x146;
pub const HEADER_SGB_FLAG: usize = 0x146;
pub const HEADER_CARTRIDGE_TYPE: usize = 0x147;
pub const HEADER_ROM_SIZE: usize = 0x148;
pub const HEADER_RAM_SIZE: usize = 0x149;
pub const HEADER_OLD_LICENSEE: usize = 0x14b;
pub const HEADER_HEADER_CHECKSUM: usize = 0x14d;

/// Where the ROM of `rom_bank_count` banks holds byte `offset` of bank `bank`
/// (the bank number wraps around the bank count).
pub open spec fn rom_byte_index(rom_bank_count: usize, bank: int, offset: int) -> int {
    (bank % (rom_bank_count as int)) * 0x4000 + offset
}

/// The cartridge RAM layout is usable: banks of equal size that tile the RAM.
pub open spec fn ram_layout_ok(metadata: CartridgeMetadata, ram_len: nat) -> bool {
    &&& metadata.ram_size == ram_len
    &&& (metadata.ram_bank_count == 0) == (metadata.ram_size == 0)
}

/// The position in cartridge RAM of byte `offset` of RAM bank `bank`, when
/// the layout has such a byte.
pub open spec fn spec_ram_index(metadata: CartridgeMetadata, bank: int, offset: int) -> Option<int> {
    if metadata.ram_bank_count == 0 || metadata.ram_size == 0 {
        None
    } else if offset >= metadata.ram_size / metadata.ram_bank_count {
        None
    } else {
        Some(
            (bank % (metadata.ram_bank_count as int)) * (metadata.ram_size / metadata.ram_bank_count)
                + offset,
        )
    }
}

pub open spec fn spec_read_ram(metadata: CartridgeMetadata, ram: Seq<u8>, bank: int, offset: int) -> ReadResult {
    match spec_ram_index(metadata, bank, offset) {
        Some(index) => ReadResult::Ready(ram[index]),
        None => ReadResult::NoData,
    }
}

/// The RAM after writing `value` at byte `offset` of bank `bank`, and the answer given.
pub open spec fn spec_write_ram(
    metadata: CartridgeMetadata,
    ram: Seq<u8>,
    bank: int,
    offset: int,
    value: u8,
) -> (Seq<u8>, WriteResult) {
    match spec_ram_index(metadata, bank, offset) {
        Some(index) => (ram.update(index, value), WriteResult::Accepted),
        None => (ram, WriteResult::NoData),
    }
}

proof fn lemma_bank_offset_in_range(bank: int, size: int, offset: int, count: int)
    requires
        0 <= bank < count,
        0 <= offset < size,
    ensures
        0 <= bank * size + offset < count * size,
{
    assert(bank * size + offset < count * size) by (nonlinear_arith)
        requires
            0 <= bank < count,
            0 <= offset < size,
    ;
    assert(0 <= bank * size) by (nonlinear_arith)
        requires
            0 <= bank,
            0 <= offset < size,
    ;
}

pub proof fn lemma_ram_index_in_range(metadata: CartridgeMetadata, bank: int, offset: int)
    requires
        metadata.ram_bank_count > 0,
        0 <= offset,
    ensures
        spec_ram_index(metadata, bank, offset) matches Some(i) ==> 0 <= i < metadata.ram_size,
{
    if let Some(i) = spec_ram_index(metadata, bank, offset) {
        let count = metadata.ram_bank_count as int;
        let size = metadata.ram_size / metadata.ram_bank_count;
        lemma_bank_offset_in_range(bank % count, size as int, offset, count);
        assert(count * size <= metadata.ram_size) by (nonlinear_arith)
            requires
                count > 0,
                size == metadata.ram_size / metadata.ram_bank_count,
                count == metadata.ram_bank_count,
        ;
    }
}

pub fn read_rom_bank(rom: &[u8], metadata: &CartridgeMetadata, bank: usize, offset: u16) -> (r: ReadResult)
    requires
        metadata.rom_bank_count > 0,
        rom@.len() == metadata.rom_bank_count * 0x4000,
        offset < 0x4000,
    ensures
        r == ReadResult::Ready(rom@[rom_byte_index(metadata.rom_bank_count, bank as int, offset as int)]),
{
    let bank = bank % metadata.rom_bank_count;
    assert(rom@.len() == rom.len());
    proof {
        lemma_bank_offset_in_range(bank as int, 0x4000, offset as int, metadata.rom_bank_count as int);
    }
    let index = bank * ROM_BANK_SIZE + offset as usize;
    ReadResult::Ready(rom[index])
}

pub fn ram_index(metadata: &CartridgeMetadata, bank: usize, offset: u16) -> (r: Option<usize>)
    ensures
        r matches Some(i) ==> spec_ram_index(*metadata, bank as int, offset as int) == Some(i as int),
        r is None ==> spec_ram_index(*metadata, bank as int, offset as int) is None,
        r matches Some(i) ==> i < metadata.ram_size,
{
    if metadata.ram_bank_count == 0 || metadata.ram_size == 0 {
        return None;
    }
    let bank_size = metadata.ram_size / metadata.ram_bank_count;
    let offset = offset as usize;
    if offset >= bank_size {
        return None;
    }
    let bank = bank % metadata.ram_bank_count;
    proof {
        lemma_ram_index_in_range(*metadata, bank as int, offset as int);
        lemma_bank_offset_in_range(bank as int, bank_size as int, offset as int, metadata.ram_bank_count as int);
        assert(metadata.ram_bank_count * bank_size <= metadata.ram_size) by (nonlinear_arith)
            requires
                metadata.ram_bank_count > 0,
                bank_size == metadata.ram_size / metadata.ram_bank_count,
        ;
    }
    Some(bank * bank_size + offset)
}

pub fn read_ram_bank(ram: &[u8], metadata: &CartridgeMetadata, bank: usize, offset: u16) -> (r: ReadResult)
    requires
        ram_layout_ok(*metadata, ram@.len()),
    ensures
        r == spec_read_ram(*metadata, ram@, bank as int, offset as int),
{
    match ram_index(metadata, bank, offset) {
        Some(index) => ReadResult::Ready(ram[index]),
        None => ReadResult::NoData,
    }
}

pub fn write_ram_bank(
    ram: &mut [u8],
    metadata: &CartridgeMetadata,
    bank: usize,
    offset: u16,
    value: u8,
) -> (r: WriteResult)
    requires
        ram_layout_ok(*metadata, old(ram)@.len()),
    ensures
        (final(ram)@, r) == spec_write_ram(*metadata, old(ram)@, bank as int, offset as int, value),
        final(ram)@.len() == old(ram)@.len(),
{
    match ram_index(metadata, bank, offset) {
        Some(index) => {
            ram[index] = value;
            WriteResult::Accepted
        },
        None => WriteResult::NoData,
    }
}

} // verus!
