use vstd::prelude::*;

use crate::bits::{lemma_byte_masks, lemma_word_masks};

use crate::platform::{
    duration_from_millis, duration_millis, instant_checked_sub, instant_elapsed, instant_now,
};

use super::controller::{
    eeprom_image, words_loaded, CartridgeController, Mbc1Mode, lemma_eeprom_image_roundtrip,
};
use super::image::CartridgeMetadata;

verus! {

/// A cartridge's part of a save state: its RAM, whether the boot ROM is
/// mapped, and the registers of its controller.
#[derive(Debug)]
pub struct CartridgeSaveState {
    pub ram: Vec<u8>,
    pub boot_rom_mapped: bool,
    pub controller: CartridgeControllerSave,
}

/// The registers of a controller as a save state holds them.
#[derive(Debug)]
pub enum CartridgeControllerSave {
    RomOnly,
    Mbc1 { ram_enabled: bool, rom_bank_low5: u8, bank_high2: u8, mode_is_ram_banking: bool },
    Mbc2 { ram_enabled: bool, rom_bank: u8, ram: Vec<u8> },
    Mbc3 {
        ram_enabled: bool,
        rom_bank: u8,
        bank_select: u8,
        latch_prep: bool,
        rtc_seconds: u8,
        rtc_minutes: u8,
        rtc_hours: u8,
        rtc_day_low: u8,
        rtc_day_high: u8,
        rtc_latched_seconds: u8,
        rtc_latched_minutes: u8,
        rtc_latched_hours: u8,
        rtc_latched_day_low: u8,
        rtc_latched_day_high: u8,
        /// Milliseconds of wall time not yet applied to the clock.
        rtc_elapsed_ms: u64,
    },
    Mbc5 { ram_enabled: bool, rom_bank_low: u8, rom_bank_high: u8, ram_bank: u8 },
    HuC1 { ram_enabled: bool, rom_bank_low5: u8, bank_high2: u8, mode_is_ram_banking: bool, ir_mode: bool },
    HuC3 {
        mode: u8,
        rom_bank: u8,
        ram_bank: u8,
        shift: u32,
        output: u8,
        rtc_minutes: u16,
        rtc_days: u16,
        rtc_elapsed_ms: u64,
    },
    Mbc7 { rom_bank: u8, eeprom_data: Vec<u8> },
    Mmm01 {
        mapped: bool,
        ram_enabled: bool,
        rom_bank_low5: u8,
        bank_high2: u8,
        mode_is_ram_banking: bool,
        rom_bank_base: u32,
    },
    Mbc6 { rom_bank_a: u8, rom_bank_b: u8, ram_bank_a: u8, ram_bank_b: u8, flash_data: Vec<u8> },
    PocketCamera { ram_enabled: bool, rom_bank_low: u8, rom_bank_high: u8, ram_bank: u8 },
    BandaiTama5 { rom_bank: u8, data_reg: u8, output: u8, ram: Vec<u8>, rtc_regs: Vec<u8>, rtc_elapsed_ms: u64 },
}

/// `dst` with its first bytes replaced by those of `src`, as far as both reach.
pub open spec fn copied_prefix(dst: Seq<u8>, src: Seq<u8>) -> Seq<u8> {
    Seq::new(dst.len(), |i: int| if i < src.len() { src[i] } else { dst[i] })
}

pub open spec fn mode_is_ram(mode: Mbc1Mode) -> bool {
    mode == Mbc1Mode::RamBanking
}

pub open spec fn mode_from_flag(ram_banking: bool) -> Mbc1Mode {
    if ram_banking { Mbc1Mode::RamBanking } else { Mbc1Mode::RomBanking }
}

/// The save holds exactly the saved registers of controller `c` (the elapsed
/// wall time of a clock is not a register and may be anything).
pub open spec fn save_matches(save: CartridgeControllerSave, c: CartridgeController) -> bool {
    match (save, c) {
        (CartridgeControllerSave::RomOnly, CartridgeController::RomOnly) => true,
        (
            CartridgeControllerSave::Mbc1 { ram_enabled, rom_bank_low5, bank_high2, mode_is_ram_banking },
            CartridgeController::Mbc1(s),
        ) => ram_enabled == s.ram_enabled && rom_bank_low5 == s.rom_bank_low5 && bank_high2 == s.bank_high2
            && mode_is_ram_banking == mode_is_ram(s.mode),
        (CartridgeControllerSave::Mbc2 { ram_enabled, rom_bank, ram }, CartridgeController::Mbc2(s)) => ram_enabled
            == s.ram_enabled && rom_bank == s.rom_bank && ram@ == s.ram@,
        (
            CartridgeControllerSave::Mbc3 {
                ram_enabled,
                rom_bank,
                bank_select,
                latch_prep,
                rtc_seconds,
                rtc_minutes,
                rtc_hours,
                rtc_day_low,
                rtc_day_high,
                rtc_latched_seconds,
                rtc_latched_minutes,
                rtc_latched_hours,
                rtc_latched_day_low,
                rtc_latched_day_high,
                rtc_elapsed_ms,
            },
            CartridgeController::Mbc3(s),
        ) => ram_enabled == s.ram_enabled && rom_bank == s.rom_bank && bank_select == s.bank_select && latch_prep
            == s.latch_prep && (rtc_seconds, rtc_minutes, rtc_hours, rtc_day_low, rtc_day_high)
            == s.rtc.clock_fields() && (
        rtc_latched_seconds,
        rtc_latched_minutes,
        rtc_latched_hours,
        rtc_latched_day_low,
        rtc_latched_day_high,
        ) == s.rtc.latched_fields(),
        (
            CartridgeControllerSave::Mbc5 { ram_enabled, rom_bank_low, rom_bank_high, ram_bank },
            CartridgeController::Mbc5(s),
        ) => ram_enabled == s.ram_enabled && rom_bank_low == s.rom_bank_low && rom_bank_high == s.rom_bank_high
            && ram_bank == s.ram_bank,
        (
            CartridgeControllerSave::HuC1 { ram_enabled, rom_bank_low5, bank_high2, mode_is_ram_banking, ir_mode },
            CartridgeController::HuC1(s),
        ) => ram_enabled == s.ram_enabled && rom_bank_low5 == s.rom_bank_low5 && bank_high2 == s.bank_high2
            && mode_is_ram_banking == mode_is_ram(s.mode) && ir_mode == s.ir_mode,
        (
            CartridgeControllerSave::HuC3 { mode, rom_bank, ram_bank, shift, output, rtc_minutes, rtc_days, .. },
            CartridgeController::HuC3(s),
        ) => mode == s.mode && rom_bank == s.rom_bank && ram_bank == s.ram_bank && shift == s.shift && output
            == s.output && rtc_minutes == s.rtc.minutes && rtc_days == s.rtc.days,
        (CartridgeControllerSave::Mbc7 { rom_bank, eeprom_data }, CartridgeController::Mbc7(s)) => rom_bank
            == s.regs.rom_bank && eeprom_data@ == eeprom_image(s.eeprom.data@),
        (
            CartridgeControllerSave::Mmm01 {
                mapped,
                ram_enabled,
                rom_bank_low5,
                bank_high2,
                mode_is_ram_banking,
                rom_bank_base,
            },
            CartridgeController::Mmm01(s),
        ) => mapped == s.mapped && ram_enabled == s.ram_enabled && rom_bank_low5 == s.rom_bank_low5 && bank_high2
            == s.bank_high2 && mode_is_ram_banking == mode_is_ram(s.mode) && rom_bank_base == s.rom_bank_base as u32,
        (
            CartridgeControllerSave::Mbc6 { rom_bank_a, rom_bank_b, ram_bank_a, ram_bank_b, flash_data },
            CartridgeController::Mbc6(s),
        ) => rom_bank_a == s.regs.rom_bank_a && rom_bank_b == s.regs.rom_bank_b && ram_bank_a == s.regs.ram_bank_a
            && ram_bank_b == s.regs.ram_bank_b && flash_data@ == s.flash@,
        (
            CartridgeControllerSave::PocketCamera { ram_enabled, rom_bank_low, rom_bank_high, ram_bank },
            CartridgeController::PocketCamera(s),
        ) => ram_enabled == s.ram_enabled && rom_bank_low == s.rom_bank_low && rom_bank_high == s.rom_bank_high
            && ram_bank == s.ram_bank,
        (
            CartridgeControllerSave::BandaiTama5 { rom_bank, data_reg, output, ram, rtc_regs, .. },
            CartridgeController::BandaiTama5(s),
        ) => rom_bank == s.rom_bank && data_reg == s.data_reg && output == s.output && ram@ == s.ram@ && rtc_regs@
            == s.rtc.regs@,
        _ => false,
    }
}

/// Controller `after` is `before` with the registers of `save` loaded: the
/// saved registers take the saved values (byte arrays as far as both reach),
/// all others keep theirs; only the reference instant of a clock changes.
pub open spec fn save_applied(before: CartridgeController, after: CartridgeController, save: CartridgeControllerSave) -> bool {
    match (before, after, save) {
        (CartridgeController::RomOnly, CartridgeController::RomOnly, CartridgeControllerSave::RomOnly) => true,
        (
            CartridgeController::Mbc1(b),
            CartridgeController::Mbc1(a),
            CartridgeControllerSave::Mbc1 { ram_enabled, rom_bank_low5, bank_high2, mode_is_ram_banking },
        ) => a.ram_enabled == ram_enabled && a.rom_bank_low5 == rom_bank_low5 && a.bank_high2 == bank_high2 && a.mode
            == mode_from_flag(mode_is_ram_banking),
        (
            CartridgeController::Mbc2(b),
            CartridgeController::Mbc2(a),
            CartridgeControllerSave::Mbc2 { ram_enabled, rom_bank, ram },
        ) => a.ram_enabled == ram_enabled && a.rom_bank == rom_bank && a.ram@ == copied_prefix(b.ram@, ram@),
        (
            CartridgeController::Mbc3(b),
            CartridgeController::Mbc3(a),
            CartridgeControllerSave::Mbc3 {
                ram_enabled,
                rom_bank,
                bank_select,
                latch_prep,
                rtc_seconds,
                rtc_minutes,
                rtc_hours,
                rtc_day_low,
                rtc_day_high,
                rtc_latched_seconds,
                rtc_latched_minutes,
                rtc_latched_hours,
                rtc_latched_day_low,
                rtc_latched_day_high,
                rtc_elapsed_ms,
            },
        ) => a.ram_enabled == ram_enabled && a.rom_bank == rom_bank && a.bank_select == bank_select && a.latch_prep
            == latch_prep && a.rtc.clock_fields() == (rtc_seconds, rtc_minutes, rtc_hours, rtc_day_low, rtc_day_high)
            && a.rtc.latched_fields() == (
        rtc_latched_seconds,
        rtc_latched_minutes,
        rtc_latched_hours,
        rtc_latched_day_low,
        rtc_latched_day_high,
        ),
        (
            CartridgeController::Mbc5(b),
            CartridgeController::Mbc5(a),
            CartridgeControllerSave::Mbc5 { ram_enabled, rom_bank_low, rom_bank_high, ram_bank },
        ) => a.ram_enabled == ram_enabled && a.rom_bank_low == rom_bank_low && a.rom_bank_high == rom_bank_high
            && a.ram_bank == ram_bank,
        (
            CartridgeController::HuC1(b),
            CartridgeController::HuC1(a),
            CartridgeControllerSave::HuC1 { ram_enabled, rom_bank_low5, bank_high2, mode_is_ram_banking, ir_mode },
        ) => a.ram_enabled == ram_enabled && a.rom_bank_low5 == rom_bank_low5 && a.bank_high2 == bank_high2 && a.mode
            == mode_from_flag(mode_is_ram_banking) && a.ir_mode == ir_mode,
        (
            CartridgeController::HuC3(b),
            CartridgeController::HuC3(a),
            CartridgeControllerSave::HuC3 { mode, rom_bank, ram_bank, shift, output, rtc_minutes, rtc_days, .. },
        ) => a.mode == mode && a.rom_bank == rom_bank && a.ram_bank == ram_bank && a.shift == shift && a.output
            == output && a.rtc.minutes == rtc_minutes && a.rtc.days == rtc_days,
        (
            CartridgeController::Mbc7(b),
            CartridgeController::Mbc7(a),
            CartridgeControllerSave::Mbc7 { rom_bank, eeprom_data },
        ) => a.regs == (super::controller::Mbc7Registers { rom_bank, ..b.regs }) && a.eeprom.port == b.eeprom.port
            && a.eeprom.data@ == words_loaded(b.eeprom.data@, eeprom_data@),
        (
            CartridgeController::Mmm01(b),
            CartridgeController::Mmm01(a),
            CartridgeControllerSave::Mmm01 {
                mapped,
                ram_enabled,
                rom_bank_low5,
                bank_high2,
                mode_is_ram_banking,
                rom_bank_base,
            },
        ) => a.mapped == mapped && a.ram_enabled == ram_enabled && a.rom_bank_low5 == rom_bank_low5 && a.bank_high2
            == bank_high2 && a.mode == mode_from_flag(mode_is_ram_banking) && a.rom_bank_base == rom_bank_base as usize,
        (
            CartridgeController::Mbc6(b),
            CartridgeController::Mbc6(a),
            CartridgeControllerSave::Mbc6 { rom_bank_a, rom_bank_b, ram_bank_a, ram_bank_b, flash_data },
        ) => a.regs == (super::controller::Mbc6Registers {
            rom_bank_a,
            rom_bank_b,
            ram_bank_a,
            ram_bank_b,
            ..b.regs
        }) && a.flash@ == copied_prefix(b.flash@, flash_data@),
        (
            CartridgeController::PocketCamera(b),
            CartridgeController::PocketCamera(a),
            CartridgeControllerSave::PocketCamera { ram_enabled, rom_bank_low, rom_bank_high, ram_bank },
        ) => a.ram_enabled == ram_enabled && a.rom_bank_low == rom_bank_low && a.rom_bank_high == rom_bank_high
            && a.ram_bank == ram_bank && a.camera_mode == b.camera_mode && a.camera_regs == b.camera_regs,
        (
            CartridgeController::BandaiTama5(b),
            CartridgeController::BandaiTama5(a),
            CartridgeControllerSave::BandaiTama5 { rom_bank, data_reg, output, ram, rtc_regs, .. },
        ) => a.rom_bank == rom_bank && a.data_reg == data_reg && a.output == output && a.ram@ == copied_prefix(
            b.ram@,
            ram@,
        ) && a.rtc.regs@ == copied_prefix(b.rtc.regs@, rtc_regs@),
        _ => false,
    }
}

/// Whether controller and save are of the same kind.
pub open spec fn same_kind(c: CartridgeController, save: CartridgeControllerSave) -> bool {
    match (c, save) {
        (CartridgeController::RomOnly, CartridgeControllerSave::RomOnly) => true,
        (CartridgeController::Mbc1(_), CartridgeControllerSave::Mbc1 { .. }) => true,
        (CartridgeController::Mbc2(_), CartridgeControllerSave::Mbc2 { .. }) => true,
        (CartridgeController::Mbc3(_), CartridgeControllerSave::Mbc3 { .. }) => true,
        (CartridgeController::Mbc5(_), CartridgeControllerSave::Mbc5 { .. }) => true,
        (CartridgeController::HuC1(_), CartridgeControllerSave::HuC1 { .. }) => true,
        (CartridgeController::HuC3(_), CartridgeControllerSave::HuC3 { .. }) => true,
        (CartridgeController::Mbc7(_), CartridgeControllerSave::Mbc7 { .. }) => true,
        (CartridgeController::Mmm01(_), CartridgeControllerSave::Mmm01 { .. }) => true,
        (CartridgeController::Mbc6(_), CartridgeControllerSave::Mbc6 { .. }) => true,
        (CartridgeController::PocketCamera(_), CartridgeControllerSave::PocketCamera { .. }) => true,
        (CartridgeController::BandaiTama5(_), CartridgeControllerSave::BandaiTama5 { .. }) => true,
        _ => false,
    }
}

/// Copies the bytes of `src` over the start of `dst`, as far as both reach.
pub fn copy_prefix(dst: &mut [u8], src: &[u8])
    ensures
        final(dst)@ == copied_prefix(old(dst)@, src@),
{
    let len = if src.len() < dst.len() { src.len() } else { dst.len() };
    let mut i: usize = 0;
    while i < len
        invariant
            i <= len,
            len <= dst@.len(),
            len <= src@.len(),
            len == src@.len() || len == dst@.len(),
            dst@.len() == old(dst)@.len(),
            forall|j: int| 0 <= j < dst@.len() ==> #[trigger] dst@[j] == if j < i { src@[j] } else { old(dst)@[j] },
        decreases len - i,
    {
        dst[i] = src[i];
        i += 1;
    }
    assert(dst@ =~= copied_prefix(old(dst)@, src@));
}

/// Whole milliseconds since `start`, as a `u64` (the clock decides the value).
fn elapsed_millis(start: &std::time::Instant) -> u64 {
    let ms = duration_millis(&instant_elapsed(start));
    ms as u64
}

/// The instant `millis` milliseconds ago, or now where the clock cannot go that far back.
fn instant_before_now(millis: u64) -> std::time::Instant {
    let now = instant_now();
    match instant_checked_sub(&now, &duration_from_millis(millis)) {
        Some(instant) => instant,
        None => instant_now(),
    }
}

fn copy_array_512(source: &[u8; 512]) -> (copy: Vec<u8>)
    ensures
        copy@ == source@,
{
    let mut copy: Vec<u8> = Vec::with_capacity(512);
    let mut i: usize = 0;
    while i < 512
        invariant
            i <= 512,
            copy@ == source@.subrange(0, i as int),
        decreases 512 - i,
    {
        copy.push(source[i]);
        i += 1;
    }
    assert(copy@ =~= source@);
    copy
}

fn copy_array_32(source: &[u8; 32]) -> (copy: Vec<u8>)
    ensures
        copy@ == source@,
{
    let mut copy: Vec<u8> = Vec::with_capacity(32);
    let mut i: usize = 0;
    while i < 32
        invariant
            i <= 32,
            copy@ == source@.subrange(0, i as int),
        decreases 32 - i,
    {
        copy.push(source[i]);
        i += 1;
    }
    assert(copy@ =~= source@);
    copy
}

fn copy_array_8(source: &[u8; 8]) -> (copy: Vec<u8>)
    ensures
        copy@ == source@,
{
    let mut copy: Vec<u8> = Vec::with_capacity(8);
    let mut i: usize = 0;
    while i < 8
        invariant
            i <= 8,
            copy@ == source@.subrange(0, i as int),
        decreases 8 - i,
    {
        copy.push(source[i]);
        i += 1;
    }
    assert(copy@ =~= source@);
    copy
}

/// Captures the registers of `controller`, the RAM and the boot ROM mapping.
/// The wall time a clock has not yet applied is measured and recorded too.
pub fn create_save(controller: &CartridgeController, ram: &[u8], boot_rom_mapped: bool) -> (save: CartridgeSaveState)
    ensures
        save.ram@ == ram@,
        save.boot_rom_mapped == boot_rom_mapped,
        save_matches(save.controller, *controller),
{
    let saved = match controller {
        CartridgeController::RomOnly => CartridgeControllerSave::RomOnly,
        CartridgeController::Mbc1(s) => CartridgeControllerSave::Mbc1 {
            ram_enabled: s.ram_enabled,
            rom_bank_low5: s.rom_bank_low5,
            bank_high2: s.bank_high2,
            mode_is_ram_banking: s.mode == Mbc1Mode::RamBanking,
        },
        CartridgeController::Mbc2(s) => CartridgeControllerSave::Mbc2 {
            ram_enabled: s.ram_enabled,
            rom_bank: s.rom_bank,
            ram: copy_array_512(&s.ram),
        },
        CartridgeController::Mbc3(s) => CartridgeControllerSave::Mbc3 {
            ram_enabled: s.ram_enabled,
            rom_bank: s.rom_bank,
            bank_select: s.bank_select,
            latch_prep: s.latch_prep,
            rtc_seconds: s.rtc.seconds,
            rtc_minutes: s.rtc.minutes,
            rtc_hours: s.rtc.hours,
            rtc_day_low: s.rtc.day_low,
            rtc_day_high: s.rtc.day_high,
            rtc_latched_seconds: s.rtc.latched_seconds,
            rtc_latched_minutes: s.rtc.latched_minutes,
            rtc_latched_hours: s.rtc.latched_hours,
            rtc_latched_day_low: s.rtc.latched_day_low,
            rtc_latched_day_high: s.rtc.latched_day_high,
            rtc_elapsed_ms: elapsed_millis(&s.rtc.base_instant),
        },
        CartridgeController::Mbc5(s) => CartridgeControllerSave::Mbc5 {
            ram_enabled: s.ram_enabled,
            rom_bank_low: s.rom_bank_low,
            rom_bank_high: s.rom_bank_high,
            ram_bank: s.ram_bank,
        },
        CartridgeController::HuC1(s) => CartridgeControllerSave::HuC1 {
            ram_enabled: s.ram_enabled,
            rom_bank_low5: s.rom_bank_low5,
            bank_high2: s.bank_high2,
            mode_is_ram_banking: s.mode == Mbc1Mode::RamBanking,
            ir_mode: s.ir_mode,
        },
        CartridgeController::Mbc7(s) => CartridgeControllerSave::Mbc7 {
            rom_bank: s.regs.rom_bank,
            eeprom_data: s.eeprom.to_bytes(),
        },
        CartridgeController::Mbc6(s) => CartridgeControllerSave::Mbc6 {
            rom_bank_a: s.regs.rom_bank_a,
            rom_bank_b: s.regs.rom_bank_b,
            ram_bank_a: s.regs.ram_bank_a,
            ram_bank_b: s.regs.ram_bank_b,
            flash_data: super::image::copy_bytes(s.flash.as_slice()),
        },
        CartridgeController::PocketCamera(s) => CartridgeControllerSave::PocketCamera {
            ram_enabled: s.ram_enabled,
            rom_bank_low: s.rom_bank_low,
            rom_bank_high: s.rom_bank_high,
            ram_bank: s.ram_bank,
        },
        CartridgeController::BandaiTama5(s) => CartridgeControllerSave::BandaiTama5 {
            rom_bank: s.rom_bank,
            data_reg: s.data_reg,
            output: s.output,
            ram: copy_array_32(&s.ram),
            rtc_regs: copy_array_8(&s.rtc.regs),
            rtc_elapsed_ms: elapsed_millis(&s.rtc.base_instant),
        },
        CartridgeController::Mmm01(s) => CartridgeControllerSave::Mmm01 {
            mapped: s.mapped,
            ram_enabled: s.ram_enabled,
            rom_bank_low5: s.rom_bank_low5,
            bank_high2: s.bank_high2,
            mode_is_ram_banking: s.mode == Mbc1Mode::RamBanking,
            rom_bank_base: s.rom_bank_base as u32,
        },
        CartridgeController::HuC3(s) => CartridgeControllerSave::HuC3 {
            mode: s.mode,
            rom_bank: s.rom_bank,
            ram_bank: s.ram_bank,
            shift: s.shift,
            output: s.output,
            rtc_minutes: s.rtc.minutes,
            rtc_days: s.rtc.days,
            rtc_elapsed_ms: elapsed_millis(&s.rtc.base_instant),
        },
    };
    CartridgeSaveState { ram: super::image::copy_bytes(ram), boot_rom_mapped, controller: saved }
}

/// Loads a save state: the RAM takes the saved bytes as far as both reach,
/// the boot ROM mapping is restored, and a controller of the saved kind takes
/// the saved registers. A save of another kind leaves the controller as it is.
#[verifier::rlimit(60)]
pub fn apply_save(
    controller: &mut CartridgeController,
    ram: &mut [u8],
    boot_rom_mapped: &mut bool,
    state: CartridgeSaveState,
)
    ensures
        final(ram)@ == copied_prefix(old(ram)@, state.ram@),
        *final(boot_rom_mapped) == state.boot_rom_mapped,
        same_kind(*old(controller), state.controller) ==> save_applied(*old(controller), *final(controller), state.controller),
        !same_kind(*old(controller), state.controller) ==> *final(controller) == *old(controller),
        final(controller).variant_index() == old(controller).variant_index(),
        old(controller).wf() ==> final(controller).wf(),
{
    copy_prefix(ram, state.ram.as_slice());
    *boot_rom_mapped = state.boot_rom_mapped;
    let saved = state.controller;
    match controller {
        CartridgeController::RomOnly => {},
        CartridgeController::Mbc1(s) => match saved {
            CartridgeControllerSave::Mbc1 { ram_enabled, rom_bank_low5, bank_high2, mode_is_ram_banking } => {
                s.ram_enabled = ram_enabled;
                s.rom_bank_low5 = rom_bank_low5;
                s.bank_high2 = bank_high2;
                s.mode = if mode_is_ram_banking { Mbc1Mode::RamBanking } else { Mbc1Mode::RomBanking };
            },
            _ => {},
        },
        CartridgeController::Mbc2(s) => match saved {
            CartridgeControllerSave::Mbc2 { ram_enabled, rom_bank, ram } => {
                s.ram_enabled = ram_enabled;
                s.rom_bank = rom_bank;
                copy_prefix(&mut s.ram, ram.as_slice());
            },
            _ => {},
        },
        CartridgeController::Mbc3(s) => match saved {
            CartridgeControllerSave::Mbc3 {
                ram_enabled,
                rom_bank,
                bank_select,
                latch_prep,
                rtc_seconds,
                rtc_minutes,
                rtc_hours,
                rtc_day_low,
                rtc_day_high,
                rtc_latched_seconds,
                rtc_latched_minutes,
                rtc_latched_hours,
                rtc_latched_day_low,
                rtc_latched_day_high,
                rtc_elapsed_ms,
            } => {
                s.ram_enabled = ram_enabled;
                s.rom_bank = rom_bank;
                s.bank_select = bank_select;
                s.latch_prep = latch_prep;
                s.rtc.seconds = rtc_seconds;
                s.rtc.minutes = rtc_minutes;
                s.rtc.hours = rtc_hours;
                s.rtc.day_low = rtc_day_low;
                s.rtc.day_high = rtc_day_high;
                s.rtc.latched_seconds = rtc_latched_seconds;
                s.rtc.latched_minutes = rtc_latched_minutes;
                s.rtc.latched_hours = rtc_latched_hours;
                s.rtc.latched_day_low = rtc_latched_day_low;
                s.rtc.latched_day_high = rtc_latched_day_high;
                s.rtc.base_instant = instant_before_now(rtc_elapsed_ms);
            },
            _ => {},
        },
        CartridgeController::Mbc5(s) => match saved {
            CartridgeControllerSave::Mbc5 { ram_enabled, rom_bank_low, rom_bank_high, ram_bank } => {
                s.ram_enabled = ram_enabled;
                s.rom_bank_low = rom_bank_low;
                s.rom_bank_high = rom_bank_high;
                s.ram_bank = ram_bank;
            },
            _ => {},
        },
        CartridgeController::HuC1(s) => match saved {
            CartridgeControllerSave::HuC1 { ram_enabled, rom_bank_low5, bank_high2, mode_is_ram_banking, ir_mode } => {
                s.ram_enabled = ram_enabled;
                s.rom_bank_low5 = rom_bank_low5;
                s.bank_high2 = bank_high2;
                s.mode = if mode_is_ram_banking { Mbc1Mode::RamBanking } else { Mbc1Mode::RomBanking };
                s.ir_mode = ir_mode;
            },
            _ => {},
        },
        CartridgeController::Mbc7(s) => match saved {
            CartridgeControllerSave::Mbc7 { rom_bank, eeprom_data } => {
                s.regs.rom_bank = rom_bank;
                s.eeprom.load_bytes(eeprom_data.as_slice());
            },
            _ => {},
        },
        CartridgeController::Mbc6(s) => match saved {
            CartridgeControllerSave::Mbc6 { rom_bank_a, rom_bank_b, ram_bank_a, ram_bank_b, flash_data } => {
                s.regs.rom_bank_a = rom_bank_a;
                s.regs.rom_bank_b = rom_bank_b;
                s.regs.ram_bank_a = ram_bank_a;
                s.regs.ram_bank_b = ram_bank_b;
                copy_prefix(s.flash.as_mut_slice(), flash_data.as_slice());
            },
            _ => {},
        },
        CartridgeController::PocketCamera(s) => match saved {
            CartridgeControllerSave::PocketCamera { ram_enabled, rom_bank_low, rom_bank_high, ram_bank } => {
                s.ram_enabled = ram_enabled;
                s.rom_bank_low = rom_bank_low;
                s.rom_bank_high = rom_bank_high;
                s.ram_bank = ram_bank;
            },
            _ => {},
        },
        CartridgeController::BandaiTama5(s) => match saved {
            CartridgeControllerSave::BandaiTama5 { rom_bank, data_reg, output, ram, rtc_regs, rtc_elapsed_ms } => {
                s.rom_bank = rom_bank;
                s.data_reg = data_reg;
                s.output = output;
                copy_prefix(&mut s.ram, ram.as_slice());
                copy_prefix(&mut s.rtc.regs, rtc_regs.as_slice());
                s.rtc.base_instant = instant_before_now(rtc_elapsed_ms);
            },
            _ => {},
        },
        CartridgeController::Mmm01(s) => match saved {
            CartridgeControllerSave::Mmm01 {
                mapped,
                ram_enabled,
                rom_bank_low5,
                bank_high2,
                mode_is_ram_banking,
                rom_bank_base,
            } => {
                s.mapped = mapped;
                s.ram_enabled = ram_enabled;
                s.rom_bank_low5 = rom_bank_low5;
                s.bank_high2 = bank_high2;
                s.mode = if mode_is_ram_banking { Mbc1Mode::RamBanking } else { Mbc1Mode::RomBanking };
                s.rom_bank_base = rom_bank_base as usize;
            },
            _ => {},
        },
        CartridgeController::HuC3(s) => match saved {
            CartridgeControllerSave::HuC3 { mode, rom_bank, ram_bank, shift, output, rtc_minutes, rtc_days, rtc_elapsed_ms } => {
                s.mode = mode;
                s.rom_bank = rom_bank;
                s.ram_bank = ram_bank;
                s.shift = shift;
                s.output = output;
                s.rtc.minutes = rtc_minutes;
                s.rtc.days = rtc_days;
                s.rtc.base_instant = instant_before_now(rtc_elapsed_ms);
            },
            _ => {},
        },
    }
}

/// The flash of two MBC6 controllers is of one size (that of the cartridge's ROM).
pub open spec fn same_flash_size(a: CartridgeController, b: CartridgeController) -> bool {
    match (a, b) {
        (CartridgeController::Mbc6(x), CartridgeController::Mbc6(y)) => x.flash@.len() == y.flash@.len(),
        _ => true,
    }
}

/// Loading a save made of controller `saved_from` into a controller of the
/// same kind maps the same banks as `saved_from` did: the same ROM banks at
/// 0x0000 and 0x4000, the same RAM bank, and RAM enabled alike. (An MMM01
/// save keeps its ROM base in 32 bits, so the law is stated for bases that
/// fit.)
pub proof fn lemma_save_restores_banks(
    saved_from: CartridgeController,
    before: CartridgeController,
    after: CartridgeController,
    save: CartridgeControllerSave,
    metadata: CartridgeMetadata,
)
    requires
        save_matches(save, saved_from),
        save_applied(before, after, save),
        saved_from matches CartridgeController::Mmm01(s) ==> s.rom_bank_base <= u32::MAX,
    ensures
        after.spec_selected_rom_bank(metadata) == saved_from.spec_selected_rom_bank(metadata),
        after.spec_lower_rom_bank(metadata) == saved_from.spec_lower_rom_bank(metadata),
        after.spec_selected_ram_bank(metadata) == saved_from.spec_selected_ram_bank(metadata),
        after.spec_ram_enabled() == saved_from.spec_ram_enabled(),
{
}

/// Loading a save made of controller `saved_from` into a controller of the
/// same cartridge gives back every register that the save holds.
pub proof fn lemma_save_restores_registers(
    saved_from: CartridgeController,
    before: CartridgeController,
    after: CartridgeController,
    save: CartridgeControllerSave,
)
    requires
        save_matches(save, saved_from),
        same_kind(before, save),
        same_flash_size(before, saved_from),
        save_applied(before, after, save),
    ensures
        save_matches(save, after),
{
    match (before, after, save, saved_from) {
        (
            CartridgeController::Mbc2(b),
            CartridgeController::Mbc2(a),
            CartridgeControllerSave::Mbc2 { ram, .. },
            CartridgeController::Mbc2(c),
        ) => {
            assert(a.ram@ =~= ram@);
        },
        (
            CartridgeController::Mbc7(b),
            CartridgeController::Mbc7(a),
            CartridgeControllerSave::Mbc7 { eeprom_data, .. },
            CartridgeController::Mbc7(c),
        ) => {
            lemma_eeprom_image_roundtrip(c.eeprom.data@, b.eeprom.data@);
        },
        (
            CartridgeController::Mbc6(b),
            CartridgeController::Mbc6(a),
            CartridgeControllerSave::Mbc6 { flash_data, .. },
            CartridgeController::Mbc6(c),
        ) => {
            assert(a.flash@ =~= flash_data@);
        },
        (
            CartridgeController::BandaiTama5(b),
            CartridgeController::BandaiTama5(a),
            CartridgeControllerSave::BandaiTama5 { ram, rtc_regs, .. },
            CartridgeController::BandaiTama5(c),
        ) => {
            assert(a.ram@ =~= ram@);
            assert(a.rtc.regs@ =~= rtc_regs@);
        },
        _ => {},
    }
}

/// Loading a save made of a RAM into a RAM of the same size gives that RAM back.
pub proof fn lemma_save_restores_ram(saved: Seq<u8>, before: Seq<u8>)
    requires
        saved.len() == before.len(),
    ensures
        copied_prefix(before, saved) == saved,
{
    assert(copied_prefix(before, saved) =~= saved);
}

// ---------------------------------------------------------------------------
// Battery-backed save files
// ---------------------------------------------------------------------------

pub const RTC_SAVE_SIZE: usize = 48;

/// The clock block of an MBC3 save file: the live and the latched registers,
/// each at the start of a 4-byte slot; the rest is zero.
pub open spec fn rtc_block(c: super::controller::Mbc3State) -> Seq<u8> {
    let r = c.rtc;
    Seq::new(
        48,
        |i: int|
            if i == 0 {
                r.seconds
            } else if i == 4 {
                r.minutes
            } else if i == 8 {
                r.hours
            } else if i == 12 {
                r.day_low
            } else if i == 16 {
                r.day_high
            } else if i == 20 {
                r.latched_seconds
            } else if i == 24 {
                r.latched_minutes
            } else if i == 28 {
                r.latched_hours
            } else if i == 32 {
                r.latched_day_low
            } else if i == 36 {
                r.latched_day_high
            } else {
                0u8
            },
    )
}

/// The contents of the battery-backed save file of a cartridge.
pub open spec fn save_file_image(c: CartridgeController, ram: Seq<u8>, metadata: CartridgeMetadata) -> Seq<u8> {
    match c {
        CartridgeController::Mbc2(s) => s.ram@,
        CartridgeController::Mbc6(s) => ram + s.flash@,
        CartridgeController::BandaiTama5(s) => s.ram@,
        CartridgeController::Mbc7(s) => eeprom_image(s.eeprom.data@),
        CartridgeController::Mbc3(s) => if metadata.cartridge_type == 0x0f || metadata.cartridge_type == 0x10 {
            ram + rtc_block(s)
        } else {
            ram
        },
        _ => ram,
    }
}

/// Appends the bytes of `src` to `dst`.
fn append_bytes(dst: &mut Vec<u8>, src: &[u8])
    ensures
        final(dst)@ == old(dst)@ + src@,
{
    let mut i: usize = 0;
    while i < src.len()
        invariant
            i <= src@.len(),
            dst@ == old(dst)@ + src@.subrange(0, i as int),
        decreases src@.len() - i,
    {
        dst.push(src[i]);
        i += 1;
    }
    assert(src@.subrange(0, src@.len() as int) =~= src@);
}

/// The bytes to write to the save file of a battery-backed cartridge.
pub fn save_file_bytes(ram: &[u8], controller: &CartridgeController, metadata: &CartridgeMetadata) -> (data: Vec<u8>)
    ensures
        data@ == save_file_image(*controller, ram@, *metadata),
{
    match controller {
        CartridgeController::Mbc2(s) => copy_array_512(&s.ram),
        CartridgeController::Mbc6(s) => {
            let mut data = super::image::copy_bytes(ram);
            append_bytes(&mut data, s.flash.as_slice());
            data
        },
        CartridgeController::BandaiTama5(s) => copy_array_32(&s.ram),
        CartridgeController::Mbc7(s) => s.eeprom.to_bytes(),
        CartridgeController::Mbc3(s) => {
            let mut data = super::image::copy_bytes(ram);
            if metadata.has_rtc() {
                let mut block = [0u8; 48];
                block[0] = s.rtc.seconds;
                block[4] = s.rtc.minutes;
                block[8] = s.rtc.hours;
                block[12] = s.rtc.day_low;
                block[16] = s.rtc.day_high;
                block[20] = s.rtc.latched_seconds;
                block[24] = s.rtc.latched_minutes;
                block[28] = s.rtc.latched_hours;
                block[32] = s.rtc.latched_day_low;
                block[36] = s.rtc.latched_day_high;
                assert(block@ =~= rtc_block(*s));
                append_bytes(&mut data, &block);
            }
            data
        },
        _ => super::image::copy_bytes(ram),
    }
}

/// Copies the bytes of `src` from position `start` on over the start of `dst`.
pub fn copy_prefix_from(dst: &mut [u8], src: &[u8], start: usize)
    requires
        start <= src@.len(),
    ensures
        final(dst)@ == copied_prefix(old(dst)@, src@.subrange(start as int, src@.len() as int)),
{
    let ghost tail = src@.subrange(start as int, src@.len() as int);
    let avail = src.len() - start;
    let len = if avail < dst.len() { avail } else { dst.len() };
    let mut i: usize = 0;
    while i < len
        invariant
            i <= len,
            len <= dst@.len(),
            start + len <= src@.len(),
            len == src@.len() - start || len == dst@.len(),
            dst@.len() == old(dst)@.len(),
            tail == src@.subrange(start as int, src@.len() as int),
            forall|j: int| 0 <= j < dst@.len() ==> #[trigger] dst@[j] == if j < i { tail[j] } else { old(dst)@[j] },
        decreases len - i,
    {
        assert(start + i < src.len());
        let k: usize = start + i;
        dst[i] = src[k];
        i += 1;
    }
    assert(dst@ =~= copied_prefix(old(dst)@, tail));
}

/// The MBC2 RAM after loading file bytes: the bytes as far as both reach,
/// each cut to its low nibble.
pub open spec fn mbc2_loaded(ram: Seq<u8>, data: Seq<u8>) -> Seq<u8> {
    Seq::new(ram.len(), |i: int| copied_prefix(ram, data)[i] & 0x0f)
}

/// What loading the save file `data` does to the cartridge RAM and controller.
pub open spec fn save_file_loaded(
    c_pre: CartridgeController,
    c_post: CartridgeController,
    ram_pre: Seq<u8>,
    ram_post: Seq<u8>,
    data: Seq<u8>,
    metadata: CartridgeMetadata,
) -> bool {
    match (c_pre, c_post) {
        (CartridgeController::Mbc2(b), CartridgeController::Mbc2(a)) => ram_post == ram_pre && a.ram@ == mbc2_loaded(
            b.ram@,
            data,
        ) && a.ram_enabled == b.ram_enabled && a.rom_bank == b.rom_bank,
        (CartridgeController::BandaiTama5(b), CartridgeController::BandaiTama5(a)) => ram_post == ram_pre && a.ram@
            == copied_prefix(b.ram@, data) && a.rom_bank == b.rom_bank && a.data_reg == b.data_reg && a.output
            == b.output && a.rtc == b.rtc,
        (CartridgeController::Mbc6(b), CartridgeController::Mbc6(a)) => ram_post == copied_prefix(ram_pre, data)
            && a.regs == b.regs && a.flash@ == if data.len() > ram_pre.len() {
            copied_prefix(b.flash@, data.subrange(ram_pre.len() as int, data.len() as int))
        } else {
            b.flash@
        },
        (CartridgeController::Mbc7(b), CartridgeController::Mbc7(a)) => ram_post == ram_pre && a.regs == b.regs
            && a.eeprom.port == b.eeprom.port && a.eeprom.data@ == words_loaded(b.eeprom.data@, data),
        (CartridgeController::Mbc3(b), CartridgeController::Mbc3(a)) => {
            let off = ram_pre.len() as int;
            &&& ram_post == copied_prefix(ram_pre, data)
            &&& a.ram_enabled == b.ram_enabled && a.rom_bank == b.rom_bank && a.bank_select == b.bank_select
                && a.latch_prep == b.latch_prep && a.rtc.base_instant == b.rtc.base_instant
            &&& if (metadata.cartridge_type == 0x0f || metadata.cartridge_type == 0x10) && data.len() >= off + 48 {
                a.rtc.clock_fields() == (data[off], data[off + 4], data[off + 8], data[off + 12], data[off + 16])
                    && a.rtc.latched_fields() == (
                data[off + 20],
                data[off + 24],
                data[off + 28],
                data[off + 32],
                data[off + 36],
                )
            } else {
                a.rtc == b.rtc
            }
        },
        (_, _) => c_post == c_pre && ram_post == copied_prefix(ram_pre, data),
    }
}

/// Loads the contents of a battery-backed save file into the cartridge.
#[verifier::rlimit(40)]
pub fn load_save_data(data: &[u8], ram: &mut [u8], controller: &mut CartridgeController, metadata: &CartridgeMetadata)
    ensures
        save_file_loaded(*old(controller), *final(controller), old(ram)@, final(ram)@, data@, *metadata),
        final(controller).variant_index() == old(controller).variant_index(),
        old(controller).wf() ==> final(controller).wf(),
{
    match controller {
        CartridgeController::Mbc2(state) => {
            copy_prefix(&mut state.ram, data);
            let ghost copied = state.ram@;
            let mut i: usize = 0;
            while i < 512
                invariant
                    i <= 512,
                    copied == copied_prefix(old(controller)->Mbc2_0.ram@, data@),
                    forall|j: int| 0 <= j < 512 ==> #[trigger] state.ram@[j] == if j < i { copied[j] & 0x0f } else { copied[j] },
                    state.ram_enabled == old(controller)->Mbc2_0.ram_enabled,
                    state.rom_bank == old(controller)->Mbc2_0.rom_bank,
                decreases 512 - i,
            {
                state.ram[i] = state.ram[i] & 0x0f;
                i += 1;
            }
            assert(state.ram@ =~= mbc2_loaded(old(controller)->Mbc2_0.ram@, data@));
        },
        CartridgeController::BandaiTama5(state) => {
            copy_prefix(&mut state.ram, data);
        },
        CartridgeController::Mbc6(state) => {
            copy_prefix(ram, data);
            if data.len() > ram.len() {
                copy_prefix_from(state.flash.as_mut_slice(), data, ram.len());
            }
        },
        CartridgeController::Mbc7(state) => {
            state.eeprom.load_bytes(data);
        },
        CartridgeController::Mbc3(state) => {
            copy_prefix(ram, data);
            if metadata.has_rtc() && data.len() >= ram.len() && data.len() - ram.len() >= RTC_SAVE_SIZE {
                let off = ram.len();
                state.rtc.seconds = data[off];
                state.rtc.minutes = data[off + 4];
                state.rtc.hours = data[off + 8];
                state.rtc.day_low = data[off + 12];
                state.rtc.day_high = data[off + 16];
                state.rtc.latched_seconds = data[off + 20];
                state.rtc.latched_minutes = data[off + 24];
                state.rtc.latched_hours = data[off + 28];
                state.rtc.latched_day_low = data[off + 32];
                state.rtc.latched_day_high = data[off + 36];
            }
        },
        _ => {
            copy_prefix(ram, data);
        },
    }
}

/// Two cartridges hold the same battery-backed contents: the RAM, and what
/// their controller keeps besides (built-in RAM, flash, EEPROM or clock).
pub open spec fn same_battery_contents(
    a: CartridgeController,
    ram_a: Seq<u8>,
    b: CartridgeController,
    ram_b: Seq<u8>,
    metadata: CartridgeMetadata,
) -> bool {
    match (a, b) {
        (CartridgeController::Mbc2(x), CartridgeController::Mbc2(y)) => x.ram@ == y.ram@,
        (CartridgeController::BandaiTama5(x), CartridgeController::BandaiTama5(y)) => x.ram@ == y.ram@,
        (CartridgeController::Mbc6(x), CartridgeController::Mbc6(y)) => ram_a == ram_b && x.flash@ == y.flash@,
        (CartridgeController::Mbc7(x), CartridgeController::Mbc7(y)) => x.eeprom.data@ == y.eeprom.data@,
        (CartridgeController::Mbc3(x), CartridgeController::Mbc3(y)) => ram_a == ram_b && ((metadata.cartridge_type
            == 0x0f || metadata.cartridge_type == 0x10) ==> x.rtc.clock_fields() == y.rtc.clock_fields()
            && x.rtc.latched_fields() == y.rtc.latched_fields()),
        _ => ram_a == ram_b,
    }
}

/// The built-in RAM of an MBC2 holds half-bytes only.
pub open spec fn nibble_ram(c: CartridgeController) -> bool {
    match c {
        CartridgeController::Mbc2(s) => forall|i: int| 0 <= i < 512 ==> #[trigger] s.ram@[i] <= 0x0f,
        _ => true,
    }
}

/// Loading the save file written for a cartridge into a cartridge of the same
/// kind and sizes gives back its battery-backed contents.
pub proof fn lemma_save_file_roundtrip(
    c: CartridgeController,
    ram: Seq<u8>,
    before: CartridgeController,
    ram_before: Seq<u8>,
    after: CartridgeController,
    ram_after: Seq<u8>,
    metadata: CartridgeMetadata,
)
    requires
        before.variant_index() == c.variant_index(),
        ram_before.len() == ram.len(),
        same_flash_size(before, c),
        nibble_ram(c),
        save_file_loaded(before, after, ram_before, ram_after, save_file_image(c, ram, metadata), metadata),
    ensures
        same_battery_contents(after, ram_after, c, ram, metadata),
{
    let data = save_file_image(c, ram, metadata);
    match (before, after, c) {
        (CartridgeController::Mbc2(b), CartridgeController::Mbc2(a), CartridgeController::Mbc2(x)) => {
            assert forall|i: int| 0 <= i < 512 implies #[trigger] a.ram@[i] == x.ram@[i] by {
                let v = x.ram@[i];
                assert(v <= 0x0f ==> v & 0x0f == v) by {
                    lemma_byte_masks();
                    lemma_word_masks();
                }
            }
            assert(a.ram@ =~= x.ram@);
        },
        (CartridgeController::BandaiTama5(b), CartridgeController::BandaiTama5(a), CartridgeController::BandaiTama5(x)) => {
            assert(a.ram@ =~= x.ram@);
        },
        (CartridgeController::Mbc6(b), CartridgeController::Mbc6(a), CartridgeController::Mbc6(x)) => {
            assert(ram_after =~= ram);
            assert(data.subrange(ram.len() as int, data.len() as int) =~= x.flash@);
            assert(a.flash@ =~= x.flash@);
        },
        (CartridgeController::Mbc7(b), CartridgeController::Mbc7(a), CartridgeController::Mbc7(x)) => {
            lemma_eeprom_image_roundtrip(x.eeprom.data@, b.eeprom.data@);
        },
        (CartridgeController::Mbc3(b), CartridgeController::Mbc3(a), CartridgeController::Mbc3(x)) => {
            assert(ram_after =~= ram);
        },
        _ => {
            assert(ram_after =~= ram);
        },
    }
}

} // verus!
