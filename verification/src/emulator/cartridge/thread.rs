use vstd::prelude::*;

use crate::emulator::component::{
    CartridgeReport, ReadResult, SharedCartridgeRamState, SharedCartridgeReadState, WriteResult,
};
use crate::platform::{seeded_bytes, seeded_fill};

use super::controller::{
    mapping_ok, CartridgeController, HuC1State, HuC3State, Mbc1State, Mbc2State, Mbc3State, Mbc5State,
    Mbc6State, Mbc7State, Mmm01State, PocketCameraState, Tama5State,
};
use super::error::CartridgeLoadError;
use super::image::{
    lemma_rom_bank_count_at_least_two, ram_layout_of, rom_bank_count_of, spec_boot_rom_read, BootRomImage,
    CartridgeImage, CartridgeMetadata,
};
use super::save_state::{load_save_data, save_file_loaded};
use super::types::MbcKind;
use super::{ram_layout_ok, RAM_WINDOW_SIZE};

verus! {

pub const CARTRIDGE_REPORT_INTERVAL: u64 = 4096;

/// The cartridge: its header, ROM, boot ROM, controller and RAM, and the
/// state it shares with the CPU.
#[derive(Debug)]
pub struct CartridgeThread {
    pub metadata: CartridgeMetadata,
    pub boot_rom: BootRomImage,
    pub boot_rom_mapped: bool,
    pub controller: CartridgeController,
    pub shared_read_state: Option<SharedCartridgeReadState>,
    pub shared_ram_state: SharedCartridgeRamState,
    pub rom: Vec<u8>,
    pub steps: u64,
    pub last_reported_rom_bank: u8,
    pub last_reported_ram_bank: u8,
}

/// The seed of the power-on noise in cartridge RAM.
pub open spec fn ram_noise_seed(boot_seed: u64) -> u64 {
    boot_seed ^ 0x5eed_cafe_dead_beefu64
}

/// The header as the cartridge uses it: an MBC1 without declared RAM gets
/// one 8 KiB bank anyway.
pub open spec fn effective_metadata(metadata: CartridgeMetadata) -> CartridgeMetadata {
    if metadata.mbc == MbcKind::Mbc1 && metadata.ram_size == 0 {
        CartridgeMetadata { ram_size: 0x2000, ram_bank_count: 1, ..metadata }
    } else {
        metadata
    }
}

/// The controller of kind `kind` at power-on, by index (see `variant_index`).
pub open spec fn controller_index_of(kind: MbcKind) -> int {
    match kind {
        MbcKind::RomOnly => 0,
        MbcKind::Mbc1 => 1,
        MbcKind::Mbc2 => 2,
        MbcKind::Mbc3 => 3,
        MbcKind::Mbc5 => 4,
        MbcKind::HuC1 => 5,
        MbcKind::HuC3 => 6,
        MbcKind::Mbc7 => 7,
        MbcKind::Mmm01 => 8,
        MbcKind::Mbc6 => 9,
        MbcKind::PocketCamera => 10,
        MbcKind::BandaiTama5 => 11,
        MbcKind::UnknownStub(_) => -1,
    }
}

impl CartridgeThread {
    /// The cartridge is consistent: the ROM and RAM match the header, the
    /// shared copies agree, and the controller's own state is valid.
    pub open spec fn wf(&self) -> bool {
        &&& mapping_ok(self.metadata, self.rom@, self.shared_ram_state.ram@)
        &&& self.shared_ram_state.wf()
        &&& self.shared_ram_state.ram_size == self.metadata.ram_size
        &&& self.shared_ram_state.ram_bank_count == self.metadata.ram_bank_count
        &&& self.controller.wf()
    }

    pub open spec fn spec_handle_read(&self, address: u16) -> ReadResult {
        if address == 0xff50 {
            ReadResult::Ready(if self.boot_rom_mapped { 0x00 } else { 0x01 })
        } else if self.boot_rom_mapped && spec_boot_rom_read(self.boot_rom@, address) is Some {
            ReadResult::Ready(spec_boot_rom_read(self.boot_rom@, address)->0)
        } else {
            self.controller.spec_read(self.metadata, self.rom@, self.shared_ram_state.ram@, address)
        }
    }

    /// Builds the cartridge of `image`: its controller at power-on, RAM full
    /// of seeded noise, then the battery save `save_data` where the cartridge
    /// has a battery and a save was found.
    pub fn from_image(
        image: CartridgeImage,
        boot_rom: BootRomImage,
        boot_seed: u64,
        shared_read_state: Option<SharedCartridgeReadState>,
        save_data: Option<Vec<u8>>,
    ) -> (r: Result<Self, CartridgeLoadError>)
        requires
            image.wf(),
        ensures
            !image.spec_metadata().boot_mode.is_supported_spec() ==> r == Err::<Self, CartridgeLoadError>(
                CartridgeLoadError::UnsupportedBootMode(image.spec_metadata().boot_mode),
            ),
            image.spec_metadata().boot_mode.is_supported_spec() && !image.spec_metadata().mbc.spec_supported()
                ==> r == Err::<Self, CartridgeLoadError>(
                CartridgeLoadError::UnsupportedMbc(image.spec_metadata().mbc),
            ),
            image.spec_metadata().boot_mode.is_supported_spec() && image.spec_metadata().mbc.spec_supported()
                ==> (r matches Ok(c) && {
                &&& c.wf()
                &&& c.metadata == effective_metadata(image.spec_metadata())
                &&& c.rom@ == image.spec_rom()
                &&& c.boot_rom@ == boot_rom@
                &&& c.boot_rom_mapped
                &&& c.controller.variant_index() == controller_index_of(image.spec_metadata().mbc)
                &&& c.steps == 0 && c.last_reported_rom_bank == 1 && c.last_reported_ram_bank == 0
                &&& c.shared_ram_state.standard_ram == c.controller.spec_uses_standard_ram()
                &&& c.shared_ram_state.ram_enabled == c.controller.spec_ram_enabled()
                &&& c.shared_ram_state.selected_ram_bank == c.controller.spec_selected_ram_bank(c.metadata)
                &&& c.shared_read_state == shared_read_state
                &&& (save_data is None || !crate::emulator::cartridge::image::cartridge_has_battery(
                    c.metadata.cartridge_type,
                )) ==> c.shared_ram_state.ram@ == seeded_bytes(
                    ram_noise_seed(boot_seed),
                    c.metadata.ram_size as nat,
                )
            }),
    {
        if let Err(e) = image.ensure_runtime_supported() {
            return Err(e);
        }
        let (mut metadata, rom) = image.into_parts();
        proof {
            lemma_rom_bank_count_at_least_two(rom@[0x148]);
        }
        let controller = match metadata.mbc {
            MbcKind::RomOnly => CartridgeController::RomOnly,
            MbcKind::Mbc1 => CartridgeController::Mbc1(Mbc1State::default()),
            MbcKind::Mbc2 => CartridgeController::Mbc2(Mbc2State::new(boot_seed)),
            MbcKind::Mbc3 => CartridgeController::Mbc3(Mbc3State::new()),
            MbcKind::Mbc5 => CartridgeController::Mbc5(Mbc5State::default()),
            MbcKind::HuC1 => CartridgeController::HuC1(HuC1State::default()),
            MbcKind::HuC3 => CartridgeController::HuC3(HuC3State::new()),
            MbcKind::Mbc7 => CartridgeController::Mbc7(Mbc7State::new()),
            MbcKind::Mmm01 => CartridgeController::Mmm01(Mmm01State::new()),
            MbcKind::Mbc6 => CartridgeController::Mbc6(Mbc6State::new(rom.as_slice())),
            MbcKind::PocketCamera => CartridgeController::PocketCamera(PocketCameraState::new()),
            MbcKind::BandaiTama5 => CartridgeController::BandaiTama5(Tama5State::new()),
            MbcKind::UnknownStub(code) => {
                return Err(CartridgeLoadError::UnsupportedMbc(MbcKind::UnknownStub(code)));
            },
        };
        if metadata.mbc == MbcKind::Mbc1 && metadata.ram_size == 0 {
            metadata.ram_size = RAM_WINDOW_SIZE;
            metadata.ram_bank_count = 1;
        }
        let mut ram = seeded_fill(boot_seed ^ 0x5eed_cafe_dead_beef, metadata.ram_size);
        let mut controller = controller;
        if metadata.has_battery() {
            if let Some(data) = &save_data {
                load_save_data(data.as_slice(), ram.as_mut_slice(), &mut controller, &metadata);
            }
        }
        let standard = controller.uses_standard_ram();
        let mut shared_ram_state = SharedCartridgeRamState::new(ram, metadata.ram_bank_count, metadata.ram_size, standard);
        shared_ram_state.set_ram_enabled(controller.ram_enabled());
        shared_ram_state.set_selected_ram_bank(controller.selected_ram_bank(&metadata));
        Ok(CartridgeThread {
            metadata,
            boot_rom,
            boot_rom_mapped: true,
            controller,
            shared_read_state,
            shared_ram_state,
            rom,
            steps: 0,
            last_reported_rom_bank: 1,
            last_reported_ram_bank: 0,
        })
    }

    /// The cartridge RAM.
    pub fn ram(&self) -> (bytes: &[u8])
        ensures
            bytes@ == self.shared_ram_state.ram@,
    {
        self.shared_ram_state.ram_slice()
    }

    /// The answer to a read: register 0xFF50, the boot ROM while mapped, or
    /// what the controller gives.
    pub fn handle_read(&self, address: u16) -> (r: ReadResult)
        requires
            self.wf(),
        ensures
            r == self.spec_handle_read(address),
    {
        if address == 0xff50 {
            ReadResult::Ready(if self.boot_rom_mapped { 0x00 } else { 0x01 })
        } else if self.boot_rom_mapped {
            match self.boot_rom.read(address) {
                Some(byte) => ReadResult::Ready(byte),
                None => self.controller.read(&self.metadata, &self.rom, self.shared_ram_state.ram_slice(), address),
            }
        } else {
            self.controller.read(&self.metadata, &self.rom, self.shared_ram_state.ram_slice(), address)
        }
    }

    /// Copies the controller's banks and RAM enable into the shared state.
    pub fn publish_shared_bank_state(&mut self)
        requires
            old(self).wf(),
        ensures
            final(self).wf(),
            final(self).controller == old(self).controller,
            final(self).metadata == old(self).metadata,
            final(self).rom@ == old(self).rom@,
            final(self).boot_rom@ == old(self).boot_rom@,
            final(self).boot_rom_mapped == old(self).boot_rom_mapped,
            final(self).shared_ram_state.ram@ == old(self).shared_ram_state.ram@,
            final(self).shared_ram_state.standard_ram == old(self).shared_ram_state.standard_ram,
            final(self).shared_ram_state.ram_enabled == old(self).controller.spec_ram_enabled(),
            final(self).shared_ram_state.selected_ram_bank == old(self).controller.spec_selected_ram_bank(
                old(self).metadata,
            ),
            old(self).shared_read_state is None ==> final(self).shared_read_state is None,
            old(self).shared_read_state matches Some(s) ==> final(self).shared_read_state == Some(
                SharedCartridgeReadState {
                    lower_rom_bank: old(self).controller.spec_lower_rom_bank(old(self).metadata),
                    selected_rom_bank: old(self).controller.spec_selected_rom_bank(old(self).metadata),
                    ..s
                },
            ),
            final(self).steps == old(self).steps,
            final(self).last_reported_rom_bank == old(self).last_reported_rom_bank,
            final(self).last_reported_ram_bank == old(self).last_reported_ram_bank,
    {
        let lower = self.controller.lower_rom_bank(&self.metadata);
        let selected = self.controller.selected_rom_bank(&self.metadata);
        match &mut self.shared_read_state {
            Some(shared) => {
                shared.set_lower_rom_bank(lower);
                shared.set_selected_rom_bank(selected);
            },
            None => {},
        }
        let enabled = self.controller.ram_enabled();
        let bank = self.controller.selected_ram_bank(&self.metadata);
        self.shared_ram_state.set_ram_enabled(enabled);
        self.shared_ram_state.set_selected_ram_bank(bank);
    }

    /// Takes a write: a nonzero write to 0xFF50 unmaps the boot ROM for good;
    /// any other address goes to the controller, and an accepted write
    /// publishes the banks again.
    pub fn handle_write(&mut self, address: u16, value: u8) -> (r: WriteResult)
        requires
            old(self).wf(),
        ensures
            final(self).wf(),
            final(self).boot_rom_mapped == (old(self).boot_rom_mapped && !(address == 0xff50 && value != 0)),
            address == 0xff50 ==> r == WriteResult::Accepted && final(self).controller == old(self).controller
                && final(self).shared_ram_state.ram@ == old(self).shared_ram_state.ram@,
            address == 0xff50 && value != 0 && old(self).boot_rom_mapped ==> (old(self).shared_read_state matches Some(
                s,
            ) ==> final(self).shared_read_state == Some(SharedCartridgeReadState { boot_rom_mapped: false, ..s })),
            address != 0xff50 ==> old(self).controller.write_post(
                final(self).controller,
                old(self).metadata,
                old(self).shared_ram_state.ram@,
                final(self).shared_ram_state.ram@,
                address,
                value,
                r,
            ),
            address != 0xff50 && r == WriteResult::Accepted ==> final(self).shared_ram_state.ram_enabled
                == final(self).controller.spec_ram_enabled() && final(self).shared_ram_state.selected_ram_bank
                == final(self).controller.spec_selected_ram_bank(final(self).metadata),
            final(self).metadata == old(self).metadata,
            final(self).rom@ == old(self).rom@,
            final(self).boot_rom@ == old(self).boot_rom@,
            final(self).steps == old(self).steps,
    {
        if address == 0xff50 {
            if value != 0 && self.boot_rom_mapped {
                self.boot_rom_mapped = false;
                match &mut self.shared_read_state {
                    Some(shared) => shared.set_boot_rom_mapped(false),
                    None => {},
                }
            }
            WriteResult::Accepted
        } else {
            let result = self.controller.write(&self.metadata, self.shared_ram_state.ram.as_mut_slice(), address, value);
            if result == WriteResult::Accepted {
                self.publish_shared_bank_state();
            }
            result
        }
    }

    /// One pass of the cartridge's loop: counts a step and returns a report
    /// on the first step, every 4096 steps, and whenever a bank changed.
    pub fn step(&mut self) -> (report: Option<CartridgeReport>)
        requires
            old(self).metadata.rom_bank_count > 0,
            old(self).steps < u64::MAX,
        ensures
            final(self).steps == old(self).steps + 1,
            final(self).controller == old(self).controller,
            final(self).boot_rom_mapped == old(self).boot_rom_mapped,
            final(self).metadata == old(self).metadata,
            final(self).rom@ == old(self).rom@,
            final(self).shared_ram_state.ram@ == old(self).shared_ram_state.ram@,
            ({
                let rom_bank = old(self).controller.spec_selected_rom_bank(old(self).metadata) as u8;
                let ram_bank = old(self).controller.spec_selected_ram_bank(old(self).metadata) as u8;
                let due = final(self).steps == 1 || final(self).steps % 4096 == 0 || rom_bank
                    != old(self).last_reported_rom_bank || ram_bank != old(self).last_reported_ram_bank;
                if due {
                    report == Some(CartridgeReport { steps: final(self).steps, selected_rom_bank: rom_bank, selected_ram_bank: ram_bank })
                        && final(self).last_reported_rom_bank == rom_bank && final(self).last_reported_ram_bank == ram_bank
                } else {
                    report is None && final(self).last_reported_rom_bank == old(self).last_reported_rom_bank
                        && final(self).last_reported_ram_bank == old(self).last_reported_ram_bank
                }
            }),
    {
        self.steps = self.steps + 1;
        let rom_bank = self.controller.selected_rom_bank(&self.metadata) as u8;
        let ram_bank = self.controller.selected_ram_bank(&self.metadata) as u8;
        if self.steps == 1 || self.steps % CARTRIDGE_REPORT_INTERVAL == 0 || rom_bank != self.last_reported_rom_bank
            || ram_bank != self.last_reported_ram_bank {
            self.last_reported_rom_bank = rom_bank;
            self.last_reported_ram_bank = ram_bank;
            Some(CartridgeReport { steps: self.steps, selected_rom_bank: rom_bank, selected_ram_bank: ram_bank })
        } else {
            None
        }
    }
}

} // verus!
