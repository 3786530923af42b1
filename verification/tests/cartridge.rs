use chudtendo::emulator::cartridge::image::{write_header_checksum, write_nintendo_logo, write_title};
use chudtendo::emulator::cartridge::thread::CartridgeThread;
use chudtendo::emulator::cartridge::{
    BootMode, BootRomImage, BootRomLoadError, CartridgeImage, CartridgeLoadError, MbcKind,
    CGB_BOOT_ROM_BYTES,
    HEADER_CARTRIDGE_TYPE, HEADER_CGB_FLAG, HEADER_RAM_SIZE, HEADER_ROM_SIZE, HEADER_SGB_FLAG,
    RAM_WINDOW_SIZE, ROM_BANK_SIZE,
};
use chudtendo::emulator::component::{ReadResult, WriteResult};

fn bank_count_from_code(code: u8) -> usize {
    match code {
        0x00 => 2,
        0x01 => 4,
        0x02 => 8,
        0x03 => 16,
        0x04 => 32,
        0x05 => 64,
        0x06 => 128,
        0x07 => 256,
        0x08 => 512,
        0x52 => 72,
        0x53 => 80,
        0x54 => 96,
        _ => 2,
    }
}

fn build_test_rom(
    title: &str,
    cgb_flag: u8,
    sgb_flag: u8,
    cartridge_type: u8,
    rom_size_code: u8,
    ram_size_code: u8,
) -> Vec<u8> {
    let bank_count = bank_count_from_code(rom_size_code);
    let mut rom = vec![0; bank_count * ROM_BANK_SIZE];
    for (bank_index, bank) in rom.chunks_exact_mut(ROM_BANK_SIZE).enumerate() {
        bank.fill((bank_index as u8).wrapping_mul(0x11));
    }
    write_nintendo_logo(&mut rom);
    write_title(&mut rom, title);
    rom[HEADER_CGB_FLAG] = cgb_flag;
    rom[HEADER_SGB_FLAG] = sgb_flag;
    rom[HEADER_CARTRIDGE_TYPE] = cartridge_type;
    rom[HEADER_ROM_SIZE] = rom_size_code;
    rom[HEADER_RAM_SIZE] = ram_size_code;
    write_header_checksum(&mut rom);
    rom
}

fn cartridge_read(cartridge: &mut CartridgeThread, address: u16) -> ReadResult {
    cartridge.handle_read(address)
}

fn cartridge_write(cartridge: &mut CartridgeThread, address: u16, value: u8) -> WriteResult {
    cartridge.handle_write(address, value)
}

#[test]
fn mod_parses_header_metadata_for_cgb_mbc1_roms() {
    let image =
        CartridgeImage::from_bytes(build_test_rom("MBC1TEST", 0x80, 0x00, 0x03, 0x01, 0x03))
            .unwrap();

    assert_eq!(image.metadata().title, "MBC1TEST");
    assert_eq!(image.metadata().boot_mode, BootMode::CgbEnhanced);
    assert_eq!(image.metadata().mbc, MbcKind::Mbc1);
    assert_eq!(image.metadata().rom_bank_count, 4);
    assert_eq!(image.metadata().ram_bank_count, 4);
    assert_eq!(image.metadata().ram_size, RAM_WINDOW_SIZE * 4);
}

#[test]
fn cartridge_parses_header_metadata_for_cgb_mbc1_roms() {
    let image =
        CartridgeImage::from_bytes(build_test_rom("MBC1TEST", 0x80, 0x00, 0x03, 0x01, 0x03))
            .unwrap();

    assert_eq!(image.metadata().title, "MBC1TEST");
    assert_eq!(image.metadata().boot_mode, BootMode::CgbEnhanced);
    assert_eq!(image.metadata().mbc, MbcKind::Mbc1);
    assert_eq!(image.metadata().rom_bank_count, 4);
    assert_eq!(image.metadata().ram_bank_count, 4);
    assert_eq!(image.metadata().ram_size, RAM_WINDOW_SIZE * 4);
}

#[test]
fn mod_boot_rom_overlay_unmaps_permanently_after_ff50_write() {
    let image =
        CartridgeImage::from_bytes(build_test_rom("BOOTMAP", 0xc0, 0x00, 0x00, 0x00, 0x00))
            .unwrap();
    let mut boot_rom_bytes = vec![0xaa; CGB_BOOT_ROM_BYTES];
    boot_rom_bytes[0x0000] = 0x99;
    boot_rom_bytes[0x0200] = 0x77;
    let boot_rom = BootRomImage::from_bytes(boot_rom_bytes).unwrap();
    let mut cartridge = CartridgeThread::from_image(image, boot_rom, 0, None, None).unwrap();

    assert_eq!(cartridge_read(&mut cartridge, 0x0000), ReadResult::Ready(0x99));
    assert_eq!(cartridge_read(&mut cartridge, 0x0200), ReadResult::Ready(0x77));
    assert_eq!(cartridge_read(&mut cartridge, 0x0100), ReadResult::Ready(0x00));
    assert_eq!(cartridge_read(&mut cartridge, 0xff50), ReadResult::Ready(0x00));

    assert_eq!(cartridge_write(&mut cartridge, 0xff50, 0x00), WriteResult::Accepted);
    assert_eq!(cartridge_read(&mut cartridge, 0x0000), ReadResult::Ready(0x99));

    assert_eq!(cartridge_write(&mut cartridge, 0xff50, 0x01), WriteResult::Accepted);
    assert_eq!(cartridge_read(&mut cartridge, 0xff50), ReadResult::Ready(0x01));
    assert_eq!(cartridge_read(&mut cartridge, 0x0000), ReadResult::Ready(0x00));
    assert_eq!(cartridge_read(&mut cartridge, 0x0200), ReadResult::Ready(0x00));

    assert_eq!(cartridge_write(&mut cartridge, 0xff50, 0x00), WriteResult::Accepted);
    assert_eq!(cartridge_read(&mut cartridge, 0xff50), ReadResult::Ready(0x01));
    assert_eq!(cartridge_read(&mut cartridge, 0x0000), ReadResult::Ready(0x00));
}

#[test]
fn cartridge_boot_rom_overlay_unmaps_permanently_after_ff50_write() {
    let image =
        CartridgeImage::from_bytes(build_test_rom("BOOTMAP", 0xc0, 0x00, 0x00, 0x00, 0x00))
            .unwrap();
    let mut boot_rom_bytes = vec![0xaa; CGB_BOOT_ROM_BYTES];
    boot_rom_bytes[0x0000] = 0x99;
    boot_rom_bytes[0x0200] = 0x77;
    let boot_rom = BootRomImage::from_bytes(boot_rom_bytes).unwrap();
    let mut cartridge = CartridgeThread::from_image(image, boot_rom, 0, None, None).unwrap();

    assert_eq!(cartridge_read(&mut cartridge, 0x0000), ReadResult::Ready(0x99));
    assert_eq!(cartridge_read(&mut cartridge, 0x0200), ReadResult::Ready(0x77));
    assert_eq!(cartridge_read(&mut cartridge, 0x0100), ReadResult::Ready(0x00));
    assert_eq!(cartridge_read(&mut cartridge, 0xff50), ReadResult::Ready(0x00));

    assert_eq!(cartridge_write(&mut cartridge, 0xff50, 0x00), WriteResult::Accepted);
    assert_eq!(cartridge_read(&mut cartridge, 0x0000), ReadResult::Ready(0x99));

    assert_eq!(cartridge_write(&mut cartridge, 0xff50, 0x01), WriteResult::Accepted);
    assert_eq!(cartridge_read(&mut cartridge, 0xff50), ReadResult::Ready(0x01));
    assert_eq!(cartridge_read(&mut cartridge, 0x0000), ReadResult::Ready(0x00));
    assert_eq!(cartridge_read(&mut cartridge, 0x0200), ReadResult::Ready(0x00));

    assert_eq!(cartridge_write(&mut cartridge, 0xff50, 0x00), WriteResult::Accepted);
    assert_eq!(cartridge_read(&mut cartridge, 0xff50), ReadResult::Ready(0x01));
    assert_eq!(cartridge_read(&mut cartridge, 0x0000), ReadResult::Ready(0x00));
}

#[test]
fn mod_runtime_support_rejects_non_cgb_boot_modes() {
    let image =
        CartridgeImage::from_bytes(build_test_rom("SGBTEST", 0x00, 0x03, 0x00, 0x00, 0x00))
            .unwrap();

    assert_eq!(
        image.ensure_runtime_supported(),
        Err(CartridgeLoadError::UnsupportedBootMode(BootMode::SgbStub))
    );
}

#[test]
fn cartridge_runtime_support_rejects_non_cgb_boot_modes() {
    let image =
        CartridgeImage::from_bytes(build_test_rom("SGBTEST", 0x00, 0x03, 0x00, 0x00, 0x00))
            .unwrap();

    assert_eq!(
        image.ensure_runtime_supported(),
        Err(CartridgeLoadError::UnsupportedBootMode(BootMode::SgbStub))
    );
}

#[test]
fn mod_runtime_support_rejects_stubbed_mbc_types() {
    let image =
        CartridgeImage::from_bytes(build_test_rom("UNKTEST", 0xc0, 0x00, 0xbf, 0x01, 0x03))
            .unwrap();

    assert_eq!(
        image.ensure_runtime_supported(),
        Err(CartridgeLoadError::UnsupportedMbc(MbcKind::UnknownStub(0xbf)))
    );
}

#[test]
fn cartridge_runtime_support_rejects_stubbed_mbc_types() {
    let image =
        CartridgeImage::from_bytes(build_test_rom("MBC6TEST", 0xc0, 0x00, 0x20, 0x01, 0x03))
            .unwrap();

    assert_eq!(
        image.ensure_runtime_supported(),
        Err(CartridgeLoadError::UnsupportedMbc(MbcKind::Mbc6))
    );
}

#[test]
fn rom_bank_switching_through_mbc1_register() {
    let image =
        CartridgeImage::from_bytes(build_test_rom("MBC1TEST", 0xc0, 0x00, 0x01, 0x02, 0x00))
            .unwrap();
    let boot_rom = BootRomImage::from_bytes(vec![0; CGB_BOOT_ROM_BYTES]).unwrap();
    let mut cartridge = CartridgeThread::from_image(image, boot_rom, 0, None, None).unwrap();
    // Bank 1 is mapped at 0x4000 at power-on; each bank is filled with 0x11 times its index.
    assert_eq!(cartridge_read(&mut cartridge, 0x4000), ReadResult::Ready(0x11));
    assert_eq!(cartridge_write(&mut cartridge, 0x2000, 0x05), WriteResult::Accepted);
    assert_eq!(cartridge_read(&mut cartridge, 0x4000), ReadResult::Ready(0x55));
    // Bank 0 selects bank 1 on MBC1.
    assert_eq!(cartridge_write(&mut cartridge, 0x2000, 0x00), WriteResult::Accepted);
    assert_eq!(cartridge_read(&mut cartridge, 0x4000), ReadResult::Ready(0x11));
}

#[test]
fn boot_rom_size_is_checked() {
    assert!(BootRomImage::from_bytes(vec![0; 0x123]).is_err());
    assert!(BootRomImage::from_bytes(vec![0; 0x100]).unwrap().is_dmg());
}

#[test]
fn load_error_messages_read_as_sentences() {
    assert_eq!(
        CartridgeLoadError::Io { path: "a.gb".to_owned(), message: "nope".to_owned() }.message(),
        "failed to read ROM `a.gb`: nope"
    );
    assert_eq!(
        CartridgeLoadError::RomTooSmall { actual_bytes: 16, minimum_bytes: 336 }.message(),
        "ROM image is too small: got 16 bytes, need at least 336"
    );
    assert_eq!(
        CartridgeLoadError::RomSizeMismatch { declared_bytes: 65536, actual_bytes: 32768 }.message(),
        "ROM size mismatch: header declares 65536 bytes, file has 32768"
    );
    assert_eq!(
        CartridgeLoadError::UnsupportedRomSizeCode(0x1f).message(),
        "unsupported ROM size code in header: 0x1f"
    );
    assert_eq!(
        CartridgeLoadError::UnsupportedRamSizeCode(0x07).message(),
        "unsupported RAM size code in header: 0x07"
    );
    assert_eq!(
        CartridgeLoadError::UnsupportedMbc(MbcKind::UnknownStub(0xab)).message(),
        "unsupported cartridge controller for now: Unknown MBC (stub) (0xab)"
    );
    assert_eq!(
        CartridgeLoadError::UnsupportedBootMode(BootMode::SgbStub).message(),
        "unsupported boot mode for now: SGB (stub)"
    );
    assert_eq!(
        BootRomLoadError::UnexpectedSize { actual_bytes: 256, expected_bytes: 2304 }.message(),
        "unexpected CGB boot ROM size: got 256 bytes, expected 2304"
    );
    assert_eq!(
        BootRomLoadError::Io { path: "boot.bin".to_owned(), message: "missing".to_owned() }.message(),
        "failed to read boot ROM `boot.bin`: missing"
    );
    assert_eq!(MbcKind::Mbc5.label(), "MBC5");
    assert_eq!(BootMode::UnknownStub(0x05).label(), "Unknown boot (stub) (0x05)");
}

fn booted_cartridge(rom: Vec<u8>) -> CartridgeThread {
    let image = CartridgeImage::from_bytes(rom).unwrap();
    let boot_rom = BootRomImage::from_bytes(vec![0; CGB_BOOT_ROM_BYTES]).unwrap();
    let mut cartridge = CartridgeThread::from_image(image, boot_rom, 0, None, None).unwrap();
    assert_eq!(cartridge_write(&mut cartridge, 0xff50, 0x01), WriteResult::Accepted);
    cartridge
}

#[test]
fn rom_only_cartridge_keeps_fixed_bank_mapping() {
    let mut cartridge = booted_cartridge(build_test_rom("ROMONLY", 0xc0, 0x00, 0x00, 0x00, 0x00));

    assert_eq!(cartridge_read(&mut cartridge, 0x0000), ReadResult::Ready(0x00));
    assert_eq!(cartridge_read(&mut cartridge, 0x0200), ReadResult::Ready(0x00));
    assert_eq!(cartridge_read(&mut cartridge, 0xff50), ReadResult::Ready(0x01));
    assert_eq!(cartridge_read(&mut cartridge, 0x4000), ReadResult::Ready(0x11));
    assert_eq!(cartridge_write(&mut cartridge, 0x2000, 0x02), WriteResult::Accepted);
    assert_eq!(cartridge_read(&mut cartridge, 0x4000), ReadResult::Ready(0x11));
}

#[test]
fn mbc1_cartridge_switches_rom_and_ram_banks() {
    let mut cartridge = booted_cartridge(build_test_rom("MBC1TEST", 0xc0, 0x00, 0x03, 0x01, 0x03));

    assert_eq!(cartridge_read(&mut cartridge, 0x4000), ReadResult::Ready(0x11));
    assert_eq!(cartridge_write(&mut cartridge, 0x2000, 0x02), WriteResult::Accepted);
    assert_eq!(cartridge_read(&mut cartridge, 0x4000), ReadResult::Ready(0x22));
    assert_eq!(cartridge_write(&mut cartridge, 0x0000, 0x0a), WriteResult::Accepted);
    assert_eq!(cartridge_write(&mut cartridge, 0xa123, 0x5c), WriteResult::Accepted);
    assert_eq!(cartridge_read(&mut cartridge, 0xa123), ReadResult::Ready(0x5c));
    assert_eq!(cartridge_write(&mut cartridge, 0x6000, 0x01), WriteResult::Accepted);
    assert_eq!(cartridge_write(&mut cartridge, 0x4000, 0x01), WriteResult::Accepted);
    assert_eq!(cartridge_write(&mut cartridge, 0xa123, 0x82), WriteResult::Accepted);
    assert_eq!(cartridge_read(&mut cartridge, 0xa123), ReadResult::Ready(0x82));
    assert_eq!(cartridge_write(&mut cartridge, 0x4000, 0x00), WriteResult::Accepted);
    assert_eq!(cartridge_read(&mut cartridge, 0xa123), ReadResult::Ready(0x5c));
}

fn load_error(rom: Vec<u8>) -> CartridgeLoadError {
    let image = CartridgeImage::from_bytes(rom).unwrap();
    let boot_rom = BootRomImage::from_bytes(vec![0; CGB_BOOT_ROM_BYTES]).unwrap();
    match CartridgeThread::from_image(image, boot_rom, 0, None, None) {
        Ok(_) => panic!("the cartridge was accepted"),
        Err(error) => error,
    }
}

#[test]
fn unsupported_boot_modes_fail_before_runtime() {
    let rom = build_test_rom("SGBTEST", 0x00, 0x03, 0x00, 0x00, 0x00);

    assert_eq!(load_error(rom), CartridgeLoadError::UnsupportedBootMode(BootMode::SgbStub));
}

#[test]
fn unsupported_mbc_types_fail_before_runtime() {
    let rom = build_test_rom("UNKTEST", 0xc0, 0x00, 0xbf, 0x01, 0x03);

    assert_eq!(load_error(rom), CartridgeLoadError::UnsupportedMbc(MbcKind::UnknownStub(0xbf)));
}

#[test]
fn placeholder_cartridge_is_a_runnable_two_bank_rom() {
    let image = CartridgeImage::placeholder();
    assert_eq!(image.metadata().title, "CHUDTENDO");
    assert_eq!(image.metadata().cartridge_type, 0);
    assert_eq!(image.metadata().mbc, MbcKind::RomOnly);
    assert_eq!(image.metadata().boot_mode, BootMode::CgbOnly);
    assert_eq!(image.metadata().rom_bank_count, 2);
    assert_eq!(image.ensure_runtime_supported(), Ok(()));
}
