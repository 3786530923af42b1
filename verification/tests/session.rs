use chudtendo::emulator::cartridge::BootMode;
use chudtendo::emulator::component::{HardwareMode, ThreadDelays};
use chudtendo::emulator::session::{
    hardware_mode_for_boot, FullSaveState, OamEntry, RewindBuffer, RewindSnapshot,
};

fn snapshot(tag: u8) -> RewindSnapshot {
    RewindSnapshot {
        state: FullSaveState {
            cpu: vec![tag],
            ppu: vec![],
            wram: vec![],
            cartridge: vec![],
            timer: vec![],
            apu: vec![],
            clock_cycles: tag as u64,
        },
        framebuffer: vec![tag; 4],
    }
}

#[test]
fn rewind_pops_newest_first_and_drops_oldest() {
    let mut buffer = RewindBuffer::new(2);
    buffer.push(snapshot(1));
    buffer.push(snapshot(2));
    buffer.push(snapshot(3));
    assert_eq!(buffer.len(), 2);
    assert_eq!(buffer.pop().unwrap().framebuffer, vec![3; 4]);
    assert_eq!(buffer.pop().unwrap().state.clock_cycles, 2);
    assert!(buffer.pop().is_none());
}

#[test]
fn rewind_clear_empties() {
    let mut buffer = RewindBuffer::new(4);
    buffer.push(snapshot(1));
    buffer.clear();
    assert_eq!(buffer.len(), 0);
}

#[test]
fn oam_entry_fields() {
    let entry = OamEntry { y: 16, x: 8, tile: 3, flags: 0xed };
    assert_eq!(entry.screen_x(), 0);
    assert_eq!(entry.screen_y(), 0);
    assert!(entry.x_flip());
    assert!(entry.y_flip());
    assert!(entry.behind_bg());
    assert_eq!(entry.cgb_palette(), 5);
    assert_eq!(entry.cgb_vram_bank(), 1);
}

#[test]
fn dmg_cartridges_end_in_compatibility_mode() {
    assert_eq!(hardware_mode_for_boot(BootMode::Dmg), HardwareMode::DmgCompatibility);
    assert_eq!(hardware_mode_for_boot(BootMode::CgbOnly), HardwareMode::Cgb);
}

#[test]
fn dmg_boot_palettes_are_four_grays() {
    let mut init = chudtendo::emulator::component::PpuInitState::default();
    chudtendo::emulator::session::use_dmg_palettes(&mut init);
    assert_eq!(init.hardware_mode, chudtendo::emulator::component::HardwareMode::DmgCompatibility);
    let expected = [0xff, 0x7f, 0x10, 0x4a, 0x08, 0x21, 0x00, 0x00];
    for palette in 0..8 {
        for byte in 0..8 {
            assert_eq!(init.bg_palette_ram[palette * 8 + byte], expected[byte]);
            assert_eq!(init.obj_palette_ram[palette * 8 + byte], expected[byte]);
        }
    }
}

#[test]
fn oam_bytes_read_as_entries() {
    let raw = [16u8, 8, 1, 0x20, 32, 40, 2, 0x80, 99];
    let entries = chudtendo::emulator::session::oam_entries_from_bytes(&raw);
    assert_eq!(entries.len(), 2);
    assert_eq!(entries[0], OamEntry { y: 16, x: 8, tile: 1, flags: 0x20 });
    assert_eq!(entries[1], OamEntry { y: 32, x: 40, tile: 2, flags: 0x80 });
}

#[test]
fn lcd_registers_read_in_address_order() {
    let raw: Vec<u8> = (0..12).collect();
    let lcd = chudtendo::emulator::session::LcdRegisters::from_bytes(&raw);
    assert_eq!(lcd.lcdc, 0);
    assert_eq!(lcd.ly, 4);
    assert_eq!(lcd.bgp, 7);
    assert_eq!(lcd.wx, 11);
}

#[test]
fn default_delays_pause_only_between_ppu_frames() {
    let delays = ThreadDelays::default();
    assert_eq!(delays.ppu, std::time::Duration::from_nanos(16_536_000));
    assert_eq!(delays.cpu, std::time::Duration::ZERO);
    assert_eq!(delays.wram, std::time::Duration::ZERO);
    assert_eq!(delays.cartridge, std::time::Duration::ZERO);
    assert_eq!(delays.timer, std::time::Duration::ZERO);
    assert_eq!(delays.apu, std::time::Duration::ZERO);
}

#[test]
fn restored_wram_banks_snapshot_back() {
    let mut wram = chudtendo::emulator::component::SharedWramState::new(
        vec![vec![0u8; 0x1000]; 8],
        1,
        HardwareMode::Cgb,
    );
    let banks: Vec<Vec<u8>> = (0..8u8).map(|k| vec![k.wrapping_mul(0x21); 0x1000]).collect();
    wram.restore_banks(&banks);
    assert_eq!(wram.snapshot_banks(), banks);
}

#[test]
fn tile_maps_start_at_their_lcdc_bases() {
    assert_eq!(chudtendo::emulator::session::tile_map_base(false), 0x9800);
    assert_eq!(chudtendo::emulator::session::tile_map_base(true), 0x9c00);
}
