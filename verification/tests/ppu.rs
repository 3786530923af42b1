use std::sync::mpsc::{Receiver, Sender, SyncSender};

use chudtendo::emulator::component::{
    default_framebuffer, ComponentReport, InterruptFlags, MasterClock, PpuInitState,
    PublishedFrame, BYTES_PER_PIXEL, SCREEN_WIDTH,
};
use chudtendo::emulator::ppu::{
    dmg_compat_bg_color, dmg_compat_obj_color, PpuThread, BG_MAP_OFFSET_9800,
    LCDC_BG_ENABLE_MASK, LCDC_ENABLE_MASK, LCDC_INDEX, LCDC_TILE_DATA_MASK, PALETTE_RAM_LEN,
};

fn ppu_with_channels() -> (
    PpuThread,
    Receiver<PublishedFrame>,
    Sender<ComponentReport>,
    Receiver<ComponentReport>,
) {
    let (frame_ready_sender, frame_ready_receiver): (
        SyncSender<PublishedFrame>,
        Receiver<PublishedFrame>,
    ) = std::sync::mpsc::sync_channel(1);
    let (frame_recycle_sender, frame_recycle_receiver) = std::sync::mpsc::sync_channel(2);
    let _ = frame_recycle_sender.try_send(default_framebuffer());
    let (reports_sender, reports_receiver) = std::sync::mpsc::channel();

    (
        PpuThread::from_init_state(
            PpuInitState::default(),
            InterruptFlags::new(),
            MasterClock::new(),
            frame_ready_sender,
            frame_recycle_receiver,
        ),
        frame_ready_receiver,
        reports_sender,
        reports_receiver,
    )
}

#[test]
fn dmg_compat_background_palette_uses_cgb_palette_zero() {
    let mut palette_ram = [0u8; PALETTE_RAM_LEN];
    palette_ram[0] = 0x00;
    palette_ram[1] = 0x00;
    palette_ram[2] = 0xff;
    palette_ram[3] = 0x7f;

    assert_eq!(
        dmg_compat_bg_color(&palette_ram, 1, 0b0000_0100),
        [0xff, 0xff, 0xff, 0xff]
    );
}

#[test]
fn dmg_compat_object_palette_uses_selected_obj_palette() {
    let mut palette_ram = [0u8; PALETTE_RAM_LEN];
    let base = 8;
    palette_ram[base + 4] = 0x1f;
    palette_ram[base + 5] = 0x00;

    assert_eq!(
        dmg_compat_obj_color(&palette_ram, 1, 2, 0b0010_0000),
        [0xff, 0x00, 0x00, 0xff]
    );
}

#[test]
fn render_background_uses_latched_scx_per_scanline() {
    let mut ppu = PpuThread::default();
    ppu.lcd_registers[LCDC_INDEX] = LCDC_ENABLE_MASK | LCDC_BG_ENABLE_MASK | LCDC_TILE_DATA_MASK;
    ppu.bg_palette_ram[0] = 0xff;
    ppu.bg_palette_ram[1] = 0x7f;
    ppu.vram_banks[0][0x0000] = 0xff;
    ppu.vram_banks[0][0x0001] = 0xff;
    ppu.vram_banks[0][0x0010] = 0x00;
    ppu.vram_banks[0][0x0011] = 0x00;
    ppu.vram_banks[0][BG_MAP_OFFSET_9800] = 0x00;
    ppu.vram_banks[0][BG_MAP_OFFSET_9800 + 1] = 0x01;
    ppu.vram_banks[0][BG_MAP_OFFSET_9800 + 32 * 4] = 0x00;
    ppu.vram_banks[0][BG_MAP_OFFSET_9800 + 32 * 4 + 1] = 0x01;
    ppu.refresh_scanline_defaults();
    ppu.scanline_registers[32].scx = 8;

    ppu.render_framebuffer();

    assert_eq!(&ppu.framebuffer[0..4], &[0x00, 0x00, 0x00, 0xff]);
    let lower_left = 32 * SCREEN_WIDTH * BYTES_PER_PIXEL;
    assert_eq!(&ppu.framebuffer[lower_left..lower_left + 4], &[0xff, 0xff, 0xff, 0xff]);
}

#[test]
fn non_frame_report_includes_framebuffer_without_live_publication() {
    let (mut ppu, frame_ready_receiver, reports_sender, reports_receiver) = ppu_with_channels();

    ppu.frame_publication_pending = false;
    ppu.report_framebuffer_pending = true;
    ppu.report_dirty = true;
    ppu.publish_report_if_needed(&reports_sender);

    let report = match reports_receiver.try_recv() {
        Ok(ComponentReport::Ppu(report)) => report,
        other => panic!("expected PPU report, got {other:?}"),
    };
    assert!(report.framebuffer.is_some());
    assert!(matches!(
        frame_ready_receiver.try_recv(),
        Err(std::sync::mpsc::TryRecvError::Empty)
    ));
}

#[test]
fn frame_publication_uses_live_channel_without_report_clone() {
    let (mut ppu, frame_ready_receiver, reports_sender, reports_receiver) = ppu_with_channels();

    ppu.frame_publication_pending = true;
    ppu.report_framebuffer_pending = false;
    ppu.report_dirty = true;
    ppu.publish_report_if_needed(&reports_sender);

    let report = match reports_receiver.try_recv() {
        Ok(ComponentReport::Ppu(report)) => report,
        other => panic!("expected PPU report, got {other:?}"),
    };
    assert!(report.framebuffer.is_none());
    assert!(frame_ready_receiver.try_recv().is_ok());
}

#[test]
fn lcd_off_renders_white_screen() {
    let mut ppu = PpuThread::default();
    ppu.lcd_registers[LCDC_INDEX] = 0;
    ppu.render_framebuffer();
    assert!(ppu.framebuffer.iter().all(|&b| b == 0xff));
}

#[test]
fn save_state_round_trips_into_a_fresh_ppu() {
    let (mut ppu, _frames, _reports_sender, _reports) = ppu_with_channels();
    ppu.handle_write(0x8000, 0x3c);
    ppu.handle_write(0x9800, 0x07);
    ppu.handle_write(0xfe00, 0x50);
    ppu.handle_write(0xff42, 0x12);
    ppu.handle_write(0xff68, 0x80);
    ppu.handle_write(0xff69, 0x1f);
    let state = ppu.create_save_state();

    let (mut other, _frames2, _reports_sender2, _reports2) = ppu_with_channels();
    assert!(state.is_loadable());
    other.apply_save_state(state);
    assert_eq!(other.vram_banks, ppu.vram_banks);
    assert_eq!(other.oam, ppu.oam);
    assert_eq!(other.lcd_registers, ppu.lcd_registers);
    assert_eq!(other.bg_palette_ram, ppu.bg_palette_ram);
    assert_eq!(other.bg_palette_index, ppu.bg_palette_index);
    assert_eq!(other.selected_vram_bank, ppu.selected_vram_bank);
    assert_eq!(other.dots, ppu.dots);
    assert_eq!(other.frames, ppu.frames);
    assert_eq!(other.vram_banks[0][0], 0x3c);
    assert_eq!(other.oam[0], 0x50);
}
