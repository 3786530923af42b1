use vstd::prelude::*;

use crate::bits::{lemma_byte_masks, lemma_word_masks};
use vstd::arithmetic::power2::pow2;

use super::component::{
    ComponentReport, HardwareMode, PpuFeatures, InterruptFlags, MasterClock, PpuInitState, PpuProgress, PpuReport, PublishedFrame,
    ReadResult, WriteResult, FRAMEBUFFER_SIZE, test_pattern,
};
use crate::platform::{channel_send, channel_try_recv, instant_now, new_sync_channel, sync_try_send, Received, TrySent};

verus! {

pub const VRAM_BANK_SIZE: usize = 0x2000;
pub const VRAM_BANKS: usize = 2;
pub const OAM_SIZE: usize = 0xa0;
pub const OAM_ENTRY_SIZE: usize = 4;
pub const MAX_SPRITES: usize = 40;
pub const OAM_DMA_BYTES_PER_SAMPLE: usize = 8;
pub const LCD_REGISTERS_LEN: usize = 0x0c;
pub const HDMA_REGISTERS_LEN: usize = 0x05;
pub const PALETTE_RAM_LEN: usize = 0x40;
pub const TILE_BYTES: usize = 16;
pub const BG_MAP_OFFSET_9800: usize = 0x1800;
pub const BG_MAP_OFFSET_9C00: usize = 0x1c00;
pub const DOTS_PER_LINE: u16 = 456;
pub const VISIBLE_LINES: u8 = 144;
pub const TOTAL_LINES: u8 = 154;
pub const MODE2_DOTS: u16 = 80;
pub const MODE3_DOTS: u16 = 172;
pub const PPU_DOTS_PER_SAMPLE: u64 = 32;
pub const STAT_MODE_FLAG_MASK: u8 = 0x03;
pub const STAT_LYC_FLAG_MASK: u8 = 0x04;
pub const STAT_MODE0_INTERRUPT_MASK: u8 = 0x08;
pub const STAT_MODE1_INTERRUPT_MASK: u8 = 0x10;
pub const STAT_MODE2_INTERRUPT_MASK: u8 = 0x20;
pub const STAT_LYC_INTERRUPT_MASK: u8 = 0x40;
pub const STAT_UNUSED_MASK: u8 = 0x80;
pub const LCDC_ENABLE_MASK: u8 = 0x80;
pub const VBLANK_INTERRUPT_MASK: u8 = 0x01;
pub const STAT_INTERRUPT_MASK: u8 = 0x02;
pub const LCDC_INDEX: usize = 0x00;
pub const STAT_INDEX: usize = 0x01;
pub const SCY_INDEX: usize = 0x02;
pub const SCX_INDEX: usize = 0x03;
pub const LY_INDEX: usize = 0x04;
pub const LYC_INDEX: usize = 0x05;
pub const BGP_INDEX: usize = 0x07;
pub const OBP0_INDEX: usize = 0x08;
pub const OBP1_INDEX: usize = 0x09;
pub const WY_INDEX: usize = 0x0a;
pub const WX_INDEX: usize = 0x0b;
pub const LCDC_BG_ENABLE_MASK: u8 = 0x01;
pub const LCDC_OBJ_ENABLE_MASK: u8 = 0x02;
pub const LCDC_OBJ_SIZE_MASK: u8 = 0x04;
pub const LCDC_BG_TILE_MAP_MASK: u8 = 0x08;
pub const LCDC_TILE_DATA_MASK: u8 = 0x10;
pub const LCDC_WINDOW_ENABLE_MASK: u8 = 0x20;
pub const LCDC_WINDOW_TILE_MAP_MASK: u8 = 0x40;
pub const SPRITE_ATTR_PRIORITY_MASK: u8 = 0x80;
pub const SPRITE_ATTR_Y_FLIP_MASK: u8 = 0x40;
pub const SPRITE_ATTR_X_FLIP_MASK: u8 = 0x20;
pub const SPRITE_ATTR_DMG_PALETTE_MASK: u8 = 0x10;
pub const SPRITE_ATTR_BANK_MASK: u8 = 0x08;
pub const CGB_BG_ATTR_Y_FLIP_MASK: u8 = 0x40;
pub const CGB_BG_ATTR_X_FLIP_MASK: u8 = 0x20;
pub const CGB_BG_ATTR_BANK_MASK: u8 = 0x08;
pub const CGB_BG_ATTR_PALETTE_MASK: u8 = 0x07;
pub const CGB_BG_ATTR_PRIORITY_MASK: u8 = 0x80;
pub const CGB_OBJ_ATTR_PALETTE_MASK: u8 = 0x07;

/// The LCD registers that a scanline is drawn with, latched when it is drawn.
#[derive(Clone, Copy, Debug, PartialEq, Eq, Structural)]
pub struct ScanlineRegisters {
    pub lcdc: u8,
    pub scy: u8,
    pub scx: u8,
    pub bgp: u8,
    pub obp0: u8,
    pub obp1: u8,
    pub wy: u8,
    pub wx: u8,
}

impl ScanlineRegisters {
    pub fn default() -> (r: Self)
        ensures
            r == (ScanlineRegisters { lcdc: 0, scy: 0, scx: 0, bgp: 0, obp0: 0, obp1: 0, wy: 0, wx: 0 }),
    {
        ScanlineRegisters { lcdc: 0, scy: 0, scx: 0, bgp: 0, obp0: 0, obp1: 0, wy: 0, wx: 0 }
    }
}

/// A background pixel: its colour number, CGB palette and priority bit.
#[derive(Clone, Copy, Debug, PartialEq, Eq, Structural)]
pub struct BgPixel {
    pub color_index: u8,
    pub palette: u8,
    pub priority: bool,
}

impl BgPixel {
    pub fn default() -> (p: Self)
        ensures
            p == (BgPixel { color_index: 0, palette: 0, priority: false }),
    {
        BgPixel { color_index: 0, palette: 0, priority: false }
    }
}

/// A running OAM DMA transfer: 160 bytes from `source_base` on.
#[derive(Clone, Copy, Debug, PartialEq, Eq, Structural)]
pub struct OamDmaTransfer {
    pub source_base: u16,
    pub next_index: usize,
}

/// A VRAM DMA transfer (HDMA) of 16-byte blocks.
#[derive(Clone, Copy, Debug, PartialEq, Eq, Structural)]
pub struct HdmaTransfer {
    pub source: u16,
    pub destination: u16,
    pub remaining_blocks: u8,
    pub hblank_mode: bool,
}

// ---------------------------------------------------------------------------
// Colours
// ---------------------------------------------------------------------------

/// A 5-bit colour component scaled to 8 bits.
pub open spec fn spec_expand_color(component: u8) -> u8 {
    ((component << 3u8) | (component >> 2u8)) as u8
}

pub fn expand_color(component: u8) -> (c: u8)
    ensures
        c == spec_expand_color(component),
{
    (component << 3) | (component >> 2)
}

/// The shade that a DMG palette register gives colour number `color_index`.
pub open spec fn spec_map_palette(color_index: u8, palette: u8) -> u8 {
    (palette >> ((color_index & 0x03) * 2) as u8) & 0x03
}

pub fn map_palette(color_index: u8, palette: u8) -> (shade: u8)
    requires
        color_index < 4,
    ensures
        shade == spec_map_palette(color_index, palette),
        shade < 4,
{
    assert(color_index < 4 ==> color_index & 0x03 == color_index) by {
        lemma_byte_masks();
        lemma_word_masks();
    }
    let shade = (palette >> (color_index * 2)) & 0x03;
    assert((palette >> (color_index * 2)) & 0x03 < 4) by {
        lemma_byte_masks();
        lemma_word_masks();
    }
    shade
}

/// A palette index register keeps its auto-increment bit and 6-bit address.
pub open spec fn spec_sanitize_palette_index(value: u8) -> u8 {
    value & 0xbf
}

pub fn sanitize_palette_index(value: u8) -> (index: u8)
    ensures
        index == spec_sanitize_palette_index(value),
{
    value & 0xbf
}

/// The RGBA colour of entry `color_index` of CGB palette `palette` in
/// `palette_ram` (little-endian RGB555).
pub open spec fn spec_cgb_palette_color(palette_ram: Seq<u8>, palette: u8, color_index: u8) -> [u8; 4] {
    let base = ((palette & 0x07) as int) * 8 + ((color_index & 0x03) as int) * 2;
    let color = (palette_ram[base] as u16) | ((palette_ram[base + 1] as u16) << 8u16);
    [
        spec_expand_color((color & 0x1f) as u8),
        spec_expand_color(((color >> 5u16) & 0x1f) as u8),
        spec_expand_color(((color >> 10u16) & 0x1f) as u8),
        0xffu8,
    ]
}

pub fn cgb_palette_color(palette_ram: &[u8; 64], palette: u8, color_index: u8) -> (rgba: [u8; 4])
    ensures
        rgba == spec_cgb_palette_color(palette_ram@, palette, color_index),
{
    assert(palette & 0x07 < 8 && color_index & 0x03 < 4) by {
        lemma_byte_masks();
        lemma_word_masks();
    }
    let base = ((palette & 0x07) as usize) * 8 + ((color_index & 0x03) as usize) * 2;
    let low = palette_ram[base];
    let high = palette_ram[base + 1];
    let color = (low as u16) | ((high as u16) << 8);
    assert((color & 0x1f) < 32 && ((color >> 5) & 0x1f) < 32 && ((color >> 10) & 0x1f) < 32) by {
        lemma_byte_masks();
        lemma_word_masks();
    }
    let red = expand_color((color & 0x1f) as u8);
    let green = expand_color(((color >> 5) & 0x1f) as u8);
    let blue = expand_color(((color >> 10) & 0x1f) as u8);
    [red, green, blue, 0xff]
}

/// A DMG-compatibility background colour: BGP picks the shade, CGB
/// background palette 0 gives its colour.
pub fn dmg_compat_bg_color(palette_ram: &[u8; 64], color_index: u8, bgp: u8) -> (rgba: [u8; 4])
    requires
        color_index < 4,
    ensures
        rgba == spec_cgb_palette_color(palette_ram@, 0, spec_map_palette(color_index, bgp)),
{
    cgb_palette_color(palette_ram, 0, map_palette(color_index, bgp))
}

/// A DMG-compatibility object colour: OBP0 or OBP1 picks the shade, CGB
/// object palette 0 or 1 gives its colour.
pub fn dmg_compat_obj_color(palette_ram: &[u8; 64], palette: u8, color_index: u8, obp: u8) -> (rgba: [u8; 4])
    requires
        color_index < 4,
    ensures
        rgba == spec_cgb_palette_color(palette_ram@, palette, spec_map_palette(color_index, obp)),
{
    cgb_palette_color(palette_ram, palette, map_palette(color_index, obp))
}

// ---------------------------------------------------------------------------
// Tiles
// ---------------------------------------------------------------------------

/// Where the 16 bytes of tile `tile_number` start in a VRAM bank: from 0x0000
/// with unsigned numbers, around 0x1000 with signed ones.
pub open spec fn spec_tile_base(tile_number: u8, unsigned_indexing: bool) -> int {
    if unsigned_indexing {
        tile_number as int * 16
    } else {
        0x1000 + (tile_number as i8) as int * 16
    }
}

/// The colour number of pixel (`column`, `row`) of a tile: bit 7-column of
/// the row's high byte and low byte.
pub open spec fn spec_tile_pixel(bank: Seq<u8>, tile_number: u8, row: int, column: int, unsigned_indexing: bool) -> u8 {
    let row_base = spec_tile_base(tile_number, unsigned_indexing) + row * 2;
    let low = bank[row_base];
    let high = bank[row_base + 1];
    let bit = (7 - column) as u8;
    ((((high >> bit) & 0x01) << 1u8) | ((low >> bit) & 0x01)) as u8
}

/// A tile pixel's colour number takes bit 7-`column` of the row's second byte
/// as its high bit and bit 7-`column` of the row's first byte as its low bit;
/// the row's two bytes are at 2 * `row` in the tile, which starts at 16 times
/// the tile number (unsigned) or 0x1000 plus 16 times it taken as signed.
pub proof fn lemma_tile_pixel_bitplanes(
    bank: Seq<u8>,
    tile_number: u8,
    row: int,
    column: int,
    unsigned_indexing: bool,
)
    requires
        0 <= row < 8,
        0 <= column < 8,
    ensures
        ({
            let first = (if unsigned_indexing {
                tile_number as int * 16
            } else {
                0x1000 + (tile_number as i8) as int * 16
            }) + 2 * row;
            let weight = pow2((7 - column) as nat);
            spec_tile_pixel(bank, tile_number, row, column, unsigned_indexing) as int == 2 * ((bank[first
                + 1] as nat / weight) % 2) + (bank[first] as nat / weight) % 2
        }),
{
    let row_base = spec_tile_base(tile_number, unsigned_indexing) + row * 2;
    let low = bank[row_base];
    let high = bank[row_base + 1];
    let bit = (7 - column) as u8;
    vstd::bits::lemma_u8_shr_is_div(low, bit);
    vstd::bits::lemma_u8_shr_is_div(high, bit);
    let hs = high >> bit;
    let ls = low >> bit;
    assert((((hs & 0x01) << 1u8) | (ls & 0x01)) == 2 * (hs % 2) + ls % 2) by (bit_vector);
}

pub fn tile_pixel_in(
    bank: &Vec<u8>,
    tile_number: u8,
    row_in_tile: usize,
    column_in_tile: usize,
    unsigned_indexing: bool,
) -> (color: u8)
    requires
        bank@.len() == 0x2000,
        row_in_tile < 8,
        column_in_tile < 8,
    ensures
        color == spec_tile_pixel(bank@, tile_number, row_in_tile as int, column_in_tile as int, unsigned_indexing),
        color < 4,
{
    let tile_base: usize = if unsigned_indexing {
        tile_number as usize * TILE_BYTES
    } else {
        let signed = tile_number as i8;
        (0x1000i32 + (signed as i32) * 16) as usize
    };
    let row_base = tile_base + row_in_tile * 2;
    let low = bank[row_base];
    let high = bank[row_base + 1];
    let bit = (7 - column_in_tile) as u8;
    let color = (((high >> bit) & 0x01) << 1) | ((low >> bit) & 0x01);
    assert(((((high >> bit) & 0x01) << 1u8) | ((low >> bit) & 0x01)) < 4) by {
        lemma_byte_masks();
        lemma_word_masks();
    }
    color
}

// ---------------------------------------------------------------------------
// The PPU
// ---------------------------------------------------------------------------

/// The picture processing unit: VRAM, OAM, LCD registers and palettes, the
/// position of the beam, and the framebuffer it draws.
#[derive(Debug)]
pub struct PpuThread {
    pub clock: MasterClock,
    pub interrupt_flags: InterruptFlags,
    pub dots: u64,
    pub hardware_mode: HardwareMode,
    pub vram_banks: Vec<Vec<u8>>,
    pub selected_vram_bank: u8,
    pub oam: [u8; 160],
    pub lcd_registers: [u8; 12],
    pub hdma_registers: [u8; 5],
    pub bg_palette_index: u8,
    pub obj_palette_index: u8,
    pub bg_palette_ram: [u8; 64],
    pub obj_palette_ram: [u8; 64],
    pub framebuffer: Vec<u8>,
    pub framebuffer_spare: Option<Vec<u8>>,
    pub pending_published_frame: Option<PublishedFrame>,
    pub frame_ready: std::sync::mpsc::SyncSender<PublishedFrame>,
    pub frame_recycle: std::sync::mpsc::Receiver<Vec<u8>>,
    pub frames: u64,
    pub dots_into_line: u16,
    pub stat_interrupt_line: bool,
    pub stat_interrupt_armed: bool,
    pub report_dirty: bool,
    pub framebuffer_dirty: bool,
    pub frame_publication_pending: bool,
    pub report_framebuffer_pending: bool,
    pub oam_dma: Option<OamDmaTransfer>,
    pub hdma: Option<HdmaTransfer>,
    /// A general-purpose VRAM DMA requested by a write of HDMA5, waiting
    /// for its source bytes.
    pub pending_gp_dma: Option<HdmaTransfer>,
    /// An HBlank DMA block is due, waiting for its source bytes.
    pub hblank_block_due: bool,
    pub scanline_registers: [ScanlineRegisters; 144],
    pub window_line: u8,
    pub progress: PpuProgress,
}

impl PpuThread {
    /// Two banks of VRAM and a framebuffer of the screen's size.
    pub open spec fn wf(&self) -> bool {
        &&& self.vram_banks@.len() == 2
        &&& self.vram_banks@[0]@.len() == 0x2000
        &&& self.vram_banks@[1]@.len() == 0x2000
        &&& self.selected_vram_bank <= 1
        &&& self.framebuffer@.len() == 92160
        &&& self.lcd_registers@[4] < 154
        &&& self.dots_into_line < 456
        &&& self.bg_palette_index <= 0xbf
        &&& self.obj_palette_index <= 0xbf
        &&& (self.oam_dma matches Some(d) ==> d.next_index < 160)
        &&& (self.pending_gp_dma matches Some(t) ==> 1 <= t.remaining_blocks <= 128)
    }

    pub open spec fn vram(&self, bank: int) -> Seq<u8> {
        self.vram_banks@[bank]@
    }

    fn write_vram(&mut self, bank: usize, offset: usize, value: u8)
        requires
            old(self).wf(),
            bank < 2,
            offset < 0x2000,
        ensures
            final(self).wf(),
            final(self).vram(bank as int) == old(self).vram(bank as int).update(offset as int, value),
            final(self).vram(1 - bank) == old(self).vram(1 - bank),
            *final(self) == (PpuThread { vram_banks: final(self).vram_banks, ..*old(self) }),
    {
        self.vram_banks[bank].set(offset, value);
    }
}

// ---------------------------------------------------------------------------
// Rendering
// ---------------------------------------------------------------------------

/// The tile map that an LCDC bit selects.
pub open spec fn map_base(select: bool) -> int {
    if select { 0x1c00 } else { 0x1800 }
}

impl PpuThread {
    pub open spec fn is_cgb(&self) -> bool {
        self.hardware_mode == HardwareMode::Cgb
    }

    /// The background (or window) pixel at (`x`, `y`), and whether the window drew it.
    pub open spec fn spec_background_pixel(&self, x: u8, y: u8, window_line: u8, r: ScanlineRegisters) -> (BgPixel, bool) {
        let wx = r.wx as int - 7;
        let use_window = r.lcdc & LCDC_WINDOW_ENABLE_MASK != 0 && y >= r.wy && x as int >= wx;
        let map_x: u8 = if use_window { (x as int - wx) as u8 } else { r.scx.wrapping_add(x) };
        let map_y: u8 = if use_window { window_line } else { r.scy.wrapping_add(y) };
        let base = if use_window {
            map_base(r.lcdc & LCDC_WINDOW_TILE_MAP_MASK != 0)
        } else {
            map_base(r.lcdc & LCDC_BG_TILE_MAP_MASK != 0)
        };
        let map_index = base + ((map_y / 8) & 0x1f) as int * 32 + ((map_x / 8) & 0x1f) as int;
        let tile_number = self.vram(0)[map_index];
        let attributes: u8 = if self.is_cgb() { self.vram(1)[map_index] } else { 0 };
        let bank = if attributes & CGB_BG_ATTR_BANK_MASK != 0 { 1int } else { 0int };
        let row = if attributes & CGB_BG_ATTR_Y_FLIP_MASK != 0 { 7 - (map_y & 0x07) } else { (map_y & 0x07) as int };
        let column = if attributes & CGB_BG_ATTR_X_FLIP_MASK != 0 { 7 - (map_x & 0x07) } else { (map_x & 0x07) as int };
        (
            BgPixel {
                color_index: spec_tile_pixel(self.vram(bank), tile_number, row, column, r.lcdc & LCDC_TILE_DATA_MASK != 0),
                palette: attributes & CGB_BG_ATTR_PALETTE_MASK,
                priority: attributes & CGB_BG_ATTR_PRIORITY_MASK != 0,
            },
            use_window,
        )
    }

    pub fn background_pixel(&self, x: u8, y: u8, window_line: u8, registers: ScanlineRegisters) -> (r: (BgPixel, bool))
        requires
            self.wf(),
            x < 160,
        ensures
            r == self.spec_background_pixel(x, y, window_line, registers),
            r.0.color_index < 4,
    {
        let wx = registers.wx as i16 - 7;
        let use_window = registers.lcdc & LCDC_WINDOW_ENABLE_MASK != 0 && y >= registers.wy && (x as i16) >= wx;
        let map_x: u8 = if use_window { (x as i16 - wx) as u8 } else { registers.scx.wrapping_add(x) };
        let map_y: u8 = if use_window { window_line } else { registers.scy.wrapping_add(y) };
        let base: usize = if use_window {
            if registers.lcdc & LCDC_WINDOW_TILE_MAP_MASK != 0 { BG_MAP_OFFSET_9C00 } else { BG_MAP_OFFSET_9800 }
        } else {
            if registers.lcdc & LCDC_BG_TILE_MAP_MASK != 0 { BG_MAP_OFFSET_9C00 } else { BG_MAP_OFFSET_9800 }
        };
        assert((map_y / 8) & 0x1f < 32 && (map_x / 8) & 0x1f < 32) by {
            lemma_byte_masks();
            lemma_word_masks();
        }
        let map_index = base + ((map_y / 8) & 0x1f) as usize * 32 + ((map_x / 8) & 0x1f) as usize;
        let tile_number = self.vram_banks[0][map_index];
        let attributes: u8 = if self.hardware_mode == HardwareMode::Cgb { self.vram_banks[1][map_index] } else { 0 };
        let bank: usize = if attributes & CGB_BG_ATTR_BANK_MASK != 0 { 1 } else { 0 };
        assert(map_y & 0x07 < 8 && map_x & 0x07 < 8) by {
            lemma_byte_masks();
            lemma_word_masks();
        }
        let row: usize = if attributes & CGB_BG_ATTR_Y_FLIP_MASK != 0 { 7 - (map_y & 0x07) as usize } else { (map_y & 0x07) as usize };
        let column: usize = if attributes & CGB_BG_ATTR_X_FLIP_MASK != 0 { 7 - (map_x & 0x07) as usize } else { (map_x & 0x07) as usize };
        let color_index = tile_pixel_in(&self.vram_banks[bank], tile_number, row, column, registers.lcdc & LCDC_TILE_DATA_MASK != 0);
        (
            BgPixel {
                color_index,
                palette: attributes & CGB_BG_ATTR_PALETTE_MASK,
                priority: attributes & CGB_BG_ATTR_PRIORITY_MASK != 0,
            },
            use_window,
        )
    }

    /// The background pixel at (`x`, `y`) as drawn: none where the background is off (DMG only).
    pub open spec fn spec_line_pixel(&self, x: u8, y: u8, window_line: u8, r: ScanlineRegisters) -> (BgPixel, bool) {
        if self.is_cgb() || r.lcdc & LCDC_BG_ENABLE_MASK != 0 {
            self.spec_background_pixel(x, y, window_line, r)
        } else {
            (BgPixel { color_index: 0, palette: 0, priority: false }, false)
        }
    }

    /// The colour of a background pixel.
    pub open spec fn spec_bg_color(&self, p: BgPixel, r: ScanlineRegisters) -> [u8; 4] {
        if self.is_cgb() {
            spec_cgb_palette_color(self.bg_palette_ram@, p.palette, p.color_index)
        } else {
            spec_cgb_palette_color(self.bg_palette_ram@, 0, spec_map_palette(p.color_index, r.bgp))
        }
    }

    /// The framebuffer with line `y` filled with the background.
    pub open spec fn spec_background_line(&self, fb: Seq<u8>, y: int) -> Seq<u8> {
        let r = self.scanline_registers@[y];
        Seq::new(
            fb.len(),
            |i: int|
                if y * 640 <= i < y * 640 + 640 {
                    let x = (i - y * 640) / 4;
                    self.spec_bg_color(self.spec_line_pixel(x as u8, y as u8, self.window_line, r).0, r)@[(i - y * 640) % 4]
                } else {
                    fb[i]
                },
        )
    }

    /// Whether the window drew any pixel of line `y`.
    pub open spec fn spec_window_used(&self, y: int) -> bool {
        exists|x: int| 0 <= x < 160 && #[trigger] self.spec_line_pixel(x as u8, y as u8, self.window_line, self.scanline_registers@[y]).1
    }

    /// Writes the four bytes of pixel `pixel_index`.
    pub fn write_pixel(&mut self, pixel_index: usize, rgba: [u8; 4])
        requires
            old(self).wf(),
            pixel_index < 23040,
        ensures
            final(self).framebuffer@ == Seq::new(
                old(self).framebuffer@.len(),
                |i: int|
                    if pixel_index * 4 <= i < pixel_index * 4 + 4 {
                        rgba@[i - pixel_index * 4]
                    } else {
                        old(self).framebuffer@[i]
                    },
            ),
            final(self).wf(),
            final(self).vram_banks == old(self).vram_banks,
            final(self).scanline_registers == old(self).scanline_registers,
            final(self).window_line == old(self).window_line,
            final(self).hardware_mode == old(self).hardware_mode,
            final(self).oam == old(self).oam,
            final(self).bg_palette_ram == old(self).bg_palette_ram,
            final(self).obj_palette_ram == old(self).obj_palette_ram,
            *final(self) == (PpuThread { framebuffer: final(self).framebuffer, ..*old(self) }),
    {
        let start = pixel_index * 4;
        self.framebuffer.set(start, rgba[0]);
        self.framebuffer.set(start + 1, rgba[1]);
        self.framebuffer.set(start + 2, rgba[2]);
        self.framebuffer.set(start + 3, rgba[3]);
        assert(self.framebuffer@ =~= Seq::new(
            old(self).framebuffer@.len(),
            |i: int|
                if pixel_index * 4 <= i < pixel_index * 4 + 4 {
                    rgba@[i - pixel_index * 4]
                } else {
                    old(self).framebuffer@[i]
                },
        ));
    }

    /// Draws the background of line `y` with its latched registers; returns
    /// the background pixels (for sprite priority) and advances the window
    /// line where the window was drawn.
    pub fn render_background_line(&mut self, y: usize) -> (pixels: Vec<BgPixel>)
        requires
            old(self).wf(),
            y < 144,
        ensures
            final(self).wf(),
            final(self).framebuffer@ == old(self).spec_background_line(old(self).framebuffer@, y as int),
            pixels@.len() == 160,
            forall|x: int| 0 <= x < 160 ==> (#[trigger] pixels@[x]).color_index < 4,
            forall|x: int| 0 <= x < 160 ==> #[trigger] pixels@[x] == old(self).spec_line_pixel(
                x as u8,
                y as u8,
                old(self).window_line,
                old(self).scanline_registers@[y as int],
            ).0,
            final(self).window_line == if old(self).spec_window_used(y as int) {
                old(self).window_line.wrapping_add(1)
            } else {
                old(self).window_line
            },
            final(self).vram_banks == old(self).vram_banks,
            final(self).scanline_registers == old(self).scanline_registers,
            final(self).hardware_mode == old(self).hardware_mode,
            final(self).oam == old(self).oam,
            final(self).bg_palette_ram == old(self).bg_palette_ram,
            final(self).obj_palette_ram == old(self).obj_palette_ram,
            *final(self) == (PpuThread { framebuffer: final(self).framebuffer, window_line: final(self).window_line, ..*old(self) }),
    {
        let registers = self.scanline_registers[y];
        let bg_enabled = self.hardware_mode == HardwareMode::Cgb || registers.lcdc & LCDC_BG_ENABLE_MASK != 0;
        let window_line = self.window_line;
        let mut window_used = false;
        let mut pixels: Vec<BgPixel> = Vec::with_capacity(160);
        let ghost start = *old(self);
        let mut x: usize = 0;
        while x < 160
            invariant
                x <= 160,
                y < 144,
                self.wf(),
                start == *old(self),
                window_line == start.window_line,
                registers == start.scanline_registers@[y as int],
                bg_enabled == (start.is_cgb() || registers.lcdc & LCDC_BG_ENABLE_MASK != 0),
                self.window_line == start.window_line,
                self.vram_banks == start.vram_banks,
                self.scanline_registers == start.scanline_registers,
                self.hardware_mode == start.hardware_mode,
                self.oam == start.oam,
                self.bg_palette_ram == start.bg_palette_ram,
                self.obj_palette_ram == start.obj_palette_ram,
                *self == (PpuThread { framebuffer: self.framebuffer, window_line: self.window_line, ..start }),
                pixels@.len() == x,
                forall|k: int| 0 <= k < x ==> #[trigger] pixels@[k] == start.spec_line_pixel(k as u8, y as u8, window_line, registers).0,
                forall|k: int| 0 <= k < x ==> (#[trigger] pixels@[k]).color_index < 4,
                window_used == exists|k: int| 0 <= k < x && #[trigger] start.spec_line_pixel(k as u8, y as u8, window_line, registers).1,
                self.framebuffer@.len() == 92160,
                forall|i: int|
                    0 <= i < 92160 ==> #[trigger] self.framebuffer@[i] == if y * 640 <= i < y * 640 + x * 4 {
                        start.spec_bg_color(start.spec_line_pixel(((i - y * 640) / 4) as u8, y as u8, window_line, registers).0, registers)@[(i - y * 640) % 4]
                    } else {
                        start.framebuffer@[i]
                    },
            decreases 160 - x,
        {
            let (pixel, used) = if bg_enabled {
                self.background_pixel(x as u8, y as u8, window_line, registers)
            } else {
                (BgPixel::default(), false)
            };
            window_used = window_used || used;
            pixels.push(pixel);
            let rgba = if self.hardware_mode == HardwareMode::Cgb {
                cgb_palette_color(&self.bg_palette_ram, pixel.palette, pixel.color_index)
            } else {
                dmg_compat_bg_color(&self.bg_palette_ram, pixel.color_index, registers.bgp)
            };
            let ghost fb = self.framebuffer@;
            self.write_pixel(y * 160 + x, rgba);
            proof {
                assert forall|i: int| 0 <= i < 92160 implies #[trigger] self.framebuffer@[i] == if y * 640 <= i < y * 640 + (x + 1) * 4 {
                    start.spec_bg_color(start.spec_line_pixel(((i - y * 640) / 4) as u8, y as u8, window_line, registers).0, registers)@[(i - y * 640) % 4]
                } else {
                    start.framebuffer@[i]
                } by {
                    if (y * 160 + x) * 4 <= i < (y * 160 + x) * 4 + 4 {
                        assert((i - y * 640) / 4 == x);
                        assert((i - y * 640) % 4 == i - (y * 160 + x) * 4);
                    }
                }
                assert(window_used == exists|k: int| 0 <= k < x + 1 && #[trigger] start.spec_line_pixel(k as u8, y as u8, window_line, registers).1) by {
                    if used {
                        assert(start.spec_line_pixel(x as u8, y as u8, window_line, registers).1);
                    }
                }
            }
            x += 1;
        }
        if window_used {
            self.window_line = self.window_line.wrapping_add(1);
        }
        proof {
            assert(self.framebuffer@ =~= start.spec_background_line(start.framebuffer@, y as int));
            assert(window_used == start.spec_window_used(y as int));
        }
        pixels
    }
}

// ---------------------------------------------------------------------------
// Sprites
// ---------------------------------------------------------------------------

/// The top line of sprite `i` on screen.
pub open spec fn sprite_top(oam: Seq<u8>, i: int) -> int {
    oam[4 * i] as int - 16
}

/// Whether sprite `i`, `height` lines tall, covers line `y`.
pub open spec fn sprite_on_line(oam: Seq<u8>, i: int, y: int, height: int) -> bool {
    sprite_top(oam, i) <= y < sprite_top(oam, i) + height
}

/// The first sprites (at most ten, in OAM order) among the first `n` that cover line `y`.
pub open spec fn visible_upto(oam: Seq<u8>, y: int, height: int, n: int) -> Seq<usize>
    decreases n,
{
    if n <= 0 {
        Seq::empty()
    } else {
        let prior = visible_upto(oam, y, height, n - 1);
        if prior.len() < 10 && sprite_on_line(oam, n - 1, y, height) {
            prior.push((n - 1) as usize)
        } else {
            prior
        }
    }
}

/// DMG priority order: smaller X first, then smaller OAM index.
pub open spec fn sprite_leq(oam: Seq<u8>) -> spec_fn(usize, usize) -> bool {
    |a: usize, b: usize|
        oam[4 * a + 1] < oam[4 * b + 1] || (oam[4 * a + 1] == oam[4 * b + 1] && a <= b)
}

/// The DMG priority order is a total order on OAM indexes, so the order in
/// which sprites are drawn is fully determined.
pub proof fn lemma_sprite_leq_total(oam: Seq<u8>)
    ensures
        vstd::relations::total_ordering(sprite_leq(oam)),
{
}

proof fn lemma_visible_facts(oam: Seq<u8>, y: int, height: int, n: int)
    requires
        n <= 40,
    ensures
        visible_upto(oam, y, height, n).len() <= 10,
        forall|k: int|
            0 <= k < visible_upto(oam, y, height, n).len() ==> (#[trigger] visible_upto(oam, y, height, n)[k]) < n
                && sprite_on_line(oam, visible_upto(oam, y, height, n)[k] as int, y, height),
    decreases n,
{
    if n > 0 {
        lemma_visible_facts(oam, y, height, n - 1);
        let prior = visible_upto(oam, y, height, n - 1);
        let v = visible_upto(oam, y, height, n);
        assert forall|k: int| 0 <= k < v.len() implies (#[trigger] v[k]) < n && sprite_on_line(oam, v[k] as int, y, height) by {
            if k < prior.len() {
                assert(v[k] == prior[k]);
            }
        }
    }
}

proof fn lemma_visible_full(oam: Seq<u8>, y: int, height: int, n: int, m: int)
    requires
        n <= m,
        visible_upto(oam, y, height, n).len() == 10,
    ensures
        visible_upto(oam, y, height, m) == visible_upto(oam, y, height, n),
    decreases m - n,
{
    if n < m {
        lemma_visible_full(oam, y, height, n, m - 1);
    }
}

impl PpuThread {
    /// Whether the background hides a sprite pixel.
    pub open spec fn spec_sprite_hidden(&self, attributes: u8, bg: BgPixel, lcdc: u8) -> bool {
        if self.is_cgb() {
            if lcdc & LCDC_BG_ENABLE_MASK == 0 {
                false
            } else {
                bg.color_index != 0 && (bg.priority || attributes & SPRITE_ATTR_PRIORITY_MASK != 0)
            }
        } else {
            attributes & SPRITE_ATTR_PRIORITY_MASK != 0 && bg.color_index != 0
        }
    }

    pub fn sprite_hidden_by_background(&self, attributes: u8, bg_pixel: BgPixel, lcdc: u8) -> (hidden: bool)
        ensures
            hidden == self.spec_sprite_hidden(attributes, bg_pixel, lcdc),
    {
        if self.hardware_mode == HardwareMode::Cgb {
            if lcdc & LCDC_BG_ENABLE_MASK == 0 {
                return false;
            }
            bg_pixel.color_index != 0 && (bg_pixel.priority || attributes & SPRITE_ATTR_PRIORITY_MASK != 0)
        } else {
            attributes & SPRITE_ATTR_PRIORITY_MASK != 0 && bg_pixel.color_index != 0
        }
    }

    /// The colour that sprite `i` gives screen column `sx` of line `y`, if it
    /// draws there (not transparent, not hidden by the background).
    pub open spec fn spec_sprite_pixel(&self, i: int, y: int, height: int, bg: Seq<BgPixel>, r: ScanlineRegisters, sx: int) -> Option<[u8; 4]> {
        let oam = self.oam@;
        let base = 4 * i;
        let sprite_y = oam[base] as int - 16;
        let sprite_x = oam[base + 1] as int - 8;
        let tile = oam[base + 2];
        let attributes = oam[base + 3];
        let line = y - sprite_y;
        let row_in_sprite = if attributes & SPRITE_ATTR_Y_FLIP_MASK != 0 { height - 1 - line } else { line };
        let tile_number: u8 = if height == 16 { (tile & 0xfe).wrapping_add((row_in_sprite / 8) as u8) } else { tile };
        let row = if height == 16 { row_in_sprite % 8 } else { row_in_sprite };
        let bank = if self.is_cgb() && attributes & SPRITE_ATTR_BANK_MASK != 0 { 1int } else { 0int };
        let p = sx - sprite_x;
        if !(0 <= p < 8) {
            None
        } else {
            let tile_x = if attributes & SPRITE_ATTR_X_FLIP_MASK != 0 { 7 - p } else { p };
            let color = spec_tile_pixel(self.vram(bank), tile_number, row, tile_x, true);
            if color == 0 || self.spec_sprite_hidden(attributes, bg[sx], r.lcdc) {
                None
            } else if self.is_cgb() {
                Some(spec_cgb_palette_color(self.obj_palette_ram@, attributes & CGB_OBJ_ATTR_PALETTE_MASK, color))
            } else if attributes & SPRITE_ATTR_DMG_PALETTE_MASK != 0 {
                Some(spec_cgb_palette_color(self.obj_palette_ram@, 1, spec_map_palette(color, r.obp1)))
            } else {
                Some(spec_cgb_palette_color(self.obj_palette_ram@, 0, spec_map_palette(color, r.obp0)))
            }
        }
    }

    /// The framebuffer with sprite `i` drawn over line `y`.
    pub open spec fn spec_sprite_drawn(&self, fb: Seq<u8>, i: int, y: int, height: int, bg: Seq<BgPixel>, r: ScanlineRegisters) -> Seq<u8> {
        Seq::new(
            fb.len(),
            |k: int|
                if y * 640 <= k < y * 640 + 640 {
                    match self.spec_sprite_pixel(i, y, height, bg, r, (k - y * 640) / 4) {
                        Some(c) => c@[(k - y * 640) % 4],
                        None => fb[k],
                    }
                } else {
                    fb[k]
                },
        )
    }

    /// The framebuffer after drawing the last `k` sprites of `order`, last first.
    pub open spec fn spec_sprites_drawn(&self, fb: Seq<u8>, order: Seq<usize>, k: int, y: int, height: int, bg: Seq<BgPixel>, r: ScanlineRegisters) -> Seq<u8>
        decreases k,
    {
        if k <= 0 {
            fb
        } else {
            self.spec_sprite_drawn(
                self.spec_sprites_drawn(fb, order, k - 1, y, height, bg, r),
                order[order.len() - k] as int,
                y,
                height,
                bg,
                r,
            )
        }
    }

    /// Draws sprite `sprite_index` over line `y`.
    pub fn render_sprite_on_scanline(&mut self, sprite_index: usize, y: usize, sprite_height: usize, bg_pixels: &Vec<BgPixel>, registers: ScanlineRegisters)
        requires
            old(self).wf(),
            sprite_index < 40,
            y < 144,
            sprite_height == 8 || sprite_height == 16,
            sprite_on_line(old(self).oam@, sprite_index as int, y as int, sprite_height as int),
            bg_pixels@.len() == 160,
            forall|x: int| 0 <= x < 160 ==> #[trigger] bg_pixels@[x].color_index < 4,
        ensures
            final(self).wf(),
            final(self).framebuffer@ == old(self).spec_sprite_drawn(old(self).framebuffer@, sprite_index as int, y as int, sprite_height as int, bg_pixels@, registers),
            final(self).vram_banks == old(self).vram_banks,
            final(self).scanline_registers == old(self).scanline_registers,
            final(self).window_line == old(self).window_line,
            final(self).hardware_mode == old(self).hardware_mode,
            final(self).oam == old(self).oam,
            final(self).bg_palette_ram == old(self).bg_palette_ram,
            final(self).obj_palette_ram == old(self).obj_palette_ram,
            *final(self) == (PpuThread { framebuffer: final(self).framebuffer, ..*old(self) }),
    {
        let base = sprite_index * 4;
        let sprite_y = self.oam[base] as i16 - 16;
        let sprite_x = self.oam[base + 1] as i16 - 8;
        let tile = self.oam[base + 2];
        let attributes = self.oam[base + 3];
        let height = sprite_height as i16;
        let line = y as i16 - sprite_y;
        let row_in_sprite: i16 = if attributes & SPRITE_ATTR_Y_FLIP_MASK != 0 { height - 1 - line } else { line };
        let tile_number: u8 = if sprite_height == 16 { (tile & 0xfe).wrapping_add((row_in_sprite / 8) as u8) } else { tile };
        let row: usize = if sprite_height == 16 { (row_in_sprite % 8) as usize } else { row_in_sprite as usize };
        let bank: usize = if self.hardware_mode == HardwareMode::Cgb && attributes & SPRITE_ATTR_BANK_MASK != 0 { 1 } else { 0 };
        let ghost start = *old(self);
        let mut pixel: i16 = 0;
        while pixel < 8
            invariant
                0 <= pixel <= 8,
                self.wf(),
                start == *old(self),
                y < 144,
                sprite_index < 40,
                bg_pixels@.len() == 160,
                forall|x: int| 0 <= x < 160 ==> #[trigger] bg_pixels@[x].color_index < 4,
                base == 4 * sprite_index,
                sprite_y == start.oam@[base as int] as int - 16,
                sprite_x == start.oam@[base + 1] as int - 8,
                tile == start.oam@[base + 2],
                attributes == start.oam@[base + 3],
                height == sprite_height,
                line == y - sprite_y,
                0 <= line < height,
                row_in_sprite as int == if attributes & SPRITE_ATTR_Y_FLIP_MASK != 0 { height - 1 - line } else { line as int },
                tile_number == if sprite_height == 16 { (tile & 0xfe).wrapping_add((row_in_sprite / 8) as u8) } else { tile },
                row as int == if sprite_height == 16 { (row_in_sprite % 8) as int } else { row_in_sprite as int },
                row < 8,
                bank == if start.is_cgb() && attributes & SPRITE_ATTR_BANK_MASK != 0 { 1int } else { 0int },
                self.vram_banks == start.vram_banks,
                self.scanline_registers == start.scanline_registers,
                self.window_line == start.window_line,
                self.hardware_mode == start.hardware_mode,
                self.oam == start.oam,
                self.bg_palette_ram == start.bg_palette_ram,
                self.obj_palette_ram == start.obj_palette_ram,
                *self == (PpuThread { framebuffer: self.framebuffer, window_line: self.window_line, ..start }),
                forall|k: int|
                    0 <= k < 92160 ==> #[trigger] self.framebuffer@[k] == if y * 640 <= k < y * 640 + 640 && (k - y * 640) / 4 - sprite_x < pixel {
                        match start.spec_sprite_pixel(sprite_index as int, y as int, sprite_height as int, bg_pixels@, registers, (k - y * 640) / 4) {
                            Some(c) => c@[(k - y * 640) % 4],
                            None => start.framebuffer@[k],
                        }
                    } else {
                        start.framebuffer@[k]
                    },
            decreases 8 - pixel,
        {
            let screen_x = sprite_x + pixel;
            if 0 <= screen_x && screen_x < 160 {
                let tile_x: usize = if attributes & SPRITE_ATTR_X_FLIP_MASK != 0 { (7 - pixel) as usize } else { pixel as usize };
                let color = tile_pixel_in(&self.vram_banks[bank], tile_number, row, tile_x, true);
                if color != 0 {
                    let bg_pixel = bg_pixels[screen_x as usize];
                    if !self.sprite_hidden_by_background(attributes, bg_pixel, registers.lcdc) {
                        let rgba = if self.hardware_mode == HardwareMode::Cgb {
                            cgb_palette_color(&self.obj_palette_ram, attributes & CGB_OBJ_ATTR_PALETTE_MASK, color)
                        } else if attributes & SPRITE_ATTR_DMG_PALETTE_MASK != 0 {
                            dmg_compat_obj_color(&self.obj_palette_ram, 1, color, registers.obp1)
                        } else {
                            dmg_compat_obj_color(&self.obj_palette_ram, 0, color, registers.obp0)
                        };
                        self.write_pixel(y * 160 + screen_x as usize, rgba);
                    }
                }
            }
            proof {
                assert forall|k: int|
                    0 <= k < 92160 implies #[trigger] self.framebuffer@[k] == if y * 640 <= k < y * 640 + 640 && (k - y * 640) / 4 - sprite_x < pixel + 1 {
                        match start.spec_sprite_pixel(sprite_index as int, y as int, sprite_height as int, bg_pixels@, registers, (k - y * 640) / 4) {
                            Some(c) => c@[(k - y * 640) % 4],
                            None => start.framebuffer@[k],
                        }
                    } else {
                        start.framebuffer@[k]
                    } by {
                    if y * 640 <= k < y * 640 + 640 && (k - y * 640) / 4 == sprite_x + pixel {
                        assert((k - y * 640) % 4 == k - (y * 160 + sprite_x + pixel) * 4);
                    }
                }
            }
            pixel += 1;
        }
        proof {
            assert forall|k: int| 0 <= k < 92160 implies #[trigger] self.framebuffer@[k] == start.spec_sprite_drawn(start.framebuffer@, sprite_index as int, y as int, sprite_height as int, bg_pixels@, registers)[k] by {
                if y * 640 <= k < y * 640 + 640 && (k - y * 640) / 4 - sprite_x >= 8 {
                    assert(start.spec_sprite_pixel(sprite_index as int, y as int, sprite_height as int, bg_pixels@, registers, (k - y * 640) / 4) is None);
                }
            }
            assert(self.framebuffer@ =~= start.spec_sprite_drawn(start.framebuffer@, sprite_index as int, y as int, sprite_height as int, bg_pixels@, registers));
        }
    }
}

impl PpuThread {
    /// The sprite height that LCDC selects.
    pub open spec fn spec_sprite_height(lcdc: u8) -> int {
        if lcdc & LCDC_OBJ_SIZE_MASK != 0 { 16 } else { 8 }
    }

    /// `order` is the order in which the sprites of `visible` take priority:
    /// OAM order on CGB, by X then OAM index on DMG.
    pub open spec fn priority_order(&self, visible: Seq<usize>, order: Seq<usize>) -> bool {
        if self.is_cgb() {
            order == visible
        } else {
            vstd::relations::sorted_by(order, sprite_leq(self.oam@)) && order.to_multiset() == visible.to_multiset()
        }
    }

    /// The sprites on line `y`, in OAM order, at most ten.
    pub fn visible_sprites(&self, y: usize, height: usize) -> (visible: Vec<usize>)
        requires
            y < 144,
            height == 8 || height == 16,
        ensures
            visible@ == visible_upto(self.oam@, y as int, height as int, 40),
    {
        let mut visible: Vec<usize> = Vec::with_capacity(10);
        let mut i: usize = 0;
        while i < MAX_SPRITES
            invariant
                i <= 40,
                y < 144,
                height == 8 || height == 16,
                visible@ == visible_upto(self.oam@, y as int, height as int, i as int),
            decreases 40 - i,
        {
            proof {
                lemma_visible_facts(self.oam@, y as int, height as int, i as int);
            }
            let sprite_y = self.oam[i * 4] as i16 - 16;
            let yy = y as i16;
            if visible.len() < 10 && !(yy < sprite_y || yy >= sprite_y + height as i16) {
                visible.push(i);
            }
            i += 1;
        }
        visible
    }

    /// The sprites of `visible` sorted by X, then by OAM index.
    pub fn dmg_order(&self, visible: &Vec<usize>) -> (order: Vec<usize>)
        requires
            forall|k: int| 0 <= k < visible@.len() ==> #[trigger] visible@[k] < 40,
        ensures
            vstd::relations::sorted_by(order@, sprite_leq(self.oam@)),
            order@.to_multiset() == visible@.to_multiset(),
            order@.len() == visible@.len(),
            forall|k: int| 0 <= k < order@.len() ==> #[trigger] order@[k] < 40,
    {
        let ghost leq = sprite_leq(self.oam@);
        let mut order: Vec<usize> = Vec::with_capacity(10);
        assert(order@ =~= visible@.subrange(0, 0));
        let mut k: usize = 0;
        while k < visible.len()
            invariant
                k <= visible@.len(),
                forall|j: int| 0 <= j < visible@.len() ==> #[trigger] visible@[j] < 40,
                leq == sprite_leq(self.oam@),
                vstd::relations::sorted_by(order@, leq),
                order@.to_multiset() == visible@.subrange(0, k as int).to_multiset(),
                order@.len() == k,
                forall|j: int| 0 <= j < order@.len() ==> #[trigger] order@[j] < 40,
            decreases visible@.len() - k,
        {
            let e = visible[k];
            let ex = self.oam[e * 4 + 1];
            let mut pos: usize = 0;
            while pos < order.len() && !(self.oam[order[pos] * 4 + 1] > ex || (self.oam[order[pos] * 4 + 1] == ex && order[pos] > e))
                invariant
                    pos <= order@.len(),
                    e < 40,
                    ex == self.oam@[4 * e + 1],
                    forall|j: int| 0 <= j < order@.len() ==> #[trigger] order@[j] < 40,
                    forall|j: int| 0 <= j < pos ==> #[trigger] leq(order@[j], e),
                    leq == sprite_leq(self.oam@),
                decreases order@.len() - pos,
            {
                pos += 1;
            }
            let ghost before = order@;
            order.insert(pos, e);
            proof {
                assert(visible@.subrange(0, k + 1) =~= visible@.subrange(0, k as int).push(e));
                assert(order@ == before.insert(pos as int, e));
                vstd::seq_lib::to_multiset_insert(before, pos as int, e);
                vstd::seq_lib::to_multiset_build(visible@.subrange(0, k as int), e);
                assert forall|a: int, b: int| 0 <= a < b < order@.len() implies #[trigger] leq(order@[a], order@[b]) by {
                    if pos < before.len() {
                        assert(leq(e, before[pos as int]));
                    }
                    if a < pos && b == pos {
                    } else if a == pos && b > pos {
                        assert(leq(e, before[pos as int]));
                        assert(leq(before[pos as int], before[b - 1]) || pos == b - 1);
                    } else if a < pos && b > pos {
                        assert(leq(before[a], before[b - 1]));
                    } else if a > pos {
                        assert(leq(before[a - 1], before[b - 1]));
                    } else {
                        assert(leq(before[a], before[b]));
                    }
                }
            }
            k += 1;
        }
        assert(visible@.subrange(0, visible@.len() as int) =~= visible@);
        order
    }
}

impl PpuThread {
    /// Draws the sprites of line `y` over what is there, lowest priority first.
    pub fn render_scanline_sprites(&mut self, y: usize, bg_pixels: &Vec<BgPixel>, registers: ScanlineRegisters)
        requires
            old(self).wf(),
            y < 144,
            bg_pixels@.len() == 160,
            forall|x: int| 0 <= x < 160 ==> #[trigger] bg_pixels@[x].color_index < 4,
        ensures
            final(self).wf(),
            registers.lcdc & LCDC_OBJ_ENABLE_MASK == 0 ==> final(self).framebuffer@ == old(self).framebuffer@,
            registers.lcdc & LCDC_OBJ_ENABLE_MASK != 0 ==> exists|order: Seq<usize>| {
                &&& #[trigger] old(self).priority_order(visible_upto(old(self).oam@, y as int, Self::spec_sprite_height(registers.lcdc), 40), order)
                &&& final(self).framebuffer@ == old(self).spec_sprites_drawn(old(self).framebuffer@, order, order.len() as int, y as int, Self::spec_sprite_height(registers.lcdc), bg_pixels@, registers)
            },
            final(self).vram_banks == old(self).vram_banks,
            final(self).scanline_registers == old(self).scanline_registers,
            final(self).window_line == old(self).window_line,
            final(self).hardware_mode == old(self).hardware_mode,
            final(self).oam == old(self).oam,
            final(self).bg_palette_ram == old(self).bg_palette_ram,
            final(self).obj_palette_ram == old(self).obj_palette_ram,
            *final(self) == (PpuThread { framebuffer: final(self).framebuffer, ..*old(self) }),
    {
        if registers.lcdc & LCDC_OBJ_ENABLE_MASK == 0 {
            return;
        }
        let height: usize = if registers.lcdc & LCDC_OBJ_SIZE_MASK != 0 { 16 } else { 8 };
        let visible = self.visible_sprites(y, height);
        proof {
            lemma_visible_facts(self.oam@, y as int, height as int, 40);
        }
        let order = if self.hardware_mode == HardwareMode::Cgb { visible } else { self.dmg_order(&visible) };
        proof {
            if !self.is_cgb() {
                assert forall|k: int| 0 <= k < order@.len() implies sprite_on_line(self.oam@, #[trigger] order@[k] as int, y as int, height as int) by {
                    let e = order@[k];
                    assert(order@.contains(e));
                    vstd::seq_lib::to_multiset_contains(order@, e);
                    vstd::seq_lib::to_multiset_contains(visible@, e);
                    let j = choose|j: int| 0 <= j < visible@.len() && visible@[j] == e;
                    assert(visible@[j] == e);
                }
            }
        }
        let n = order.len();
        let ghost start = *old(self);
        let mut k: usize = 0;
        while k < n
            invariant
                k <= n,
                n == order@.len(),
                y < 144,
                height == Self::spec_sprite_height(registers.lcdc),
                self.wf(),
                start == *old(self),
                bg_pixels@.len() == 160,
                forall|x: int| 0 <= x < 160 ==> #[trigger] bg_pixels@[x].color_index < 4,
                forall|j: int| 0 <= j < n ==> (#[trigger] order@[j]) < 40 && sprite_on_line(start.oam@, order@[j] as int, y as int, height as int),
                self.vram_banks == start.vram_banks,
                self.scanline_registers == start.scanline_registers,
                self.window_line == start.window_line,
                self.hardware_mode == start.hardware_mode,
                self.oam == start.oam,
                self.bg_palette_ram == start.bg_palette_ram,
                self.obj_palette_ram == start.obj_palette_ram,
                *self == (PpuThread { framebuffer: self.framebuffer, window_line: self.window_line, ..start }),
                self.framebuffer@ == start.spec_sprites_drawn(start.framebuffer@, order@, k as int, y as int, height as int, bg_pixels@, registers),
            decreases n - k,
        {
            let index = order[n - 1 - k];
            self.render_sprite_on_scanline(index, y, height, bg_pixels, registers);
            k += 1;
        }
        assert(start.priority_order(visible_upto(start.oam@, y as int, height as int, 40), order@));
    }

    /// Draws line `y`: its background, then its sprites.
    pub fn render_scanline(&mut self, y: usize)
        requires
            old(self).wf(),
            y < 144,
        ensures
            final(self).wf(),
            ({
                let r = old(self).scanline_registers@[y as int];
                let bg_fb = old(self).spec_background_line(old(self).framebuffer@, y as int);
                let bg = Seq::new(160, |x: int| old(self).spec_line_pixel(x as u8, y as u8, old(self).window_line, r).0);
                &&& r.lcdc & LCDC_OBJ_ENABLE_MASK == 0 ==> final(self).framebuffer@ == bg_fb
                &&& r.lcdc & LCDC_OBJ_ENABLE_MASK != 0 ==> exists|order: Seq<usize>| {
                    &&& #[trigger] old(self).priority_order(visible_upto(old(self).oam@, y as int, Self::spec_sprite_height(r.lcdc), 40), order)
                    &&& final(self).framebuffer@ == old(self).spec_sprites_drawn(bg_fb, order, order.len() as int, y as int, Self::spec_sprite_height(r.lcdc), bg, r)
                }
            }),
            final(self).window_line == if old(self).spec_window_used(y as int) {
                old(self).window_line.wrapping_add(1)
            } else {
                old(self).window_line
            },
            final(self).vram_banks == old(self).vram_banks,
            final(self).scanline_registers == old(self).scanline_registers,
            final(self).hardware_mode == old(self).hardware_mode,
            final(self).oam == old(self).oam,
            final(self).bg_palette_ram == old(self).bg_palette_ram,
            final(self).obj_palette_ram == old(self).obj_palette_ram,
            *final(self) == (PpuThread { framebuffer: final(self).framebuffer, window_line: final(self).window_line, ..*old(self) }),
    {
        let registers = self.scanline_registers[y];
        let ghost start = *old(self);
        let pixels = self.render_background_line(y);
        let ghost mid = *self;
        assert(pixels@ =~= Seq::new(160, |x: int| start.spec_line_pixel(x as u8, y as u8, start.window_line, registers).0));
        self.render_scanline_sprites(y, &pixels, registers);
        proof {
            if registers.lcdc & LCDC_OBJ_ENABLE_MASK != 0 {
                let height = Self::spec_sprite_height(registers.lcdc);
                let order = choose|order: Seq<usize>| {
                    &&& #[trigger] mid.priority_order(visible_upto(mid.oam@, y as int, Self::spec_sprite_height(registers.lcdc), 40), order)
                    &&& self.framebuffer@ == mid.spec_sprites_drawn(mid.framebuffer@, order, order.len() as int, y as int, Self::spec_sprite_height(registers.lcdc), pixels@, registers)
                };
                lemma_sprites_drawn_same(mid, start, mid.framebuffer@, order, order.len() as int, y as int, height, pixels@, registers);
                assert(start.priority_order(visible_upto(start.oam@, y as int, height, 40), order));
            }
        }
    }
}

/// Drawing sprites depends only on OAM, VRAM, palettes and the mode.
proof fn lemma_sprites_drawn_same(
    a: PpuThread,
    b: PpuThread,
    fb: Seq<u8>,
    order: Seq<usize>,
    k: int,
    y: int,
    height: int,
    bg: Seq<BgPixel>,
    r: ScanlineRegisters,
)
    requires
        a.oam == b.oam,
        a.vram_banks == b.vram_banks,
        a.obj_palette_ram == b.obj_palette_ram,
        a.hardware_mode == b.hardware_mode,
    ensures
        a.spec_sprites_drawn(fb, order, k, y, height, bg, r) == b.spec_sprites_drawn(fb, order, k, y, height, bg, r),
    decreases k,
{
    if k > 0 {
        lemma_sprites_drawn_same(a, b, fb, order, k - 1, y, height, bg, r);
        let prior = a.spec_sprites_drawn(fb, order, k - 1, y, height, bg, r);
        assert(a.spec_sprite_drawn(prior, order[order.len() - k] as int, y, height, bg, r) =~= b.spec_sprite_drawn(
            prior,
            order[order.len() - k] as int,
            y,
            height,
            bg,
            r,
        ));
    }
}

// ---------------------------------------------------------------------------
// Modes, STAT and the LCD switch
// ---------------------------------------------------------------------------

/// The mode of the beam at dot `dots` of line `ly`: 2 (OAM scan), 3 (drawing),
/// 0 (HBlank) on visible lines, 1 (VBlank) below.
pub open spec fn spec_current_mode(ly: u8, dots: u16) -> u8 {
    if ly >= 144 {
        1
    } else if dots < 80 {
        2
    } else if dots < 252 {
        3
    } else {
        0
    }
}

/// STAT with its mode and coincidence bits brought up to date.
pub open spec fn spec_updated_stat(regs: Seq<u8>, dots: u16) -> u8 {
    let mode: u8 = if regs[0] & LCDC_ENABLE_MASK != 0 { spec_current_mode(regs[4], dots) } else { 0 };
    ((regs[1] & 0xf8) | 0x80 | mode | (if regs[4] == regs[5] { 0x04u8 } else { 0 })) as u8
}

/// The level of the STAT interrupt line for a STAT value.
pub open spec fn spec_stat_line(stat: u8) -> bool {
    let mode = stat & STAT_MODE_FLAG_MASK;
    (mode == 0 && stat & STAT_MODE0_INTERRUPT_MASK != 0) || (mode == 1 && stat & STAT_MODE1_INTERRUPT_MASK != 0) || (mode == 2
        && stat & STAT_MODE2_INTERRUPT_MASK != 0) || (stat & STAT_LYC_FLAG_MASK != 0 && stat & STAT_LYC_INTERRUPT_MASK != 0)
}

impl PpuThread {
    pub open spec fn spec_lcd_enabled(&self) -> bool {
        self.lcd_registers@[0] & LCDC_ENABLE_MASK != 0
    }

    pub fn lcd_enabled(&self) -> (enabled: bool)
        ensures
            enabled == self.spec_lcd_enabled(),
    {
        self.lcd_registers[LCDC_INDEX] & LCDC_ENABLE_MASK != 0
    }

    pub fn current_mode(&self) -> (mode: u8)
        ensures
            mode == spec_current_mode(self.lcd_registers@[4], self.dots_into_line),
    {
        let line = self.lcd_registers[LY_INDEX];
        if line >= VISIBLE_LINES {
            1
        } else if self.dots_into_line < MODE2_DOTS {
            2
        } else if self.dots_into_line < MODE2_DOTS + MODE3_DOTS {
            3
        } else {
            0
        }
    }

    /// Recomputes the STAT interrupt line; a rising edge while armed raises
    /// the STAT interrupt.
    pub fn refresh_stat_interrupt_line(&mut self)
        ensures
            ({
                let level = spec_stat_line(old(self).lcd_registers@[1]);
                &&& final(self).stat_interrupt_line == level
                &&& final(self).interrupt_flags.flags == if old(self).stat_interrupt_armed && level && !old(self).stat_interrupt_line {
                    old(self).interrupt_flags.flags | STAT_INTERRUPT_MASK
                } else {
                    old(self).interrupt_flags.flags
                }
                &&& *final(self) == (PpuThread {
                    stat_interrupt_line: final(self).stat_interrupt_line,
                    interrupt_flags: final(self).interrupt_flags,
                    ..*old(self)
                })
            }),
    {
        let stat = self.lcd_registers[STAT_INDEX];
        let mode = stat & STAT_MODE_FLAG_MASK;
        let coincidence = stat & STAT_LYC_FLAG_MASK != 0;
        let mode0 = mode == 0 && stat & STAT_MODE0_INTERRUPT_MASK != 0;
        let mode1 = mode == 1 && stat & STAT_MODE1_INTERRUPT_MASK != 0;
        let mode2 = mode == 2 && stat & STAT_MODE2_INTERRUPT_MASK != 0;
        let lyc = coincidence && stat & STAT_LYC_INTERRUPT_MASK != 0;
        let level = mode0 || mode1 || mode2 || lyc;
        if !self.stat_interrupt_armed {
            self.stat_interrupt_line = level;
            return;
        }
        if level && !self.stat_interrupt_line {
            self.interrupt_flags.set(STAT_INTERRUPT_MASK);
        }
        self.stat_interrupt_line = level;
    }

    /// Brings the mode and coincidence bits of STAT up to date and refreshes
    /// the STAT interrupt line.
    pub fn update_stat_mode(&mut self)
        ensures
            ({
                let stat = spec_updated_stat(old(self).lcd_registers@, old(self).dots_into_line);
                let level = spec_stat_line(stat);
                &&& final(self).lcd_registers@ == old(self).lcd_registers@.update(1, stat)
                &&& final(self).stat_interrupt_line == level
                &&& final(self).interrupt_flags.flags == if old(self).stat_interrupt_armed && level && !old(self).stat_interrupt_line {
                    old(self).interrupt_flags.flags | STAT_INTERRUPT_MASK
                } else {
                    old(self).interrupt_flags.flags
                }
                &&& *final(self) == (PpuThread {
                    lcd_registers: final(self).lcd_registers,
                    stat_interrupt_line: final(self).stat_interrupt_line,
                    interrupt_flags: final(self).interrupt_flags,
                    ..*old(self)
                })
            }),
    {
        let mode = if self.lcd_enabled() { self.current_mode() } else { 0 };
        let ly = self.lcd_registers[LY_INDEX];
        let lyc = self.lcd_registers[LYC_INDEX];
        let mut stat = self.lcd_registers[STAT_INDEX] & !(STAT_MODE_FLAG_MASK | STAT_LYC_FLAG_MASK);
        stat = stat | STAT_UNUSED_MASK | mode;
        if ly == lyc {
            stat = stat | STAT_LYC_FLAG_MASK;
        }
        let ghost old_stat = self.lcd_registers@[1];
        assert((old_stat & !(0x03u8 | 0x04u8)) == old_stat & 0xf8) by {
            lemma_byte_masks();
            lemma_word_masks();
        }
        assert(((old_stat & 0xf8) | 0x80 | mode) | 0x04 == (old_stat & 0xf8) | 0x80 | mode | 0x04) by {
            lemma_byte_masks();
            lemma_word_masks();
        }
        assert(((old_stat & 0xf8) | 0x80 | mode) | 0 == (old_stat & 0xf8) | 0x80 | mode) by {
            lemma_byte_masks();
            lemma_word_masks();
        }
        self.lcd_registers[STAT_INDEX] = stat;
        assert(self.lcd_registers@ =~= old(self).lcd_registers@.update(1, spec_updated_stat(old(self).lcd_registers@, old(self).dots_into_line)));
        self.refresh_stat_interrupt_line();
    }

    /// The LCD registers that the next scanline would be drawn with.
    pub open spec fn spec_captured(&self) -> ScanlineRegisters {
        let r = self.lcd_registers@;
        ScanlineRegisters { lcdc: r[0], scy: r[2], scx: r[3], bgp: r[7], obp0: r[8], obp1: r[9], wy: r[10], wx: r[11] }
    }

    pub fn capture_scanline_registers(&self) -> (r: ScanlineRegisters)
        ensures
            r == self.spec_captured(),
    {
        ScanlineRegisters {
            lcdc: self.lcd_registers[LCDC_INDEX],
            scy: self.lcd_registers[SCY_INDEX],
            scx: self.lcd_registers[SCX_INDEX],
            bgp: self.lcd_registers[BGP_INDEX],
            obp0: self.lcd_registers[OBP0_INDEX],
            obp1: self.lcd_registers[OBP1_INDEX],
            wy: self.lcd_registers[WY_INDEX],
            wx: self.lcd_registers[WX_INDEX],
        }
    }

    /// Latches the current registers for every line.
    pub fn refresh_scanline_defaults(&mut self)
        ensures
            forall|y: int| 0 <= y < 144 ==> #[trigger] final(self).scanline_registers@[y] == old(self).spec_captured(),
            *final(self) == (PpuThread { scanline_registers: final(self).scanline_registers, ..*old(self) }),
    {
        let registers = self.capture_scanline_registers();
        let mut y: usize = 0;
        while y < 144
            invariant
                y <= 144,
                registers == old(self).spec_captured(),
                forall|k: int| 0 <= k < y ==> #[trigger] self.scanline_registers@[k] == registers,
                *self == (PpuThread { scanline_registers: self.scanline_registers, ..*old(self) }),
            decreases 144 - y,
        {
            self.scanline_registers[y] = registers;
            y += 1;
        }
    }

    /// Reacts to a write of LCDC: switching the LCD off or on resets the line
    /// counter, the dot position, the window line and the STAT line.
    pub fn update_lcd_state(&mut self, was_enabled: bool)
        requires
            old(self).wf(),
        ensures
            final(self).wf(),
            !old(self).spec_lcd_enabled() ==> final(self).stat_interrupt_armed && final(self).window_line == 0
                && final(self).dots_into_line == 0 && final(self).report_dirty && final(self).framebuffer_dirty
                && final(self).report_framebuffer_pending,
            old(self).spec_lcd_enabled() && !was_enabled ==> !final(self).stat_interrupt_armed && final(self).window_line
                == 0 && final(self).dots_into_line == 0 && final(self).report_dirty,
            old(self).spec_lcd_enabled() && was_enabled ==> final(self).stat_interrupt_armed == old(self).stat_interrupt_armed
                && final(self).window_line == old(self).window_line && final(self).dots_into_line == old(self).dots_into_line,
            (!old(self).spec_lcd_enabled() || !was_enabled) ==> final(self).lcd_registers@[4] == 0,
            final(self).lcd_registers@[0] == old(self).lcd_registers@[0],
            final(self).lcd_registers@.len() == 12,
            final(self).vram_banks == old(self).vram_banks,
            final(self).oam == old(self).oam,
            final(self).framebuffer == old(self).framebuffer,
            final(self).frames == old(self).frames,
            final(self).dots == old(self).dots,
            final(self).hardware_mode == old(self).hardware_mode,
    {
        if !self.lcd_enabled() {
            self.lcd_registers[LY_INDEX] = 0;
            self.dots_into_line = 0;
            self.window_line = 0;
            self.stat_interrupt_line = false;
            self.stat_interrupt_armed = true;
            self.refresh_scanline_defaults();
            self.report_dirty = true;
            self.framebuffer_dirty = true;
            self.report_framebuffer_pending = true;
        } else if !was_enabled {
            self.lcd_registers[LY_INDEX] = 0;
            self.dots_into_line = 0;
            self.window_line = 0;
            self.stat_interrupt_line = false;
            self.stat_interrupt_armed = false;
            self.refresh_scanline_defaults();
            self.report_dirty = true;
        }
        self.update_stat_mode();
    }
}

// ---------------------------------------------------------------------------
// The beam
// ---------------------------------------------------------------------------

/// `new` is `old` after one dot of the beam (`step_one`): `step_dot`, then
/// the dot counted and published.
pub open spec fn one_dot(old: PpuThread, new: PpuThread) -> bool {
    exists|stepped: PpuThread|
        #![trigger dot_stepped(old, stepped)]
        dot_stepped(old, stepped) && new == (PpuThread {
            dots: (old.dots + 1) as u64,
            progress: PpuProgress { dots: (old.dots + 1) as u64 },
            ..stepped
        })
}

/// `new` is `old` after `n` dots of the beam.
pub open spec fn dots_run(old: PpuThread, new: PpuThread, n: nat) -> bool
    decreases n,
{
    if n == 0 {
        new == old
    } else {
        exists|mid: PpuThread|
            #![trigger one_dot(mid, new)]
            dots_run(old, mid, (n - 1) as nat) && one_dot(mid, new)
    }
}

/// What one dot (`step_dot`) took the PPU `old` to: `new`.
pub open spec fn dot_stepped(old: PpuThread, new: PpuThread) -> bool {
    &&& (new.wf())
    &&& (!old.spec_lcd_enabled() ==> new.lcd_registers@[4] == 0 && new.dots_into_line == 0
            && new.frames == old.frames && new.framebuffer == old.framebuffer)
    &&& (old.spec_lcd_enabled() ==> ({
            let d = (old.dots_into_line + 1) as u16;
            let ly = old.lcd_registers@[4];
            let wraps = d >= 456;
            let next_line: u8 = if wraps { ((ly + 1) % 154) as u8 } else { ly };
            &&& new.dots_into_line == if wraps { 0 } else { d }
            &&& new.lcd_registers@[4] == next_line
            &&& new.frames == if wraps && next_line == 144 { old.frames.wrapping_add(1) } else { old.frames }
            &&& (wraps && next_line == 144) ==> new.frame_publication_pending && new.report_dirty
                && new.interrupt_flags.flags & VBLANK_INTERRUPT_MASK != 0
            &&& (wraps && next_line == 0) ==> new.window_line == 0
            &&& (d == 252 && ly < 144) ==> new.scanline_registers@[ly as int] == old.spec_captured()
            &&& !(d == 252 && ly < 144) ==> new.framebuffer == old.framebuffer
                && new.scanline_registers == old.scanline_registers
        }))
    &&& (new.stat_interrupt_armed)
    &&& (new.lcd_registers@[1] & 0x80 != 0)
    &&& (new.clock == old.clock)
    &&& (new.vram_banks == old.vram_banks)
    &&& (new.oam == old.oam)
    &&& (new.dots == old.dots)
    &&& (new.hardware_mode == old.hardware_mode)
}

impl PpuThread {
    /// The HBlank DMA after the drawing of a visible line: a block becomes due
    /// where an HBlank transfer has blocks left; any other transfer is dropped.
    pub open spec fn hdma_at_hblank(h: Option<HdmaTransfer>) -> (Option<HdmaTransfer>, bool) {
        match h {
            Some(t) => if t.hblank_mode && t.remaining_blocks > 0 { (h, true) } else { (None, false) },
            None => (None, false),
        }
    }

    fn hblank_dma_point(&mut self)
        ensures
            (final(self).hdma, final(self).hblank_block_due) == (Self::hdma_at_hblank(old(self).hdma).0, Self::hdma_at_hblank(old(self).hdma).1 || old(self).hblank_block_due),
            *final(self) == (PpuThread { hdma: final(self).hdma, hblank_block_due: final(self).hblank_block_due, ..*old(self) }),
    {
        match self.hdma {
            Some(t) => {
                if t.hblank_mode && t.remaining_blocks > 0 {
                    self.hblank_block_due = true;
                } else {
                    self.hdma = None;
                }
            },
            None => {},
        }
    }

    /// Advances the beam by one dot. At the end of mode 3 of a visible line
    /// the line is latched and drawn; at the end of a line the line counter
    /// advances, and entering line 144 counts a frame and raises VBlank.
    pub fn step_dot(&mut self)
        requires
            old(self).wf(),
        ensures
            dot_stepped(*old(self), *final(self)),
    {
        if !self.lcd_enabled() {
            self.lcd_registers[LY_INDEX] = 0;
            self.dots_into_line = 0;
            proof {
                lemma_updated_stat_bit7(self.lcd_registers@, self.dots_into_line);
            }
            self.update_stat_mode();
            if !self.stat_interrupt_armed {
                self.stat_interrupt_armed = true;
                self.stat_interrupt_line = false;
            }
            return;
        }
        self.dots_into_line = self.dots_into_line + 1;
        let line = self.lcd_registers[LY_INDEX];
        if self.dots_into_line == MODE2_DOTS + MODE3_DOTS && line < VISIBLE_LINES {
            let registers = self.capture_scanline_registers();
            self.scanline_registers[line as usize] = registers;
            self.render_scanline(line as usize);
            self.hblank_dma_point();
        }
        if self.dots_into_line >= DOTS_PER_LINE {
            self.dots_into_line = 0;
            let next_line = (self.lcd_registers[LY_INDEX] + 1) % TOTAL_LINES;
            self.lcd_registers[LY_INDEX] = next_line;
            if next_line == VISIBLE_LINES {
                self.frames = self.frames.wrapping_add(1);
                self.frame_publication_pending = true;
                self.report_dirty = true;
                let ghost before_set = self.interrupt_flags.flags;
                self.interrupt_flags.set(VBLANK_INTERRUPT_MASK);
                assert((before_set | 0x01u8) & 0x01u8 != 0) by {
                    lemma_byte_masks();
                    lemma_word_masks();
                }
            }
            if next_line == 0 {
                self.window_line = 0;
            }
        }
        let ghost flags_before = self.interrupt_flags.flags;
        proof {
            lemma_updated_stat_bit7(self.lcd_registers@, self.dots_into_line);
        }
        self.update_stat_mode();
        proof {
            let f = flags_before;
            assert(f & 0x01 != 0 ==> (f | 0x02u8) & 0x01 != 0) by {
                lemma_byte_masks();
                lemma_word_masks();
            }
            assert((f | 0x01u8) & 0x01 != 0) by {
                lemma_byte_masks();
                lemma_word_masks();
            }
            assert(((f | 0x01u8) | 0x02u8) & 0x01 != 0) by {
                lemma_byte_masks();
                lemma_word_masks();
            }
        }
        if !self.stat_interrupt_armed {
            self.stat_interrupt_armed = true;
            self.stat_interrupt_line = false;
        }
    }
}

/// STAT as updated always has its unused top bit set.
pub proof fn lemma_updated_stat_bit7(regs: Seq<u8>, dots: u16)
    ensures
        spec_updated_stat(regs, dots) & 0x80 != 0,
{
    let a = regs[1];
    let m: u8 = if regs[0] & LCDC_ENABLE_MASK != 0 { spec_current_mode(regs[4], dots) } else { 0 };
    let c: u8 = if regs[4] == regs[5] { 0x04u8 } else { 0 };
    assert((((a & 0xf8) | 0x80 | m | c) & 0x80) != 0) by {
        lemma_byte_masks();
        lemma_word_masks();
    }
}

// ---------------------------------------------------------------------------
// Register and memory access
// ---------------------------------------------------------------------------

/// `v` after writing `bytes[k]` at offset `(dest + k) & 0x1FFF` for each
/// `k < n`, in order.
pub open spec fn dma_written(v: Seq<u8>, dest: u16, bytes: Seq<u8>, n: int) -> Seq<u8>
    decreases n,
{
    if n <= 0 {
        v
    } else {
        dma_written(v, dest, bytes, n - 1).update(((dest as int + n - 1) % 0x10000) % 0x2000, bytes[n - 1])
    }
}

pub proof fn lemma_dma_written_len(v: Seq<u8>, dest: u16, bytes: Seq<u8>, n: int)
    requires
        v.len() == 0x2000,
    ensures
        dma_written(v, dest, bytes, n).len() == v.len(),
    decreases n,
{
    if n > 0 {
        lemma_dma_written_len(v, dest, bytes, n - 1);
    }
}

/// The auto-increment of a palette index register after a data write.
pub open spec fn spec_advanced_palette_index(index: u8) -> u8 {
    if index & 0x80 != 0 { 0x80 | (((index + 1) as u8) & 0x3f) } else { index }
}

impl PpuThread {
    /// The answer to a read of a PPU address.
    pub open spec fn spec_register_read(&self, address: u16) -> ReadResult {
        let mode = if self.spec_lcd_enabled() { spec_current_mode(self.lcd_registers@[4], self.dots_into_line) } else { 0 };
        let dmg = !self.is_cgb();
        if 0x8000 <= address <= 0x9fff {
            if mode == 3 {
                ReadResult::Ready(0xff)
            } else {
                ReadResult::Ready(self.vram(self.selected_vram_bank as int)[address - 0x8000])
            }
        } else if 0xfe00 <= address <= 0xfe9f {
            if self.oam_dma is Some || mode >= 2 { ReadResult::Ready(0xff) } else { ReadResult::Ready(self.oam@[address - 0xfe00]) }
        } else if 0xff40 <= address <= 0xff4b {
            ReadResult::Ready(self.lcd_registers@[address - 0xff40])
        } else if address == 0xff4f {
            ReadResult::Ready(if dmg { 0xff } else { 0xfe | self.selected_vram_bank })
        } else if 0xff51 <= address <= 0xff55 && dmg {
            ReadResult::Ready(0xff)
        } else if 0xff51 <= address <= 0xff54 {
            ReadResult::Ready(self.hdma_registers@[address - 0xff51])
        } else if address == 0xff55 {
            ReadResult::Ready(
                match self.hdma {
                    Some(h) => if h.remaining_blocks == 0 { 0 } else { (h.remaining_blocks - 1) as u8 },
                    None => 0xff,
                },
            )
        } else if 0xff68 <= address <= 0xff6b && dmg {
            ReadResult::Ready(0xff)
        } else if address == 0xff68 {
            ReadResult::Ready(self.bg_palette_index)
        } else if address == 0xff69 {
            ReadResult::Ready(self.bg_palette_ram@[(self.bg_palette_index & 0x3f) as int])
        } else if address == 0xff6a {
            ReadResult::Ready(self.obj_palette_index)
        } else if address == 0xff6b {
            ReadResult::Ready(self.obj_palette_ram@[(self.obj_palette_index & 0x3f) as int])
        } else {
            ReadResult::NoData
        }
    }

    /// Reads a PPU address as things stand (VRAM blocked in mode 3, OAM in
    /// modes 2 and 3 and during OAM DMA).
    pub fn read_register(&self, address: u16) -> (r: ReadResult)
        requires
            self.wf(),
        ensures
            r == self.spec_register_read(address),
    {
        let mode = if self.lcd_enabled() { self.current_mode() } else { 0 };
        let dmg = self.hardware_mode == HardwareMode::DmgCompatibility;
        if 0x8000 <= address && address <= 0x9fff {
            if mode == 3 {
                ReadResult::Ready(0xff)
            } else {
                ReadResult::Ready(self.vram_banks[self.selected_vram_bank as usize][(address - 0x8000) as usize])
            }
        } else if 0xfe00 <= address && address <= 0xfe9f {
            if self.oam_dma.is_some() || mode >= 2 {
                ReadResult::Ready(0xff)
            } else {
                ReadResult::Ready(self.oam[(address - 0xfe00) as usize])
            }
        } else if 0xff40 <= address && address <= 0xff4b {
            ReadResult::Ready(self.lcd_registers[(address - 0xff40) as usize])
        } else if address == 0xff4f {
            ReadResult::Ready(if dmg { 0xff } else { 0xfe | self.selected_vram_bank })
        } else if 0xff51 <= address && address <= 0xff55 && dmg {
            ReadResult::Ready(0xff)
        } else if 0xff51 <= address && address <= 0xff54 {
            ReadResult::Ready(self.hdma_registers[(address - 0xff51) as usize])
        } else if address == 0xff55 {
            ReadResult::Ready(
                match self.hdma {
                    Some(h) => h.remaining_blocks.saturating_sub(1),
                    None => 0xff,
                },
            )
        } else if 0xff68 <= address && address <= 0xff6b && dmg {
            ReadResult::Ready(0xff)
        } else if address == 0xff68 {
            ReadResult::Ready(self.bg_palette_index)
        } else if address == 0xff69 {
            let raw: u8 = self.bg_palette_index;
            assert(raw & 0x3f < 64) by {
                lemma_byte_masks();
                lemma_word_masks();
            }
            ReadResult::Ready(self.bg_palette_ram[(raw & 0x3f) as usize])
        } else if address == 0xff6a {
            ReadResult::Ready(self.obj_palette_index)
        } else if address == 0xff6b {
            let raw: u8 = self.obj_palette_index;
            assert(raw & 0x3f < 64) by {
                lemma_byte_masks();
                lemma_word_masks();
            }
            ReadResult::Ready(self.obj_palette_ram[(raw & 0x3f) as usize])
        } else {
            ReadResult::NoData
        }
    }

    /// Starts an OAM DMA transfer of 160 bytes from `source_high << 8`.
    pub fn start_oam_dma(&mut self, source_high: u8)
        ensures
            final(self).oam_dma == Some(OamDmaTransfer { source_base: (source_high as u16) << 8u16, next_index: 0 }),
            *final(self) == (PpuThread { oam_dma: final(self).oam_dma, ..*old(self) }),
    {
        self.oam_dma = Some(OamDmaTransfer { source_base: (source_high as u16) << 8, next_index: 0 });
    }

    /// The bus address the running OAM DMA reads next, if one runs.
    pub fn oam_dma_next_source(&self) -> (address: Option<u16>)
        requires
            self.wf(),
        ensures
            self.oam_dma is None ==> address is None,
            self.oam_dma matches Some(d) ==> address == Some(d.source_base.wrapping_add(d.next_index as u16)),
    {
        match self.oam_dma {
            Some(d) => Some(d.source_base.wrapping_add(d.next_index as u16)),
            None => None,
        }
    }

    /// Stores the byte that the OAM DMA read; the transfer ends after 160 bytes.
    pub fn deliver_oam_dma_byte(&mut self, value: u8)
        requires
            old(self).wf(),
            old(self).oam_dma is Some,
        ensures
            final(self).wf(),
            ({
                let d = old(self).oam_dma->0;
                &&& final(self).oam@ == old(self).oam@.update(d.next_index as int, value)
                &&& final(self).oam_dma == if d.next_index + 1 >= 160 { None } else { Some(OamDmaTransfer { next_index: (d.next_index + 1) as usize, ..d }) }
            }),
            *final(self) == (PpuThread { oam: final(self).oam, oam_dma: final(self).oam_dma, ..*old(self) }),
    {
        let d = self.oam_dma.unwrap();
        self.oam[d.next_index] = value;
        let next = d.next_index + 1;
        self.oam_dma = if next >= OAM_SIZE { None } else { Some(OamDmaTransfer { next_index: next, ..d }) };
    }

    /// Writes `bytes` into the selected VRAM bank from `destination` on, each
    /// offset wrapping within the bank.
    fn write_dma_bytes(&mut self, destination: u16, bytes: &[u8])
        requires
            old(self).wf(),
        ensures
            final(self).wf(),
            final(self).vram(old(self).selected_vram_bank as int) == dma_written(
                old(self).vram(old(self).selected_vram_bank as int),
                destination,
                bytes@,
                bytes@.len() as int,
            ),
            final(self).vram(1 - old(self).selected_vram_bank) == old(self).vram(1 - old(self).selected_vram_bank),
            *final(self) == (PpuThread { vram_banks: final(self).vram_banks, ..*old(self) }),
    {
        let bank = self.selected_vram_bank as usize;
        let mut k: usize = 0;
        let mut address: u16 = destination;
        while k < bytes.len()
            invariant
                k <= bytes@.len(),
                bank == old(self).selected_vram_bank,
                old(self).wf(),
                self.wf(),
                address as int == (destination as int + k) % 0x10000,
                self.vram(bank as int) == dma_written(old(self).vram(bank as int), destination, bytes@, k as int),
                self.vram(1 - bank) == old(self).vram(1 - bank),
                *self == (PpuThread { vram_banks: self.vram_banks, ..*old(self) }),
            decreases bytes@.len() - k,
        {
            let offset = (address & 0x1fff) as usize;
            proof {
                lemma_dma_written_len(old(self).vram(bank as int), destination, bytes@, k as int);
                assert(address & 0x1fff < 0x2000) by {
                    lemma_byte_masks();
                    lemma_word_masks();
                }
                assert(address & 0x1fff == address % 0x2000) by {
                    lemma_byte_masks();
                    lemma_word_masks();
                }
            }
            self.write_vram(bank, offset, bytes[k]);
            address = address.wrapping_add(1);
            k += 1;
        }
    }

    /// The source of the HBlank DMA block that is due, if one is.
    pub fn hblank_block_source(&self) -> (source: Option<u16>)
        ensures
            self.hblank_block_due && self.hdma is Some ==> source == Some(self.hdma->0.source),
            !(self.hblank_block_due && self.hdma is Some) ==> source is None,
    {
        if self.hblank_block_due {
            match self.hdma {
                Some(h) => Some(h.source),
                None => None,
            }
        } else {
            None
        }
    }

    /// Copies the 16 bytes of the due HBlank block into VRAM and moves the
    /// transfer on by one block; it ends when no block is left.
    pub fn transfer_hblank_block(&mut self, bytes: &[u8])
        requires
            old(self).wf(),
            old(self).hblank_block_due,
            old(self).hdma matches Some(h) && h.remaining_blocks > 0,
            bytes@.len() == 16,
        ensures
            final(self).wf(),
            ({
                let h = old(self).hdma->0;
                &&& final(self).vram(old(self).selected_vram_bank as int) == dma_written(
                    old(self).vram(old(self).selected_vram_bank as int),
                    h.destination,
                    bytes@,
                    16,
                )
                &&& final(self).hdma == if h.remaining_blocks - 1 > 0 {
                    Some(HdmaTransfer {
                        source: h.source.wrapping_add(16),
                        destination: h.destination.wrapping_add(16),
                        remaining_blocks: (h.remaining_blocks - 1) as u8,
                        hblank_mode: h.hblank_mode,
                    })
                } else {
                    None
                }
            }),
            !final(self).hblank_block_due,
            *final(self) == (PpuThread { vram_banks: final(self).vram_banks, hdma: final(self).hdma, hblank_block_due: false, ..*old(self) }),
    {
        let h = self.hdma.unwrap();
        self.write_dma_bytes(h.destination, bytes);
        let remaining = h.remaining_blocks - 1;
        self.hdma = if remaining > 0 {
            Some(HdmaTransfer {
                source: h.source.wrapping_add(16),
                destination: h.destination.wrapping_add(16),
                remaining_blocks: remaining,
                hblank_mode: h.hblank_mode,
            })
        } else {
            None
        };
        self.hblank_block_due = false;
    }

    /// Completes a general-purpose DMA with the `16 * blocks` bytes read from its source.
    pub fn complete_gp_dma(&mut self, bytes: &[u8])
        requires
            old(self).wf(),
            old(self).pending_gp_dma matches Some(t) && bytes@.len() == 16 * t.remaining_blocks,
        ensures
            final(self).wf(),
            final(self).vram(old(self).selected_vram_bank as int) == dma_written(
                old(self).vram(old(self).selected_vram_bank as int),
                old(self).pending_gp_dma->0.destination,
                bytes@,
                bytes@.len() as int,
            ),
            final(self).pending_gp_dma is None,
            final(self).hdma is None,
            *final(self) == (PpuThread { vram_banks: final(self).vram_banks, hdma: None, pending_gp_dma: None, ..*old(self) }),
    {
        let t = self.pending_gp_dma.unwrap();
        self.write_dma_bytes(t.destination, bytes);
        self.hdma = None;
        self.pending_gp_dma = None;
    }

    /// A write of HDMA5: in DMG mode nothing; clearing bit 7 cancels a running
    /// HBlank transfer; otherwise a transfer of `(control & 0x7F) + 1` blocks
    /// starts, per HBlank (bit 7 set) or all at once.
    pub fn start_hdma(&mut self, control: u8)
        requires
            old(self).wf(),
        ensures
            final(self).wf(),
            ({
                let r = old(self).hdma_registers@;
                let source = (((r[0] as u16) << 8u16) | (r[1] as u16)) & 0xfff0;
                let destination = (((r[2] as u16) << 8u16) | (r[3] as u16)) & 0x1ff0;
                let t = HdmaTransfer {
                    source,
                    destination: 0x8000 | destination,
                    remaining_blocks: ((control & 0x7f) + 1) as u8,
                    hblank_mode: control & 0x80 != 0,
                };
                if !old(self).is_cgb() {
                    *final(self) == *old(self)
                } else if control & 0x80 == 0 && (old(self).hdma matches Some(h) && h.hblank_mode) {
                    *final(self) == (PpuThread { hdma: None, ..*old(self) })
                } else if control & 0x80 != 0 {
                    *final(self) == (PpuThread { hdma: Some(t), ..*old(self) })
                } else {
                    *final(self) == (PpuThread { hdma: None, pending_gp_dma: Some(t), ..*old(self) })
                }
            }),
    {
        if self.hardware_mode == HardwareMode::DmgCompatibility {
            return;
        }
        if control & 0x80 == 0 {
            match self.hdma {
                Some(h) => {
                    if h.hblank_mode {
                        self.hdma = None;
                        return;
                    }
                },
                None => {},
            }
        }
        let source = (((self.hdma_registers[0] as u16) << 8) | (self.hdma_registers[1] as u16)) & 0xfff0;
        let destination = (((self.hdma_registers[2] as u16) << 8) | (self.hdma_registers[3] as u16)) & 0x1ff0;
        assert(control & 0x7f < 128) by {
            lemma_byte_masks();
            lemma_word_masks();
        }
        let blocks = (control & 0x7f) + 1;
        let t = HdmaTransfer { source, destination: 0x8000 | destination, remaining_blocks: blocks, hblank_mode: control & 0x80 != 0 };
        if control & 0x80 != 0 {
            self.hdma = Some(t);
        } else {
            self.hdma = None;
            self.pending_gp_dma = Some(t);
        }
    }

    pub fn advance_bg_palette_index(&mut self)
        requires
            old(self).bg_palette_index <= 0xbf,
        ensures
            final(self).bg_palette_index == spec_advanced_palette_index(old(self).bg_palette_index),
            final(self).bg_palette_index <= 0xbf,
            *final(self) == (PpuThread { bg_palette_index: final(self).bg_palette_index, ..*old(self) }),
    {
        let index = self.bg_palette_index;
        if index & 0x80 != 0 {
            self.bg_palette_index = 0x80 | ((index + 1) & 0x3f);
        }
        assert(index <= 0xbf ==> spec_advanced_palette_index(index) <= 0xbf) by {
            lemma_byte_masks();
            lemma_word_masks();
        }
    }

    pub fn advance_obj_palette_index(&mut self)
        requires
            old(self).obj_palette_index <= 0xbf,
        ensures
            final(self).obj_palette_index == spec_advanced_palette_index(old(self).obj_palette_index),
            final(self).obj_palette_index <= 0xbf,
            *final(self) == (PpuThread { obj_palette_index: final(self).obj_palette_index, ..*old(self) }),
    {
        let index = self.obj_palette_index;
        if index & 0x80 != 0 {
            self.obj_palette_index = 0x80 | ((index + 1) & 0x3f);
        }
        assert(index <= 0xbf ==> spec_advanced_palette_index(index) <= 0xbf) by {
            lemma_byte_masks();
            lemma_word_masks();
        }
    }
}

impl PpuThread {
    /// Takes a write to a PPU address. VRAM writes are dropped in mode 3, OAM
    /// writes in modes 2 and 3 and during OAM DMA; LCDC, STAT, LY, LYC, DMA,
    /// VBK, HDMA and the palette ports have their side effects.
    #[verifier::rlimit(100)]
    #[verifier::spinoff_prover]
    pub fn handle_write(&mut self, address: u16, value: u8) -> (r: WriteResult)
        requires
            old(self).wf(),
        ensures
            final(self).wf(),
            ({
                let o = *old(self);
                let mode = if o.spec_lcd_enabled() { spec_current_mode(o.lcd_registers@[4], o.dots_into_line) } else { 0 };
                let dmg = !o.is_cgb();
                if 0x8000 <= address <= 0x9fff {
                    &&& r == WriteResult::Accepted
                    &&& final(self).vram(o.selected_vram_bank as int) == if mode != 3 {
                        o.vram(o.selected_vram_bank as int).update(address - 0x8000, value)
                    } else {
                        o.vram(o.selected_vram_bank as int)
                    }
                    &&& final(self).vram(1 - o.selected_vram_bank) == o.vram(1 - o.selected_vram_bank)
                    &&& *final(self) == (PpuThread { vram_banks: final(self).vram_banks, ..o })
                } else if 0xfe00 <= address <= 0xfe9f {
                    &&& r == WriteResult::Accepted
                    &&& final(self).oam@ == if o.oam_dma is None && mode < 2 { o.oam@.update(address - 0xfe00, value) } else { o.oam@ }
                    &&& *final(self) == (PpuThread { oam: final(self).oam, ..o })
                } else if address == 0xff40 {
                    &&& r == WriteResult::Accepted
                    &&& final(self).lcd_registers@[0] == value
                    &&& final(self).framebuffer_dirty && final(self).report_dirty
                    &&& final(self).vram_banks == o.vram_banks && final(self).oam == o.oam
                } else if address == 0xff41 {
                    let stat = (0x80 | (value & 0x78) | (o.lcd_registers@[1] & 0x07)) as u8;
                    &&& r == WriteResult::Accepted
                    &&& final(self).lcd_registers@ == o.lcd_registers@.update(1, stat)
                    &&& final(self).stat_interrupt_line == spec_stat_line(stat)
                    &&& final(self).interrupt_flags.flags == if o.stat_interrupt_armed && spec_stat_line(stat) && !o.stat_interrupt_line {
                        o.interrupt_flags.flags | STAT_INTERRUPT_MASK
                    } else {
                        o.interrupt_flags.flags
                    }
                    &&& *final(self) == (PpuThread {
                        lcd_registers: final(self).lcd_registers,
                        stat_interrupt_line: final(self).stat_interrupt_line,
                        interrupt_flags: final(self).interrupt_flags,
                        ..o
                    })
                } else if address == 0xff44 || address == 0xff45 {
                    let regs = if address == 0xff44 { o.lcd_registers@.update(4, 0) } else { o.lcd_registers@.update(5, value) };
                    let dots: u16 = if address == 0xff44 { 0 } else { o.dots_into_line };
                    let stat = spec_updated_stat(regs, dots);
                    &&& r == WriteResult::Accepted
                    &&& final(self).lcd_registers@ == regs.update(1, stat)
                    &&& final(self).dots_into_line == dots
                    &&& final(self).stat_interrupt_line == spec_stat_line(stat)
                    &&& *final(self) == (PpuThread {
                        lcd_registers: final(self).lcd_registers,
                        dots_into_line: dots,
                        stat_interrupt_line: final(self).stat_interrupt_line,
                        interrupt_flags: final(self).interrupt_flags,
                        ..o
                    })
                } else if address == 0xff46 {
                    &&& r == WriteResult::Accepted
                    &&& final(self).lcd_registers@ == o.lcd_registers@.update(6, value)
                    &&& final(self).oam_dma == Some(OamDmaTransfer { source_base: (value as u16) << 8u16, next_index: 0 })
                    &&& *final(self) == (PpuThread { lcd_registers: final(self).lcd_registers, oam_dma: final(self).oam_dma, ..o })
                } else if address == 0xff42 || address == 0xff43 || 0xff47 <= address <= 0xff4b {
                    &&& r == WriteResult::Accepted
                    &&& final(self).lcd_registers@ == o.lcd_registers@.update(address - 0xff40, value)
                    &&& *final(self) == (PpuThread { lcd_registers: final(self).lcd_registers, ..o })
                } else if dmg && (address == 0xff4f || 0xff51 <= address <= 0xff55 || 0xff68 <= address <= 0xff6b) {
                    r == WriteResult::Accepted && *final(self) == o
                } else if address == 0xff4f {
                    r == WriteResult::Accepted && *final(self) == (PpuThread { selected_vram_bank: value & 0x01, ..o })
                } else if 0xff51 <= address <= 0xff54 {
                    &&& r == WriteResult::Accepted
                    &&& final(self).hdma_registers@ == o.hdma_registers@.update(address - 0xff51, value)
                    &&& *final(self) == (PpuThread { hdma_registers: final(self).hdma_registers, ..o })
                } else if address == 0xff55 {
                    &&& r == WriteResult::Accepted
                    &&& final(self).hdma_registers@ == o.hdma_registers@.update(4, value)
                } else if address == 0xff68 {
                    r == WriteResult::Accepted && *final(self) == (PpuThread { bg_palette_index: value & 0xbf, ..o })
                } else if address == 0xff69 {
                    &&& r == WriteResult::Accepted
                    &&& final(self).bg_palette_ram@ == o.bg_palette_ram@.update((o.bg_palette_index & 0x3f) as int, value)
                    &&& final(self).bg_palette_index == spec_advanced_palette_index(o.bg_palette_index)
                    &&& *final(self) == (PpuThread { bg_palette_ram: final(self).bg_palette_ram, bg_palette_index: final(self).bg_palette_index, ..o })
                } else if address == 0xff6a {
                    r == WriteResult::Accepted && *final(self) == (PpuThread { obj_palette_index: value & 0xbf, ..o })
                } else if address == 0xff6b {
                    &&& r == WriteResult::Accepted
                    &&& final(self).obj_palette_ram@ == o.obj_palette_ram@.update((o.obj_palette_index & 0x3f) as int, value)
                    &&& final(self).obj_palette_index == spec_advanced_palette_index(o.obj_palette_index)
                    &&& *final(self) == (PpuThread { obj_palette_ram: final(self).obj_palette_ram, obj_palette_index: final(self).obj_palette_index, ..o })
                } else {
                    r == WriteResult::NoData && *final(self) == o
                }
            }),
    {
        let mode = if self.lcd_enabled() { self.current_mode() } else { 0 };
        let dmg = self.hardware_mode == HardwareMode::DmgCompatibility;
        if 0x8000 <= address && address <= 0x9fff {
            if mode != 3 {
                let bank = self.selected_vram_bank as usize;
                self.write_vram(bank, (address - 0x8000) as usize, value);
            }
            WriteResult::Accepted
        } else if 0xfe00 <= address && address <= 0xfe9f {
            if self.oam_dma.is_none() && mode < 2 {
                self.oam[(address - 0xfe00) as usize] = value;
            }
            WriteResult::Accepted
        } else if address == 0xff40 {
            let was_enabled = self.lcd_enabled();
            self.lcd_registers[LCDC_INDEX] = value;
            self.update_lcd_state(was_enabled);
            self.framebuffer_dirty = true;
            self.report_dirty = true;
            WriteResult::Accepted
        } else if address == 0xff41 {
            let mode_flags = self.lcd_registers[STAT_INDEX] & (STAT_MODE_FLAG_MASK | STAT_LYC_FLAG_MASK);
            self.lcd_registers[STAT_INDEX] = STAT_UNUSED_MASK | (value & 0x78) | mode_flags;
            let ghost o1 = old(self).lcd_registers@[1];
            assert((o1 & (0x03u8 | 0x04u8)) == o1 & 0x07) by {
                lemma_byte_masks();
                lemma_word_masks();
            }
            self.refresh_stat_interrupt_line();
            WriteResult::Accepted
        } else if address == 0xff44 {
            self.lcd_registers[LY_INDEX] = 0;
            self.dots_into_line = 0;
            self.update_stat_mode();
            WriteResult::Accepted
        } else if address == 0xff45 {
            self.lcd_registers[LYC_INDEX] = value;
            self.update_stat_mode();
            WriteResult::Accepted
        } else if address == 0xff46 {
            self.lcd_registers[6] = value;
            self.start_oam_dma(value);
            WriteResult::Accepted
        } else if address == 0xff42 || address == 0xff43 || (0xff47 <= address && address <= 0xff4b) {
            self.lcd_registers[(address - 0xff40) as usize] = value;
            WriteResult::Accepted
        } else if dmg && (address == 0xff4f || (0xff51 <= address && address <= 0xff55) || (0xff68 <= address && address <= 0xff6b)) {
            WriteResult::Accepted
        } else if address == 0xff4f {
            self.selected_vram_bank = value & 0x01;
            assert(value & 0x01 <= 1) by {
                lemma_byte_masks();
                lemma_word_masks();
            }
            WriteResult::Accepted
        } else if 0xff51 <= address && address <= 0xff54 {
            self.hdma_registers[(address - 0xff51) as usize] = value;
            WriteResult::Accepted
        } else if address == 0xff55 {
            self.hdma_registers[4] = value;
            self.start_hdma(value);
            WriteResult::Accepted
        } else if address == 0xff68 {
            self.bg_palette_index = sanitize_palette_index(value);
            assert(value & 0xbf <= 0xbf) by {
                lemma_byte_masks();
                lemma_word_masks();
            }
            WriteResult::Accepted
        } else if address == 0xff69 {
            let raw: u8 = self.bg_palette_index;
            assert(raw & 0x3f < 64) by {
                lemma_byte_masks();
                lemma_word_masks();
            }
            self.bg_palette_ram[(raw & 0x3f) as usize] = value;
            self.advance_bg_palette_index();
            WriteResult::Accepted
        } else if address == 0xff6a {
            self.obj_palette_index = sanitize_palette_index(value);
            assert(value & 0xbf <= 0xbf) by {
                lemma_byte_masks();
                lemma_word_masks();
            }
            WriteResult::Accepted
        } else if address == 0xff6b {
            let raw: u8 = self.obj_palette_index;
            assert(raw & 0x3f < 64) by {
                lemma_byte_masks();
                lemma_word_masks();
            }
            self.obj_palette_ram[(raw & 0x3f) as usize] = value;
            self.advance_obj_palette_index();
            WriteResult::Accepted
        } else {
            WriteResult::NoData
        }
    }
}

// ---------------------------------------------------------------------------
// Running, framebuffer and publication
// ---------------------------------------------------------------------------

impl PpuThread {
    /// Builds the PPU from its initial state; a recycled framebuffer is taken
    /// as the spare where one is waiting.
    pub fn from_init_state(
        init_state: PpuInitState,
        interrupt_flags: InterruptFlags,
        clock: MasterClock,
        frame_ready: std::sync::mpsc::SyncSender<PublishedFrame>,
        frame_recycle: std::sync::mpsc::Receiver<Vec<u8>>,
    ) -> (ppu: Self)
        requires
            init_state.selected_vram_bank <= 1,
            init_state.lcd_registers@[4] < 154,
            init_state.framebuffer@.len() == 92160,
        ensures
            ppu.wf(),
            ppu.dots == 0 && ppu.frames == 0 && ppu.dots_into_line == 0,
            ppu.hardware_mode == init_state.hardware_mode,
            ppu.selected_vram_bank == init_state.selected_vram_bank,
            ppu.oam == init_state.oam,
            ppu.hdma_registers == init_state.hdma_registers,
            ppu.bg_palette_index == init_state.bg_palette_index & 0xbf,
            ppu.obj_palette_index == init_state.obj_palette_index & 0xbf,
            ppu.bg_palette_ram == init_state.bg_palette_ram,
            ppu.obj_palette_ram == init_state.obj_palette_ram,
            ppu.framebuffer@ == init_state.framebuffer@,
            ppu.vram(0) == Seq::new(0x2000, |i: int| 0u8) && ppu.vram(1) == Seq::new(0x2000, |i: int| 0u8),
            ppu.lcd_registers@[0] == init_state.lcd_registers@[0],
            ppu.lcd_registers@[1] & 0x80 != 0,
            ppu.stat_interrupt_armed,
            ppu.report_dirty && ppu.framebuffer_dirty && ppu.frame_publication_pending && !ppu.report_framebuffer_pending,
            ppu.oam_dma is None && ppu.hdma is None && ppu.pending_gp_dma is None && !ppu.hblank_block_due,
            ppu.window_line == 0,
    {
        let spare = match channel_try_recv(&frame_recycle) {
            Received::Value(fb) => Some(fb),
            _ => None,
        };
        let bank0 = vec![0u8; VRAM_BANK_SIZE];
        let bank1 = vec![0u8; VRAM_BANK_SIZE];
        assert(bank0@ =~= Seq::new(0x2000, |i: int| 0u8));
        assert(bank1@ =~= Seq::new(0x2000, |i: int| 0u8));
        let mut vram_banks: Vec<Vec<u8>> = Vec::with_capacity(2);
        vram_banks.push(bank0);
        vram_banks.push(bank1);
        let bgi: u8 = init_state.bg_palette_index;
        let obi: u8 = init_state.obj_palette_index;
        assert(bgi & 0xbf <= 0xbf && obi & 0xbf <= 0xbf) by {
            lemma_byte_masks();
            lemma_word_masks();
        }
        let mut ppu = PpuThread {
            clock,
            interrupt_flags,
            dots: 0,
            hardware_mode: init_state.hardware_mode,
            vram_banks,
            selected_vram_bank: init_state.selected_vram_bank,
            oam: init_state.oam,
            lcd_registers: init_state.lcd_registers,
            hdma_registers: init_state.hdma_registers,
            bg_palette_index: sanitize_palette_index(init_state.bg_palette_index),
            obj_palette_index: sanitize_palette_index(init_state.obj_palette_index),
            bg_palette_ram: init_state.bg_palette_ram,
            obj_palette_ram: init_state.obj_palette_ram,
            framebuffer: init_state.framebuffer,
            framebuffer_spare: spare,
            pending_published_frame: None,
            frame_ready,
            frame_recycle,
            frames: 0,
            dots_into_line: 0,
            stat_interrupt_line: false,
            stat_interrupt_armed: true,
            report_dirty: true,
            framebuffer_dirty: true,
            frame_publication_pending: true,
            report_framebuffer_pending: false,
            oam_dma: None,
            hdma: None,
            pending_gp_dma: None,
            hblank_block_due: false,
            scanline_registers: [ScanlineRegisters { lcdc: 0, scy: 0, scx: 0, bgp: 0, obp0: 0, obp1: 0, wy: 0, wx: 0 }; 144],
            window_line: 0,
            progress: PpuProgress::new(),
        };
        ppu.lcd_registers[STAT_INDEX] = ppu.lcd_registers[STAT_INDEX] | STAT_UNUSED_MASK;
        ppu.refresh_scanline_defaults();
        proof {
            lemma_updated_stat_bit7(ppu.lcd_registers@, ppu.dots_into_line);
        }
        ppu.update_stat_mode();
        ppu
    }

    /// One dot of the beam, counted.
    pub fn step_one(&mut self)
        requires
            old(self).wf(),
            old(self).dots < u64::MAX,
        ensures
            final(self).wf(),
            final(self).dots == old(self).dots + 1,
            final(self).progress.dots == final(self).dots,
            final(self).clock == old(self).clock,
            one_dot(*old(self), *final(self)),
    {
        self.step_dot();
        let ghost stepped = *self;
        self.dots = self.dots + 1;
        let dots = self.dots;
        self.progress.set(dots);
        assert(dot_stepped(*old(self), stepped));
    }

    /// Runs the beam until it reaches the master clock.
    pub fn chase_clock(&mut self)
        requires
            old(self).wf(),
        ensures
            final(self).wf(),
            final(self).dots == if old(self).dots < old(self).clock.target_cycle { old(self).clock.target_cycle } else { old(self).dots },
            final(self).clock == old(self).clock,
            dots_run(*old(self), *final(self), (final(self).dots - old(self).dots) as nat),
    {
        let target = self.clock.target();
        while self.dots < target
            invariant
                self.wf(),
                target == old(self).clock.target_cycle,
                self.clock == old(self).clock,
                old(self).dots < target ==> self.dots <= target,
                old(self).dots >= target ==> self.dots == old(self).dots,
                old(self).dots <= self.dots,
                dots_run(*old(self), *self, (self.dots - old(self).dots) as nat),
            decreases target - self.dots,
        {
            let ghost before = *self;
            self.step_one();
            assert(dots_run(*old(self), *self, (self.dots - old(self).dots) as nat)) by {
                assert(((self.dots - old(self).dots) as nat - 1) as nat == (before.dots - old(self).dots) as nat);
                assert(one_dot(before, *self));
            }
        }
    }

    /// A read of a PPU address once the beam has caught up with the clock.
    pub fn handle_read(&mut self, address: u16) -> (r: ReadResult)
        requires
            old(self).wf(),
        ensures
            final(self).wf(),
            r == final(self).spec_register_read(address),
            final(self).dots == if old(self).dots < old(self).clock.target_cycle { old(self).clock.target_cycle } else { old(self).dots },
            dots_run(*old(self), *final(self), (final(self).dots - old(self).dots) as nat),
    {
        self.chase_clock();
        self.read_register(address)
    }

    /// Fills the whole framebuffer with one colour.
    pub fn fill_framebuffer(&mut self, rgba: [u8; 4])
        requires
            old(self).wf(),
        ensures
            final(self).wf(),
            final(self).framebuffer@ == Seq::new(92160, |i: int| rgba@[i % 4]),
            *final(self) == (PpuThread { framebuffer: final(self).framebuffer, ..*old(self) }),
    {
        let mut pixel: usize = 0;
        while pixel < 23040
            invariant
                pixel <= 23040,
                self.wf(),
                *self == (PpuThread { framebuffer: self.framebuffer, ..*old(self) }),
                forall|i: int| 0 <= i < 92160 ==> #[trigger] self.framebuffer@[i] == if i < pixel * 4 { rgba@[i % 4] } else { old(self).framebuffer@[i] },
            decreases 23040 - pixel,
        {
            self.write_pixel(pixel, rgba);
            proof {
                assert forall|i: int| 0 <= i < 92160 implies #[trigger] self.framebuffer@[i] == if i < (pixel + 1) * 4 { rgba@[i % 4] } else { old(self).framebuffer@[i] } by {
                    if pixel * 4 <= i < pixel * 4 + 4 {
                        assert(i % 4 == i - pixel * 4);
                    }
                }
            }
            pixel += 1;
        }
        assert(self.framebuffer@ =~= Seq::new(92160, |i: int| rgba@[i % 4]));
    }

    /// Draws the whole screen with the latched registers of every line; white
    /// while the LCD is off.
    pub fn render_framebuffer(&mut self)
        requires
            old(self).wf(),
        ensures
            final(self).wf(),
            !old(self).spec_lcd_enabled() ==> final(self).framebuffer@ == Seq::new(92160, |i: int| 0xffu8),
            final(self).vram_banks == old(self).vram_banks,
            final(self).oam == old(self).oam,
            final(self).lcd_registers == old(self).lcd_registers,
            final(self).scanline_registers == old(self).scanline_registers,
            final(self).frames == old(self).frames,
            final(self).dots == old(self).dots,
            final(self).dots_into_line == old(self).dots_into_line,
            final(self).report_dirty == old(self).report_dirty,
            final(self).report_framebuffer_pending == old(self).report_framebuffer_pending,
            final(self).frame_publication_pending == old(self).frame_publication_pending,
            final(self).framebuffer_dirty == old(self).framebuffer_dirty,
            final(self).pending_published_frame == old(self).pending_published_frame,
            final(self).framebuffer_spare == old(self).framebuffer_spare,
    {
        if !self.lcd_enabled() {
            self.fill_framebuffer([0xff, 0xff, 0xff, 0xff]);
            assert(self.framebuffer@ =~= Seq::new(92160, |i: int| 0xffu8));
            return;
        }
        self.window_line = 0;
        let mut y: usize = 0;
        while y < 144
            invariant
                y <= 144,
                self.wf(),
                self.vram_banks == old(self).vram_banks,
                self.oam == old(self).oam,
                self.lcd_registers == old(self).lcd_registers,
                self.scanline_registers == old(self).scanline_registers,
                self.frames == old(self).frames,
                self.dots == old(self).dots,
                self.dots_into_line == old(self).dots_into_line,
                self.report_dirty == old(self).report_dirty,
                self.report_framebuffer_pending == old(self).report_framebuffer_pending,
                self.frame_publication_pending == old(self).frame_publication_pending,
                self.framebuffer_dirty == old(self).framebuffer_dirty,
                self.pending_published_frame == old(self).pending_published_frame,
                self.framebuffer_spare == old(self).framebuffer_spare,
            decreases 144 - y,
        {
            self.render_scanline(y);
            y += 1;
        }
    }

    /// Puts a finished frame up for the front end and takes a spare buffer to
    /// draw into: the buffer of a frame still waiting (which is dropped), or a
    /// recycled one, or a fresh one.
    pub fn prepare_published_frame(&mut self)
        requires
            old(self).wf(),
        ensures
            final(self).wf(),
            !old(self).frame_publication_pending ==> final(self).pending_published_frame == old(self).pending_published_frame
                && final(self).framebuffer == old(self).framebuffer,
            old(self).frame_publication_pending ==> !final(self).frame_publication_pending && !final(self).framebuffer_dirty
                && (final(self).pending_published_frame matches Some(f) && f.frame == old(self).frames),
            old(self).frame_publication_pending && !(old(self).framebuffer_dirty && !old(self).spec_lcd_enabled())
                ==> final(self).pending_published_frame->0.framebuffer@ == old(self).framebuffer@,
            old(self).frame_publication_pending && old(self).framebuffer_dirty && !old(self).spec_lcd_enabled()
                ==> final(self).pending_published_frame->0.framebuffer@ == Seq::new(92160, |i: int| 0xffu8),
            final(self).frames == old(self).frames,
            final(self).report_dirty == old(self).report_dirty,
            final(self).report_framebuffer_pending == old(self).report_framebuffer_pending,
    {
        if !self.frame_publication_pending {
            return;
        }
        let stale = self.pending_published_frame.take();
        let mut spare = match stale {
            Some(frame) => frame.framebuffer,
            None => {
                self.refill_spare_framebuffer();
                match self.framebuffer_spare.take() {
                    Some(fb) => fb,
                    None => vec![0u8; FRAMEBUFFER_SIZE],
                }
            },
        };
        if spare.len() != FRAMEBUFFER_SIZE {
            spare = vec![0u8; FRAMEBUFFER_SIZE];
        }
        if self.framebuffer_dirty {
            if !self.lcd_enabled() {
                self.render_framebuffer();
            }
            self.framebuffer_dirty = false;
        }
        let published_at = instant_now();
        std::mem::swap(&mut self.framebuffer, &mut spare);
        let finished = spare;
        self.pending_published_frame = Some(PublishedFrame { frame: self.frames, framebuffer: finished, published_at });
        self.frame_publication_pending = false;
    }

    /// Takes a recycled framebuffer as the spare, where none is held and one is waiting.
    pub fn refill_spare_framebuffer(&mut self)
        ensures
            old(self).framebuffer_spare is Some ==> final(self).framebuffer_spare == old(self).framebuffer_spare,
            *final(self) == (PpuThread { framebuffer_spare: final(self).framebuffer_spare, ..*old(self) }),
    {
        if self.framebuffer_spare.is_some() {
            return;
        }
        match channel_try_recv(&self.frame_recycle) {
            Received::Value(fb) => self.framebuffer_spare = Some(fb),
            _ => {},
        }
    }

    /// Hands the waiting frame to the front end; it stays waiting where the
    /// queue is full, and is dropped where the front end is gone.
    pub fn try_send_pending_frame(&mut self)
        ensures
            old(self).pending_published_frame is None ==> final(self).pending_published_frame is None,
            final(self).pending_published_frame matches Some(f) ==> old(self).pending_published_frame == Some(f),
            *final(self) == (PpuThread { pending_published_frame: final(self).pending_published_frame, ..*old(self) }),
    {
        let frame = match self.pending_published_frame.take() {
            Some(f) => f,
            None => return,
        };
        let ghost sent = frame;
        match sync_try_send(&self.frame_ready, frame) {
            TrySent::Sent => {},
            TrySent::Full(f) => {
                self.pending_published_frame = Some(f);
            },
            TrySent::Disconnected(_) => {},
        }
    }
}

/// The PPU's part of a save state.
#[derive(Debug)]
pub struct PpuSaveState {
    pub vram_banks: Vec<Vec<u8>>,
    pub selected_vram_bank: u8,
    pub oam: Vec<u8>,
    pub lcd_registers: Vec<u8>,
    pub hdma_registers: Vec<u8>,
    pub bg_palette_index: u8,
    pub obj_palette_index: u8,
    pub bg_palette_ram: Vec<u8>,
    pub obj_palette_ram: Vec<u8>,
    pub dots_into_line: u16,
    pub stat_interrupt_line: bool,
    pub stat_interrupt_armed: bool,
    pub window_line: u8,
    pub dots: u64,
    pub frames: u64,
    pub hardware_mode: HardwareMode,
}

/// `dst` (an array's view) with its first bytes replaced by those of `src`.
pub open spec fn prefix_copied(dst: Seq<u8>, src: Seq<u8>) -> Seq<u8> {
    Seq::new(dst.len(), |i: int| if i < src.len() { src[i] } else { dst[i] })
}

fn copy_into(dst: &mut [u8], src: &Vec<u8>)
    ensures
        final(dst)@ == prefix_copied(old(dst)@, src@),
{
    crate::emulator::cartridge::save_state::copy_prefix(dst, src.as_slice());
}

fn array_to_vec(src: &[u8]) -> (v: Vec<u8>)
    ensures
        v@ == src@,
{
    crate::emulator::cartridge::image::copy_bytes(src)
}

impl PpuSaveState {
    /// The state can be loaded: two 8 KiB VRAM banks, a bank number, a line
    /// number and a dot position within their ranges, valid palette indexes.
    pub open spec fn loadable(&self) -> bool {
        &&& self.vram_banks@.len() == 2
        &&& self.vram_banks@[0]@.len() == 0x2000
        &&& self.vram_banks@[1]@.len() == 0x2000
        &&& self.selected_vram_bank <= 1
        &&& (self.lcd_registers@.len() > 4 ==> self.lcd_registers@[4] < 154)
        &&& self.dots_into_line < 456
        &&& self.bg_palette_index <= 0xbf
        &&& self.obj_palette_index <= 0xbf
    }

    /// Whether the state is `loadable`.
    pub fn is_loadable(&self) -> (ok: bool)
        ensures
            ok == self.loadable(),
    {
        self.vram_banks.len() == 2 && self.vram_banks[0].len() == 0x2000 && self.vram_banks[1].len()
            == 0x2000 && self.selected_vram_bank <= 1 && (self.lcd_registers.len() <= 4
            || self.lcd_registers[4] < 154) && self.dots_into_line < 456 && self.bg_palette_index
            <= 0xbf && self.obj_palette_index <= 0xbf
    }
}

/// `state` records `ppu`: both VRAM banks, OAM, the registers, the
/// palettes, the beam's position and the frame count.
pub open spec fn ppu_save_of(state: PpuSaveState, ppu: PpuThread) -> bool {
    &&& state.vram_banks@.len() == 2
    &&& state.vram_banks@[0]@ == ppu.vram(0) && state.vram_banks@[1]@ == ppu.vram(1)
    &&& state.selected_vram_bank == ppu.selected_vram_bank
    &&& state.oam@ == ppu.oam@
    &&& state.lcd_registers@ == ppu.lcd_registers@
    &&& state.hdma_registers@ == ppu.hdma_registers@
    &&& state.bg_palette_index == ppu.bg_palette_index
    &&& state.obj_palette_index == ppu.obj_palette_index
    &&& state.bg_palette_ram@ == ppu.bg_palette_ram@
    &&& state.obj_palette_ram@ == ppu.obj_palette_ram@
    &&& state.dots_into_line == ppu.dots_into_line
    &&& state.stat_interrupt_line == ppu.stat_interrupt_line
    &&& state.stat_interrupt_armed == ppu.stat_interrupt_armed
    &&& state.window_line == ppu.window_line
    &&& state.dots == ppu.dots
    &&& state.frames == ppu.frames
    &&& state.hardware_mode == ppu.hardware_mode
}

/// `after` is `before` with `state` loaded: VRAM and the scalars taken,
/// the arrays overwritten as far as the state's copies reach, no transfer
/// running, and the picture to be redrawn and reported.
pub open spec fn ppu_applied(before: PpuThread, state: PpuSaveState, after: PpuThread) -> bool {
    &&& after.vram(0) == state.vram_banks@[0]@ && after.vram(1) == state.vram_banks@[1]@
    &&& after.selected_vram_bank == state.selected_vram_bank
    &&& after.oam@ == prefix_copied(before.oam@, state.oam@)
    &&& after.lcd_registers@ == prefix_copied(before.lcd_registers@, state.lcd_registers@)
    &&& after.hdma_registers@ == prefix_copied(before.hdma_registers@, state.hdma_registers@)
    &&& after.bg_palette_ram@ == prefix_copied(before.bg_palette_ram@, state.bg_palette_ram@)
    &&& after.obj_palette_ram@ == prefix_copied(before.obj_palette_ram@, state.obj_palette_ram@)
    &&& after.bg_palette_index == state.bg_palette_index
    &&& after.obj_palette_index == state.obj_palette_index
    &&& after.dots_into_line == state.dots_into_line
    &&& after.stat_interrupt_line == state.stat_interrupt_line
    &&& after.stat_interrupt_armed == state.stat_interrupt_armed
    &&& after.window_line == state.window_line
    &&& after.dots == state.dots
    &&& after.frames == state.frames
    &&& after.hardware_mode == state.hardware_mode
    &&& after.oam_dma is None && after.hdma is None && after.pending_gp_dma is None
    &&& after.report_dirty && after.framebuffer_dirty && after.report_framebuffer_pending
}

/// A copy of a whole array over one of the same length is that array.
proof fn lemma_prefix_copied_whole(dst: Seq<u8>, src: Seq<u8>)
    requires
        src.len() == dst.len(),
    ensures
        prefix_copied(dst, src) == src,
{
    assert(prefix_copied(dst, src) =~= src);
}

/// Loading a save state of `saved` into any PPU gives back `saved`'s VRAM,
/// OAM, registers, palettes, beam position, frame count and mode.
pub proof fn lemma_ppu_save_roundtrip(saved: PpuThread, state: PpuSaveState, target: PpuThread, after: PpuThread)
    requires
        ppu_save_of(state, saved),
        ppu_applied(target, state, after),
    ensures
        after.vram(0) == saved.vram(0) && after.vram(1) == saved.vram(1),
        after.selected_vram_bank == saved.selected_vram_bank,
        after.oam@ == saved.oam@,
        after.lcd_registers@ == saved.lcd_registers@,
        after.hdma_registers@ == saved.hdma_registers@,
        after.bg_palette_ram@ == saved.bg_palette_ram@,
        after.obj_palette_ram@ == saved.obj_palette_ram@,
        after.bg_palette_index == saved.bg_palette_index,
        after.obj_palette_index == saved.obj_palette_index,
        after.dots_into_line == saved.dots_into_line,
        after.window_line == saved.window_line,
        after.stat_interrupt_line == saved.stat_interrupt_line,
        after.stat_interrupt_armed == saved.stat_interrupt_armed,
        after.dots == saved.dots && after.frames == saved.frames,
        after.hardware_mode == saved.hardware_mode,
{
    lemma_prefix_copied_whole(target.oam@, saved.oam@);
    lemma_prefix_copied_whole(target.lcd_registers@, saved.lcd_registers@);
    lemma_prefix_copied_whole(target.hdma_registers@, saved.hdma_registers@);
    lemma_prefix_copied_whole(target.bg_palette_ram@, saved.bg_palette_ram@);
    lemma_prefix_copied_whole(target.obj_palette_ram@, saved.obj_palette_ram@);
    assert(after.oam@ =~= saved.oam@);
    assert(after.lcd_registers@ =~= saved.lcd_registers@);
    assert(after.hdma_registers@ =~= saved.hdma_registers@);
    assert(after.bg_palette_ram@ =~= saved.bg_palette_ram@);
    assert(after.obj_palette_ram@ =~= saved.obj_palette_ram@);
}

impl PpuThread {
    pub fn create_save_state(&self) -> (state: PpuSaveState)
        requires
            self.wf(),
        ensures
            ppu_save_of(state, *self),
    {
        let mut vram_banks: Vec<Vec<u8>> = Vec::with_capacity(2);
        vram_banks.push(array_to_vec(self.vram_banks[0].as_slice()));
        vram_banks.push(array_to_vec(self.vram_banks[1].as_slice()));
        PpuSaveState {
            vram_banks,
            selected_vram_bank: self.selected_vram_bank,
            oam: array_to_vec(&self.oam),
            lcd_registers: array_to_vec(&self.lcd_registers),
            hdma_registers: array_to_vec(&self.hdma_registers),
            bg_palette_index: self.bg_palette_index,
            obj_palette_index: self.obj_palette_index,
            bg_palette_ram: array_to_vec(&self.bg_palette_ram),
            obj_palette_ram: array_to_vec(&self.obj_palette_ram),
            dots_into_line: self.dots_into_line,
            stat_interrupt_line: self.stat_interrupt_line,
            stat_interrupt_armed: self.stat_interrupt_armed,
            window_line: self.window_line,
            dots: self.dots,
            frames: self.frames,
            hardware_mode: self.hardware_mode,
        }
    }

    /// Loads a save state; running DMA transfers are dropped and a new report
    /// with the framebuffer is due.
    pub fn apply_save_state(&mut self, state: PpuSaveState)
        requires
            old(self).wf(),
            state.loadable(),
        ensures
            final(self).wf(),
            ppu_applied(*old(self), state, *final(self)),
    {
        self.vram_banks = state.vram_banks;
        self.selected_vram_bank = state.selected_vram_bank;
        copy_into(&mut self.oam, &state.oam);
        copy_into(&mut self.lcd_registers, &state.lcd_registers);
        copy_into(&mut self.hdma_registers, &state.hdma_registers);
        self.bg_palette_index = state.bg_palette_index;
        self.obj_palette_index = state.obj_palette_index;
        copy_into(&mut self.bg_palette_ram, &state.bg_palette_ram);
        copy_into(&mut self.obj_palette_ram, &state.obj_palette_ram);
        self.dots_into_line = state.dots_into_line;
        self.stat_interrupt_line = state.stat_interrupt_line;
        self.stat_interrupt_armed = state.stat_interrupt_armed;
        self.window_line = state.window_line;
        self.dots = state.dots;
        self.frames = state.frames;
        self.hardware_mode = state.hardware_mode;
        self.oam_dma = None;
        self.hdma = None;
        self.pending_gp_dma = None;
        self.hblank_block_due = false;
        self.report_dirty = true;
        self.framebuffer_dirty = true;
        self.report_framebuffer_pending = true;
    }

    /// The OAM and LCD registers, for the debugging views.
    pub fn features(&self) -> (f: PpuFeatures)
        ensures
            f.oam == self.oam,
            f.lcdc == self.lcd_registers@[0] && f.stat == self.lcd_registers@[1] && f.scy == self.lcd_registers@[2]
                && f.scx == self.lcd_registers@[3] && f.ly == self.lcd_registers@[4] && f.wy == self.lcd_registers@[10]
                && f.wx == self.lcd_registers@[11],
    {
        PpuFeatures {
            oam: self.oam,
            lcdc: self.lcd_registers[LCDC_INDEX],
            stat: self.lcd_registers[STAT_INDEX],
            scy: self.lcd_registers[SCY_INDEX],
            scx: self.lcd_registers[SCX_INDEX],
            ly: self.lcd_registers[LY_INDEX],
            wy: self.lcd_registers[WY_INDEX],
            wx: self.lcd_registers[WX_INDEX],
        }
    }

    /// Switches between CGB and DMG-compatibility colours; the screen is
    /// reported again.
    pub fn set_hardware_mode(&mut self, mode: HardwareMode)
        ensures
            *final(self) == (PpuThread {
                hardware_mode: mode,
                framebuffer_dirty: true,
                report_framebuffer_pending: true,
                report_dirty: true,
                ..*old(self)
            }),
    {
        self.hardware_mode = mode;
        self.framebuffer_dirty = true;
        self.report_framebuffer_pending = true;
        self.report_dirty = true;
    }

    /// Publishes a finished frame to the front end, then, where something
    /// changed, sends a report, with a copy of the framebuffer where one was asked for.
    pub fn publish_report_if_needed(&mut self, reports: &std::sync::mpsc::Sender<ComponentReport>)
        requires
            old(self).wf(),
        ensures
            final(self).wf(),
            !final(self).report_dirty,
            old(self).report_dirty ==> !final(self).report_framebuffer_pending,
            !old(self).report_dirty ==> final(self).report_framebuffer_pending == old(self).report_framebuffer_pending,
            old(self).frame_publication_pending ==> !final(self).frame_publication_pending,
            final(self).frames == old(self).frames,
    {
        self.try_send_pending_frame();
        self.prepare_published_frame();
        self.try_send_pending_frame();
        if !self.report_dirty {
            return;
        }
        let framebuffer = if self.report_framebuffer_pending {
            if self.framebuffer_dirty {
                self.render_framebuffer();
                self.framebuffer_dirty = false;
            }
            self.report_framebuffer_pending = false;
            Some(array_to_vec(self.framebuffer.as_slice()))
        } else {
            None
        };
        let _ = channel_send(
            reports,
            ComponentReport::Ppu(PpuReport { frames: self.frames, selected_vram_bank: self.selected_vram_bank, framebuffer }),
        );
        self.report_dirty = false;
    }

    /// A PPU with the default initial state, a one-frame queue to the front
    /// end, and one recycled framebuffer waiting.
    pub fn default() -> (ppu: Self)
        ensures
            ppu.wf(),
            ppu.dots == 0 && ppu.frames == 0 && ppu.dots_into_line == 0,
            ppu.hardware_mode == HardwareMode::Cgb,
            ppu.selected_vram_bank == 0 && ppu.bg_palette_index == 0 && ppu.obj_palette_index == 0,
            forall|i: int| 0 <= i < 160 ==> #[trigger] ppu.oam@[i] == 0,
            forall|i: int| 0 <= i < 5 ==> #[trigger] ppu.hdma_registers@[i] == 0,
            forall|i: int| 0 <= i < 64 ==> #[trigger] ppu.bg_palette_ram@[i] == 0 && ppu.obj_palette_ram@[i] == 0,
            ppu.framebuffer@ == test_pattern(),
            ppu.vram(0) == Seq::new(0x2000, |i: int| 0u8) && ppu.vram(1) == Seq::new(0x2000, |i: int| 0u8),
            ppu.lcd_registers@[0] == 0,
            ppu.oam_dma is None && ppu.hdma is None && ppu.pending_gp_dma is None,
    {
        let (frame_ready_sender, _frame_ready_receiver) = new_sync_channel::<PublishedFrame>(1);
        let (frame_recycle_sender, frame_recycle_receiver) = new_sync_channel::<Vec<u8>>(2);
        let _ = sync_try_send(&frame_recycle_sender, crate::emulator::component::default_framebuffer());
        let init = PpuInitState::default();
        assert(0u8 & 0xbf == 0) by (bit_vector);
        Self::from_init_state(init, InterruptFlags::new(), MasterClock::new(), frame_ready_sender, frame_recycle_receiver)
    }
}

} // verus!
