use vstd::prelude::*;

use super::error::{BootRomLoadError, CartridgeLoadError};
use super::types::{boot_mode_of, mbc_kind_of, BootMode, MbcKind};
use super::{
    CGB_BOOT_ROM_BYTES, DMG_BOOT_ROM_BYTES, HEADER_CARTRIDGE_TYPE, HEADER_CGB_FLAG,
    HEADER_HEADER_CHECKSUM, HEADER_NEW_LICENSEE_START, HEADER_OLD_LICENSEE, HEADER_RAM_SIZE,
    HEADER_ROM_SIZE, HEADER_SGB_FLAG, HEADER_TITLE_END, HEADER_TITLE_START, MIN_ROM_BYTES,
    RAM_WINDOW_SIZE, ROM_BANK_SIZE,
};
use vstd::string::StringSliceAdditionalSpecFns;
use crate::platform::{decode_lossy, is_white_space, lossy_utf8, trim_end, trim_start, trim_whitespace, trimmed};

verus! {

/// The logo bitmap that every licensed cartridge carries at 0x104..0x134.
pub const NINTENDO_LOGO: [u8; 48] = [
    0xce, 0xed, 0x66, 0x66, 0xcc, 0x0d, 0x00, 0x0b, 0x03, 0x73, 0x00, 0x83, 0x00, 0x0c, 0x00, 0x0d,
    0x00, 0x08, 0x11, 0x1f, 0x88, 0x89, 0x00, 0x0e, 0xdc, 0xcc, 0x6e, 0xe6, 0xdd, 0xdd, 0xd9, 0x99,
    0xbb, 0xbb, 0x67, 0x63, 0x6e, 0x0e, 0xec, 0xcc, 0xdd, 0xdc, 0x99, 0x9f, 0xbb, 0xb9, 0x33, 0x3e,
];

/// A boot ROM of the DMG (256 bytes) or the CGB (2304 bytes).
#[derive(Clone, Debug, PartialEq, Eq)]
pub struct BootRomImage {
    bytes: Vec<u8>,
}

impl View for BootRomImage {
    type V = Seq<u8>;

    closed spec fn view(&self) -> Seq<u8> {
        self.bytes@
    }
}

pub open spec fn boot_rom_size_ok(len: nat) -> bool {
    len == 0x900 || len == 0x100
}

/// What the boot ROM overlays at `address`: the first 256 bytes, and on the
/// CGB also 0x200..=0x8ff.
pub open spec fn spec_boot_rom_read(bytes: Seq<u8>, address: u16) -> Option<u8> {
    let in_window = if bytes.len() == 0x100 {
        address <= 0x00ff
    } else {
        address <= 0x00ff || 0x0200 <= address <= 0x08ff
    };
    if in_window && (address as int) < bytes.len() {
        Some(bytes[address as int])
    } else {
        None
    }
}

impl BootRomImage {
    pub fn from_bytes(bytes: Vec<u8>) -> (r: Result<Self, BootRomLoadError>)
        ensures
            boot_rom_size_ok(bytes@.len()) ==> (r matches Ok(image) && image@ == bytes@),
            !boot_rom_size_ok(bytes@.len()) ==> r == Err::<Self, BootRomLoadError>(
                BootRomLoadError::UnexpectedSize { actual_bytes: bytes.len(), expected_bytes: 0x900 },
            ),
    {
        if bytes.len() != CGB_BOOT_ROM_BYTES && bytes.len() != DMG_BOOT_ROM_BYTES {
            return Err(
                BootRomLoadError::UnexpectedSize {
                    actual_bytes: bytes.len(),
                    expected_bytes: CGB_BOOT_ROM_BYTES,
                },
            );
        }
        Ok(Self { bytes })
    }

    pub fn is_dmg(&self) -> (dmg: bool)
        ensures
            dmg == (self@.len() == 0x100),
    {
        self.bytes.len() == DMG_BOOT_ROM_BYTES
    }

    pub fn read(&self, address: u16) -> (r: Option<u8>)
        ensures
            r == spec_boot_rom_read(self@, address),
    {
        let in_window = if self.is_dmg() {
            address <= 0x00ff
        } else {
            address <= 0x00ff || (0x0200 <= address && address <= 0x08ff)
        };
        if in_window && (address as usize) < self.bytes.len() {
            Some(self.bytes[address as usize])
        } else {
            None
        }
    }

    /// A copy of the boot ROM bytes, for state shared with the CPU.
    pub fn shared_bytes(&self) -> (bytes: Vec<u8>)
        ensures
            bytes@ == self@,
    {
        copy_bytes(&self.bytes)
    }
}

pub fn copy_bytes(source: &[u8]) -> (copy: Vec<u8>)
    ensures
        copy@ == source@,
{
    let mut copy: Vec<u8> = Vec::with_capacity(source.len());
    let mut i: usize = 0;
    while i < source.len()
        invariant
            i <= source@.len(),
            copy@ == source@.subrange(0, i as int),
        decreases source@.len() - i,
    {
        copy.push(source[i]);
        i += 1;
    }
    copy
}

/// The parsed cartridge header.
#[derive(Clone, Debug, PartialEq, Eq)]
pub struct CartridgeMetadata {
    pub title: String,
    pub title_checksum_bytes: [u8; 16],
    pub mbc: MbcKind,
    pub boot_mode: BootMode,
    pub cartridge_type: u8,
    pub rom_bank_count: usize,
    pub ram_size: usize,
    pub ram_bank_count: usize,
    pub old_licensee_code: u8,
    pub new_licensee_code: [u8; 2],
}

/// Number of 16 KiB ROM banks that header byte 0x148 declares.
pub open spec fn rom_bank_count_of(code: u8) -> Option<usize> {
    if code <= 0x08 {
        Some((2 * pow2_u8(code)) as usize)
    } else if code == 0x52 {
        Some(72)
    } else if code == 0x53 {
        Some(80)
    } else if code == 0x54 {
        Some(96)
    } else {
        None
    }
}

/// Every bank count that the header can declare is at least 2.
pub proof fn lemma_rom_bank_count_at_least_two(code: u8)
    ensures
        rom_bank_count_of(code) matches Some(c) ==> c >= 2,
{
    reveal_with_fuel(pow2_u8, 10);
    if code <= 0x08 {
        assert(pow2_u8(code) >= 1 && pow2_u8(code) <= 256) by {
            reveal_with_fuel(pow2_u8, 10);
        }
    }
}

pub open spec fn pow2_u8(n: u8) -> nat
    decreases n,
{
    if n == 0 { 1 } else { 2 * pow2_u8((n - 1) as u8) }
}

/// RAM size in bytes and RAM bank count that header byte 0x149 declares.
pub open spec fn ram_layout_of(code: u8) -> Option<(usize, usize)> {
    if code == 0x00 {
        Some((0, 0))
    } else if code == 0x01 {
        Some((0x0800, 1))
    } else if code == 0x02 {
        Some((0x2000, 1))
    } else if code == 0x03 {
        Some((0x8000, 4))
    } else if code == 0x04 {
        Some((0x20000, 16))
    } else if code == 0x05 {
        Some((0x10000, 8))
    } else {
        None
    }
}

/// Index of the first zero byte, or the length when there is none.
pub open spec fn first_zero(bytes: Seq<u8>) -> nat
    decreases bytes.len(),
{
    if bytes.len() == 0 {
        0
    } else if bytes[0] == 0 {
        0
    } else {
        1 + first_zero(bytes.drop_first())
    }
}

/// The title shown for the header's title bytes: the text before the first
/// zero byte, decoded and trimmed, or "UNTITLED" when that is empty.
pub open spec fn spec_title(raw: Seq<u8>) -> Seq<char> {
    let text = trimmed(lossy_utf8(raw.take(first_zero(raw) as int)));
    if text.len() == 0 {
        "UNTITLED"@
    } else {
        text
    }
}

/// The header bytes before the first zero are all ASCII.
pub open spec fn ascii_title_bytes(raw: Seq<u8>) -> bool {
    forall|i: int| 0 <= i < first_zero(raw) ==> #[trigger] raw[i] < 0x80
}

/// The title of ASCII title bytes: those characters up to the first zero,
/// trimmed, or "UNTITLED" when that is empty.
pub open spec fn ascii_title(raw: Seq<u8>) -> Seq<char> {
    let text = trimmed(raw.take(first_zero(raw) as int).map_values(|b: u8| b as char));
    if text.len() == 0 {
        "UNTITLED"@
    } else {
        text
    }
}

/// The placeholder's title bytes are ASCII and read as "CHUDTENDO".
proof fn lemma_placeholder_title()
    ensures
        ascii_title_bytes(CartridgeImage::placeholder_title_bytes()),
        ascii_title(CartridgeImage::placeholder_title_bytes()) == "CHUDTENDO"@,
{
    let raw = CartridgeImage::placeholder_title_bytes();
    reveal_with_fuel(first_zero, 11);
    assert(first_zero(raw) == 9) by {
        assert(raw.drop_first().drop_first().drop_first().drop_first().drop_first().drop_first()
            .drop_first().drop_first().drop_first()[0] == 0);
    }
    reveal_strlit("CHUDTENDO");
    let text = raw.take(9).map_values(|b: u8| b as char);
    assert(text =~= "CHUDTENDO"@);
    assert(!is_white_space(text[0]));
    assert(trim_start(text) == text);
    assert(!is_white_space(text.last()));
    assert(trim_end(text) == text);
}

/// What a successful parse of `rom` records in the metadata.
pub open spec fn header_fields(metadata: CartridgeMetadata, rom: Seq<u8>) -> bool {
    &&& metadata.title@ == spec_title(rom.subrange(0x134, 0x143))
    &&& metadata.title_checksum_bytes@ == rom.subrange(0x134, 0x144)
    &&& metadata.cartridge_type == rom[0x147]
    &&& metadata.mbc == mbc_kind_of(rom[0x147])
    &&& metadata.boot_mode == boot_mode_of(rom[0x143], rom[0x146])
    &&& rom_bank_count_of(rom[0x148]) == Some(metadata.rom_bank_count)
    &&& ram_layout_of(rom[0x149]) == Some((metadata.ram_size, metadata.ram_bank_count))
    &&& metadata.old_licensee_code == rom[0x14b]
    &&& metadata.new_licensee_code@ == rom.subrange(0x144, 0x146)
}

/// The error that `CartridgeImage::from_bytes` reports for `rom`, if any.
pub open spec fn rom_load_error(rom: Seq<u8>) -> Option<CartridgeLoadError> {
    if rom.len() < 0x150 {
        Some(CartridgeLoadError::RomTooSmall { actual_bytes: rom.len() as usize, minimum_bytes: 0x150 })
    } else {
        match rom_bank_count_of(rom[0x148]) {
            None => Some(CartridgeLoadError::UnsupportedRomSizeCode(rom[0x148])),
            Some(count) => if rom.len() != count * 0x4000 {
                Some(
                    CartridgeLoadError::RomSizeMismatch {
                        declared_bytes: (count * 0x4000) as usize,
                        actual_bytes: rom.len() as usize,
                    },
                )
            } else if ram_layout_of(rom[0x149]) is None {
                Some(CartridgeLoadError::UnsupportedRamSizeCode(rom[0x149]))
            } else {
                None
            },
        }
    }
}

/// A parsed cartridge ROM together with its header.
#[derive(Clone, Debug, PartialEq, Eq)]
pub struct CartridgeImage {
    pub(crate) metadata: CartridgeMetadata,
    pub(crate) rom: Vec<u8>,
}

impl CartridgeImage {
    pub closed spec fn spec_metadata(&self) -> CartridgeMetadata {
        self.metadata
    }

    pub closed spec fn spec_rom(&self) -> Seq<u8> {
        self.rom@
    }

    /// The image is one that `from_bytes` accepts: its ROM length matches the
    /// header and its RAM layout is one of the declared ones.
    pub open spec fn wf(&self) -> bool {
        &&& rom_load_error(self.spec_rom()) is None
        &&& header_fields(self.spec_metadata(), self.spec_rom())
    }

    pub fn from_bytes(rom: Vec<u8>) -> (r: Result<Self, CartridgeLoadError>)
        ensures
            rom_load_error(rom@) matches Some(e) ==> r == Err::<Self, CartridgeLoadError>(e),
            rom_load_error(rom@) is None ==> (r matches Ok(image) && image.spec_rom() == rom@
                && header_fields(image.spec_metadata(), rom@) && image.wf()),
            rom_load_error(rom@) is None && ascii_title_bytes(rom@.subrange(0x134, 0x143)) ==> (r matches Ok(
                image,
            ) && image.spec_metadata().title@ == ascii_title(rom@.subrange(0x134, 0x143))),
    {
        if rom.len() < MIN_ROM_BYTES {
            return Err(
                CartridgeLoadError::RomTooSmall { actual_bytes: rom.len(), minimum_bytes: MIN_ROM_BYTES },
            );
        }
        let cartridge_type = rom[HEADER_CARTRIDGE_TYPE];
        let mbc = MbcKind::from_header(cartridge_type);
        let boot_mode = BootMode::from_header(rom[HEADER_CGB_FLAG], rom[HEADER_SGB_FLAG]);
        let rom_bank_count = match rom_bank_count_from_code(rom[HEADER_ROM_SIZE]) {
            Ok(count) => count,
            Err(e) => return Err(e),
        };
        let declared_bytes = rom_bank_count * ROM_BANK_SIZE;
        if rom.len() != declared_bytes {
            return Err(
                CartridgeLoadError::RomSizeMismatch { declared_bytes, actual_bytes: rom.len() },
            );
        }
        let (ram_size, ram_bank_count) = match ram_layout_from_code(rom[HEADER_RAM_SIZE]) {
            Ok(layout) => layout,
            Err(e) => return Err(e),
        };
        let title = parse_title(&rom[HEADER_TITLE_START..HEADER_TITLE_END]);
        let mut title_checksum_bytes = [0u8; 16];
        let mut i: usize = 0;
        while i < 16
            invariant
                rom@.len() >= 0x150,
                i <= 16,
                forall|j: int| 0 <= j < i ==> title_checksum_bytes@[j] == rom@[0x134 + j],
            decreases 16 - i,
        {
            title_checksum_bytes[i] = rom[HEADER_TITLE_START + i];
            i += 1;
        }
        assert(title_checksum_bytes@ =~= rom@.subrange(0x134, 0x144));
        let new_licensee_code = [rom[HEADER_NEW_LICENSEE_START], rom[HEADER_NEW_LICENSEE_START + 1]];
        assert(new_licensee_code@ =~= rom@.subrange(0x144, 0x146));
        let metadata = CartridgeMetadata {
            title,
            title_checksum_bytes,
            mbc,
            boot_mode,
            cartridge_type,
            rom_bank_count,
            ram_size,
            ram_bank_count,
            old_licensee_code: rom[HEADER_OLD_LICENSEE],
            new_licensee_code,
        };
        Ok(Self { metadata, rom })
    }

    /// The title bytes of the placeholder cartridge: "CHUDTENDO" in ASCII,
    /// padded with zeros to the 15 bytes of the title field.
    pub open spec fn placeholder_title_bytes() -> Seq<u8> {
        seq![0x43u8, 0x48, 0x55, 0x44, 0x54, 0x45, 0x4e, 0x44, 0x4f, 0, 0, 0, 0, 0, 0]
    }

    /// A two-bank ROM-only CGB cartridge titled "CHUDTENDO" whose banks are
    /// filled with 0x00 and 0x11.
    pub fn placeholder() -> (image: Self)
        ensures
            image.wf(),
            image.spec_metadata().rom_bank_count == 2,
            image.spec_metadata().mbc == MbcKind::RomOnly,
            image.spec_metadata().boot_mode == BootMode::CgbOnly,
            image.spec_metadata().ram_size == 0 && image.spec_metadata().ram_bank_count == 0,
            image.spec_metadata().cartridge_type == 0,
            image.spec_rom().len() == 0x8000,
            forall|j: int| 0x4000 <= j < 0x8000 ==> #[trigger] image.spec_rom()[j] == 0x11,
            image.spec_rom().subrange(0x134, 0x143) == Self::placeholder_title_bytes(),
            image.spec_metadata().title@ == spec_title(Self::placeholder_title_bytes()),
            image.spec_metadata().title@ == "CHUDTENDO"@,
    {
        let mut rom: Vec<u8> = Vec::new();
        let mut i: usize = 0;
        while i < 2 * ROM_BANK_SIZE
            invariant
                i <= 2 * ROM_BANK_SIZE,
                rom@.len() == i,
                forall|j: int| 0 <= j < i ==> #[trigger] rom@[j] == (if j < 0x4000 { 0u8 } else { 0x11u8 }),
            decreases 2 * ROM_BANK_SIZE - i,
        {
            let fill: u8 = if i < ROM_BANK_SIZE { 0x00 } else { 0x11 };
            rom.push(fill);
            i += 1;
        }
        let ghost filled = rom@;
        write_nintendo_logo(&mut rom);
        let title = "CHUDTENDO";
        proof {
            reveal_strlit("CHUDTENDO");
            assert(vstd::string::is_ascii(title));
            vstd::string::is_ascii_spec_bytes(title);
        }
        assert(title.spec_bytes() =~= Self::placeholder_title_bytes().take(9));
        write_title(&mut rom, title);
        assert(rom@.subrange(0x134, 0x143) =~= Self::placeholder_title_bytes());
        rom.set(HEADER_CGB_FLAG, 0xc0);
        rom.set(HEADER_CARTRIDGE_TYPE, 0x00);
        rom.set(HEADER_ROM_SIZE, 0x00);
        rom.set(HEADER_RAM_SIZE, 0x00);
        write_header_checksum(&mut rom);
        assert(rom@.subrange(0x134, 0x143) =~= Self::placeholder_title_bytes());
        assert forall|j: int| 0x4000 <= j < 0x8000 implies #[trigger] rom@[j] == 0x11u8 by {
            assert(filled[j] == 0x11u8);
        }
        assert(rom@[0x148] == 0 && rom@[0x149] == 0 && rom@[0x143] == 0xc0 && rom@[0x147] == 0);
        assert(rom_bank_count_of(0) == Some(2usize)) by {
            reveal_with_fuel(pow2_u8, 2);
        }
        proof {
            lemma_placeholder_title();
        }
        match Self::from_bytes(rom) {
            Ok(image) => image,
            Err(_) => vstd::pervasive::unreached(),
        }
    }

    pub fn ensure_runtime_supported(&self) -> (r: Result<(), CartridgeLoadError>)
        ensures
            !self.spec_metadata().boot_mode.is_supported_spec() ==> r == Err::<(), CartridgeLoadError>(
                CartridgeLoadError::UnsupportedBootMode(self.spec_metadata().boot_mode),
            ),
            self.spec_metadata().boot_mode.is_supported_spec() && !self.spec_metadata().mbc.spec_supported()
                ==> r == Err::<(), CartridgeLoadError>(
                CartridgeLoadError::UnsupportedMbc(self.spec_metadata().mbc),
            ),
            self.spec_metadata().boot_mode.is_supported_spec() && self.spec_metadata().mbc.spec_supported()
                ==> r is Ok,
    {
        if !self.metadata.boot_mode.is_supported() {
            return Err(CartridgeLoadError::UnsupportedBootMode(self.metadata.boot_mode));
        }
        if !self.metadata.mbc.is_supported() {
            return Err(CartridgeLoadError::UnsupportedMbc(self.metadata.mbc));
        }
        Ok(())
    }

    pub fn metadata(&self) -> (metadata: &CartridgeMetadata)
        ensures
            *metadata == self.spec_metadata(),
    {
        &self.metadata
    }

    /// A copy of the ROM bytes, for state shared with the CPU.
    pub fn shared_rom(&self) -> (rom: Vec<u8>)
        ensures
            rom@ == self.spec_rom(),
    {
        copy_bytes(&self.rom)
    }

    /// The header and the ROM bytes, taken apart.
    pub fn into_parts(self) -> (parts: (CartridgeMetadata, Vec<u8>))
        ensures
            parts.0 == self.spec_metadata(),
            parts.1@ == self.spec_rom(),
    {
        (self.metadata, self.rom)
    }
}

impl BootMode {
    pub open spec fn is_supported_spec(self) -> bool {
        self is CgbEnhanced || self is CgbOnly || self is Dmg
    }
}

/// Sum of `bytes` modulo 256.
pub open spec fn byte_sum(bytes: Seq<u8>) -> u8
    decreases bytes.len(),
{
    if bytes.len() == 0 {
        0
    } else {
        ((byte_sum(bytes.drop_last()) + bytes.last()) % 256) as u8
    }
}

/// The header checksum over `bytes`: starting at 0, subtract each byte and one more, modulo 256.
pub open spec fn header_checksum(bytes: Seq<u8>) -> u8
    decreases bytes.len(),
{
    if bytes.len() == 0 {
        0
    } else {
        ((header_checksum(bytes.drop_last()) - bytes.last() - 1) % 256) as u8
    }
}

/// A licensed-title check of the CGB boot ROM: the title is Nintendo's when
/// its old licensee code is 0x01, or 0x33 with new licensee "01".
pub open spec fn licensed_by_nintendo(metadata: CartridgeMetadata) -> bool {
    metadata.old_licensee_code == 0x01 || (metadata.old_licensee_code == 0x33
        && metadata.new_licensee_code@ == seq![0x30u8, 0x31u8])
}

pub open spec fn cartridge_has_battery(cartridge_type: u8) -> bool {
    cartridge_type == 0x03 || cartridge_type == 0x06 || cartridge_type == 0x09 || cartridge_type
        == 0x0d || cartridge_type == 0x0f || cartridge_type == 0x10 || cartridge_type == 0x13
        || cartridge_type == 0x1b || cartridge_type == 0x1e || cartridge_type == 0x20
        || cartridge_type == 0x22 || cartridge_type == 0xfc || cartridge_type == 0xfd
        || cartridge_type == 0xfe || cartridge_type == 0xff
}

impl CartridgeMetadata {
    /// The byte the CGB boot ROM uses to pick a compatibility palette: the sum
    /// of the title bytes for Nintendo titles, else 0.
    pub fn cgb_compatibility_b(&self) -> (b: u8)
        ensures
            b == (if licensed_by_nintendo(*self) { byte_sum(self.title_checksum_bytes@) } else { 0 }),
    {
        if self.old_licensee_code == 0x01 || (self.old_licensee_code == 0x33
            && self.new_licensee_code[0] == 0x30 && self.new_licensee_code[1] == 0x31) {
            proof {
                if self.old_licensee_code == 0x33 && self.new_licensee_code[0] == 0x30
                    && self.new_licensee_code[1] == 0x31 {
                    assert(self.new_licensee_code@ =~= seq![0x30u8, 0x31u8]);
                }
            }
            let mut sum: u8 = 0;
            let mut i: usize = 0;
            while i < 16
                invariant
                    i <= 16,
                    sum == byte_sum(self.title_checksum_bytes@.subrange(0, i as int)),
                decreases 16 - i,
            {
                proof {
                    let s = self.title_checksum_bytes@.subrange(0, i + 1);
                    assert(s.drop_last() =~= self.title_checksum_bytes@.subrange(0, i as int));
                }
                sum = sum.wrapping_add(self.title_checksum_bytes[i]);
                i += 1;
            }
            assert(self.title_checksum_bytes@.subrange(0, 16) =~= self.title_checksum_bytes@);
            sum
        } else {
            proof {
                if self.old_licensee_code == 0x33 && self.new_licensee_code@ == seq![0x30u8, 0x31u8] {
                    assert(self.new_licensee_code@[0] == 0x30);
                }
            }
            0
        }
    }

    pub fn cgb_compatibility_hl(&self) -> (hl: u16)
        ensures
            hl == (if self.cgb_compatibility_b_spec() == 0x43 || self.cgb_compatibility_b_spec() == 0x58 {
                0x991au16
            } else {
                0x007cu16
            }),
    {
        let b = self.cgb_compatibility_b();
        if b == 0x43 || b == 0x58 { 0x991a } else { 0x007c }
    }

    pub open spec fn cgb_compatibility_b_spec(&self) -> u8 {
        if licensed_by_nintendo(*self) { byte_sum(self.title_checksum_bytes@) } else { 0 }
    }

    pub fn has_battery(&self) -> (battery: bool)
        ensures
            battery == cartridge_has_battery(self.cartridge_type),
    {
        match self.cartridge_type {
            0x03 | 0x06 | 0x09 | 0x0d | 0x0f | 0x10 | 0x13 | 0x1b | 0x1e | 0x20 | 0x22 | 0xfc
            | 0xfd | 0xfe | 0xff => true,
            _ => false,
        }
    }

    pub fn has_rtc(&self) -> (rtc: bool)
        ensures
            rtc == (self.cartridge_type == 0x0f || self.cartridge_type == 0x10),
    {
        self.cartridge_type == 0x0f || self.cartridge_type == 0x10
    }
}

pub fn rom_bank_count_from_code(code: u8) -> (r: Result<usize, CartridgeLoadError>)
    ensures
        rom_bank_count_of(code) matches Some(c) ==> r == Ok::<usize, CartridgeLoadError>(c),
        rom_bank_count_of(code) is None ==> r == Err::<usize, CartridgeLoadError>(
            CartridgeLoadError::UnsupportedRomSizeCode(code),
        ),
        r matches Ok(c) ==> 2 <= c <= 512,
{
    proof {
        reveal_with_fuel(pow2_u8, 9);
    }
    match code {
        0x00 => Ok(2),
        0x01 => Ok(4),
        0x02 => Ok(8),
        0x03 => Ok(16),
        0x04 => Ok(32),
        0x05 => Ok(64),
        0x06 => Ok(128),
        0x07 => Ok(256),
        0x08 => Ok(512),
        0x52 => Ok(72),
        0x53 => Ok(80),
        0x54 => Ok(96),
        other => Err(CartridgeLoadError::UnsupportedRomSizeCode(other)),
    }
}

pub fn ram_layout_from_code(code: u8) -> (r: Result<(usize, usize), CartridgeLoadError>)
    ensures
        ram_layout_of(code) matches Some(l) ==> r == Ok::<(usize, usize), CartridgeLoadError>(l),
        ram_layout_of(code) is None ==> r == Err::<(usize, usize), CartridgeLoadError>(
            CartridgeLoadError::UnsupportedRamSizeCode(code),
        ),
{
    match code {
        0x00 => Ok((0, 0)),
        0x01 => Ok((0x0800, 1)),
        0x02 => Ok((RAM_WINDOW_SIZE, 1)),
        0x03 => Ok((RAM_WINDOW_SIZE * 4, 4)),
        0x04 => Ok((RAM_WINDOW_SIZE * 16, 16)),
        0x05 => Ok((RAM_WINDOW_SIZE * 8, 8)),
        other => Err(CartridgeLoadError::UnsupportedRamSizeCode(other)),
    }
}

proof fn lemma_first_zero(bytes: Seq<u8>, end: int)
    requires
        0 <= end <= bytes.len(),
        forall|j: int| 0 <= j < end ==> bytes[j] != 0,
        end == bytes.len() || bytes[end] == 0,
    ensures
        first_zero(bytes) == end,
    decreases end,
{
    if end > 0 {
        lemma_first_zero(bytes.drop_first(), end - 1);
    }
}

pub fn parse_title(bytes: &[u8]) -> (title: String)
    ensures
        title@ == spec_title(bytes@),
        ascii_title_bytes(bytes@) ==> title@ == ascii_title(bytes@),
{
    let mut end: usize = 0;
    while end < bytes.len() && bytes[end] != 0
        invariant
            end <= bytes@.len(),
            forall|j: int| 0 <= j < end ==> bytes@[j] != 0,
        decreases bytes@.len() - end,
    {
        end += 1;
    }
    proof {
        lemma_first_zero(bytes@, end as int);
    }
    let prefix = &bytes[0..end];
    assert(prefix@ =~= bytes@.take(end as int));
    assert(ascii_title_bytes(bytes@) ==> forall|i: int| 0 <= i < prefix@.len() ==> #[trigger] prefix@[i] < 0x80);
    let decoded = decode_lossy(prefix);
    let title = trim_whitespace(decoded.as_str());
    if title.as_str().is_empty() {
        "UNTITLED".to_owned()
    } else {
        title
    }
}

/// Zero-fills the title field and copies in the first bytes of `title`.
pub fn write_title(rom: &mut Vec<u8>, title: &str)
    requires
        old(rom)@.len() >= 0x150,
    ensures
        final(rom)@.len() == old(rom)@.len(),
        forall|i: int|
            0 <= i < final(rom)@.len() && !(0x134 <= i < 0x143) ==> #[trigger] final(rom)@[i] == old(rom)@[i],
        forall|i: int|
            0x134 <= i < 0x143 ==> #[trigger] final(rom)@[i] == (if i - 0x134 < title.spec_bytes().len() {
                title.spec_bytes()[i - 0x134]
            } else {
                0u8
            }),
{
    let title_bytes = title.as_bytes();
    let mut i: usize = 0;
    while i < HEADER_TITLE_END - HEADER_TITLE_START
        invariant
            i <= 15,
            old(rom)@.len() >= 0x150,
            rom@.len() == old(rom)@.len(),
            title_bytes@ == title.spec_bytes(),
            forall|k: int| 0 <= k < rom@.len() && !(0x134 <= k < 0x134 + i) ==> #[trigger] rom@[k] == old(rom)@[k],
            forall|k: int| 0x134 <= k < 0x134 + i ==> #[trigger] rom@[k] == (if k - 0x134 < title.spec_bytes().len() {
                title.spec_bytes()[k - 0x134]
            } else {
                0u8
            }),
        decreases 15 - i,
    {
        let value = if i < title_bytes.len() { title_bytes[i] } else { 0 };
        rom.set(HEADER_TITLE_START + i, value);
        i += 1;
    }
}

pub fn write_nintendo_logo(rom: &mut Vec<u8>)
    requires
        old(rom)@.len() >= 0x150,
    ensures
        final(rom)@.len() == old(rom)@.len(),
        forall|i: int| 0 <= i < final(rom)@.len() && !(0x104 <= i < 0x134) ==> #[trigger] final(rom)@[i] == old(rom)@[i],
        forall|i: int| 0x104 <= i < 0x134 ==> #[trigger] final(rom)@[i] == NINTENDO_LOGO@[i - 0x104],
{
    let mut i: usize = 0;
    while i < 48
        invariant
            i <= 48,
            old(rom)@.len() >= 0x150,
            rom@.len() == old(rom)@.len(),
            forall|k: int| 0 <= k < rom@.len() && !(0x104 <= k < 0x104 + i) ==> #[trigger] rom@[k] == old(rom)@[k],
            forall|k: int| 0x104 <= k < 0x104 + i ==> #[trigger] rom@[k] == NINTENDO_LOGO@[k - 0x104],
        decreases 48 - i,
    {
        rom.set(0x0104 + i, NINTENDO_LOGO[i]);
        i += 1;
    }
}

/// Stores at 0x14d the checksum of header bytes 0x134..=0x14c.
pub fn write_header_checksum(rom: &mut Vec<u8>)
    requires
        old(rom)@.len() >= 0x150,
    ensures
        final(rom)@ == old(rom)@.update(0x14d, header_checksum(old(rom)@.subrange(0x134, 0x14d))),
{
    let mut checksum: u8 = 0;
    let mut i: usize = HEADER_TITLE_START;
    while i < HEADER_HEADER_CHECKSUM
        invariant
            0x134 <= i <= 0x14d,
            old(rom)@.len() >= 0x150,
            rom@ == old(rom)@,
            checksum == header_checksum(rom@.subrange(0x134, i as int)),
        decreases 0x14d - i,
    {
        proof {
            assert(rom@.subrange(0x134, i + 1).drop_last() =~= rom@.subrange(0x134, i as int));
        }
        checksum = checksum.wrapping_sub(rom[i]).wrapping_sub(1);
        i += 1;
    }
    rom.set(HEADER_HEADER_CHECKSUM, checksum);
}

} // verus!
