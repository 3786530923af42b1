use vstd::prelude::*;
use vstd::string::StringExecFns;

use crate::text::{hex_byte_chars, hex_byte_string};

verus! {

/// The memory bank controller named by header byte 0x147.
#[derive(Clone, Copy, Debug, PartialEq, Eq, Structural)]
pub enum MbcKind {
    RomOnly,
    Mbc1,
    Mbc2,
    Mmm01,
    Mbc3,
    Mbc5,
    Mbc6,
    Mbc7,
    HuC1,
    HuC3,
    PocketCamera,
    BandaiTama5,
    UnknownStub(u8),
}

/// The controller that a cartridge-type header byte denotes.
pub open spec fn mbc_kind_of(cartridge_type: u8) -> MbcKind {
    if cartridge_type == 0x00 || cartridge_type == 0x08 || cartridge_type == 0x09 {
        MbcKind::RomOnly
    } else if 0x01 <= cartridge_type <= 0x03 {
        MbcKind::Mbc1
    } else if cartridge_type == 0x05 || cartridge_type == 0x06 {
        MbcKind::Mbc2
    } else if 0x0b <= cartridge_type <= 0x0d {
        MbcKind::Mmm01
    } else if 0x0f <= cartridge_type <= 0x13 {
        MbcKind::Mbc3
    } else if 0x19 <= cartridge_type <= 0x1e {
        MbcKind::Mbc5
    } else if cartridge_type == 0x20 {
        MbcKind::Mbc6
    } else if cartridge_type == 0x22 {
        MbcKind::Mbc7
    } else if cartridge_type == 0xfc {
        MbcKind::PocketCamera
    } else if cartridge_type == 0xfd {
        MbcKind::BandaiTama5
    } else if cartridge_type == 0xfe {
        MbcKind::HuC3
    } else if cartridge_type == 0xff {
        MbcKind::HuC1
    } else {
        MbcKind::UnknownStub(cartridge_type)
    }
}

/// The cartridge-type byte of the header names the controller family: 0x00,
/// 0x08, 0x09 ROM only; 0x01-0x03 MBC1; 0x05-0x06 MBC2; 0x0B-0x0D MMM01;
/// 0x0F-0x13 MBC3; 0x19-0x1E MBC5; and a cartridge can run exactly when its
/// byte is in one of the ROM-only, MBC1, MBC2, MBC3 or MBC5 ranges.
pub proof fn lemma_header_controller_families(cartridge_type: u8)
    ensures
        (cartridge_type == 0x00 || cartridge_type == 0x08 || cartridge_type == 0x09) ==> mbc_kind_of(
            cartridge_type,
        ) == MbcKind::RomOnly,
        0x01 <= cartridge_type <= 0x03 ==> mbc_kind_of(cartridge_type) == MbcKind::Mbc1,
        0x05 <= cartridge_type <= 0x06 ==> mbc_kind_of(cartridge_type) == MbcKind::Mbc2,
        0x0b <= cartridge_type <= 0x0d ==> mbc_kind_of(cartridge_type) == MbcKind::Mmm01,
        0x0f <= cartridge_type <= 0x13 ==> mbc_kind_of(cartridge_type) == MbcKind::Mbc3,
        0x19 <= cartridge_type <= 0x1e ==> mbc_kind_of(cartridge_type) == MbcKind::Mbc5,
        mbc_kind_of(cartridge_type).spec_supported() <==> (cartridge_type == 0x00 || cartridge_type == 0x08
            || cartridge_type == 0x09 || 0x01 <= cartridge_type <= 0x03 || 0x05 <= cartridge_type <= 0x06
            || 0x0f <= cartridge_type <= 0x13 || 0x19 <= cartridge_type <= 0x1e),
{
}

/// The display name of each controller kind.
pub open spec fn mbc_name(kind: MbcKind) -> Seq<char> {
    match kind {
        MbcKind::RomOnly => "ROM ONLY"@,
        MbcKind::Mbc1 => "MBC1"@,
        MbcKind::Mbc2 => "MBC2"@,
        MbcKind::Mmm01 => "MMM01"@,
        MbcKind::Mbc3 => "MBC3"@,
        MbcKind::Mbc5 => "MBC5"@,
        MbcKind::Mbc6 => "MBC6"@,
        MbcKind::Mbc7 => "MBC7"@,
        MbcKind::HuC1 => "HuC1"@,
        MbcKind::HuC3 => "HuC3"@,
        MbcKind::PocketCamera => "Pocket Camera"@,
        MbcKind::BandaiTama5 => "Bandai TAMA5"@,
        MbcKind::UnknownStub(_) => "Unknown MBC (stub)"@,
    }
}

impl MbcKind {
    pub fn from_header(cartridge_type: u8) -> (kind: Self)
        ensures
            kind == mbc_kind_of(cartridge_type),
    {
        match cartridge_type {
            0x00 | 0x08 | 0x09 => MbcKind::RomOnly,
            0x01..=0x03 => MbcKind::Mbc1,
            0x05 | 0x06 => MbcKind::Mbc2,
            0x0b..=0x0d => MbcKind::Mmm01,
            0x0f..=0x13 => MbcKind::Mbc3,
            0x19..=0x1e => MbcKind::Mbc5,
            0x20 => MbcKind::Mbc6,
            0x22 => MbcKind::Mbc7,
            0xfc => MbcKind::PocketCamera,
            0xfd => MbcKind::BandaiTama5,
            0xfe => MbcKind::HuC3,
            0xff => MbcKind::HuC1,
            other => MbcKind::UnknownStub(other),
        }
    }

    /// The controllers a cartridge may run with: ROM-only, MBC1, MBC2, MBC3
    /// and MBC5.
    pub open spec fn spec_supported(self) -> bool {
        ||| self is RomOnly
        ||| self is Mbc1
        ||| self is Mbc2
        ||| self is Mbc3
        ||| self is Mbc5
    }

    /// Whether a cartridge with this controller may run (`spec_supported`).
    pub fn is_supported(self) -> (supported: bool)
        ensures
            supported == self.spec_supported(),
    {
        match self {
            MbcKind::RomOnly | MbcKind::Mbc1 | MbcKind::Mbc2 | MbcKind::Mbc3 | MbcKind::Mbc5 => true,
            _ => false,
        }
    }

    pub fn name(self) -> (name: &'static str)
        ensures
            name@ == mbc_name(self),
    {
        match self {
            MbcKind::RomOnly => "ROM ONLY",
            MbcKind::Mbc1 => "MBC1",
            MbcKind::Mbc2 => "MBC2",
            MbcKind::Mmm01 => "MMM01",
            MbcKind::Mbc3 => "MBC3",
            MbcKind::Mbc5 => "MBC5",
            MbcKind::Mbc6 => "MBC6",
            MbcKind::Mbc7 => "MBC7",
            MbcKind::HuC1 => "HuC1",
            MbcKind::HuC3 => "HuC3",
            MbcKind::PocketCamera => "Pocket Camera",
            MbcKind::BandaiTama5 => "Bandai TAMA5",
            MbcKind::UnknownStub(_) => "Unknown MBC (stub)",
        }
    }
}

/// How the boot ROM should treat the cartridge, from header bytes 0x143 and 0x146.
#[derive(Clone, Copy, Debug, PartialEq, Eq, Structural)]
pub enum BootMode {
    CgbEnhanced,
    CgbOnly,
    Dmg,
    SgbStub,
    UnknownStub(u8),
}

pub open spec fn boot_mode_of(cgb_flag: u8, sgb_flag: u8) -> BootMode {
    if cgb_flag == 0x80 {
        BootMode::CgbEnhanced
    } else if cgb_flag == 0xc0 {
        BootMode::CgbOnly
    } else if cgb_flag == 0x00 && sgb_flag == 0x03 {
        BootMode::SgbStub
    } else if cgb_flag == 0x00 {
        BootMode::Dmg
    } else {
        BootMode::UnknownStub(cgb_flag)
    }
}

pub open spec fn boot_mode_name(mode: BootMode) -> Seq<char> {
    match mode {
        BootMode::CgbEnhanced => "CGB-enhanced"@,
        BootMode::CgbOnly => "CGB-only"@,
        BootMode::Dmg => "DMG compatibility"@,
        BootMode::SgbStub => "SGB (stub)"@,
        BootMode::UnknownStub(_) => "Unknown boot (stub)"@,
    }
}

impl BootMode {
    pub fn from_header(cgb_flag: u8, sgb_flag: u8) -> (mode: Self)
        ensures
            mode == boot_mode_of(cgb_flag, sgb_flag),
    {
        match cgb_flag {
            0x80 => BootMode::CgbEnhanced,
            0xc0 => BootMode::CgbOnly,
            0x00 => {
                if sgb_flag == 0x03 {
                    BootMode::SgbStub
                } else {
                    BootMode::Dmg
                }
            },
            other => BootMode::UnknownStub(other),
        }
    }

    pub fn is_supported(self) -> (supported: bool)
        ensures
            supported == (self is CgbEnhanced || self is CgbOnly || self is Dmg),
    {
        match self {
            BootMode::CgbEnhanced | BootMode::CgbOnly | BootMode::Dmg => true,
            _ => false,
        }
    }

    pub fn name(self) -> (name: &'static str)
        ensures
            name@ == boot_mode_name(self),
    {
        match self {
            BootMode::CgbEnhanced => "CGB-enhanced",
            BootMode::CgbOnly => "CGB-only",
            BootMode::Dmg => "DMG compatibility",
            BootMode::SgbStub => "SGB (stub)",
            BootMode::UnknownStub(_) => "Unknown boot (stub)",
        }
    }
}

/// How a controller kind is shown: its name, followed by the header code
/// for a kind this emulator does not know.
pub open spec fn mbc_label(kind: MbcKind) -> Seq<char> {
    match kind {
        MbcKind::UnknownStub(code) => mbc_name(kind) + " ("@ + hex_byte_chars(code) + ")"@,
        _ => mbc_name(kind),
    }
}

impl MbcKind {
    /// The text of `mbc_label`.
    pub fn label(self) -> (text: String)
        ensures
            text@ == mbc_label(self),
    {
        let mut text = self.name().to_owned();
        match self {
            MbcKind::UnknownStub(code) => {
                text.append(" (");
                let hex = hex_byte_string(code);
                text.append(hex.as_str());
                text.append(")");
            },
            _ => {},
        }
        text
    }
}

/// How a boot mode is shown: its name, followed by the header flag for a
/// mode this emulator does not know.
pub open spec fn boot_mode_label(mode: BootMode) -> Seq<char> {
    match mode {
        BootMode::UnknownStub(flag) => boot_mode_name(mode) + " ("@ + hex_byte_chars(flag) + ")"@,
        _ => boot_mode_name(mode),
    }
}

impl BootMode {
    /// The text of `boot_mode_label`.
    pub fn label(self) -> (text: String)
        ensures
            text@ == boot_mode_label(self),
    {
        let mut text = self.name().to_owned();
        match self {
            BootMode::UnknownStub(flag) => {
                text.append(" (");
                let hex = hex_byte_string(flag);
                text.append(hex.as_str());
                text.append(")");
            },
            _ => {},
        }
        text
    }
}

} // verus!
