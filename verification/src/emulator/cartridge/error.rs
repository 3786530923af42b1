use vstd::prelude::*;
use vstd::string::StringExecFns;

use super::types::{boot_mode_label, mbc_label, BootMode, MbcKind};
use crate::text::{decimal_chars, decimal_string, hex_byte_chars, hex_byte_string};

verus! {

/// Why a cartridge image was refused.
#[derive(Clone, Debug, PartialEq, Eq)]
pub enum CartridgeLoadError {
    Io { path: String, message: String },
    RomTooSmall { actual_bytes: usize, minimum_bytes: usize },
    RomSizeMismatch { declared_bytes: usize, actual_bytes: usize },
    UnsupportedRomSizeCode(u8),
    UnsupportedRamSizeCode(u8),
    UnsupportedMbc(MbcKind),
    UnsupportedBootMode(BootMode),
}

/// Why a boot ROM image was refused.
#[derive(Clone, Debug, PartialEq, Eq)]
pub enum BootRomLoadError {
    Io { path: String, message: String },
    UnexpectedSize { actual_bytes: usize, expected_bytes: usize },
}

/// The sentence that reports a refused cartridge.
pub open spec fn cartridge_error_text(error: CartridgeLoadError) -> Seq<char> {
    match error {
        CartridgeLoadError::Io { path, message } => "failed to read ROM `"@ + path@ + "`: "@
            + message@,
        CartridgeLoadError::RomTooSmall { actual_bytes, minimum_bytes } =>
            "ROM image is too small: got "@ + decimal_chars(actual_bytes as nat)
            + " bytes, need at least "@ + decimal_chars(minimum_bytes as nat),
        CartridgeLoadError::RomSizeMismatch { declared_bytes, actual_bytes } =>
            "ROM size mismatch: header declares "@ + decimal_chars(declared_bytes as nat)
            + " bytes, file has "@ + decimal_chars(actual_bytes as nat),
        CartridgeLoadError::UnsupportedRomSizeCode(code) => "unsupported ROM size code in header: "@
            + hex_byte_chars(code),
        CartridgeLoadError::UnsupportedRamSizeCode(code) => "unsupported RAM size code in header: "@
            + hex_byte_chars(code),
        CartridgeLoadError::UnsupportedMbc(kind) => "unsupported cartridge controller for now: "@
            + mbc_label(kind),
        CartridgeLoadError::UnsupportedBootMode(mode) => "unsupported boot mode for now: "@
            + boot_mode_label(mode),
    }
}

/// The sentence that reports a refused boot ROM.
pub open spec fn boot_rom_error_text(error: BootRomLoadError) -> Seq<char> {
    match error {
        BootRomLoadError::Io { path, message } => "failed to read boot ROM `"@ + path@ + "`: "@
            + message@,
        BootRomLoadError::UnexpectedSize { actual_bytes, expected_bytes } =>
            "unexpected CGB boot ROM size: got "@ + decimal_chars(actual_bytes as nat)
            + " bytes, expected "@ + decimal_chars(expected_bytes as nat),
    }
}

impl CartridgeLoadError {
    /// The text of `cartridge_error_text`.
    pub fn message(&self) -> (text: String)
        ensures
            text@ == cartridge_error_text(*self),
    {
        match self {
            CartridgeLoadError::Io { path, message } => {
                let mut text = "failed to read ROM `".to_owned();
                text.append(path.as_str());
                text.append("`: ");
                text.append(message.as_str());
                text
            },
            CartridgeLoadError::RomTooSmall { actual_bytes, minimum_bytes } => {
                let mut text = "ROM image is too small: got ".to_owned();
                let actual = decimal_string(*actual_bytes as u64);
                text.append(actual.as_str());
                text.append(" bytes, need at least ");
                let minimum = decimal_string(*minimum_bytes as u64);
                text.append(minimum.as_str());
                text
            },
            CartridgeLoadError::RomSizeMismatch { declared_bytes, actual_bytes } => {
                let mut text = "ROM size mismatch: header declares ".to_owned();
                let declared = decimal_string(*declared_bytes as u64);
                text.append(declared.as_str());
                text.append(" bytes, file has ");
                let actual = decimal_string(*actual_bytes as u64);
                text.append(actual.as_str());
                text
            },
            CartridgeLoadError::UnsupportedRomSizeCode(code) => {
                let mut text = "unsupported ROM size code in header: ".to_owned();
                let hex = hex_byte_string(*code);
                text.append(hex.as_str());
                text
            },
            CartridgeLoadError::UnsupportedRamSizeCode(code) => {
                let mut text = "unsupported RAM size code in header: ".to_owned();
                let hex = hex_byte_string(*code);
                text.append(hex.as_str());
                text
            },
            CartridgeLoadError::UnsupportedMbc(kind) => {
                let mut text = "unsupported cartridge controller for now: ".to_owned();
                let label = kind.label();
                text.append(label.as_str());
                text
            },
            CartridgeLoadError::UnsupportedBootMode(mode) => {
                let mut text = "unsupported boot mode for now: ".to_owned();
                let label = mode.label();
                text.append(label.as_str());
                text
            },
        }
    }
}

impl BootRomLoadError {
    /// The text of `boot_rom_error_text`.
    pub fn message(&self) -> (text: String)
        ensures
            text@ == boot_rom_error_text(*self),
    {
        match self {
            BootRomLoadError::Io { path, message } => {
                let mut text = "failed to read boot ROM `".to_owned();
                text.append(path.as_str());
                text.append("`: ");
                text.append(message.as_str());
                text
            },
            BootRomLoadError::UnexpectedSize { actual_bytes, expected_bytes } => {
                let mut text = "unexpected CGB boot ROM size: got ".to_owned();
                let actual = decimal_string(*actual_bytes as u64);
                text.append(actual.as_str());
                text.append(" bytes, expected ");
                let expected = decimal_string(*expected_bytes as u64);
                text.append(expected.as_str());
                text
            },
        }
    }
}

} // verus!
