//! A Game Boy / Game Boy Color emulator core: cartridge mappers, CPU, PPU,
//! timer, work RAM and APU register logic, each with verified contracts.

pub mod agent;
pub mod bits;
pub mod emulator;
pub mod frontend;
pub mod input;
pub mod menu;
pub mod platform;
pub mod text;

pub use frontend::RunMode;
pub use input::{JoypadButton, JoypadState, Keybindings};
