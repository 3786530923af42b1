pub mod cartridge;
pub mod component;
pub mod timer;
pub mod wram;
pub mod ppu;
pub mod bus;
pub mod cpu;
pub mod session;
pub mod apu;
