//! What the native menu bar asks of the emulator.

use vstd::prelude::*;

verus! {

/// An item of the menu bar, as chosen by the user.
#[derive(Clone, Copy, Debug, PartialEq, Eq, Structural)]
pub enum MenuAction {
    LoadRom,
    Quit,
    Pause,
    Reset,
    SaveState(u8),
    LoadState(u8),
    ToggleFastForward,
    ToggleRewind,
    SetScale(u32),
    OpenSettings,
}

/// Description of a single save-state slot, used to populate menu labels.
#[derive(Clone, Debug)]
pub struct SlotInfo {
    pub slot: u8,
    pub timestamp: Option<String>,
}

} // verus!
