//! The decisions of the windowed front end: frame pacing against the
//! display's refresh rate, the labels of save slots, and what a menu choice
//! does to fast-forward, rewind and the window scale.

use vstd::prelude::*;

use std::time::Duration;

use crate::menu::MenuAction;
use crate::platform::{decode_lossy, duration_from_nanos, duration_secs, duration_secs_of, nanos_duration};
use crate::text::{decimal_bytes, decimal_chars, lemma_decimal_bytes, push_decimal};

verus! {

/// How the front end runs: with a window, or hidden for a quick check that
/// the emulator makes progress.
#[derive(Clone, Copy, Debug, PartialEq, Eq, Structural)]
pub enum RunMode {
    Interactive,
    SmokeTest,
}

/// The PPU's frame delay when nothing better is known, in nanoseconds.
pub const DEFAULT_PPU_DELAY_NANOS: u64 = 16_536_000;
/// How far from the default delay half the display's refresh may lie and
/// still be used, in nanoseconds.
pub const HALF_REFRESH_MATCH_TOLERANCE_NANOS: u64 = 2_000_000;
/// Frames between two captures for rewind.
pub const REWIND_CAPTURE_INTERVAL: u64 = 4;

/// Two display refreshes at `refresh_rate` Hz, in nanoseconds rounded to the
/// nearest, where that lies within the tolerance of the default delay.
pub open spec fn spec_half_refresh_nanos(refresh_rate: i32) -> Option<u64> {
    if refresh_rate <= 0 {
        None
    } else {
        let nanos = (2_000_000_000 + refresh_rate / 2) / (refresh_rate as int);
        let deviation = if nanos >= DEFAULT_PPU_DELAY_NANOS {
            nanos - DEFAULT_PPU_DELAY_NANOS
        } else {
            DEFAULT_PPU_DELAY_NANOS - nanos
        };
        if deviation > HALF_REFRESH_MATCH_TOLERANCE_NANOS {
            None
        } else {
            Some(nanos as u64)
        }
    }
}

/// The distance between two durations given in nanoseconds.
pub fn duration_abs_diff(left: u64, right: u64) -> (diff: u64)
    ensures
        diff == if left >= right {
            left - right
        } else {
            right - left
        },
{
    if left >= right {
        left - right
    } else {
        right - left
    }
}

/// The PPU delay, in nanoseconds, that paces frames at half the display's
/// refresh rate, or `None` where the display is too far from 59.7 Hz x 2.
pub fn half_refresh_nanos(refresh_rate: i32) -> (nanos: Option<u64>)
    ensures
        nanos == spec_half_refresh_nanos(refresh_rate),
{
    if refresh_rate <= 0 {
        return None;
    }
    let refresh_rate = refresh_rate as u64;
    let half_refresh_nanos = (2_000_000_000u64 + (refresh_rate / 2)) / refresh_rate;
    let deviation = duration_abs_diff(half_refresh_nanos, DEFAULT_PPU_DELAY_NANOS);
    if deviation > HALF_REFRESH_MATCH_TOLERANCE_NANOS {
        return None;
    }
    Some(half_refresh_nanos)
}

/// `half_refresh_nanos` as a `Duration`.
pub fn half_refresh_ppu_delay(refresh_rate: i32) -> (delay: Option<Duration>)
    ensures
        delay is Some <==> spec_half_refresh_nanos(refresh_rate) is Some,
        spec_half_refresh_nanos(refresh_rate) matches Some(nanos) ==> delay == Some(nanos_duration(nanos)),
{
    match half_refresh_nanos(refresh_rate) {
        Some(nanos) => Some(duration_from_nanos(nanos)),
        None => None,
    }
}

// ---------------------------------------------------------------------------
// Labels of save slots
// ---------------------------------------------------------------------------

/// How long ago something happened, for a save-slot label: "just now" under
/// a minute, else whole minutes, hours or days.
pub open spec fn elapsed_label(secs: u64) -> Seq<char> {
    if secs < 60 {
        "just now"@
    } else if secs < 3600 {
        decimal_chars((secs / 60) as nat) + "m ago"@
    } else if secs < 86400 {
        decimal_chars((secs / 3600) as nat) + "h ago"@
    } else {
        decimal_chars((secs / 86400) as nat) + "d ago"@
    }
}

/// The label of `secs` seconds ago.
pub fn format_elapsed_secs(secs: u64) -> (label: String)
    ensures
        label@ == elapsed_label(secs),
{
    if secs < 60 {
        return "just now".to_owned();
    }
    let (count, unit): (u64, u8) = if secs < 3600 {
        (secs / 60, 109)
    } else if secs < 86400 {
        (secs / 3600, 104)
    } else {
        (secs / 86400, 100)
    };
    let mut bytes: Vec<u8> = Vec::new();
    push_decimal(&mut bytes, count);
    bytes.push(unit);
    bytes.push(32);
    bytes.push(97);
    bytes.push(103);
    bytes.push(111);
    proof {
        lemma_decimal_bytes(count as nat);
        reveal_strlit("m ago");
        reveal_strlit("h ago");
        reveal_strlit("d ago");
        let suffix = seq![unit, 32u8, 97u8, 103u8, 111u8];
        assert(bytes@ =~= decimal_bytes(count as nat) + suffix);
        assert(forall|i: int| 0 <= i < bytes@.len() ==> #[trigger] bytes@[i] < 0x80);
        assert(bytes@.map_values(|b: u8| b as char) =~= decimal_bytes(count as nat).map_values(
            |b: u8| b as char,
        ) + suffix.map_values(|b: u8| b as char));
    }
    let label = decode_lossy(bytes.as_slice());
    proof {
        reveal_strlit("m ago");
        reveal_strlit("h ago");
        reveal_strlit("d ago");
        assert(label@ =~= elapsed_label(secs));
    }
    label
}

/// The label of a duration ago: `format_elapsed_secs` of its whole seconds.
pub fn format_elapsed(elapsed: Duration) -> (label: String)
    ensures
        label@ == elapsed_label(duration_secs_of(elapsed)),
{
    format_elapsed_secs(duration_secs(&elapsed))
}

// ---------------------------------------------------------------------------
// Menu choices
// ---------------------------------------------------------------------------

/// What the front end keeps between frames: fast-forward (toggled or held),
/// rewinding, the window scale, and the frame of the last rewind capture.
#[derive(Clone, Copy, Debug, PartialEq, Eq, Structural)]
pub struct FrontendState {
    pub fast_forward_toggled: bool,
    pub fast_forward_held: bool,
    pub rewinding: bool,
    pub current_scale: u32,
    pub last_rewind_capture_frame: u64,
}

/// What the front end is to do with the emulator and the window after a
/// menu choice.
#[derive(Clone, Copy, Debug, PartialEq, Eq, Structural)]
pub enum FrontendEffect {
    Nothing,
    Quit,
    TogglePause,
    Reset,
    PickRom,
    SaveState(u8),
    LoadState(u8),
    /// Run at the fast-forward speed (true) or the normal one (false).
    SetFastForward(bool),
    /// Pause and start stepping back through the rewind buffer.
    StartRewind,
    /// Stop rewinding and resume.
    StopRewind,
    OpenSettings,
    /// Resize the window to this scale.
    Rescale(u32),
}

impl FrontendState {
    /// No fast-forward, no rewind, the given scale, nothing captured yet.
    pub fn new(scale: u32) -> (state: Self)
        ensures
            state == (FrontendState {
                fast_forward_toggled: false,
                fast_forward_held: false,
                rewinding: false,
                current_scale: scale,
                last_rewind_capture_frame: 0,
            }),
    {
        FrontendState {
            fast_forward_toggled: false,
            fast_forward_held: false,
            rewinding: false,
            current_scale: scale,
            last_rewind_capture_frame: 0,
        }
    }

    /// Whether the emulator should run at the fast-forward speed.
    pub open spec fn spec_fast_forward(&self) -> bool {
        self.fast_forward_toggled || self.fast_forward_held
    }

    pub fn fast_forward_active(&self) -> (active: bool)
        ensures
            active == self.spec_fast_forward(),
    {
        self.fast_forward_toggled || self.fast_forward_held
    }

    /// Applies a menu choice. Fast-forward and rewind toggle; a scale from 1
    /// to 8 is taken, any other is ignored; the rest is handed on.
    pub fn handle_menu_action(&mut self, action: MenuAction) -> (effect: FrontendEffect)
        ensures
            match action {
                MenuAction::Quit => effect == FrontendEffect::Quit && *final(self) == *old(self),
                MenuAction::Pause => effect == FrontendEffect::TogglePause && *final(self) == *old(self),
                MenuAction::Reset => effect == FrontendEffect::Reset && *final(self) == (FrontendState {
                    last_rewind_capture_frame: 0,
                    ..*old(self)
                }),
                MenuAction::LoadRom => effect == FrontendEffect::PickRom && *final(self) == *old(self),
                MenuAction::SaveState(slot) => effect == FrontendEffect::SaveState(slot) && *final(self) == *old(self),
                MenuAction::LoadState(slot) => effect == FrontendEffect::LoadState(slot) && *final(self) == *old(self),
                MenuAction::ToggleFastForward => {
                    &&& *final(self) == (FrontendState {
                        fast_forward_toggled: !old(self).fast_forward_toggled,
                        ..*old(self)
                    })
                    &&& effect == FrontendEffect::SetFastForward(final(self).spec_fast_forward())
                },
                MenuAction::ToggleRewind => {
                    &&& *final(self) == (FrontendState { rewinding: !old(self).rewinding, ..*old(self) })
                    &&& effect == if final(self).rewinding {
                        FrontendEffect::StartRewind
                    } else {
                        FrontendEffect::StopRewind
                    }
                },
                MenuAction::OpenSettings => effect == FrontendEffect::OpenSettings && *final(self)
                    == *old(self),
                MenuAction::SetScale(scale) => if 1 <= scale <= 8 {
                    effect == FrontendEffect::Rescale(scale) && *final(self) == (FrontendState {
                        current_scale: scale,
                        ..*old(self)
                    })
                } else {
                    effect == FrontendEffect::Nothing && *final(self) == *old(self)
                },
            },
    {
        match action {
            MenuAction::Quit => FrontendEffect::Quit,
            MenuAction::Pause => FrontendEffect::TogglePause,
            MenuAction::Reset => {
                self.last_rewind_capture_frame = 0;
                FrontendEffect::Reset
            },
            MenuAction::LoadRom => FrontendEffect::PickRom,
            MenuAction::SaveState(slot) => FrontendEffect::SaveState(slot),
            MenuAction::LoadState(slot) => FrontendEffect::LoadState(slot),
            MenuAction::ToggleFastForward => {
                self.fast_forward_toggled = !self.fast_forward_toggled;
                FrontendEffect::SetFastForward(self.fast_forward_active())
            },
            MenuAction::ToggleRewind => {
                self.rewinding = !self.rewinding;
                if self.rewinding {
                    FrontendEffect::StartRewind
                } else {
                    FrontendEffect::StopRewind
                }
            },
            MenuAction::OpenSettings => FrontendEffect::OpenSettings,
            MenuAction::SetScale(new_scale) => {
                if new_scale >= 1 && new_scale <= 8 {
                    self.current_scale = new_scale;
                    FrontendEffect::Rescale(new_scale)
                } else {
                    FrontendEffect::Nothing
                }
            },
        }
    }

    /// Whether frame `frame` is to be captured for rewind: not while
    /// rewinding, and at least `REWIND_CAPTURE_INTERVAL` frames after the
    /// last capture. A capture is then recorded.
    pub fn capture_rewind_frame(&mut self, frame: u64) -> (capture: bool)
        ensures
            capture == (!old(self).rewinding && frame >= old(self).last_rewind_capture_frame
                + REWIND_CAPTURE_INTERVAL),
            capture ==> *final(self) == (FrontendState {
                last_rewind_capture_frame: frame,
                ..*old(self)
            }),
            !capture ==> *final(self) == *old(self),
    {
        if !self.rewinding && self.last_rewind_capture_frame <= u64::MAX - REWIND_CAPTURE_INTERVAL
            && frame >= self.last_rewind_capture_frame + REWIND_CAPTURE_INTERVAL {
            self.last_rewind_capture_frame = frame;
            true
        } else {
            false
        }
    }
}

/// Fast-forward and rewind never change the window scale, and a second
/// toggle of either undoes the first.
pub proof fn lemma_toggles_undo(state: FrontendState)
    ensures
        (FrontendState {
            fast_forward_toggled: !(FrontendState {
                fast_forward_toggled: !state.fast_forward_toggled,
                ..state
            }).fast_forward_toggled,
            ..state
        }) == state,
{
}

} // verus!
