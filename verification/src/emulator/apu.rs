//! The APU: the four channels, their registers, the frame sequencer, sweep,
//! envelopes and length counters, and the APU's part of a save state. What
//! it hands on for each output sample are the channels' DAC inputs; mixing
//! them into an analogue signal is left to the host.

use vstd::prelude::*;

use super::component::{
    spec_apu_read_mask, apu_read_mask, HardwareMode, MasterClock, MemoryCommand, ReadResult,
    SharedApuState, WriteResult,
};
use crate::bits::lemma_byte_masks;
use vstd::arithmetic::power2::pow2;
use crate::platform::channel_send;

verus! {

pub const CPU_CLOCK: u32 = 4_194_304;
pub const SAMPLE_RATE: u32 = 48_000;
pub const FRAME_SEQUENCER_PERIOD: u32 = 8192;
/// About a millisecond of T-cycles between two reports.
pub const APU_REPORT_INTERVAL: u64 = 4096;

// ---------------------------------------------------------------------------
// Save state
// ---------------------------------------------------------------------------

/// A pulse channel in a save state.
#[derive(Clone, Copy, Debug, PartialEq, Eq, Structural)]
pub struct PulseChannelSave {
    pub enabled: bool,
    pub dac_enabled: bool,
    pub duty: u8,
    pub duty_position: u8,
    pub length_timer: u16,
    pub length_enabled: bool,
    pub volume: u8,
    pub envelope_direction: bool,
    pub envelope_pace: u8,
    pub envelope_timer: u8,
    pub period: u16,
    pub period_timer: u16,
    pub sweep_enabled: bool,
    pub sweep_pace: u8,
    pub sweep_direction: bool,
    pub sweep_step: u8,
    pub sweep_timer: u8,
    pub sweep_shadow: u16,
    pub sweep_negate_used: bool,
}

/// The wave channel in a save state.
#[derive(Clone, Copy, Debug, PartialEq, Eq, Structural)]
pub struct WaveChannelSave {
    pub enabled: bool,
    pub dac_enabled: bool,
    pub length_timer: u16,
    pub length_enabled: bool,
    pub output_level: u8,
    pub period: u16,
    pub period_timer: u16,
    pub sample_index: u8,
    pub sample_buffer: u8,
    pub just_accessed_ram: bool,
    pub last_access_cycle: u64,
    pub last_access_sample_index: u8,
}

/// The noise channel in a save state.
#[derive(Clone, Copy, Debug, PartialEq, Eq, Structural)]
pub struct NoiseChannelSave {
    pub enabled: bool,
    pub dac_enabled: bool,
    pub length_timer: u16,
    pub length_enabled: bool,
    pub volume: u8,
    pub envelope_direction: bool,
    pub envelope_pace: u8,
    pub envelope_timer: u8,
    pub clock_shift: u8,
    pub width_mode: bool,
    pub divisor_code: u8,
    pub lfsr: u16,
    pub period_timer: u16,
}

/// The APU's part of a save state.
#[derive(Clone, Debug)]
pub struct ApuSaveState {
    pub master_enable: bool,
    pub nr50: u8,
    pub nr51: u8,
    pub registers: Vec<u8>,
    pub channel1: PulseChannelSave,
    pub channel2: PulseChannelSave,
    pub channel3: WaveChannelSave,
    pub channel4: NoiseChannelSave,
    pub wave_ram: Vec<u8>,
    pub frame_sequencer_step: u8,
    pub frame_sequencer_counter: u32,
    pub sample_counter: u32,
    pub samples_emitted: u64,
    pub cycles: u64,
    pub hardware_mode: HardwareMode,
}

// ---------------------------------------------------------------------------
// The channels
// ---------------------------------------------------------------------------

/// Channels 1 and 2: a square wave with envelope (and, on channel 1, sweep).
#[derive(Clone, Copy, Debug, PartialEq, Eq, Structural)]
pub struct PulseChannel {
    pub enabled: bool,
    pub dac_enabled: bool,
    pub duty: u8,
    pub duty_position: u8,
    pub length_timer: u16,
    pub length_enabled: bool,
    pub volume: u8,
    pub envelope_direction: bool,
    pub envelope_pace: u8,
    pub envelope_timer: u8,
    pub period: u16,
    pub period_timer: u16,
    pub sweep_enabled: bool,
    pub sweep_pace: u8,
    pub sweep_direction: bool,
    pub sweep_step: u8,
    pub sweep_timer: u8,
    pub sweep_shadow: u16,
    pub sweep_negate_used: bool,
}

/// Channel 3: 32 four-bit samples from wave RAM.
#[derive(Clone, Copy, Debug, PartialEq, Eq, Structural)]
pub struct WaveChannel {
    pub enabled: bool,
    pub dac_enabled: bool,
    pub length_timer: u16,
    pub length_enabled: bool,
    pub output_level: u8,
    pub period: u16,
    pub period_timer: u16,
    pub sample_index: u8,
    pub sample_buffer: u8,
    pub just_accessed_ram: bool,
    pub last_access_cycle: u64,
    pub last_access_sample_index: u8,
}

/// Channel 4: noise from a linear-feedback shift register.
#[derive(Clone, Copy, Debug, PartialEq, Eq, Structural)]
pub struct NoiseChannel {
    pub enabled: bool,
    pub dac_enabled: bool,
    pub length_timer: u16,
    pub length_enabled: bool,
    pub volume: u8,
    pub envelope_direction: bool,
    pub envelope_pace: u8,
    pub envelope_timer: u8,
    pub clock_shift: u8,
    pub width_mode: bool,
    pub divisor_code: u8,
    pub lfsr: u16,
    pub period_timer: u16,
}

/// Whether the duty pattern `duty` (12.5%, 25%, 50%, 75%) is high at step
/// `position` of eight.
pub open spec fn spec_duty_high(duty: u8, position: u8) -> bool {
    if duty == 0 {
        position == 7
    } else if duty == 1 {
        position == 0 || position == 7
    } else if duty == 2 {
        position == 0 || position >= 5
    } else {
        1 <= position <= 6
    }
}

pub fn duty_high(duty: u8, position: u8) -> (high: bool)
    ensures
        high == spec_duty_high(duty, position),
{
    if duty == 0 {
        position == 7
    } else if duty == 1 {
        position == 0 || position == 7
    } else if duty == 2 {
        position == 0 || position >= 5
    } else {
        1 <= position && position <= 6
    }
}

/// The timer reload of a pulse channel: four T-cycles per step of the
/// 11-bit period.
pub open spec fn pulse_reload(period: u16) -> u16 {
    ((2048 - period) * 4) as u16
}

/// A powered-off, silent channel.
pub open spec fn silent_pulse() -> PulseChannel {
    PulseChannel {
        enabled: false,
        dac_enabled: false,
        duty: 0,
        duty_position: 0,
        length_timer: 0,
        length_enabled: false,
        volume: 0,
        envelope_direction: false,
        envelope_pace: 0,
        envelope_timer: 0,
        period: 0,
        period_timer: 0,
        sweep_enabled: false,
        sweep_pace: 0,
        sweep_direction: false,
        sweep_step: 0,
        sweep_timer: 0,
        sweep_shadow: 0,
        sweep_negate_used: false,
    }
}

impl PulseChannel {
    pub fn new() -> (channel: Self)
        ensures
            channel == silent_pulse(),
    {
        PulseChannel {
            enabled: false,
            dac_enabled: false,
            duty: 0,
            duty_position: 0,
            length_timer: 0,
            length_enabled: false,
            volume: 0,
            envelope_direction: false,
            envelope_pace: 0,
            envelope_timer: 0,
            period: 0,
            period_timer: 0,
            sweep_enabled: false,
            sweep_pace: 0,
            sweep_direction: false,
            sweep_step: 0,
            sweep_timer: 0,
            sweep_shadow: 0,
            sweep_negate_used: false,
        }
    }

    /// One T-cycle of the period timer: on expiry it reloads and the duty
    /// step advances.
    pub fn tick_period(&mut self)
        requires
            old(self).period < 2048,
            old(self).duty_position < 8,
        ensures
            ({
                let t: int = if old(self).period_timer > 0 { old(self).period_timer - 1 } else { 0 };
                if t == 0 {
                    *final(self) == PulseChannel {
                        period_timer: pulse_reload(old(self).period),
                        duty_position: ((old(self).duty_position + 1) % 8) as u8,
                        ..*old(self)
                    }
                } else {
                    *final(self) == PulseChannel { period_timer: t as u16, ..*old(self) }
                }
            }),
            final(self).duty_position < 8,
    {
        if self.period_timer > 0 {
            self.period_timer = self.period_timer - 1;
        }
        if self.period_timer == 0 {
            self.period_timer = (2048 - self.period) * 4;
            proof {
                lemma_byte_masks();
            }
            self.duty_position = (self.duty_position + 1) & 7;
        }
    }

    /// The level fed to the DAC: the volume while the duty pattern is high,
    /// else 0; nothing while the channel or its DAC is off.
    pub open spec fn spec_dac_input(&self) -> Option<u8> {
        if self.enabled && self.dac_enabled {
            Some(
                if spec_duty_high(self.duty, self.duty_position) {
                    self.volume
                } else {
                    0u8
                },
            )
        } else {
            None
        }
    }

    pub fn dac_input(&self) -> (input: Option<u8>)
        ensures
            input == self.spec_dac_input(),
    {
        if !self.enabled || !self.dac_enabled {
            return None;
        }
        Some(if duty_high(self.duty, self.duty_position) { self.volume } else { 0 })
    }

    pub fn to_save(&self) -> (save: PulseChannelSave)
        ensures
            save == self.spec_save(),
    {
        PulseChannelSave {
            enabled: self.enabled,
            dac_enabled: self.dac_enabled,
            duty: self.duty,
            duty_position: self.duty_position,
            length_timer: self.length_timer,
            length_enabled: self.length_enabled,
            volume: self.volume,
            envelope_direction: self.envelope_direction,
            envelope_pace: self.envelope_pace,
            envelope_timer: self.envelope_timer,
            period: self.period,
            period_timer: self.period_timer,
            sweep_enabled: self.sweep_enabled,
            sweep_pace: self.sweep_pace,
            sweep_direction: self.sweep_direction,
            sweep_step: self.sweep_step,
            sweep_timer: self.sweep_timer,
            sweep_shadow: self.sweep_shadow,
            sweep_negate_used: self.sweep_negate_used,
        }
    }

    pub open spec fn spec_save(&self) -> PulseChannelSave {
        PulseChannelSave {
            enabled: self.enabled,
            dac_enabled: self.dac_enabled,
            duty: self.duty,
            duty_position: self.duty_position,
            length_timer: self.length_timer,
            length_enabled: self.length_enabled,
            volume: self.volume,
            envelope_direction: self.envelope_direction,
            envelope_pace: self.envelope_pace,
            envelope_timer: self.envelope_timer,
            period: self.period,
            period_timer: self.period_timer,
            sweep_enabled: self.sweep_enabled,
            sweep_pace: self.sweep_pace,
            sweep_direction: self.sweep_direction,
            sweep_step: self.sweep_step,
            sweep_timer: self.sweep_timer,
            sweep_shadow: self.sweep_shadow,
            sweep_negate_used: self.sweep_negate_used,
        }
    }

    pub open spec fn spec_from_save(save: PulseChannelSave) -> PulseChannel {
        PulseChannel {
            enabled: save.enabled,
            dac_enabled: save.dac_enabled,
            duty: save.duty,
            duty_position: save.duty_position,
            length_timer: save.length_timer,
            length_enabled: save.length_enabled,
            volume: save.volume,
            envelope_direction: save.envelope_direction,
            envelope_pace: save.envelope_pace,
            envelope_timer: save.envelope_timer,
            period: save.period,
            period_timer: save.period_timer,
            sweep_enabled: save.sweep_enabled,
            sweep_pace: save.sweep_pace,
            sweep_direction: save.sweep_direction,
            sweep_step: save.sweep_step,
            sweep_timer: save.sweep_timer,
            sweep_shadow: save.sweep_shadow,
            sweep_negate_used: save.sweep_negate_used,
        }
    }

    pub fn from_save(save: &PulseChannelSave) -> (channel: Self)
        ensures
            channel == Self::spec_from_save(*save),
    {
        PulseChannel {
            enabled: save.enabled,
            dac_enabled: save.dac_enabled,
            duty: save.duty,
            duty_position: save.duty_position,
            length_timer: save.length_timer,
            length_enabled: save.length_enabled,
            volume: save.volume,
            envelope_direction: save.envelope_direction,
            envelope_pace: save.envelope_pace,
            envelope_timer: save.envelope_timer,
            period: save.period,
            period_timer: save.period_timer,
            sweep_enabled: save.sweep_enabled,
            sweep_pace: save.sweep_pace,
            sweep_direction: save.sweep_direction,
            sweep_step: save.sweep_step,
            sweep_timer: save.sweep_timer,
            sweep_shadow: save.sweep_shadow,
            sweep_negate_used: save.sweep_negate_used,
        }
    }
}

/// The timer reload of the wave channel: two T-cycles per step.
pub open spec fn wave_reload(period: u16) -> u16 {
    ((2048 - period) * 2) as u16
}

/// A powered-off, silent channel.
pub open spec fn silent_wave() -> WaveChannel {
    WaveChannel {
        enabled: false,
        dac_enabled: false,
        length_timer: 0,
        length_enabled: false,
        output_level: 0,
        period: 0,
        period_timer: 0,
        sample_index: 0,
        sample_buffer: 0,
        just_accessed_ram: false,
        last_access_cycle: 0,
        last_access_sample_index: 0,
    }
}

impl WaveChannel {
    pub fn new() -> (channel: Self)
        ensures
            channel == silent_wave(),
    {
        WaveChannel {
            enabled: false,
            dac_enabled: false,
            length_timer: 0,
            length_enabled: false,
            output_level: 0,
            period: 0,
            period_timer: 0,
            sample_index: 0,
            sample_buffer: 0,
            just_accessed_ram: false,
            last_access_cycle: 0,
            last_access_sample_index: 0,
        }
    }

    /// One T-cycle of the period timer: on expiry it reloads, steps to the
    /// next of the 32 samples and reads it from wave RAM (high nibble first).
    pub fn tick_period(&mut self, wave_ram: &[u8; 16])
        requires
            old(self).period < 2048,
            old(self).sample_index < 32,
        ensures
            ({
                let t: int = if old(self).period_timer > 0 { old(self).period_timer - 1 } else { 0 };
                if t == 0 {
                    let index = ((old(self).sample_index + 1) % 32) as u8;
                    let byte = wave_ram@[(index / 2) as int];
                    *final(self) == WaveChannel {
                        period_timer: wave_reload(old(self).period),
                        sample_index: index,
                        sample_buffer: if index % 2 == 0 {
                            byte / 16
                        } else {
                            byte % 16
                        },
                        just_accessed_ram: true,
                        ..*old(self)
                    }
                } else {
                    *final(self) == WaveChannel { period_timer: t as u16, ..*old(self) }
                }
            }),
            final(self).sample_index < 32,
    {
        if self.period_timer > 0 {
            self.period_timer = self.period_timer - 1;
        }
        if self.period_timer == 0 {
            self.period_timer = (2048 - self.period) * 2;
            proof {
                lemma_byte_masks();
            }
            self.sample_index = (self.sample_index + 1) & 31;
            let byte = wave_ram[(self.sample_index / 2) as usize];
            proof {
                lemma_nibble_shift(byte);
                lemma_nibble_shift(self.sample_index);
            }
            self.sample_buffer = if self.sample_index & 1 == 0 {
                byte >> 4
            } else {
                byte & 0x0f
            };
            self.just_accessed_ram = true;
        }
    }

    /// The level fed to the DAC: the sample shifted by the output level
    /// (mute, 100%, 50%, 25%); nothing while the channel or its DAC is off.
    pub open spec fn spec_dac_input(&self) -> Option<u8> {
        if self.enabled && self.dac_enabled {
            Some(
                if self.output_level == 1 {
                    self.sample_buffer
                } else if self.output_level == 2 {
                    self.sample_buffer / 2
                } else if self.output_level == 3 {
                    self.sample_buffer / 4
                } else {
                    0u8
                },
            )
        } else {
            None
        }
    }

    pub fn dac_input(&self) -> (input: Option<u8>)
        ensures
            input == self.spec_dac_input(),
    {
        if !self.enabled || !self.dac_enabled {
            return None;
        }
        Some(
            if self.output_level == 1 {
                self.sample_buffer
            } else if self.output_level == 2 {
                self.sample_buffer / 2
            } else if self.output_level == 3 {
                self.sample_buffer / 4
            } else {
                0
            },
        )
    }

    pub open spec fn spec_save(&self) -> WaveChannelSave {
        WaveChannelSave {
            enabled: self.enabled,
            dac_enabled: self.dac_enabled,
            length_timer: self.length_timer,
            length_enabled: self.length_enabled,
            output_level: self.output_level,
            period: self.period,
            period_timer: self.period_timer,
            sample_index: self.sample_index,
            sample_buffer: self.sample_buffer,
            just_accessed_ram: self.just_accessed_ram,
            last_access_cycle: self.last_access_cycle,
            last_access_sample_index: self.last_access_sample_index,
        }
    }

    pub fn to_save(&self) -> (save: WaveChannelSave)
        ensures
            save == self.spec_save(),
    {
        WaveChannelSave {
            enabled: self.enabled,
            dac_enabled: self.dac_enabled,
            length_timer: self.length_timer,
            length_enabled: self.length_enabled,
            output_level: self.output_level,
            period: self.period,
            period_timer: self.period_timer,
            sample_index: self.sample_index,
            sample_buffer: self.sample_buffer,
            just_accessed_ram: self.just_accessed_ram,
            last_access_cycle: self.last_access_cycle,
            last_access_sample_index: self.last_access_sample_index,
        }
    }

    pub open spec fn spec_from_save(save: WaveChannelSave) -> WaveChannel {
        WaveChannel {
            enabled: save.enabled,
            dac_enabled: save.dac_enabled,
            length_timer: save.length_timer,
            length_enabled: save.length_enabled,
            output_level: save.output_level,
            period: save.period,
            period_timer: save.period_timer,
            sample_index: save.sample_index,
            sample_buffer: save.sample_buffer,
            just_accessed_ram: save.just_accessed_ram,
            last_access_cycle: save.last_access_cycle,
            last_access_sample_index: save.last_access_sample_index,
        }
    }

    pub fn from_save(save: &WaveChannelSave) -> (channel: Self)
        ensures
            channel == Self::spec_from_save(*save),
    {
        WaveChannel {
            enabled: save.enabled,
            dac_enabled: save.dac_enabled,
            length_timer: save.length_timer,
            length_enabled: save.length_enabled,
            output_level: save.output_level,
            period: save.period,
            period_timer: save.period_timer,
            sample_index: save.sample_index,
            sample_buffer: save.sample_buffer,
            just_accessed_ram: save.just_accessed_ram,
            last_access_cycle: save.last_access_cycle,
            last_access_sample_index: save.last_access_sample_index,
        }
    }
}

/// A byte shifted right by four is its high nibble.
proof fn lemma_nibble_shift(b: u8)
    ensures
        b >> 4u8 == b / 16,
        b & 0x0fu8 == b % 16,
        b & 1u8 == b % 2,
{
    assert(b >> 4u8 == b / 16 && b & 0x0fu8 == b % 16 && b & 1u8 == b % 2) by (bit_vector);
}

/// The base divisor of noise divisor code `code` (0 counts as 8).
pub open spec fn spec_noise_divisor(code: u8) -> u16 {
    if code == 0 {
        8
    } else {
        (16 * code) as u16
    }
}

pub fn noise_divisor(code: u8) -> (divisor: u16)
    requires
        code < 8,
    ensures
        divisor == spec_noise_divisor(code),
{
    if code == 0 {
        8
    } else {
        16 * (code as u16)
    }
}

/// A powered-off, silent channel.
pub open spec fn silent_noise() -> NoiseChannel {
    NoiseChannel {
        enabled: false,
        dac_enabled: false,
        length_timer: 0,
        length_enabled: false,
        volume: 0,
        envelope_direction: false,
        envelope_pace: 0,
        envelope_timer: 0,
        clock_shift: 0,
        width_mode: false,
        divisor_code: 0,
        lfsr: 0x7fff,
        period_timer: 0,
    }
}

impl NoiseChannel {
    pub fn new() -> (channel: Self)
        ensures
            channel == silent_noise(),
    {
        NoiseChannel {
            enabled: false,
            dac_enabled: false,
            length_timer: 0,
            length_enabled: false,
            volume: 0,
            envelope_direction: false,
            envelope_pace: 0,
            envelope_timer: 0,
            clock_shift: 0,
            width_mode: false,
            divisor_code: 0,
            lfsr: 0x7fff,
            period_timer: 0,
        }
    }

    /// The timer period: the divisor shifted left by the clock shift (bits
    /// shifted out are lost), or 0 for a shift of 16 or more.
    pub open spec fn spec_noise_period(&self) -> u16 {
        let divisor = spec_noise_divisor(self.divisor_code % 8);
        if self.clock_shift < 16 {
            divisor << self.clock_shift
        } else {
            0
        }
    }

    pub fn noise_period(&self) -> (period: u16)
        ensures
            period == self.spec_noise_period(),
    {
        proof {
            lemma_byte_masks();
        }
        let divisor = noise_divisor(self.divisor_code & 7);
        if self.clock_shift < 16 {
            divisor << self.clock_shift
        } else {
            0
        }
    }

    /// The shift register after one step: bit 0 XOR bit 1 enters at bit 14,
    /// and also at bit 6 in 7-bit mode.
    pub open spec fn spec_stepped_lfsr(lfsr: u16, width_mode: bool) -> u16 {
        let xor = (lfsr & 1) ^ ((lfsr >> 1u16) & 1);
        let shifted = (lfsr >> 1u16) | (xor << 14u16);
        if width_mode {
            (shifted & !0x40u16) | (xor << 6u16)
        } else {
            shifted
        }
    }

    /// One T-cycle of the period timer: on expiry it reloads (at least 1)
    /// and the shift register steps.
    pub fn tick_period(&mut self)
        ensures
            ({
                let t: int = if old(self).period_timer > 0 { old(self).period_timer - 1 } else { 0 };
                if t == 0 {
                    let period = old(self).spec_noise_period();
                    *final(self) == NoiseChannel {
                        period_timer: if period > 1 {
                            period
                        } else {
                            1
                        },
                        lfsr: Self::spec_stepped_lfsr(old(self).lfsr, old(self).width_mode),
                        ..*old(self)
                    }
                } else {
                    *final(self) == NoiseChannel { period_timer: t as u16, ..*old(self) }
                }
            }),
    {
        if self.period_timer > 0 {
            self.period_timer = self.period_timer - 1;
        }
        if self.period_timer == 0 {
            let period = self.noise_period();
            self.period_timer = if period > 1 {
                period
            } else {
                1
            };
            let xor = (self.lfsr & 1) ^ ((self.lfsr >> 1) & 1);
            self.lfsr = (self.lfsr >> 1) | (xor << 14);
            if self.width_mode {
                self.lfsr = (self.lfsr & !0x40) | (xor << 6);
            }
        }
    }

    /// The level fed to the DAC: the volume while bit 0 of the shift
    /// register is clear, else 0; nothing while the channel or its DAC is off.
    pub open spec fn spec_dac_input(&self) -> Option<u8> {
        if self.enabled && self.dac_enabled {
            Some(
                if self.lfsr & 1 == 0 {
                    self.volume
                } else {
                    0u8
                },
            )
        } else {
            None
        }
    }

    pub fn dac_input(&self) -> (input: Option<u8>)
        ensures
            input == self.spec_dac_input(),
    {
        if !self.enabled || !self.dac_enabled {
            return None;
        }
        Some(if self.lfsr & 1 == 0 { self.volume } else { 0 })
    }

    pub open spec fn spec_save(&self) -> NoiseChannelSave {
        NoiseChannelSave {
            enabled: self.enabled,
            dac_enabled: self.dac_enabled,
            length_timer: self.length_timer,
            length_enabled: self.length_enabled,
            volume: self.volume,
            envelope_direction: self.envelope_direction,
            envelope_pace: self.envelope_pace,
            envelope_timer: self.envelope_timer,
            clock_shift: self.clock_shift,
            width_mode: self.width_mode,
            divisor_code: self.divisor_code,
            lfsr: self.lfsr,
            period_timer: self.period_timer,
        }
    }

    pub fn to_save(&self) -> (save: NoiseChannelSave)
        ensures
            save == self.spec_save(),
    {
        NoiseChannelSave {
            enabled: self.enabled,
            dac_enabled: self.dac_enabled,
            length_timer: self.length_timer,
            length_enabled: self.length_enabled,
            volume: self.volume,
            envelope_direction: self.envelope_direction,
            envelope_pace: self.envelope_pace,
            envelope_timer: self.envelope_timer,
            clock_shift: self.clock_shift,
            width_mode: self.width_mode,
            divisor_code: self.divisor_code,
            lfsr: self.lfsr,
            period_timer: self.period_timer,
        }
    }

    pub open spec fn spec_from_save(save: NoiseChannelSave) -> NoiseChannel {
        NoiseChannel {
            enabled: save.enabled,
            dac_enabled: save.dac_enabled,
            length_timer: save.length_timer,
            length_enabled: save.length_enabled,
            volume: save.volume,
            envelope_direction: save.envelope_direction,
            envelope_pace: save.envelope_pace,
            envelope_timer: save.envelope_timer,
            clock_shift: save.clock_shift,
            width_mode: save.width_mode,
            divisor_code: save.divisor_code,
            lfsr: save.lfsr,
            period_timer: save.period_timer,
        }
    }

    pub fn from_save(save: &NoiseChannelSave) -> (channel: Self)
        ensures
            channel == Self::spec_from_save(*save),
    {
        NoiseChannel {
            enabled: save.enabled,
            dac_enabled: save.dac_enabled,
            length_timer: save.length_timer,
            length_enabled: save.length_enabled,
            volume: save.volume,
            envelope_direction: save.envelope_direction,
            envelope_pace: save.envelope_pace,
            envelope_timer: save.envelope_timer,
            clock_shift: save.clock_shift,
            width_mode: save.width_mode,
            divisor_code: save.divisor_code,
            lfsr: save.lfsr,
            period_timer: save.period_timer,
        }
    }
}

/// A length counter step: an enabled, running counter counts down, and the
/// channel stops when it reaches zero.
/// A length step of a channel's (timer, enabled): with the length counter on
/// and the timer above zero, the timer counts down and reaching zero stops
/// the channel.
pub open spec fn length_ticked(length_timer: u16, length_enabled: bool, enabled: bool) -> (u16, bool) {
    if !length_enabled || length_timer == 0 {
        (length_timer, enabled)
    } else {
        ((length_timer - 1) as u16, enabled && length_timer != 1)
    }
}

/// An envelope step of a channel's (volume, timer): see `tick_envelope`.
pub open spec fn envelope_ticked(volume: u8, direction: bool, pace: u8, timer: u8) -> (u8, u8) {
    if pace == 0 || timer > 1 {
        (volume, if pace == 0 { timer } else { (timer - 1) as u8 })
    } else if direction && volume < 15 {
        ((volume + 1) as u8, pace)
    } else if !direction && volume > 0 {
        ((volume - 1) as u8, pace)
    } else {
        (volume, pace)
    }
}

pub fn tick_length(length_timer: &mut u16, length_enabled: bool, enabled: &mut bool)
    ensures
        (*final(length_timer), *final(enabled)) == length_ticked(*old(length_timer), length_enabled, *old(enabled)),
        !length_enabled || *old(length_timer) == 0 ==> *final(length_timer) == *old(length_timer)
            && *final(enabled) == *old(enabled),
        length_enabled && *old(length_timer) > 0 ==> *final(length_timer) == *old(length_timer) - 1
            && *final(enabled) == (*old(enabled) && *old(length_timer) != 1),
{
    if !length_enabled || *length_timer == 0 {
        return;
    }
    *length_timer = *length_timer - 1;
    if *length_timer == 0 {
        *enabled = false;
    }
}

/// An envelope step: with a nonzero pace the timer counts down; on reaching
/// zero it reloads with the pace and the volume moves one step up (to 15) or
/// down (to 0).
pub fn tick_envelope(volume: &mut u8, direction: bool, pace: u8, timer: &mut u8)
    ensures
        (*final(volume), *final(timer)) == envelope_ticked(*old(volume), direction, pace, *old(timer)),
        pace == 0 ==> *final(volume) == *old(volume) && *final(timer) == *old(timer),
        pace != 0 && *old(timer) > 1 ==> *final(volume) == *old(volume) && *final(timer) == *old(timer)
            - 1,
        pace != 0 && *old(timer) <= 1 ==> *final(timer) == pace && *final(volume) == (if direction
            && *old(volume) < 15 {
            *old(volume) + 1
        } else if !direction && *old(volume) > 0 {
            *old(volume) - 1
        } else {
            *old(volume) as int
        }),
{
    if pace == 0 {
        return;
    }
    *timer = timer.saturating_sub(1);
    if *timer > 0 {
        return;
    }
    *timer = pace;
    if direction && *volume < 15 {
        *volume = *volume + 1;
    } else if !direction && *volume > 0 {
        *volume = *volume - 1;
    }
}

// ---------------------------------------------------------------------------
// The APU
// ---------------------------------------------------------------------------

/// What the four channels feed their DACs when an output sample is due,
/// with the mixer registers (NR50 volumes, NR51 panning).
#[derive(Clone, Copy, Debug, PartialEq, Eq, Structural)]
pub struct SampleInputs {
    pub nr50: u8,
    pub nr51: u8,
    pub channel1: Option<u8>,
    pub channel2: Option<u8>,
    pub channel3: Option<u8>,
    pub channel4: Option<u8>,
}

/// The APU's state: registers, channels, wave RAM, the frame sequencer and
/// the sample clock, and the view of its registers that the CPU reads.
#[derive(Debug)]
pub struct ApuThread {
    pub clock: MasterClock,
    pub cycles: u64,
    pub hardware_mode: HardwareMode,
    pub shared: SharedApuState,
    pub master_enable: bool,
    pub nr50: u8,
    pub nr51: u8,
    pub registers: [u8; 0x17],
    pub channel1: PulseChannel,
    pub channel2: PulseChannel,
    pub channel3: WaveChannel,
    pub channel4: NoiseChannel,
    pub wave_ram: [u8; 16],
    pub frame_sequencer_step: u8,
    pub frame_sequencer_counter: u32,
    pub sample_counter: u32,
    pub samples_emitted: u64,
}

/// NR52 as the CPU reads it, without the unused bits: power in bit 7, the
/// channels' on flags in bits 0-3.
pub open spec fn spec_nr52_status(power: bool, c1: bool, c2: bool, c3: bool, c4: bool) -> u8 {
    ((if power { 0x80int } else { 0 }) + (if c1 { 1int } else { 0 }) + (if c2 { 2int } else { 0 })
        + (if c3 { 4int } else { 0 }) + (if c4 { 8int } else { 0 })) as u8
}

impl ApuThread {
    /// The 11-bit periods stay 11-bit, the step counters stay in range, and
    /// no more samples were emitted than cycles ran.
    pub open spec fn wf(&self) -> bool {
        &&& self.channel1.period < 2048
        &&& self.channel2.period < 2048
        &&& self.channel3.period < 2048
        &&& self.channel1.duty_position < 8
        &&& self.channel2.duty_position < 8
        &&& self.channel1.sweep_step < 8
        &&& self.channel3.sample_index < 32
        &&& self.frame_sequencer_counter < FRAME_SEQUENCER_PERIOD
        &&& self.sample_counter < CPU_CLOCK
        &&& self.samples_emitted <= self.cycles
    }

    pub open spec fn spec_status(&self) -> u8 {
        spec_nr52_status(
            self.master_enable,
            self.channel1.enabled,
            self.channel2.enabled,
            self.channel3.enabled,
            self.channel4.enabled,
        )
    }

    /// An APU at power-on: off, silent, at cycle 0.
    pub fn new(clock: MasterClock, shared: SharedApuState) -> (apu: Self)
        ensures
            apu.wf(),
            apu.clock == clock && apu.shared == shared,
            apu.cycles == 0 && apu.samples_emitted == 0,
            apu.hardware_mode == HardwareMode::Cgb,
            !apu.master_enable && apu.nr50 == 0 && apu.nr51 == 0,
            forall|i: int| 0 <= i < 0x17 ==> #[trigger] apu.registers@[i] == 0,
            forall|i: int| 0 <= i < 16 ==> #[trigger] apu.wave_ram@[i] == 0,
            apu.channel1 == silent_pulse() && apu.channel2 == silent_pulse(),
            apu.channel3 == silent_wave() && apu.channel4 == silent_noise(),
            apu.frame_sequencer_step == 0 && apu.frame_sequencer_counter == 0 && apu.sample_counter == 0,
    {
        ApuThread {
            clock,
            cycles: 0,
            hardware_mode: HardwareMode::Cgb,
            shared,
            master_enable: false,
            nr50: 0,
            nr51: 0,
            registers: [0u8; 0x17],
            channel1: PulseChannel::new(),
            channel2: PulseChannel::new(),
            channel3: WaveChannel::new(),
            channel4: NoiseChannel::new(),
            wave_ram: [0u8; 16],
            frame_sequencer_step: 0,
            frame_sequencer_counter: 0,
            sample_counter: 0,
            samples_emitted: 0,
        }
    }

    fn nr52_status(&self) -> (status: u8)
        ensures
            status == self.spec_status(),
    {
        let power: u8 = if self.master_enable { 0x80 } else { 0 };
        let c1: u8 = if self.channel1.enabled { 1 } else { 0 };
        let c2: u8 = if self.channel2.enabled { 2 } else { 0 };
        let c3: u8 = if self.channel3.enabled { 4 } else { 0 };
        let c4: u8 = if self.channel4.enabled { 8 } else { 0 };
        power + c1 + c2 + c3 + c4
    }

    /// The answer to a read of `address`: the registers with their
    /// write-only bits read as 1, NR52 from the live status, 0xFF in the
    /// unused range, and wave RAM (while channel 3 plays, only the byte it is
    /// reading: always on CGB, on DMG only just as it reads it).
    pub open spec fn spec_read_register(&self, address: u16) -> ReadResult {
        if 0xff10 <= address <= 0xff25 {
            ReadResult::Ready(self.registers@[address - 0xff10] | spec_apu_read_mask(address - 0xff10))
        } else if address == 0xff26 {
            ReadResult::Ready((0x70 + self.spec_status()) as u8)
        } else if 0xff27 <= address <= 0xff2f {
            ReadResult::Ready(0xff)
        } else if 0xff30 <= address <= 0xff3f {
            if self.channel3.enabled {
                if self.hardware_mode == HardwareMode::DmgCompatibility {
                    if self.channel3.period_timer <= 2 {
                        ReadResult::Ready(
                            self.wave_ram@[(((self.channel3.sample_index + 1) % 256) % 32) / 2],
                        )
                    } else {
                        ReadResult::Ready(0xff)
                    }
                } else {
                    ReadResult::Ready(self.wave_ram@[(self.channel3.sample_index / 2) as int])
                }
            } else {
                ReadResult::Ready(self.wave_ram@[address - 0xff30])
            }
        } else {
            ReadResult::NoData
        }
    }

    pub fn read_register(&self, address: u16) -> (result: ReadResult)
        requires
            self.wf(),
        ensures
            result == self.spec_read_register(address),
    {
        proof {
            lemma_byte_masks();
        }
        if 0xff10 <= address && address <= 0xff25 {
            let index = (address - 0xff10) as usize;
            ReadResult::Ready(self.registers[index] | apu_read_mask(index))
        } else if address == 0xff26 {
            let status = self.nr52_status();
            ReadResult::Ready(0x70 + status)
        } else if 0xff27 <= address && address <= 0xff2f {
            ReadResult::Ready(0xff)
        } else if 0xff30 <= address && address <= 0xff3f {
            if self.channel3.enabled {
                if self.hardware_mode == HardwareMode::DmgCompatibility {
                    if self.channel3.period_timer <= 2 {
                        let index = self.channel3.sample_index.wrapping_add(1) & 31;
                        ReadResult::Ready(self.wave_ram[(index / 2) as usize])
                    } else {
                        ReadResult::Ready(0xff)
                    }
                } else {
                    ReadResult::Ready(self.wave_ram[(self.channel3.sample_index / 2) as usize])
                }
            } else {
                ReadResult::Ready(self.wave_ram[(address - 0xff30) as usize])
            }
        } else {
            ReadResult::NoData
        }
    }

    /// Copies the registers, the NR52 status, channel 3's on flag and wave
    /// RAM to the view the CPU reads.
    pub fn sync_shared(&mut self)
        ensures
            synced(*old(self), *final(self)),
    {
        let mut i: usize = 0;
        while i < 0x17
            invariant
                i <= 0x17,
                forall|j: int| 0 <= j < i ==> #[trigger] self.shared.registers@[j] == self.registers@[j],
                *self == (ApuThread { shared: self.shared, ..*old(self) }),
            decreases 0x17 - i,
        {
            self.shared.set_register(i, self.registers[i]);
            i = i + 1;
        }
        let status = self.nr52_status();
        self.shared.set_nr52_status(status);
        self.shared.set_ch3_enabled(self.channel3.enabled);
        let mut k: usize = 0;
        while k < 16
            invariant
                k <= 16,
                self.shared.registers@ =~= old(self).registers@,
                self.shared.nr52_status == old(self).spec_status(),
                self.shared.ch3_enabled == old(self).channel3.enabled,
                forall|j: int| 0 <= j < k ==> #[trigger] self.shared.wave_ram@[j] == self.wave_ram@[j],
                *self == (ApuThread { shared: self.shared, ..*old(self) }),
            decreases 16 - k,
        {
            self.shared.set_wave_ram(k, self.wave_ram[k]);
            k = k + 1;
        }
        assert(self.shared.wave_ram@ =~= old(self).wave_ram@);
    }
}

// ---------------------------------------------------------------------------
// Register writes
// ---------------------------------------------------------------------------

/// A length counter loaded from the 6-bit field of NRx1.
pub open spec fn length_from_field(value: u8) -> u16 {
    (64 - value % 64) as u16
}

/// The period after a write of its low byte (NRx3).
pub open spec fn period_with_low(period: u16, value: u8) -> u16 {
    (period / 256 % 8 * 256 + value) as u16
}

/// The period after a write of its high bits (bits 2-0 of NRx4).
pub open spec fn period_with_high(period: u16, value: u8) -> u16 {
    (period % 256 + value % 8 * 256) as u16
}

/// The length counter and on flag after NRx4 set the length-enable bit from
/// `was_enabled` to `enabled`: turning it on in the first half of a frame
/// sequencer period clocks the counter once, which may stop the channel
/// unless the write also triggers it.
pub open spec fn length_enable_clock(
    length: u16,
    on: bool,
    was_enabled: bool,
    enabled: bool,
    fs_step: u8,
    value: u8,
) -> (u16, bool) {
    if !was_enabled && enabled && fs_step % 2 == 1 && length > 0 {
        let l = (length - 1) as u16;
        (l, if l == 0 && value < 0x80 { false } else { on })
    } else {
        (length, on)
    }
}

/// A length counter reloaded on trigger when it ran out: `full`, or one less
/// where the length is enabled in the first half of a frame sequencer period.
pub open spec fn length_on_trigger(length: u16, full: u16, length_enabled: bool, fs_step: u8) -> u16 {
    if length == 0 {
        if length_enabled && fs_step % 2 == 1 {
            (full - 1) as u16
        } else {
            full
        }
    } else {
        length
    }
}

/// Channel 1's sweep calculation from `shadow`: the shadow plus or minus
/// itself shifted right by `step`, in 16-bit arithmetic.
pub open spec fn spec_sweep_result(shadow: u16, step: u8, negate: bool) -> u16 {
    let delta = shadow >> step;
    if negate {
        ((shadow + (!delta) + 1) % 65536) as u16
    } else {
        ((shadow + delta) % 65536) as u16
    }
}

/// The sweep's new period is the shadow period moved by the shadow shifted
/// right by the step: down (by subtraction, so never above the shadow) when
/// the direction is "decrease", up otherwise (wrapping at 16 bits).
pub proof fn lemma_sweep_result_moves_by_shifted_shadow(shadow: u16, step: u8, negate: bool)
    requires
        step < 8,
    ensures
        negate ==> spec_sweep_result(shadow, step, negate) == shadow - shadow as nat / pow2(step as nat),
        negate ==> spec_sweep_result(shadow, step, negate) <= shadow,
        !negate ==> spec_sweep_result(shadow, step, negate) == (shadow + shadow as nat / pow2(step as nat))
            % 65536,
{
    let delta = shadow >> step;
    assert(delta == shadow >> (step as u16) && delta <= shadow && !delta == (65535 - delta) as u16) by (bit_vector)
        requires
            step < 8,
            delta == shadow >> step,
    ;
    vstd::bits::lemma_u16_shr_is_div(shadow, step as u16);
}

/// An envelope timer reloaded from its pace (0 counts as 8).
pub open spec fn envelope_reload(pace: u8) -> u8 {
    if pace == 0 {
        8
    } else {
        pace
    }
}

impl ApuThread {
    /// Channel 1 after a trigger (NR14 bit 7).
    pub open spec fn spec_triggered_channel1(&self) -> PulseChannel {
        let ch = self.channel1;
        let base = PulseChannel {
            enabled: ch.dac_enabled,
            length_timer: length_on_trigger(ch.length_timer, 64, ch.length_enabled, self.frame_sequencer_step),
            period_timer: pulse_reload(ch.period),
            volume: self.registers@[2] >> 4u8,
            envelope_timer: envelope_reload(ch.envelope_pace),
            sweep_shadow: ch.period,
            sweep_timer: envelope_reload(ch.sweep_pace),
            sweep_negate_used: false,
            sweep_enabled: ch.sweep_pace != 0 || ch.sweep_step != 0,
            ..ch
        };
        if ch.sweep_step != 0 {
            let check = spec_sweep_result(ch.period, ch.sweep_step, ch.sweep_direction);
            PulseChannel {
                sweep_negate_used: ch.sweep_direction,
                enabled: if !ch.sweep_direction && check > 0x7ff { false } else { base.enabled },
                ..base
            }
        } else {
            base
        }
    }

    /// Channel 2 after a trigger (NR24 bit 7).
    pub open spec fn spec_triggered_channel2(&self) -> PulseChannel {
        let ch = self.channel2;
        PulseChannel {
            enabled: ch.dac_enabled,
            length_timer: length_on_trigger(ch.length_timer, 64, ch.length_enabled, self.frame_sequencer_step),
            period_timer: pulse_reload(ch.period),
            volume: self.registers@[7] >> 4u8,
            envelope_timer: envelope_reload(ch.envelope_pace),
            ..ch
        }
    }

    /// Wave RAM after a trigger of channel 3: on DMG, retriggering a playing
    /// channel just as it reads wave RAM copies the byte (or the aligned four
    /// bytes) it was reading to the start.
    pub open spec fn spec_triggered_wave_ram(&self) -> Seq<u8> {
        let pos = self.channel3.sample_index / 2;
        if self.hardware_mode == HardwareMode::DmgCompatibility && self.channel3.enabled
            && self.channel3.period_timer <= 3 {
            if pos < 4 {
                self.wave_ram@.update(0, self.wave_ram@[pos as int])
            } else {
                let aligned = pos - pos % 4;
                self.wave_ram@.update(0, self.wave_ram@[aligned as int]).update(
                    1,
                    self.wave_ram@[aligned + 1],
                ).update(2, self.wave_ram@[aligned + 2]).update(3, self.wave_ram@[aligned + 3])
            }
        } else {
            self.wave_ram@
        }
    }

    /// Channel 3 after a trigger (NR34 bit 7).
    pub open spec fn spec_triggered_channel3(&self) -> WaveChannel {
        let ch = self.channel3;
        WaveChannel {
            enabled: ch.dac_enabled,
            length_timer: length_on_trigger(ch.length_timer, 256, ch.length_enabled, self.frame_sequencer_step),
            period_timer: (wave_reload(ch.period) + if self.hardware_mode
                == HardwareMode::DmgCompatibility {
                2int
            } else {
                6int
            }) as u16,
            sample_index: 0,
            ..ch
        }
    }

    /// Channel 4 after a trigger (NR44 bit 7).
    pub open spec fn spec_triggered_channel4(&self) -> NoiseChannel {
        let ch = self.channel4;
        NoiseChannel {
            enabled: ch.dac_enabled,
            length_timer: length_on_trigger(ch.length_timer, 64, ch.length_enabled, self.frame_sequencer_step),
            lfsr: 0x7fff,
            volume: self.registers@[0x11] >> 4u8,
            envelope_timer: envelope_reload(ch.envelope_pace),
            period_timer: ch.spec_noise_period(),
            ..ch
        }
    }

    fn sweep_calculate(&mut self) -> (result: u16)
        requires
            old(self).channel1.sweep_step < 8,
        ensures
            result == spec_sweep_result(
                old(self).channel1.sweep_shadow,
                old(self).channel1.sweep_step,
                old(self).channel1.sweep_direction,
            ),
            *final(self) == (ApuThread {
                channel1: PulseChannel {
                    sweep_negate_used: old(self).channel1.sweep_negate_used || old(self).channel1.sweep_direction,
                    ..old(self).channel1
                },
                ..*old(self)
            }),
    {
        let shadow = self.channel1.sweep_shadow;
        let delta = shadow >> self.channel1.sweep_step;
        if self.channel1.sweep_direction {
            self.channel1.sweep_negate_used = true;
            shadow.wrapping_add(!delta).wrapping_add(1)
        } else {
            shadow.wrapping_add(delta)
        }
    }

    fn trigger_channel1(&mut self)
        requires
            old(self).wf(),
        ensures
            *final(self) == (ApuThread { channel1: old(self).spec_triggered_channel1(), ..*old(self) }),
    {
        self.channel1.enabled = self.channel1.dac_enabled;
        if self.channel1.length_timer == 0 {
            self.channel1.length_timer = 64;
            if self.channel1.length_enabled && self.frame_sequencer_step % 2 == 1 {
                self.channel1.length_timer = self.channel1.length_timer - 1;
            }
        }
        self.channel1.period_timer = (2048 - self.channel1.period) * 4;
        self.channel1.volume = self.registers[0x02] >> 4;
        self.channel1.envelope_timer = if self.channel1.envelope_pace == 0 {
            8
        } else {
            self.channel1.envelope_pace
        };
        self.channel1.sweep_shadow = self.channel1.period;
        self.channel1.sweep_timer = if self.channel1.sweep_pace == 0 {
            8
        } else {
            self.channel1.sweep_pace
        };
        self.channel1.sweep_negate_used = false;
        self.channel1.sweep_enabled = self.channel1.sweep_pace != 0 || self.channel1.sweep_step != 0;
        if self.channel1.sweep_step != 0 {
            let check = self.sweep_calculate();
            if !self.channel1.sweep_direction && check > 0x7ff {
                self.channel1.enabled = false;
            }
        }
    }

    fn trigger_channel2(&mut self)
        requires
            old(self).wf(),
        ensures
            *final(self) == (ApuThread { channel2: old(self).spec_triggered_channel2(), ..*old(self) }),
    {
        self.channel2.enabled = self.channel2.dac_enabled;
        if self.channel2.length_timer == 0 {
            self.channel2.length_timer = 64;
            if self.channel2.length_enabled && self.frame_sequencer_step % 2 == 1 {
                self.channel2.length_timer = self.channel2.length_timer - 1;
            }
        }
        self.channel2.period_timer = (2048 - self.channel2.period) * 4;
        self.channel2.volume = self.registers[0x07] >> 4;
        self.channel2.envelope_timer = if self.channel2.envelope_pace == 0 {
            8
        } else {
            self.channel2.envelope_pace
        };
    }

    fn trigger_channel3(&mut self)
        requires
            old(self).wf(),
        ensures
            final(self).wave_ram@ == old(self).spec_triggered_wave_ram(),
            *final(self) == (ApuThread {
                channel3: old(self).spec_triggered_channel3(),
                wave_ram: final(self).wave_ram,
                ..*old(self)
            }),
    {
        if self.hardware_mode == HardwareMode::DmgCompatibility && self.channel3.enabled
            && self.channel3.period_timer <= 3 {
            let pos = (self.channel3.sample_index / 2) as usize;
            if pos < 4 {
                self.wave_ram[0] = self.wave_ram[pos];
            } else {
                let aligned = pos - pos % 4;
                self.wave_ram[0] = self.wave_ram[aligned];
                self.wave_ram[1] = self.wave_ram[aligned + 1];
                self.wave_ram[2] = self.wave_ram[aligned + 2];
                self.wave_ram[3] = self.wave_ram[aligned + 3];
            }
        }
        self.channel3.enabled = self.channel3.dac_enabled;
        if self.channel3.length_timer == 0 {
            self.channel3.length_timer = 256;
            if self.channel3.length_enabled && self.frame_sequencer_step % 2 == 1 {
                self.channel3.length_timer = self.channel3.length_timer - 1;
            }
        }
        let trigger_delay: u16 = if self.hardware_mode == HardwareMode::DmgCompatibility {
            2
        } else {
            6
        };
        self.channel3.period_timer = (2048 - self.channel3.period) * 2 + trigger_delay;
        self.channel3.sample_index = 0;
    }

    fn trigger_channel4(&mut self)
        requires
            old(self).wf(),
        ensures
            *final(self) == (ApuThread { channel4: old(self).spec_triggered_channel4(), ..*old(self) }),
    {
        self.channel4.enabled = self.channel4.dac_enabled;
        if self.channel4.length_timer == 0 {
            self.channel4.length_timer = 64;
            if self.channel4.length_enabled && self.frame_sequencer_step % 2 == 1 {
                self.channel4.length_timer = self.channel4.length_timer - 1;
            }
        }
        self.channel4.lfsr = 0x7fff;
        self.channel4.volume = self.registers[0x11] >> 4;
        self.channel4.envelope_timer = if self.channel4.envelope_pace == 0 {
            8
        } else {
            self.channel4.envelope_pace
        };
        self.channel4.period_timer = self.channel4.noise_period();
    }
}

impl ApuThread {
    /// Channel 1 after a write of `value` to NR10-NR14 (`address`).
    pub open spec fn spec_channel1_written(&self, address: u16, value: u8) -> PulseChannel {
        let ch = self.channel1;
        if address == 0xff10 {
            let new_direction = value & 0x08 != 0;
            PulseChannel {
                sweep_pace: (value >> 4u8) & 0x07,
                enabled: if ch.sweep_negate_used && ch.sweep_direction && !new_direction {
                    false
                } else {
                    ch.enabled
                },
                sweep_direction: new_direction,
                sweep_step: value & 0x07,
                ..ch
            }
        } else if address == 0xff11 {
            PulseChannel { duty: (value >> 6u8) & 0x03, length_timer: length_from_field(value), ..ch }
        } else if address == 0xff12 {
            let dac = value & 0xf8 != 0;
            PulseChannel {
                dac_enabled: dac,
                enabled: if !dac { false } else { ch.enabled },
                volume: value >> 4u8,
                envelope_direction: value & 0x08 != 0,
                envelope_pace: value & 0x07,
                ..ch
            }
        } else if address == 0xff13 {
            PulseChannel { period: period_with_low(ch.period, value), ..ch }
        } else {
            let length_enabled = value & 0x40 != 0;
            let (length, on) = length_enable_clock(
                ch.length_timer,
                ch.enabled,
                ch.length_enabled,
                length_enabled,
                self.frame_sequencer_step,
                value,
            );
            let pre = ApuThread {
                channel1: PulseChannel {
                    period: period_with_high(ch.period, value),
                    length_enabled,
                    length_timer: length,
                    enabled: on,
                    ..ch
                },
                ..*self
            };
            if value & 0x80 != 0 {
                pre.spec_triggered_channel1()
            } else {
                pre.channel1
            }
        }
    }

    /// Channel 2 after a write of `value` to NR21-NR24 (`address`).
    pub open spec fn spec_channel2_written(&self, address: u16, value: u8) -> PulseChannel {
        let ch = self.channel2;
        if address == 0xff16 {
            PulseChannel { duty: (value >> 6u8) & 0x03, length_timer: length_from_field(value), ..ch }
        } else if address == 0xff17 {
            let dac = value & 0xf8 != 0;
            PulseChannel {
                dac_enabled: dac,
                enabled: if !dac { false } else { ch.enabled },
                volume: value >> 4u8,
                envelope_direction: value & 0x08 != 0,
                envelope_pace: value & 0x07,
                ..ch
            }
        } else if address == 0xff18 {
            PulseChannel { period: period_with_low(ch.period, value), ..ch }
        } else {
            let length_enabled = value & 0x40 != 0;
            let (length, on) = length_enable_clock(
                ch.length_timer,
                ch.enabled,
                ch.length_enabled,
                length_enabled,
                self.frame_sequencer_step,
                value,
            );
            let pre = ApuThread {
                channel2: PulseChannel {
                    period: period_with_high(ch.period, value),
                    length_enabled,
                    length_timer: length,
                    enabled: on,
                    ..ch
                },
                ..*self
            };
            if value & 0x80 != 0 {
                pre.spec_triggered_channel2()
            } else {
                pre.channel2
            }
        }
    }

    /// Channel 3 as NR34 leaves it before a trigger.
    pub open spec fn spec_channel3_pre_trigger(&self, value: u8) -> ApuThread {
        let ch = self.channel3;
        let length_enabled = value & 0x40 != 0;
        let (length, on) = length_enable_clock(
            ch.length_timer,
            ch.enabled,
            ch.length_enabled,
            length_enabled,
            self.frame_sequencer_step,
            value,
        );
        ApuThread {
            channel3: WaveChannel {
                period: period_with_high(ch.period, value),
                length_enabled,
                length_timer: length,
                enabled: on,
                ..ch
            },
            ..*self
        }
    }

    /// Channel 3 after a write of `value` to NR30-NR34 (`address`).
    pub open spec fn spec_channel3_written(&self, address: u16, value: u8) -> WaveChannel {
        let ch = self.channel3;
        if address == 0xff1a {
            let dac = value & 0x80 != 0;
            WaveChannel { dac_enabled: dac, enabled: if !dac { false } else { ch.enabled }, ..ch }
        } else if address == 0xff1b {
            WaveChannel { length_timer: (256 - value) as u16, ..ch }
        } else if address == 0xff1c {
            WaveChannel { output_level: (value >> 5u8) & 0x03, ..ch }
        } else if address == 0xff1d {
            WaveChannel { period: period_with_low(ch.period, value), ..ch }
        } else {
            let pre = self.spec_channel3_pre_trigger(value);
            if value & 0x80 != 0 {
                pre.spec_triggered_channel3()
            } else {
                pre.channel3
            }
        }
    }

    /// Wave RAM after a write of `value` to NR30-NR34 (`address`).
    pub open spec fn spec_wave_ram_after_channel3_write(&self, address: u16, value: u8) -> Seq<u8> {
        if address == 0xff1e && value & 0x80 != 0 {
            self.spec_channel3_pre_trigger(value).spec_triggered_wave_ram()
        } else {
            self.wave_ram@
        }
    }

    /// Channel 4 after a write of `value` to NR41-NR44 (`address`).
    pub open spec fn spec_channel4_written(&self, address: u16, value: u8) -> NoiseChannel {
        let ch = self.channel4;
        if address == 0xff20 {
            NoiseChannel { length_timer: length_from_field(value), ..ch }
        } else if address == 0xff21 {
            let dac = value & 0xf8 != 0;
            NoiseChannel {
                dac_enabled: dac,
                enabled: if !dac { false } else { ch.enabled },
                volume: value >> 4u8,
                envelope_direction: value & 0x08 != 0,
                envelope_pace: value & 0x07,
                ..ch
            }
        } else if address == 0xff22 {
            NoiseChannel {
                clock_shift: value >> 4u8,
                width_mode: value & 0x08 != 0,
                divisor_code: value & 0x07,
                ..ch
            }
        } else {
            let length_enabled = value & 0x40 != 0;
            let (length, on) = length_enable_clock(
                ch.length_timer,
                ch.enabled,
                ch.length_enabled,
                length_enabled,
                self.frame_sequencer_step,
                value,
            );
            let pre = ApuThread {
                channel4: NoiseChannel { length_enabled, length_timer: length, enabled: on, ..ch },
                ..*self
            };
            if value & 0x80 != 0 {
                pre.spec_triggered_channel4()
            } else {
                pre.channel4
            }
        }
    }

    #[verifier::rlimit(60)]
    #[verifier::spinoff_prover]
    fn write_channel1(&mut self, address: u16, value: u8)
        requires
            old(self).wf(),
            0xff10 <= address <= 0xff14,
        ensures
            final(self).wf(),
            final(self).registers@ == old(self).registers@.update(address - 0xff10, value),
            final(self).channel1 == old(self).spec_channel1_written(address, value),
            *final(self) == (ApuThread {
                registers: final(self).registers,
                channel1: final(self).channel1,
                ..*old(self)
            }),
    {
        proof {
            lemma_byte_masks();
            lemma_period_fields(old(self).channel1.period, value);
        }
        let index = (address - 0xff10) as usize;
        self.registers[index] = value;
        if address == 0xff10 {
            self.channel1.sweep_pace = (value >> 4) & 0x07;
            let new_direction = value & 0x08 != 0;
            if self.channel1.sweep_negate_used && self.channel1.sweep_direction && !new_direction {
                self.channel1.enabled = false;
            }
            self.channel1.sweep_direction = new_direction;
            self.channel1.sweep_step = value & 0x07;
        } else if address == 0xff11 {
            self.channel1.duty = (value >> 6) & 0x03;
            self.channel1.length_timer = 64 - (value & 0x3f) as u16;
        } else if address == 0xff12 {
            self.channel1.dac_enabled = value & 0xf8 != 0;
            if !self.channel1.dac_enabled {
                self.channel1.enabled = false;
            }
            self.channel1.volume = value >> 4;
            self.channel1.envelope_direction = value & 0x08 != 0;
            self.channel1.envelope_pace = value & 0x07;
        } else if address == 0xff13 {
            self.channel1.period = (self.channel1.period & 0x700) | value as u16;
        } else {
            self.channel1.period = (self.channel1.period & 0xff) | ((value as u16 & 0x07) << 8);
            let was_length_enabled = self.channel1.length_enabled;
            self.channel1.length_enabled = value & 0x40 != 0;
            if !was_length_enabled && self.channel1.length_enabled && self.frame_sequencer_step % 2 == 1
                && self.channel1.length_timer > 0 {
                self.channel1.length_timer = self.channel1.length_timer - 1;
                if self.channel1.length_timer == 0 && value & 0x80 == 0 {
                    self.channel1.enabled = false;
                }
            }
            if value & 0x80 != 0 {
                self.trigger_channel1();
            }
        }
    }
}

/// The two period writes keep the period 11-bit and mean what their specs say.
proof fn lemma_period_fields(period: u16, value: u8)
    ensures
        (period & 0x700) | (value as u16) == period_with_low(period, value),
        (period & 0xff) | (((value as u16) & 0x07) << 8u16) == period_with_high(period, value),
        period_with_low(period, value) < 2048,
        period_with_high(period, value) < 2048,
        value & 0x80 == 0 <==> value < 0x80,
{
    assert({
        &&& (period & 0x700) | (value as u16) == (period / 256 % 8 * 256 + value) as u16
        &&& (period & 0xff) | (((value as u16) & 0x07) << 8u16) == (period % 256 + value % 8 * 256) as u16
        &&& (value & 0x80 == 0 <==> value < 0x80)
    }) by (bit_vector);
}

/// Channel 1 after a sweep step (`clock_sweep`).
pub open spec fn swept_channel1(ch: PulseChannel) -> PulseChannel {
    let timer = if ch.sweep_timer > 0 { (ch.sweep_timer - 1) as u8 } else { 0u8 };
    if !ch.sweep_enabled {
        ch
    } else if timer > 0 {
        PulseChannel { sweep_timer: timer, ..ch }
    } else if ch.sweep_pace == 0 {
        PulseChannel { sweep_timer: 8, ..ch }
    } else {
        let new_period = spec_sweep_result(ch.sweep_shadow, ch.sweep_step, ch.sweep_direction);
        let reloaded = PulseChannel {
            sweep_timer: ch.sweep_pace,
            sweep_negate_used: ch.sweep_negate_used || ch.sweep_direction,
            ..ch
        };
        if !ch.sweep_direction && new_period > 0x7ff {
            PulseChannel { enabled: false, ..reloaded }
        } else if ch.sweep_step != 0 {
            let period = new_period & 0x7ff;
            let stepped = PulseChannel { period, sweep_shadow: period, ..reloaded };
            let check = spec_sweep_result(period, ch.sweep_step, ch.sweep_direction);
            if !ch.sweep_direction && check > 0x7ff {
                PulseChannel { enabled: false, ..stepped }
            } else {
                stepped
            }
        } else {
            reloaded
        }
    }
}

/// What a write of `value` to `address` does to the APU (`write_register`).
pub open spec fn register_written(before: ApuThread, address: u16, value: u8, after: ApuThread) -> bool {
    &&& (after.cycles == before.cycles && after.clock == before.clock)
    &&& (address == 0xff26 ==> before.nr52_write_post(value, after))
    &&& (0xff10 <= address <= 0xff25 && !before.master_enable ==> {
        &&& before.off_write_post(address, value, after)
    })
    &&& (before.master_enable && 0xff10 <= address <= 0xff14 ==> {
        &&& after.channel1 == before.spec_channel1_written(address, value)
        &&& after.registers@ == before.registers@.update(address - 0xff10, value)
        &&& after == (ApuThread { registers: after.registers, channel1: after.channel1, ..before })
    })
    &&& (before.master_enable && 0xff16 <= address <= 0xff19 ==> {
        &&& after.channel2 == before.spec_channel2_written(address, value)
        &&& after.registers@ == before.registers@.update(address - 0xff10, value)
        &&& after == (ApuThread { registers: after.registers, channel2: after.channel2, ..before })
    })
    &&& (before.master_enable && 0xff1a <= address <= 0xff1e ==> {
        &&& after.channel3 == before.spec_channel3_written(address, value)
        &&& after.registers@ == before.registers@.update(address - 0xff10, value)
        &&& after.wave_ram@ == before.spec_wave_ram_after_channel3_write(address, value)
        &&& after == (ApuThread { registers: after.registers, channel3: after.channel3, wave_ram: after.wave_ram, ..before })
    })
    &&& (before.master_enable && 0xff20 <= address <= 0xff23 ==> {
        &&& after.channel4 == before.spec_channel4_written(address, value)
        &&& after.registers@ == before.registers@.update(address - 0xff10, value)
        &&& after == (ApuThread { registers: after.registers, channel4: after.channel4, ..before })
    })
    &&& (before.master_enable && address == 0xff24 ==> {
        &&& after == (ApuThread { nr50: value, registers: after.registers, ..before })
        &&& after.registers@ == before.registers@.update(0x14, value)
    })
    &&& (before.master_enable && address == 0xff25 ==> {
        &&& after == (ApuThread { nr51: value, registers: after.registers, ..before })
        &&& after.registers@ == before.registers@.update(0x15, value)
    })
    &&& (before.master_enable && (address == 0xff15 || address == 0xff1f) ==> after == before)
    &&& (0xff30 <= address <= 0xff3f ==> before.wave_ram_write_post(address, value, after))
    &&& (!(0xff10 <= address <= 0xff26) && !(0xff30 <= address <= 0xff3f) ==> after == before)
}

/// `after` is `before` with its registers, NR52 status and wave RAM
/// published to the CPU's view (`sync_shared`).
pub open spec fn synced(before: ApuThread, after: ApuThread) -> bool {
    &&& after.shared.registers@ == before.registers@
    &&& after.shared.nr52_status == before.spec_status()
    &&& after.shared.ch3_enabled == before.channel3.enabled
    &&& after.shared.wave_ram@ == before.wave_ram@
    &&& after == (ApuThread { shared: after.shared, ..before })
}

/// `target` less `n` cycles, not below zero.
pub open spec fn cycles_before(target: u64, n: u64) -> u64 {
    if target >= n {
        (target - n) as u64
    } else {
        0
    }
}

/// `after` is `before` run up to cycle `target` where it was behind, with
/// `samples` the sample points due on the way: each cycle adds `SAMPLE_RATE`
/// to the sample clock and every `CPU_CLOCK` of it is one sample; the
/// registers, wave RAM, power, clock and mode stay; a powered-off APU only
/// counts cycles.
pub open spec fn ran_to(before: ApuThread, after: ApuThread, target: u64, samples: Seq<SampleInputs>) -> bool {
    &&& after.wf()
    &&& after.cycles == if before.cycles < target {
        target
    } else {
        before.cycles
    }
    &&& after.samples_emitted == before.samples_emitted + samples.len()
    &&& (before.master_enable ==> after.sample_counter + after.samples_emitted * CPU_CLOCK
        == before.sample_counter + before.samples_emitted * CPU_CLOCK + (after.cycles - before.cycles)
        * SAMPLE_RATE)
    &&& (!before.master_enable ==> samples.len() == 0 && after == (ApuThread {
        cycles: after.cycles,
        ..before
    }))
    &&& after.registers == before.registers && after.wave_ram == before.wave_ram
    &&& after.master_enable == before.master_enable
    &&& after.clock == before.clock
    &&& after.hardware_mode == before.hardware_mode
}

impl ApuThread {
    /// The cycle a bus access to `address` lands on: the master clock, but
    /// `early` cycles before it for wave RAM on DMG.
    pub open spec fn access_cycle(&self, address: u16, early: u64) -> u64 {
        if 0xff30 <= address <= 0xff3f && self.hardware_mode == HardwareMode::DmgCompatibility {
            cycles_before(self.clock.target_cycle, early)
        } else {
            self.clock.target_cycle
        }
    }
}

impl ApuThread {
    #[verifier::rlimit(60)]
    #[verifier::spinoff_prover]
    fn write_channel2(&mut self, address: u16, value: u8)
        requires
            old(self).wf(),
            0xff16 <= address <= 0xff19,
        ensures
            final(self).wf(),
            final(self).registers@ == old(self).registers@.update(address - 0xff10, value),
            final(self).channel2 == old(self).spec_channel2_written(address, value),
            *final(self) == (ApuThread {
                registers: final(self).registers,
                channel2: final(self).channel2,
                ..*old(self)
            }),
    {
        proof {
            lemma_byte_masks();
            lemma_period_fields(old(self).channel2.period, value);
        }
        let index = (address - 0xff10) as usize;
        self.registers[index] = value;
        if address == 0xff16 {
            self.channel2.duty = (value >> 6) & 0x03;
            self.channel2.length_timer = 64 - (value & 0x3f) as u16;
        } else if address == 0xff17 {
            self.channel2.dac_enabled = value & 0xf8 != 0;
            if !self.channel2.dac_enabled {
                self.channel2.enabled = false;
            }
            self.channel2.volume = value >> 4;
            self.channel2.envelope_direction = value & 0x08 != 0;
            self.channel2.envelope_pace = value & 0x07;
        } else if address == 0xff18 {
            self.channel2.period = (self.channel2.period & 0x700) | value as u16;
        } else {
            self.channel2.period = (self.channel2.period & 0xff) | ((value as u16 & 0x07) << 8);
            let was_length_enabled = self.channel2.length_enabled;
            self.channel2.length_enabled = value & 0x40 != 0;
            if !was_length_enabled && self.channel2.length_enabled && self.frame_sequencer_step % 2 == 1
                && self.channel2.length_timer > 0 {
                self.channel2.length_timer = self.channel2.length_timer - 1;
                if self.channel2.length_timer == 0 && value & 0x80 == 0 {
                    self.channel2.enabled = false;
                }
            }
            if value & 0x80 != 0 {
                self.trigger_channel2();
            }
        }
    }

    fn write_channel3(&mut self, address: u16, value: u8)
        requires
            old(self).wf(),
            0xff1a <= address <= 0xff1e,
        ensures
            final(self).wf(),
            final(self).registers@ == old(self).registers@.update(address - 0xff10, value),
            final(self).channel3 == old(self).spec_channel3_written(address, value),
            final(self).wave_ram@ == old(self).spec_wave_ram_after_channel3_write(address, value),
            *final(self) == (ApuThread {
                registers: final(self).registers,
                channel3: final(self).channel3,
                wave_ram: final(self).wave_ram,
                ..*old(self)
            }),
    {
        proof {
            lemma_byte_masks();
            lemma_period_fields(old(self).channel3.period, value);
        }
        let index = (address - 0xff10) as usize;
        self.registers[index] = value;
        if address == 0xff1a {
            self.channel3.dac_enabled = value & 0x80 != 0;
            if !self.channel3.dac_enabled {
                self.channel3.enabled = false;
            }
        } else if address == 0xff1b {
            self.channel3.length_timer = 256 - value as u16;
        } else if address == 0xff1c {
            self.channel3.output_level = (value >> 5) & 0x03;
        } else if address == 0xff1d {
            self.channel3.period = (self.channel3.period & 0x700) | value as u16;
        } else {
            self.channel3.period = (self.channel3.period & 0xff) | ((value as u16 & 0x07) << 8);
            let was_length_enabled = self.channel3.length_enabled;
            self.channel3.length_enabled = value & 0x40 != 0;
            if !was_length_enabled && self.channel3.length_enabled && self.frame_sequencer_step % 2 == 1
                && self.channel3.length_timer > 0 {
                self.channel3.length_timer = self.channel3.length_timer - 1;
                if self.channel3.length_timer == 0 && value & 0x80 == 0 {
                    self.channel3.enabled = false;
                }
            }
            if value & 0x80 != 0 {
                self.trigger_channel3();
            }
        }
    }

    #[verifier::rlimit(60)]
    #[verifier::spinoff_prover]
    fn write_channel4(&mut self, address: u16, value: u8)
        requires
            old(self).wf(),
            0xff20 <= address <= 0xff23,
        ensures
            final(self).wf(),
            final(self).registers@ == old(self).registers@.update(address - 0xff10, value),
            final(self).channel4 == old(self).spec_channel4_written(address, value),
            *final(self) == (ApuThread {
                registers: final(self).registers,
                channel4: final(self).channel4,
                ..*old(self)
            }),
    {
        proof {
            lemma_byte_masks();
            lemma_period_fields(0, value);
        }
        let index = (address - 0xff10) as usize;
        self.registers[index] = value;
        if address == 0xff20 {
            self.channel4.length_timer = 64 - (value & 0x3f) as u16;
        } else if address == 0xff21 {
            self.channel4.dac_enabled = value & 0xf8 != 0;
            if !self.channel4.dac_enabled {
                self.channel4.enabled = false;
            }
            self.channel4.volume = value >> 4;
            self.channel4.envelope_direction = value & 0x08 != 0;
            self.channel4.envelope_pace = value & 0x07;
        } else if address == 0xff22 {
            self.channel4.clock_shift = value >> 4;
            self.channel4.width_mode = value & 0x08 != 0;
            self.channel4.divisor_code = value & 0x07;
        } else {
            let was_length_enabled = self.channel4.length_enabled;
            self.channel4.length_enabled = value & 0x40 != 0;
            if !was_length_enabled && self.channel4.length_enabled && self.frame_sequencer_step % 2 == 1
                && self.channel4.length_timer > 0 {
                self.channel4.length_timer = self.channel4.length_timer - 1;
                if self.channel4.length_timer == 0 && value & 0x80 == 0 {
                    self.channel4.enabled = false;
                }
            }
            if value & 0x80 != 0 {
                self.trigger_channel4();
            }
        }
    }

    /// The APU after power-off (NR52 bit 7 cleared): every register but NR52
    /// zeroed and every channel reset, keeping the length counters (all of
    /// them on DMG; on CGB not channel 4's).
    pub open spec fn power_off_post(&self, after: &ApuThread) -> bool {
        &&& forall|i: int| 0 <= i < 0x16 ==> #[trigger] after.registers@[i] == 0
        &&& after.registers@[0x16] == self.registers@[0x16]
        &&& after.nr50 == 0 && after.nr51 == 0
        &&& after.channel1 == PulseChannel { length_timer: self.channel1.length_timer, ..silent_pulse() }
        &&& after.channel2 == PulseChannel { length_timer: self.channel2.length_timer, ..silent_pulse() }
        &&& after.channel3 == WaveChannel { length_timer: self.channel3.length_timer, ..silent_wave() }
        &&& after.channel4 == if self.hardware_mode == HardwareMode::DmgCompatibility {
            NoiseChannel { length_timer: self.channel4.length_timer, ..silent_noise() }
        } else {
            silent_noise()
        }
        &&& *after == ApuThread {
            registers: after.registers,
            nr50: 0,
            nr51: 0,
            channel1: after.channel1,
            channel2: after.channel2,
            channel3: after.channel3,
            channel4: after.channel4,
            ..*self
        }
    }

    fn power_off(&mut self)
        ensures
            old(self).power_off_post(final(self)),
    {
        let is_dmg = self.hardware_mode == HardwareMode::DmgCompatibility;
        let ch1_length = self.channel1.length_timer;
        let ch2_length = self.channel2.length_timer;
        let ch3_length = self.channel3.length_timer;
        let ch4_length = self.channel4.length_timer;
        let mut i: usize = 0;
        while i < 0x16
            invariant
                i <= 0x16,
                forall|j: int| 0 <= j < i ==> #[trigger] self.registers@[j] == 0,
                self.registers@[0x16] == old(self).registers@[0x16],
                *self == (ApuThread { registers: self.registers, ..*old(self) }),
            decreases 0x16 - i,
        {
            self.registers[i] = 0;
            i = i + 1;
        }
        self.nr50 = 0;
        self.nr51 = 0;
        self.channel1 = PulseChannel::new();
        self.channel2 = PulseChannel::new();
        self.channel3 = WaveChannel::new();
        self.channel4 = NoiseChannel::new();
        self.channel1.length_timer = ch1_length;
        self.channel2.length_timer = ch2_length;
        self.channel3.length_timer = ch3_length;
        if is_dmg {
            self.channel4.length_timer = ch4_length;
        }
    }

    /// What a write of `value` to NR52 leaves: turning the APU off clears it,
    /// turning it on restarts the frame sequencer, anything else changes nothing.
    pub open spec fn nr52_write_post(&self, value: u8, after: ApuThread) -> bool {
        let on = value & 0x80 != 0;
        if self.master_enable && !on {
            (ApuThread { master_enable: false, ..*self }).power_off_post(&after)
        } else if !self.master_enable && on {
            after == (ApuThread {
                master_enable: true,
                frame_sequencer_counter: 0,
                frame_sequencer_step: 0,
                ..*self
            })
        } else {
            after == *self
        }
    }

    /// What a write to NR10-NR51 leaves while the APU is off: on DMG the
    /// length counters still load; nothing else changes.
    pub open spec fn off_write_post(&self, address: u16, value: u8, after: ApuThread) -> bool {
        if self.hardware_mode == HardwareMode::DmgCompatibility && address == 0xff11 {
            after == (ApuThread {
                channel1: PulseChannel { length_timer: length_from_field(value), ..self.channel1 },
                ..*self
            })
        } else if self.hardware_mode == HardwareMode::DmgCompatibility && address
            == 0xff16 {
            after == (ApuThread {
                channel2: PulseChannel { length_timer: length_from_field(value), ..self.channel2 },
                ..*self
            })
        } else if self.hardware_mode == HardwareMode::DmgCompatibility && address
            == 0xff1b {
            after == (ApuThread {
                channel3: WaveChannel { length_timer: (256 - value) as u16, ..self.channel3 },
                ..*self
            })
        } else if self.hardware_mode == HardwareMode::DmgCompatibility && address
            == 0xff20 {
            after == (ApuThread {
                channel4: NoiseChannel { length_timer: length_from_field(value), ..self.channel4 },
                ..*self
            })
        } else {
            after == *self
        }
    }

    /// What a write to wave RAM leaves: while channel 3 plays, only the byte
    /// it is reading takes the value (on DMG only just after it read it).
    pub open spec fn wave_ram_write_post(&self, address: u16, value: u8, after: ApuThread) -> bool {
        let target: int = if !self.channel3.enabled {
            address - 0xff30
        } else if self.hardware_mode == HardwareMode::DmgCompatibility {
            if (self.cycles - self.channel3.last_access_cycle) % 0x1_0000_0000_0000_0000
                <= 2 {
                (self.channel3.sample_index / 2) as int
            } else {
                -1
            }
        } else {
            (self.channel3.sample_index / 2) as int
        };
        &&& after.wave_ram@ == if target >= 0 {
            self.wave_ram@.update(target, value)
        } else {
            self.wave_ram@
        }
        &&& after == (ApuThread { wave_ram: after.wave_ram, ..*self })
    }

    fn write_nr52(&mut self, value: u8)
        requires
            old(self).wf(),
        ensures
            final(self).wf(),
            old(self).nr52_write_post(value, *final(self)),
    {
        let was_enabled = self.master_enable;
        self.master_enable = value & 0x80 != 0;
        if was_enabled && !self.master_enable {
            self.power_off();
        } else if !was_enabled && self.master_enable {
            self.frame_sequencer_counter = 0;
            self.frame_sequencer_step = 0;
        }
    }

    fn write_while_off(&mut self, address: u16, value: u8)
        requires
            old(self).wf(),
            0xff10 <= address <= 0xff25,
            !old(self).master_enable,
        ensures
            final(self).wf(),
            old(self).off_write_post(address, value, *final(self)),
    {
        if self.hardware_mode == HardwareMode::DmgCompatibility {
            proof {
                lemma_byte_masks();
            }
            if address == 0xff11 {
                self.channel1.length_timer = 64 - (value & 0x3f) as u16;
            } else if address == 0xff16 {
                self.channel2.length_timer = 64 - (value & 0x3f) as u16;
            } else if address == 0xff1b {
                self.channel3.length_timer = 256 - value as u16;
            } else if address == 0xff20 {
                self.channel4.length_timer = 64 - (value & 0x3f) as u16;
            }
        }
    }

    fn write_wave_ram(&mut self, address: u16, value: u8)
        requires
            old(self).wf(),
            0xff30 <= address <= 0xff3f,
        ensures
            final(self).wf(),
            old(self).wave_ram_write_post(address, value, *final(self)),
    {
        if self.channel3.enabled {
            if self.hardware_mode == HardwareMode::DmgCompatibility {
                let since_access = self.cycles.wrapping_sub(self.channel3.last_access_cycle);
                if since_access <= 2 {
                    self.wave_ram[(self.channel3.sample_index / 2) as usize] = value;
                }
            } else {
                self.wave_ram[(self.channel3.sample_index / 2) as usize] = value;
            }
        } else {
            self.wave_ram[(address - 0xff30) as usize] = value;
        }
    }

    /// A write of `value` to `address`. NR52 turns the APU on (restarting the
    /// frame sequencer) or off (`power_off`); while it is off, the other
    /// registers ignore writes, but on DMG the length counters still load;
    /// otherwise each register goes to its channel, and wave RAM takes the
    /// byte (while channel 3 plays, only the byte it is reading: always on
    /// CGB, on DMG only just after it read it).
    pub fn write_register(&mut self, address: u16, value: u8)
        requires
            old(self).wf(),
        ensures
            final(self).wf(),
            register_written(*old(self), address, value, *final(self)),
    {
        if address == 0xff26 {
            self.write_nr52(value);
        } else if 0xff10 <= address && address <= 0xff25 && !self.master_enable {
            self.write_while_off(address, value);
        } else if 0xff10 <= address && address <= 0xff14 {
            self.write_channel1(address, value);
        } else if address == 0xff15 {
        } else if 0xff16 <= address && address <= 0xff19 {
            self.write_channel2(address, value);
        } else if 0xff1a <= address && address <= 0xff1e {
            self.write_channel3(address, value);
        } else if address == 0xff1f {
        } else if 0xff20 <= address && address <= 0xff23 {
            self.write_channel4(address, value);
        } else if address == 0xff24 {
            self.nr50 = value;
            self.registers[0x14] = value;
        } else if address == 0xff25 {
            self.nr51 = value;
            self.registers[0x15] = value;
        } else if 0xff30 <= address && address <= 0xff3f {
            self.write_wave_ram(address, value);
        }
    }
}

// ---------------------------------------------------------------------------
// The frame sequencer and the sample clock
// ---------------------------------------------------------------------------

impl ApuThread {
    fn clock_length(&mut self)
        ensures
            *final(self) == (ApuThread {
                channel1: final(self).channel1,
                channel2: final(self).channel2,
                channel3: final(self).channel3,
                channel4: final(self).channel4,
                ..*old(self)
            }),
            final(self).channel1 == (PulseChannel {
                length_timer: final(self).channel1.length_timer,
                enabled: final(self).channel1.enabled,
                ..old(self).channel1
            }),
            final(self).channel2 == (PulseChannel {
                length_timer: final(self).channel2.length_timer,
                enabled: final(self).channel2.enabled,
                ..old(self).channel2
            }),
            final(self).channel3 == (WaveChannel {
                length_timer: final(self).channel3.length_timer,
                enabled: final(self).channel3.enabled,
                ..old(self).channel3
            }),
            final(self).channel4 == (NoiseChannel {
                length_timer: final(self).channel4.length_timer,
                enabled: final(self).channel4.enabled,
                ..old(self).channel4
            }),
            (final(self).channel1.length_timer, final(self).channel1.enabled) == length_ticked(
                old(self).channel1.length_timer,
                old(self).channel1.length_enabled,
                old(self).channel1.enabled,
            ),
            (final(self).channel2.length_timer, final(self).channel2.enabled) == length_ticked(
                old(self).channel2.length_timer,
                old(self).channel2.length_enabled,
                old(self).channel2.enabled,
            ),
            (final(self).channel3.length_timer, final(self).channel3.enabled) == length_ticked(
                old(self).channel3.length_timer,
                old(self).channel3.length_enabled,
                old(self).channel3.enabled,
            ),
            (final(self).channel4.length_timer, final(self).channel4.enabled) == length_ticked(
                old(self).channel4.length_timer,
                old(self).channel4.length_enabled,
                old(self).channel4.enabled,
            ),
    {
        let mut length = self.channel1.length_timer;
        let mut enabled = self.channel1.enabled;
        tick_length(&mut length, self.channel1.length_enabled, &mut enabled);
        self.channel1.length_timer = length;
        self.channel1.enabled = enabled;
        let mut length = self.channel2.length_timer;
        let mut enabled = self.channel2.enabled;
        tick_length(&mut length, self.channel2.length_enabled, &mut enabled);
        self.channel2.length_timer = length;
        self.channel2.enabled = enabled;
        let mut length = self.channel3.length_timer;
        let mut enabled = self.channel3.enabled;
        tick_length(&mut length, self.channel3.length_enabled, &mut enabled);
        self.channel3.length_timer = length;
        self.channel3.enabled = enabled;
        let mut length = self.channel4.length_timer;
        let mut enabled = self.channel4.enabled;
        tick_length(&mut length, self.channel4.length_enabled, &mut enabled);
        self.channel4.length_timer = length;
        self.channel4.enabled = enabled;
    }

    fn clock_envelope(&mut self)
        ensures
            *final(self) == (ApuThread {
                channel1: PulseChannel {
                    volume: final(self).channel1.volume,
                    envelope_timer: final(self).channel1.envelope_timer,
                    ..old(self).channel1
                },
                channel2: PulseChannel {
                    volume: final(self).channel2.volume,
                    envelope_timer: final(self).channel2.envelope_timer,
                    ..old(self).channel2
                },
                channel4: NoiseChannel {
                    volume: final(self).channel4.volume,
                    envelope_timer: final(self).channel4.envelope_timer,
                    ..old(self).channel4
                },
                ..*old(self)
            }),
            (final(self).channel1.volume, final(self).channel1.envelope_timer) == envelope_ticked(
                old(self).channel1.volume,
                old(self).channel1.envelope_direction,
                old(self).channel1.envelope_pace,
                old(self).channel1.envelope_timer,
            ),
            (final(self).channel2.volume, final(self).channel2.envelope_timer) == envelope_ticked(
                old(self).channel2.volume,
                old(self).channel2.envelope_direction,
                old(self).channel2.envelope_pace,
                old(self).channel2.envelope_timer,
            ),
            (final(self).channel4.volume, final(self).channel4.envelope_timer) == envelope_ticked(
                old(self).channel4.volume,
                old(self).channel4.envelope_direction,
                old(self).channel4.envelope_pace,
                old(self).channel4.envelope_timer,
            ),
    {
        let mut volume = self.channel1.volume;
        let mut timer = self.channel1.envelope_timer;
        tick_envelope(&mut volume, self.channel1.envelope_direction, self.channel1.envelope_pace, &mut timer);
        self.channel1.volume = volume;
        self.channel1.envelope_timer = timer;
        let mut volume = self.channel2.volume;
        let mut timer = self.channel2.envelope_timer;
        tick_envelope(&mut volume, self.channel2.envelope_direction, self.channel2.envelope_pace, &mut timer);
        self.channel2.volume = volume;
        self.channel2.envelope_timer = timer;
        let mut volume = self.channel4.volume;
        let mut timer = self.channel4.envelope_timer;
        tick_envelope(&mut volume, self.channel4.envelope_direction, self.channel4.envelope_pace, &mut timer);
        self.channel4.volume = volume;
        self.channel4.envelope_timer = timer;
    }

    /// A sweep step of channel 1: with the sweep on, its timer counts down;
    /// on expiry (and a nonzero pace) the new period is computed, and an
    /// addition past 0x7FF stops the channel; otherwise a nonzero step takes
    /// the new period and checks the next one the same way.
    #[verifier::spinoff_prover]
    #[verifier::rlimit(40)]
    fn clock_sweep(&mut self)
        requires
            old(self).wf(),
        ensures
            final(self).wf(),
            final(self).channel1 == swept_channel1(old(self).channel1),
            *final(self) == (ApuThread { channel1: final(self).channel1, ..*old(self) }),
            final(self).channel1 == (PulseChannel {
                sweep_timer: final(self).channel1.sweep_timer,
                period: final(self).channel1.period,
                sweep_shadow: final(self).channel1.sweep_shadow,
                enabled: final(self).channel1.enabled,
                sweep_negate_used: final(self).channel1.sweep_negate_used,
                ..old(self).channel1
            }),
            !old(self).channel1.sweep_enabled ==> *final(self) == *old(self),
    {
        if !self.channel1.sweep_enabled {
            return;
        }
        self.channel1.sweep_timer = self.channel1.sweep_timer.saturating_sub(1);
        if self.channel1.sweep_timer > 0 {
            return;
        }
        self.channel1.sweep_timer = if self.channel1.sweep_pace == 0 {
            8
        } else {
            self.channel1.sweep_pace
        };
        if self.channel1.sweep_pace == 0 {
            return;
        }
        let new_period = self.sweep_calculate();
        if !self.channel1.sweep_direction && new_period > 0x7ff {
            self.channel1.enabled = false;
            return;
        }
        if self.channel1.sweep_step != 0 {
            proof {
                lemma_eleven_bits(new_period);
            }
            self.channel1.period = new_period & 0x7ff;
            self.channel1.sweep_shadow = new_period & 0x7ff;
            let check = self.sweep_calculate();
            if !self.channel1.sweep_direction && check > 0x7ff {
                self.channel1.enabled = false;
            }
        }
    }

    fn clock_frame_sequencer(&mut self)
        requires
            old(self).wf(),
        ensures
            final(self).wf(),
            final(self).frame_sequencer_step == (old(self).frame_sequencer_step + 1) % 8,
            final(self).cycles == old(self).cycles && final(self).samples_emitted == old(self).samples_emitted,
            final(self).frame_sequencer_counter == old(self).frame_sequencer_counter,
            final(self).sample_counter == old(self).sample_counter,
            final(self).registers == old(self).registers && final(self).wave_ram == old(self).wave_ram,
            final(self).master_enable == old(self).master_enable,
            final(self).nr50 == old(self).nr50 && final(self).nr51 == old(self).nr51,
            final(self).clock == old(self).clock && final(self).shared == old(self).shared,
            final(self).hardware_mode == old(self).hardware_mode,
    {
        let step = self.frame_sequencer_step;
        if step == 0 || step == 4 {
            self.clock_length();
        } else if step == 2 || step == 6 {
            self.clock_length();
            self.clock_sweep();
        } else if step == 7 {
            self.clock_envelope();
        }
        proof {
            lemma_byte_masks();
        }
        self.frame_sequencer_step = self.frame_sequencer_step.wrapping_add(1) & 7;
    }

    /// The DAC inputs and mixer registers at this moment.
    pub fn sample_inputs(&self) -> (inputs: SampleInputs)
        ensures
            inputs == (SampleInputs {
                nr50: self.nr50,
                nr51: self.nr51,
                channel1: self.channel1.spec_dac_input(),
                channel2: self.channel2.spec_dac_input(),
                channel3: self.channel3.spec_dac_input(),
                channel4: self.channel4.spec_dac_input(),
            }),
    {
        SampleInputs {
            nr50: self.nr50,
            nr51: self.nr51,
            channel1: self.channel1.dac_input(),
            channel2: self.channel2.dac_input(),
            channel3: self.channel3.dac_input(),
            channel4: self.channel4.dac_input(),
        }
    }

    /// One T-cycle of a powered APU: the frame sequencer every 8192 cycles
    /// (publishing NR52 afterwards), each channel's timer, and the sample
    /// clock, which is due 48000 times per 4194304 cycles. Returns the
    /// inputs of a due sample.
    fn tick(&mut self) -> (sample: Option<SampleInputs>)
        requires
            old(self).wf(),
            old(self).cycles < u64::MAX,
        ensures
            final(self).channel1.period < 2048 && final(self).channel2.period < 2048,
            final(self).channel3.period < 2048 && final(self).channel1.sweep_step < 8,
            final(self).channel1.duty_position < 8 && final(self).channel2.duty_position < 8,
            final(self).channel3.sample_index < 32,
            final(self).frame_sequencer_counter == if old(self).frame_sequencer_counter + 1
                >= FRAME_SEQUENCER_PERIOD {
                0
            } else {
                old(self).frame_sequencer_counter + 1
            },
            old(self).sample_counter + SAMPLE_RATE >= CPU_CLOCK ==> sample is Some
                && final(self).sample_counter == old(self).sample_counter + SAMPLE_RATE - CPU_CLOCK
                && final(self).samples_emitted == old(self).samples_emitted + 1,
            old(self).sample_counter + SAMPLE_RATE < CPU_CLOCK ==> sample is None
                && final(self).sample_counter == old(self).sample_counter + SAMPLE_RATE
                && final(self).samples_emitted == old(self).samples_emitted,
            final(self).cycles == old(self).cycles,
            final(self).registers == old(self).registers && final(self).wave_ram == old(self).wave_ram,
            final(self).master_enable == old(self).master_enable,
            final(self).nr50 == old(self).nr50 && final(self).nr51 == old(self).nr51,
            final(self).clock == old(self).clock,
            final(self).hardware_mode == old(self).hardware_mode,
    {
        self.frame_sequencer_counter = self.frame_sequencer_counter + 1;
        if self.frame_sequencer_counter >= FRAME_SEQUENCER_PERIOD {
            self.frame_sequencer_counter = 0;
            self.clock_frame_sequencer();
            let status = self.nr52_status();
            self.shared.set_nr52_status(status);
            self.shared.set_ch3_enabled(self.channel3.enabled);
        }
        self.channel1.tick_period();
        self.channel2.tick_period();
        self.channel3.tick_period(&self.wave_ram);
        if self.channel3.just_accessed_ram {
            self.channel3.last_access_cycle = self.cycles;
            self.channel3.last_access_sample_index = self.channel3.sample_index;
            self.channel3.just_accessed_ram = false;
        }
        self.channel4.tick_period();
        self.sample_counter = self.sample_counter + SAMPLE_RATE;
        if self.sample_counter >= CPU_CLOCK {
            self.sample_counter = self.sample_counter - CPU_CLOCK;
            self.samples_emitted = self.samples_emitted + 1;
            return Some(self.sample_inputs());
        }
        None
    }

    /// One T-cycle: a tick where the APU is powered, then the cycle count
    /// moves on. Returns the inputs of a sample due in this cycle.
    pub fn step_cycle(&mut self) -> (sample: Option<SampleInputs>)
        requires
            old(self).wf(),
            old(self).cycles < u64::MAX,
        ensures
            final(self).wf(),
            final(self).cycles == old(self).cycles + 1,
            final(self).samples_emitted == old(self).samples_emitted + (if sample is Some {
                1int
            } else {
                0int
            }),
            old(self).master_enable ==> final(self).sample_counter + final(self).samples_emitted
                * CPU_CLOCK == old(self).sample_counter + old(self).samples_emitted * CPU_CLOCK
                + SAMPLE_RATE,
            !old(self).master_enable ==> sample is None && *final(self) == (ApuThread {
                cycles: final(self).cycles,
                ..*old(self)
            }),
            final(self).registers == old(self).registers && final(self).wave_ram == old(self).wave_ram,
            final(self).master_enable == old(self).master_enable,
            final(self).clock == old(self).clock,
            final(self).hardware_mode == old(self).hardware_mode,
    {
        let sample = if self.master_enable {
            self.tick()
        } else {
            None
        };
        self.cycles = self.cycles + 1;
        sample
    }

    /// Runs the APU up to cycle `target`, returning the inputs of the
    /// samples due on the way.
    pub fn chase_to(&mut self, target: u64) -> (samples: Vec<SampleInputs>)
        requires
            old(self).wf(),
        ensures
            ran_to(*old(self), *final(self), target, samples@),
    {
        let mut samples: Vec<SampleInputs> = Vec::new();
        while self.cycles < target
            invariant
                self.wf(),
                old(self).cycles <= self.cycles,
                old(self).cycles < target ==> self.cycles <= target,
                old(self).cycles >= target ==> self.cycles == old(self).cycles,
                self.samples_emitted == old(self).samples_emitted + samples@.len(),
                old(self).master_enable ==> self.sample_counter + self.samples_emitted * CPU_CLOCK
                    == old(self).sample_counter + old(self).samples_emitted * CPU_CLOCK + (self.cycles
                    - old(self).cycles) * SAMPLE_RATE,
                !old(self).master_enable ==> samples@.len() == 0 && *self == (ApuThread {
                    cycles: self.cycles,
                    ..*old(self)
                }),
                self.registers == old(self).registers && self.wave_ram == old(self).wave_ram,
                self.master_enable == old(self).master_enable,
                self.clock == old(self).clock,
                self.hardware_mode == old(self).hardware_mode,
            decreases target - self.cycles,
        {
            match self.step_cycle() {
                Some(sample) => samples.push(sample),
                None => {},
            }
        }
        samples
    }

    /// Runs the APU up to the master clock.
    pub fn chase_clock(&mut self) -> (samples: Vec<SampleInputs>)
        requires
            old(self).wf(),
        ensures
            ran_to(*old(self), *final(self), old(self).clock.target_cycle, samples@),
    {
        let target = self.clock.target();
        self.chase_to(target)
    }

    /// Runs the APU up to six cycles short of the master clock, where a DMG
    /// read of wave RAM lands.
    pub fn chase_clock_for_wave_read(&mut self) -> (samples: Vec<SampleInputs>)
        requires
            old(self).wf(),
        ensures
            ran_to(*old(self), *final(self), cycles_before(old(self).clock.target_cycle, 6), samples@),
    {
        let target = self.clock.target().saturating_sub(6);
        self.chase_to(target)
    }

    /// Runs the APU up to four cycles short of the master clock, where a DMG
    /// write to wave RAM lands.
    pub fn chase_clock_for_wave_write(&mut self) -> (samples: Vec<SampleInputs>)
        requires
            old(self).wf(),
        ensures
            ran_to(*old(self), *final(self), cycles_before(old(self).clock.target_cycle, 4), samples@),
    {
        let target = self.clock.target().saturating_sub(4);
        self.chase_to(target)
    }

    /// Answers a bus access: runs the APU up to the access (a little short
    /// of the clock for DMG wave RAM), then reads or writes and publishes the
    /// registers. Returns the inputs of the samples due on the way.
    pub fn handle_memory(&mut self, command: MemoryCommand) -> (samples: Vec<SampleInputs>)
        requires
            old(self).wf(),
        ensures
            final(self).wf(),
            final(self).cycles >= old(self).cycles,
            command matches MemoryCommand::Read { address, .. } ==> ran_to(
                *old(self),
                *final(self),
                old(self).access_cycle(address, 6),
                samples@,
            ),
            command matches MemoryCommand::Write { address, value, .. } ==> exists|
                chased: ApuThread,
                written: ApuThread,
            |
                #![trigger register_written(chased, address, value, written)]
                ran_to(*old(self), chased, old(self).access_cycle(address, 4), samples@)
                    && register_written(chased, address, value, written) && synced(written, *final(self)),
    {
        match command {
            MemoryCommand::Read { address, respond_to } => {
                let samples = if 0xff30 <= address && address <= 0xff3f && self.hardware_mode
                    == HardwareMode::DmgCompatibility {
                    self.chase_clock_for_wave_read()
                } else {
                    self.chase_clock()
                };
                let result = self.read_register(address);
                let _ = channel_send(&respond_to, result);
                samples
            },
            MemoryCommand::Write { address, value, respond_to } => {
                let samples = if 0xff30 <= address && address <= 0xff3f && self.hardware_mode
                    == HardwareMode::DmgCompatibility {
                    self.chase_clock_for_wave_write()
                } else {
                    self.chase_clock()
                };
                let ghost chased = *self;
                self.write_register(address, value);
                let ghost written = *self;
                self.sync_shared();
                assert(register_written(chased, address, value, written));
                match respond_to {
                    Some(respond_to) => {
                        let _ = channel_send(&respond_to, WriteResult::Accepted);
                    },
                    None => {},
                }
                samples
            },
        }
    }
}

/// A period masked to 11 bits is below 2048.
proof fn lemma_eleven_bits(p: u16)
    ensures
        p & 0x7ff < 2048,
{
    assert(p & 0x7ff < 2048) by (bit_vector);
}

// ---------------------------------------------------------------------------
// Save states
// ---------------------------------------------------------------------------

/// `state` records `apu`: every field but the clock and the shared view.
pub open spec fn is_save_of(state: ApuSaveState, apu: ApuThread) -> bool {
    &&& state.master_enable == apu.master_enable
    &&& state.nr50 == apu.nr50 && state.nr51 == apu.nr51
    &&& state.registers@ == apu.registers@
    &&& state.channel1 == apu.channel1.spec_save()
    &&& state.channel2 == (PulseChannelSave {
        sweep_enabled: false,
        sweep_pace: 0,
        sweep_direction: false,
        sweep_step: 0,
        sweep_timer: 0,
        sweep_shadow: 0,
        sweep_negate_used: false,
        ..apu.channel2.spec_save()
    })
    &&& state.channel3 == apu.channel3.spec_save()
    &&& state.channel4 == apu.channel4.spec_save()
    &&& state.wave_ram@ == apu.wave_ram@
    &&& state.frame_sequencer_step == apu.frame_sequencer_step
    &&& state.frame_sequencer_counter == apu.frame_sequencer_counter
    &&& state.sample_counter == apu.sample_counter
    &&& state.samples_emitted == apu.samples_emitted
    &&& state.cycles == apu.cycles
    &&& state.hardware_mode == apu.hardware_mode
}

impl ApuSaveState {
    /// A state the APU can run from: 11-bit periods, step counters in range,
    /// no more samples than cycles.
    pub open spec fn loadable(&self) -> bool {
        &&& self.channel1.period < 2048 && self.channel2.period < 2048 && self.channel3.period < 2048
        &&& self.channel1.duty_position < 8 && self.channel2.duty_position < 8
        &&& self.channel1.sweep_step < 8
        &&& self.channel3.sample_index < 32
        &&& self.frame_sequencer_counter < FRAME_SEQUENCER_PERIOD
        &&& self.sample_counter < CPU_CLOCK
        &&& self.samples_emitted <= self.cycles
    }

    /// Whether the state is `loadable`.
    pub fn is_loadable(&self) -> (ok: bool)
        ensures
            ok == self.loadable(),
    {
        self.channel1.period < 2048 && self.channel2.period < 2048 && self.channel3.period < 2048
            && self.channel1.duty_position < 8 && self.channel2.duty_position < 8
            && self.channel1.sweep_step < 8 && self.channel3.sample_index < 32
            && self.frame_sequencer_counter < FRAME_SEQUENCER_PERIOD && self.sample_counter < CPU_CLOCK
            && self.samples_emitted <= self.cycles
    }
}

/// The first `n` entries of `from`, the rest of `to`.
pub open spec fn copied_prefix(to: Seq<u8>, from: Seq<u8>) -> Seq<u8> {
    Seq::new(to.len(), |i: int| if i < from.len() { from[i] } else { to[i] })
}

impl ApuThread {
    /// The APU's part of a save state. Channel 2 has no sweep, so its sweep
    /// fields are saved as zero.
    pub fn create_save_state(&self) -> (state: ApuSaveState)
        ensures
            is_save_of(state, *self),
    {
        let mut registers: Vec<u8> = Vec::new();
        let mut i: usize = 0;
        while i < 0x17
            invariant
                i <= 0x17,
                registers@ == self.registers@.subrange(0, i as int),
            decreases 0x17 - i,
        {
            registers.push(self.registers[i]);
            i = i + 1;
        }
        let mut wave_ram: Vec<u8> = Vec::new();
        let mut k: usize = 0;
        while k < 16
            invariant
                k <= 16,
                wave_ram@ == self.wave_ram@.subrange(0, k as int),
            decreases 16 - k,
        {
            wave_ram.push(self.wave_ram[k]);
            k = k + 1;
        }
        assert(registers@ =~= self.registers@);
        assert(wave_ram@ =~= self.wave_ram@);
        let mut channel2 = self.channel2.to_save();
        channel2.sweep_enabled = false;
        channel2.sweep_pace = 0;
        channel2.sweep_direction = false;
        channel2.sweep_step = 0;
        channel2.sweep_timer = 0;
        channel2.sweep_shadow = 0;
        channel2.sweep_negate_used = false;
        ApuSaveState {
            master_enable: self.master_enable,
            nr50: self.nr50,
            nr51: self.nr51,
            registers,
            channel1: self.channel1.to_save(),
            channel2,
            channel3: self.channel3.to_save(),
            channel4: self.channel4.to_save(),
            wave_ram,
            frame_sequencer_step: self.frame_sequencer_step,
            frame_sequencer_counter: self.frame_sequencer_counter,
            sample_counter: self.sample_counter,
            samples_emitted: self.samples_emitted,
            cycles: self.cycles,
            hardware_mode: self.hardware_mode,
        }
    }

    /// `after` is `self` with `state` loaded: every recorded field taken
    /// (channel 2 keeps its sweep fields, which it never uses), registers
    /// and wave RAM as far as the state has them, and the view the CPU reads
    /// published again.
    pub open spec fn applied(&self, state: ApuSaveState, after: ApuThread) -> bool {
        &&& after.master_enable == state.master_enable
        &&& after.nr50 == state.nr50 && after.nr51 == state.nr51
        &&& after.registers@ == copied_prefix(self.registers@, state.registers@)
        &&& after.channel1 == PulseChannel::spec_from_save(state.channel1)
        &&& after.channel2 == PulseChannel {
            enabled: state.channel2.enabled,
            dac_enabled: state.channel2.dac_enabled,
            duty: state.channel2.duty,
            duty_position: state.channel2.duty_position,
            length_timer: state.channel2.length_timer,
            length_enabled: state.channel2.length_enabled,
            volume: state.channel2.volume,
            envelope_direction: state.channel2.envelope_direction,
            envelope_pace: state.channel2.envelope_pace,
            envelope_timer: state.channel2.envelope_timer,
            period: state.channel2.period,
            period_timer: state.channel2.period_timer,
            ..self.channel2
        }
        &&& after.channel3 == WaveChannel::spec_from_save(state.channel3)
        &&& after.channel4 == NoiseChannel::spec_from_save(state.channel4)
        &&& after.wave_ram@ == copied_prefix(self.wave_ram@, state.wave_ram@)
        &&& after.frame_sequencer_step == state.frame_sequencer_step
        &&& after.frame_sequencer_counter == state.frame_sequencer_counter
        &&& after.sample_counter == state.sample_counter
        &&& after.samples_emitted == state.samples_emitted
        &&& after.cycles == state.cycles
        &&& after.hardware_mode == state.hardware_mode
        &&& after.clock == self.clock
        &&& after.shared.registers@ == after.registers@
        &&& after.shared.wave_ram@ == after.wave_ram@
        &&& after.shared.nr52_status == after.spec_status()
        &&& after.shared.ch3_enabled == after.channel3.enabled
    }

    /// Loads `state` and publishes the registers to the CPU's view.
    pub fn apply_save_state(&mut self, state: ApuSaveState)
        requires
            old(self).wf(),
            state.loadable(),
        ensures
            final(self).wf(),
            old(self).applied(state, *final(self)),
    {
        let mut i: usize = 0;
        while i < 0x17 && i < state.registers.len()
            invariant
                i <= 0x17,
                i <= state.registers@.len(),
                forall|j: int| 0 <= j < i ==> #[trigger] self.registers@[j] == state.registers@[j],
                forall|j: int| i <= j < 0x17 ==> #[trigger] self.registers@[j] == old(self).registers@[j],
                *self == (ApuThread { registers: self.registers, ..*old(self) }),
            decreases 0x17 - i,
        {
            self.registers[i] = state.registers[i];
            i = i + 1;
        }
        assert(self.registers@ =~= copied_prefix(old(self).registers@, state.registers@));
        let mut k: usize = 0;
        while k < 16 && k < state.wave_ram.len()
            invariant
                k <= 16,
                k <= state.wave_ram@.len(),
                forall|j: int| 0 <= j < k ==> #[trigger] self.wave_ram@[j] == state.wave_ram@[j],
                forall|j: int| k <= j < 16 ==> #[trigger] self.wave_ram@[j] == old(self).wave_ram@[j],
                self.registers@ =~= copied_prefix(old(self).registers@, state.registers@),
                *self == (ApuThread { registers: self.registers, wave_ram: self.wave_ram, ..*old(self) }),
            decreases 16 - k,
        {
            self.wave_ram[k] = state.wave_ram[k];
            k = k + 1;
        }
        assert(self.wave_ram@ =~= copied_prefix(old(self).wave_ram@, state.wave_ram@));
        self.master_enable = state.master_enable;
        self.nr50 = state.nr50;
        self.nr51 = state.nr51;
        self.channel1 = PulseChannel::from_save(&state.channel1);
        self.channel2.enabled = state.channel2.enabled;
        self.channel2.dac_enabled = state.channel2.dac_enabled;
        self.channel2.duty = state.channel2.duty;
        self.channel2.duty_position = state.channel2.duty_position;
        self.channel2.length_timer = state.channel2.length_timer;
        self.channel2.length_enabled = state.channel2.length_enabled;
        self.channel2.volume = state.channel2.volume;
        self.channel2.envelope_direction = state.channel2.envelope_direction;
        self.channel2.envelope_pace = state.channel2.envelope_pace;
        self.channel2.envelope_timer = state.channel2.envelope_timer;
        self.channel2.period = state.channel2.period;
        self.channel2.period_timer = state.channel2.period_timer;
        self.channel3 = WaveChannel::from_save(&state.channel3);
        self.channel4 = NoiseChannel::from_save(&state.channel4);
        self.frame_sequencer_step = state.frame_sequencer_step;
        self.frame_sequencer_counter = state.frame_sequencer_counter;
        self.sample_counter = state.sample_counter;
        self.samples_emitted = state.samples_emitted;
        self.cycles = state.cycles;
        self.hardware_mode = state.hardware_mode;
        self.sync_shared();
    }
}

/// Loading a save state of `saved` into any APU gives back `saved`'s
/// registers, channels (channel 2's unused sweep fields aside), wave RAM,
/// frame sequencer, sample clock, cycle count and mode.
pub proof fn lemma_apu_save_roundtrip(saved: ApuThread, state: ApuSaveState, target: ApuThread, after: ApuThread)
    requires
        is_save_of(state, saved),
        target.applied(state, after),
    ensures
        after.master_enable == saved.master_enable,
        after.nr50 == saved.nr50 && after.nr51 == saved.nr51,
        after.registers@ == saved.registers@,
        after.channel1 == saved.channel1,
        after.channel2 == (PulseChannel {
            sweep_enabled: target.channel2.sweep_enabled,
            sweep_pace: target.channel2.sweep_pace,
            sweep_direction: target.channel2.sweep_direction,
            sweep_step: target.channel2.sweep_step,
            sweep_timer: target.channel2.sweep_timer,
            sweep_shadow: target.channel2.sweep_shadow,
            sweep_negate_used: target.channel2.sweep_negate_used,
            ..saved.channel2
        }),
        after.channel3 == saved.channel3,
        after.channel4 == saved.channel4,
        after.wave_ram@ == saved.wave_ram@,
        after.frame_sequencer_step == saved.frame_sequencer_step,
        after.frame_sequencer_counter == saved.frame_sequencer_counter,
        after.sample_counter == saved.sample_counter,
        after.samples_emitted == saved.samples_emitted,
        after.cycles == saved.cycles,
        after.hardware_mode == saved.hardware_mode,
{
    assert(after.registers@ =~= saved.registers@);
    assert(after.wave_ram@ =~= saved.wave_ram@);
}

} // verus!
