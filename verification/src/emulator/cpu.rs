//! The SM83 CPU: the registers it keeps to itself (0xFF00-0xFF7F, HRAM, IE),
//! the arithmetic of its instructions, and the fetch-decode-execute step.
//! Memory outside the CPU is reached through a `CpuBus`.

use vstd::prelude::*;

use std::sync::mpsc::SyncSender;

use super::bus::Bus;
use super::component::{
    Command, CpuInitState, CpuRegisters, HardwareMode, CPU_CLOCK_HZ, InterruptFlags, MasterClock, MemoryCommand, ReadResult,
    WriteResult, HRAM_LEN, IO_REGISTERS_LEN,
};
use crate::input::{spec_joypad_read, JoypadState};
use crate::platform::{channel_send, new_channel, sync_try_send};
use vstd::arithmetic::div_mod::lemma_fundamental_div_mod_converse;

verus! {

pub const FLAG_Z: u8 = 0x80;
pub const FLAG_N: u8 = 0x40;
pub const FLAG_H: u8 = 0x20;
pub const FLAG_C: u8 = 0x10;
const SERIAL_DATA_INDEX: usize = 0x01;
const SERIAL_CONTROL_INDEX: usize = 0x02;
pub const SERIAL_INTERRUPT_MASK: u8 = 0x08;
pub const SERIAL_TRANSFER_CYCLES: u16 = 4096;
pub const JOYPAD_INTERRUPT_MASK: u8 = 0x10;
/// How many instructions the CPU thread runs between looks at the clock.
pub const INSTRUCTIONS_PER_QUANTUM: usize = 4;
/// Every how many steps the CPU thread reports its registers.
pub const CPU_REPORT_INTERVAL: u64 = 1024;

// ---------------------------------------------------------------------------
// The registers the CPU owns
// ---------------------------------------------------------------------------

/// What 0xFF00 holds once the boot ROM is gone: only the two select bits.
pub fn joypad_select(value: u8) -> (select: u8)
    ensures
        select == value & 0x30,
{
    value & 0x30
}

/// The I/O registers, HRAM and interrupt registers that the CPU answers for
/// itself, with the serial port and the joypad lines.
#[derive(Debug)]
pub struct CpuIo {
    pub hardware_mode: HardwareMode,
    pub boot_rom_unmapped: bool,
    pub io_registers: [u8; IO_REGISTERS_LEN],
    pub hram: [u8; HRAM_LEN],
    pub interrupt_flags: InterruptFlags,
    pub interrupt_enable: u8,
    pub joypad: JoypadState,
    pub double_speed: bool,
    pub speed_switch_armed: bool,
    pub serial_transfer_countdown: u16,
    pub serial_output: Option<SyncSender<u8>>,
}

/// Registers that read as 0xFF and ignore writes in DMG compatibility mode.
pub open spec fn cgb_only_register(address: u16) -> bool {
    address == 0xff4c || address == 0xff4d || address == 0xff56 || address == 0xff6c
}

/// Unused addresses of the I/O page that read as 0xFF.
pub open spec fn unused_io_register(address: u16) -> bool {
    address == 0xff03 || (0xff08 <= address <= 0xff0e) || (0xff27 <= address <= 0xff2f) || address
        == 0xff4e || (0xff57 <= address <= 0xff67) || (0xff6c <= address <= 0xff6f) || (0xff71
        <= address <= 0xff75) || (0xff78 <= address <= 0xff7f)
}

/// Addresses whose writes the CPU keeps, as they are, in its I/O page.
pub open spec fn stored_io_register(address: u16) -> bool {
    address == 0xff01 || address == 0xff03 || (0xff08 <= address <= 0xff0e) || (0xff27 <= address
        <= 0xff2f) || address == 0xff4c || address == 0xff4e || (0xff56 <= address <= 0xff67) || (
    0xff6c <= address <= 0xff6f) || (0xff71 <= address <= 0xff7f)
}

impl CpuIo {
    pub open spec fn io_at(&self, address: u16) -> u8 {
        self.io_registers@[address - 0xff00]
    }

    /// What the CPU answers for a read of `address`, or `None` where another
    /// component owns it.
    pub open spec fn spec_read(&self, address: u16) -> Option<u8> {
        if cgb_only_register(address) && self.hardware_mode == HardwareMode::DmgCompatibility {
            Some(0xff)
        } else if address == 0xff00 {
            Some(
                if self.boot_rom_unmapped {
                    spec_joypad_read(self.joypad.packed, self.io_registers@[0])
                } else {
                    self.io_registers@[0]
                },
            )
        } else if address == 0xff4d {
            Some(
                (0x7e | (if self.double_speed { 0x80u8 } else { 0 }) | (if self.speed_switch_armed {
                    1u8
                } else {
                    0
                })) as u8,
            )
        } else if address == 0xff01 || address == 0xff02 {
            Some(self.io_at(address))
        } else if address == 0xff0f {
            Some(0xe0 | self.interrupt_flags.flags)
        } else if unused_io_register(address) {
            Some(0xff)
        } else if address == 0xff4c || address == 0xff56 || address == 0xff76 || address == 0xff77 {
            Some(self.io_at(address))
        } else if 0xff80 <= address <= 0xfffe {
            Some(self.hram@[address - 0xff80])
        } else if address == 0xffff {
            Some(self.interrupt_enable)
        } else {
            None
        }
    }

    /// Whether the CPU takes a write of `address` for itself.
    pub open spec fn owns_write(&self, address: u16) -> bool {
        (cgb_only_register(address) && self.hardware_mode == HardwareMode::DmgCompatibility)
            || address == 0xff00 || address == 0xff02 || address == 0xff4d || address == 0xff0f
            || stored_io_register(address) || (0xff80 <= address <= 0xfffe) || address == 0xffff
    }

    /// `after` is what the registers are once the CPU took a write of
    /// `value` to `address`.
    pub open spec fn write_post(&self, after: &CpuIo, address: u16, value: u8) -> bool {
        let ignored = cgb_only_register(address) && self.hardware_mode
            == HardwareMode::DmgCompatibility;
        &&& after.hardware_mode == self.hardware_mode
        &&& after.boot_rom_unmapped == self.boot_rom_unmapped
        &&& after.joypad == self.joypad
        &&& after.double_speed == self.double_speed
        &&& after.serial_output == self.serial_output
        &&& after.io_registers@ == (if ignored {
            self.io_registers@
        } else if address == 0xff00 {
            self.io_registers@.update(0, if self.boot_rom_unmapped { value & 0x30 } else { value })
        } else if address == 0xff02 {
            self.io_registers@.update(2, value)
        } else if stored_io_register(address) {
            self.io_registers@.update(address - 0xff00, value)
        } else {
            self.io_registers@
        })
        &&& after.hram@ == (if !ignored && 0xff80 <= address <= 0xfffe {
            self.hram@.update(address - 0xff80, value)
        } else {
            self.hram@
        })
        &&& after.interrupt_enable == (if address == 0xffff {
            value
        } else {
            self.interrupt_enable
        })
        &&& after.interrupt_flags.flags == (if address == 0xff0f {
            value & 0x1f
        } else {
            self.interrupt_flags.flags
        })
        &&& after.speed_switch_armed == (if !ignored && address == 0xff4d {
            value & 0x01 != 0
        } else {
            self.speed_switch_armed
        })
        &&& after.serial_transfer_countdown == (if address == 0xff02 && value & 0x80 != 0 {
            if value & 0x01 != 0 {
                SERIAL_TRANSFER_CYCLES
            } else {
                (SERIAL_TRANSFER_CYCLES * 8) as u16
            }
        } else {
            self.serial_transfer_countdown
        })
    }

    /// The byte the CPU answers for `address`, or `None` where another
    /// component owns it.
    pub fn read_cpu_owned(&self, address: u16) -> (value: Option<u8>)
        ensures
            value == self.spec_read(address),
    {
        if (address == 0xff4c || address == 0xff4d || address == 0xff56 || address == 0xff6c)
            && self.hardware_mode == HardwareMode::DmgCompatibility {
            return Some(0xff);
        }
        if address == 0xff00 {
            return Some(
                if self.boot_rom_unmapped {
                    self.joypad.read(self.io_registers[0])
                } else {
                    self.io_registers[0]
                },
            );
        }
        if address == 0xff4d {
            let speed_bit: u8 = if self.double_speed { 0x80 } else { 0x00 };
            let armed_bit: u8 = if self.speed_switch_armed { 0x01 } else { 0x00 };
            return Some(0x7e | speed_bit | armed_bit);
        }
        if address == 0xff01 || address == 0xff02 {
            return Some(self.io_registers[(address - 0xff00) as usize]);
        }
        if address == 0xff0f {
            return Some(0xe0 | self.interrupt_flags.load());
        }
        if address == 0xff03 || (0xff08 <= address && address <= 0xff0e) || (0xff27 <= address
            && address <= 0xff2f) || address == 0xff4e || (0xff57 <= address && address <= 0xff67)
            || (0xff6c <= address && address <= 0xff6f) || (0xff71 <= address && address <= 0xff75)
            || (0xff78 <= address && address <= 0xff7f) {
            return Some(0xff);
        }
        if address == 0xff4c || address == 0xff56 || address == 0xff76 || address == 0xff77 {
            return Some(self.io_registers[(address - 0xff00) as usize]);
        }
        if 0xff80 <= address && address <= 0xfffe {
            return Some(self.hram[(address - 0xff80) as usize]);
        }
        if address == 0xffff {
            return Some(self.interrupt_enable);
        }
        None
    }

    /// Takes a write of `value` to `address` if the CPU owns it, and says
    /// whether it did. Starting a serial transfer (bit 7 of 0xFF02) first
    /// hands the byte in SB to the serial output, if one is attached.
    pub fn write_cpu_owned(&mut self, address: u16, value: u8) -> (owned: bool)
        ensures
            owned == old(self).owns_write(address),
            old(self).write_post(final(self), address, value),
    {
        if (address == 0xff4c || address == 0xff4d || address == 0xff56 || address == 0xff6c)
            && self.hardware_mode == HardwareMode::DmgCompatibility {
            return true;
        }
        if address == 0xff00 {
            self.io_registers[0] = if self.boot_rom_unmapped {
                joypad_select(value)
            } else {
                value
            };
            return true;
        }
        if address == 0xff02 {
            self.io_registers[SERIAL_CONTROL_INDEX] = value;
            if value & 0x80 != 0 {
                match &self.serial_output {
                    Some(sender) => {
                        let _ = sync_try_send(sender, self.io_registers[SERIAL_DATA_INDEX]);
                    },
                    None => {},
                }
                self.serial_transfer_countdown = if value & 0x01 != 0 {
                    SERIAL_TRANSFER_CYCLES
                } else {
                    SERIAL_TRANSFER_CYCLES * 8
                };
            }
            return true;
        }
        if address == 0xff4d {
            self.speed_switch_armed = value & 0x01 != 0;
            return true;
        }
        if address == 0xff0f {
            self.interrupt_flags.store(value);
            return true;
        }
        if address == 0xff01 || address == 0xff03 || (0xff08 <= address && address <= 0xff0e) || (
        0xff27 <= address && address <= 0xff2f) || address == 0xff4c || address == 0xff4e || (0xff56
            <= address && address <= 0xff67) || (0xff6c <= address && address <= 0xff6f) || (0xff71
            <= address && address <= 0xff7f) {
            self.io_registers[(address - 0xff00) as usize] = value;
            return true;
        }
        if 0xff80 <= address && address <= 0xfffe {
            self.hram[(address - 0xff80) as usize] = value;
            return true;
        }
        if address == 0xffff {
            self.interrupt_enable = value;
            return true;
        }
        false
    }

    /// Answers a bus access to the CPU's registers: a read with the byte or
    /// `NoData`, a write with `Accepted` or `NoData`.
    pub fn handle_memory(&mut self, command: MemoryCommand)
        ensures
            match command {
                MemoryCommand::Read { .. } => *final(self) == *old(self),
                MemoryCommand::Write { address, value, .. } => old(self).write_post(
                    final(self),
                    address,
                    value,
                ),
            },
    {
        match command {
            MemoryCommand::Read { address, respond_to } => {
                let result = match self.read_cpu_owned(address) {
                    Some(value) => ReadResult::Ready(value),
                    None => ReadResult::NoData,
                };
                let _ = channel_send(&respond_to, result);
            },
            MemoryCommand::Write { address, value, respond_to } => {
                let result = if self.write_cpu_owned(address, value) {
                    WriteResult::Accepted
                } else {
                    WriteResult::NoData
                };
                match respond_to {
                    Some(respond_to) => {
                        let _ = channel_send(&respond_to, result);
                    },
                    None => {},
                }
            },
        }
    }

    /// Handles one message of the CPU's mailbox and says whether the CPU is
    /// to stop. The CPU keeps no save state of its own, so requests for one,
    /// and those meant for the PPU, are dropped.
    pub fn handle_command(&mut self, command: Command) -> (stop: bool)
        ensures
            stop == (command is Stop),
            command matches Command::SetHardwareMode(mode) ==> final(self).hardware_mode == mode,
            command matches Command::Memory(MemoryCommand::Write { address, value, .. })
                ==> old(self).write_post(final(self), address, value),
            !(command is SetHardwareMode) && !(command matches Command::Memory(
                MemoryCommand::Write { .. },
            )) ==> *final(self) == *old(self),
    {
        match command {
            Command::Memory(memory) => {
                self.handle_memory(memory);
                false
            },
            Command::SetHardwareMode(mode) => {
                self.hardware_mode = mode;
                false
            },
            Command::Stop => true,
            _ => false,
        }
    }
}

// ---------------------------------------------------------------------------
// The register file
// ---------------------------------------------------------------------------

/// The high byte of a register pair.
pub open spec fn hi(x: u16) -> u8 {
    (x >> 8) as u8
}

/// The low byte of a register pair.
pub open spec fn lo(x: u16) -> u8 {
    x as u8
}

/// The register pair made of `h` and `l`.
pub open spec fn join(h: u8, l: u8) -> u16 {
    ((h as u16) << 8) | (l as u16)
}

/// The F register holding the four flags (Z, N, H, C in bits 7-4).
pub open spec fn flag_bits(z: bool, n: bool, h: bool, c: bool) -> u8 {
    (if z { FLAG_Z } else { 0u8 }) | (if n { FLAG_N } else { 0u8 }) | (if h { FLAG_H } else { 0u8 })
        | (if c { FLAG_C } else { 0u8 })
}

/// Whether the flag `mask` is set in AF (only bits 7-4 of F count).
pub open spec fn flag_set(af: u16, mask: u8) -> bool {
    lo(af) & 0xf0 & mask != 0
}

/// Facts of the byte layout of register pairs and of the flag register.
pub proof fn lemma_register_layout()
    ensures
        forall|h: u8, l: u8| #[trigger] hi(join(h, l)) == h && lo(join(h, l)) == l,
        forall|x: u16| #[trigger] join(hi(x), lo(x)) == x,
        forall|h: u8, l: u8| #[trigger] join(h, l & 0xf0) & 0x0f == 0,
        forall|v: u16| #[trigger] (v & 0xfff0) & 0x0f == 0,
        forall|x: u8| #[trigger] (x | 0u8) == x,
        forall|x: u8| #[trigger] (0u8 | x) == x,
        forall|z: bool, n: bool, h: bool, c: bool| #[trigger]
            flag_bits(z, n, h, c) & 0x0f == 0 && flag_bits(z, n, h, c) & 0xf0 == flag_bits(
                z,
                n,
                h,
                c,
            ),
        forall|x: u8, z: bool, n: bool, h: bool, c: bool| #![trigger join(x, flag_bits(z, n, h, c))]
            flag_set(join(x, flag_bits(z, n, h, c)), FLAG_Z) == z && flag_set(
                join(x, flag_bits(z, n, h, c)),
                FLAG_N,
            ) == n && flag_set(join(x, flag_bits(z, n, h, c)), FLAG_H) == h && flag_set(
                join(x, flag_bits(z, n, h, c)),
                FLAG_C,
            ) == c && join(x, flag_bits(z, n, h, c)) & 0x0f == 0,
{
    assert({
        &&& forall|h: u8, l: u8| #[trigger] hi(join(h, l)) == h && lo(join(h, l)) == l
        &&& forall|x: u16| #[trigger] join(hi(x), lo(x)) == x
        &&& forall|h: u8, l: u8| #[trigger] join(h, l & 0xf0) & 0x0f == 0
        &&& forall|v: u16| #[trigger] (v & 0xfff0) & 0x0f == 0
        &&& forall|z: bool, n: bool, h: bool, c: bool| #[trigger]
            flag_bits(z, n, h, c) & 0x0f == 0 && flag_bits(z, n, h, c) & 0xf0 == flag_bits(z, n, h, c)
        &&& forall|x: u8, z: bool, n: bool, h: bool, c: bool| #![trigger join(x, flag_bits(z, n, h, c))]
            flag_set(join(x, flag_bits(z, n, h, c)), FLAG_Z) == z && flag_set(
                join(x, flag_bits(z, n, h, c)),
                FLAG_N,
            ) == n && flag_set(join(x, flag_bits(z, n, h, c)), FLAG_H) == h && flag_set(
                join(x, flag_bits(z, n, h, c)),
                FLAG_C,
            ) == c && join(x, flag_bits(z, n, h, c)) & 0x0f == 0
        &&& forall|x: u8| #[trigger] (x | 0u8) == x
        &&& forall|x: u8| #[trigger] (0u8 | x) == x
    }) by (bit_vector);
}

/// The 8-bit register with index `index` (B, C, D, E, H, L, -, A for 0-7;
/// index 6 names (HL) in memory, not a register).
pub open spec fn r8(r: CpuRegisters, index: u8) -> u8 {
    if index == 0 {
        hi(r.bc)
    } else if index == 1 {
        lo(r.bc)
    } else if index == 2 {
        hi(r.de)
    } else if index == 3 {
        lo(r.de)
    } else if index == 4 {
        hi(r.hl)
    } else if index == 5 {
        lo(r.hl)
    } else {
        hi(r.af)
    }
}

/// The registers with the 8-bit register `index` set to `v`; writing A
/// keeps the four flags and clears the low nibble of F.
pub open spec fn with_r8(r: CpuRegisters, index: u8, v: u8) -> CpuRegisters {
    if index == 0 {
        CpuRegisters { bc: join(v, lo(r.bc)), ..r }
    } else if index == 1 {
        CpuRegisters { bc: join(hi(r.bc), v), ..r }
    } else if index == 2 {
        CpuRegisters { de: join(v, lo(r.de)), ..r }
    } else if index == 3 {
        CpuRegisters { de: join(hi(r.de), v), ..r }
    } else if index == 4 {
        CpuRegisters { hl: join(v, lo(r.hl)), ..r }
    } else if index == 5 {
        CpuRegisters { hl: join(hi(r.hl), v), ..r }
    } else {
        CpuRegisters { af: join(v, lo(r.af) & 0xf0), ..r }
    }
}

/// The 16-bit register with index `index` (BC, DE, HL, SP for 0-3).
pub open spec fn r16(r: CpuRegisters, index: u8) -> u16 {
    if index == 0 {
        r.bc
    } else if index == 1 {
        r.de
    } else if index == 2 {
        r.hl
    } else {
        r.sp
    }
}

pub open spec fn with_r16(r: CpuRegisters, index: u8, v: u16) -> CpuRegisters {
    if index == 0 {
        CpuRegisters { bc: v, ..r }
    } else if index == 1 {
        CpuRegisters { de: v, ..r }
    } else if index == 2 {
        CpuRegisters { hl: v, ..r }
    } else {
        CpuRegisters { sp: v, ..r }
    }
}

/// The 16-bit register of PUSH and POP with index `index` (BC, DE, HL, AF).
pub open spec fn stack_r16(r: CpuRegisters, index: u8) -> u16 {
    if index == 3 {
        r.af & 0xfff0
    } else {
        r16(r, index)
    }
}

pub open spec fn with_stack_r16(r: CpuRegisters, index: u8, v: u16) -> CpuRegisters {
    if index == 3 {
        CpuRegisters { af: v & 0xfff0, ..r }
    } else {
        with_r16(r, index, v)
    }
}

// ---------------------------------------------------------------------------
// The arithmetic of the instructions, on AF
// ---------------------------------------------------------------------------

/// The carry that ADC and SBC take in.
pub open spec fn carry_in(af: u16, with_carry: bool) -> int {
    if with_carry && flag_set(af, FLAG_C) {
        1
    } else {
        0
    }
}

/// AF after ADD (or ADC) of `v` to A.
pub open spec fn af_add(af: u16, v: u8, with_carry: bool) -> u16 {
    let a = hi(af);
    let c = carry_in(af, with_carry);
    let sum = a + v + c;
    join((sum % 256) as u8, flag_bits(sum % 256 == 0, false, a % 16 + v % 16 + c > 15, sum > 255))
}

/// AF after SUB (or SBC) of `v` from A.
pub open spec fn af_sub(af: u16, v: u8, with_carry: bool) -> u16 {
    let a = hi(af);
    let c = carry_in(af, with_carry);
    let diff = a - v - c;
    join(
        (diff % 256) as u8,
        flag_bits(diff % 256 == 0, true, a % 16 < v % 16 + c, a < v + c),
    )
}

pub open spec fn af_and(af: u16, v: u8) -> u16 {
    join(hi(af) & v, flag_bits(hi(af) & v == 0, false, true, false))
}

pub open spec fn af_xor(af: u16, v: u8) -> u16 {
    join(hi(af) ^ v, flag_bits(hi(af) ^ v == 0, false, false, false))
}

pub open spec fn af_or(af: u16, v: u8) -> u16 {
    join(hi(af) | v, flag_bits(hi(af) | v == 0, false, false, false))
}

/// AF after CP `v`: A stays, the flags are those of A - `v`.
pub open spec fn af_cp(af: u16, v: u8) -> u16 {
    join(hi(af), flag_bits(hi(af) == v, true, hi(af) % 16 < v % 16, hi(af) < v))
}

/// AF after the ALU operation `op` (ADD, ADC, SUB, SBC, AND, XOR, OR, CP for
/// 0-7) with operand `v`.
pub open spec fn af_alu(af: u16, op: u8, v: u8) -> u16 {
    if op == 0 {
        af_add(af, v, false)
    } else if op == 1 {
        af_add(af, v, true)
    } else if op == 2 {
        af_sub(af, v, false)
    } else if op == 3 {
        af_sub(af, v, true)
    } else if op == 4 {
        af_and(af, v)
    } else if op == 5 {
        af_xor(af, v)
    } else if op == 6 {
        af_or(af, v)
    } else {
        af_cp(af, v)
    }
}

/// AF after INC of a register that held `original`: Z, N clear, H on a
/// carry out of bit 3; C is kept.
pub open spec fn af_inc_flags(af: u16, original: u8) -> u16 {
    join(
        hi(af),
        flag_bits((original + 1) % 256 == 0, false, original % 16 == 15, flag_set(af, FLAG_C)),
    )
}

/// AF after DEC of a register that held `original`: Z, N set, H on a borrow
/// from bit 4; C is kept.
pub open spec fn af_dec_flags(af: u16, original: u8) -> u16 {
    join(
        hi(af),
        flag_bits((original + 255) % 256 == 0, true, original % 16 == 0, flag_set(af, FLAG_C)),
    )
}

/// A after RLCA (`through_carry` false) or RLA (true).
pub open spec fn rotate_left_result(a: u8, carry: bool, through_carry: bool) -> u8 {
    ((2 * a) % 256 + (if through_carry { if carry { 1int } else { 0 } } else { (a / 128) as int })) as u8
}

/// A after RRCA (`through_carry` false) or RRA (true).
pub open spec fn rotate_right_result(a: u8, carry: bool, through_carry: bool) -> u8 {
    (a / 2 + (if through_carry { if carry { 128int } else { 0 } } else { (a % 2) as int * 128 })) as u8
}

pub open spec fn af_rotate_left(af: u16, through_carry: bool) -> u16 {
    join(
        rotate_left_result(hi(af), flag_set(af, FLAG_C), through_carry),
        flag_bits(false, false, false, hi(af) >= 128),
    )
}

pub open spec fn af_rotate_right(af: u16, through_carry: bool) -> u16 {
    join(
        rotate_right_result(hi(af), flag_set(af, FLAG_C), through_carry),
        flag_bits(false, false, false, hi(af) % 2 == 1),
    )
}

/// AF after DAA: the BCD correction of A after an addition (N clear) or a
/// subtraction (N set).
pub open spec fn af_daa(af: u16) -> u16 {
    let a = hi(af);
    let n = flag_set(af, FLAG_N);
    let low_fix = flag_set(af, FLAG_H) || (!n && a % 16 > 9);
    let carry = flag_set(af, FLAG_C) || (!n && a > 0x99);
    let adjust: int = (if low_fix { 6int } else { 0 }) + (if carry { 0x60int } else { 0 });
    let result = (if n { (a - adjust) % 256 } else { (a + adjust) % 256 }) as u8;
    join(result, flag_bits(result == 0, n, false, carry))
}

/// A byte holding two decimal digits (BCD): each nibble at most 9.
pub open spec fn is_bcd(x: u8) -> bool {
    x / 16 <= 9 && x % 16 <= 9
}

/// The number 0..=99 that a BCD byte holds.
pub open spec fn bcd_value(x: u8) -> int {
    (x / 16) as int * 10 + (x % 16) as int
}

/// The arithmetic behind DAA after SUB: with x = 16 xh + xl and y = 16 yh + yl
/// BCD digits, x - y corrected by 6 where a nibble borrowed and by 0x60 where
/// the byte did is the BCD form of the decimal difference modulo 100.
proof fn lemma_bcd_sub_digits(xh: int, xl: int, yh: int, yl: int)
    requires
        0 <= xh <= 9,
        0 <= xl <= 9,
        0 <= yh <= 9,
        0 <= yl <= 9,
    ensures
        ({
            let x = 16 * xh + xl;
            let y = 16 * yh + yl;
            let adjust = (if xl < yl { 6int } else { 0 }) + (if x < y { 0x60int } else { 0 });
            let r = ((x - y) % 256 - adjust) % 256;
            &&& r / 16 <= 9
            &&& r % 16 <= 9
            &&& (r / 16) * 10 + r % 16 == (10 * xh + xl - 10 * yh - yl + 100) % 100
        }),
{
    let x = 16 * xh + xl;
    let y = 16 * yh + yl;
    let adjust = (if xl < yl { 6int } else { 0 }) + (if x < y { 0x60int } else { 0 });
    let v = (x - y) % 256;
    let d = 10 * xh + xl - 10 * yh - yl;
    if x >= y {
        lemma_fundamental_div_mod_converse(x - y, 256, 0, x - y);
        lemma_fundamental_div_mod_converse(d + 100, 100, 1, d);
    } else {
        lemma_fundamental_div_mod_converse(x - y, 256, -1, x - y + 256);
        lemma_fundamental_div_mod_converse(d + 100, 100, 0, d + 100);
    }
    let (q, m): (int, int) = if xl >= yl && x >= y {
        (xh - yh, xl - yl)
    } else if xl < yl && x >= y {
        (xh - yh - 1, xl - yl + 10)
    } else if xl >= yl {
        (xh - yh + 10, xl - yl)
    } else {
        (xh - yh + 9, xl - yl + 10)
    };
    assert(0 <= q <= 9 && 0 <= m <= 9);
    assert(v - adjust == 16 * q + m);
    lemma_fundamental_div_mod_converse(v - adjust, 256, 0, 16 * q + m);
    lemma_fundamental_div_mod_converse(16 * q + m, 16, q, m);
}

/// The arithmetic behind DAA after ADD: x + y corrected by 6 where the low
/// digit passed 9 (or carried) and by 0x60 where the sum passed 99 (or
/// carried) is the BCD form of the decimal sum modulo 100, with the carry set
/// exactly when the sum reached 100.
proof fn lemma_bcd_add_digits(xh: int, xl: int, yh: int, yl: int)
    requires
        0 <= xh <= 9,
        0 <= xl <= 9,
        0 <= yh <= 9,
        0 <= yl <= 9,
    ensures
        ({
            let x = 16 * xh + xl;
            let y = 16 * yh + yl;
            let a = (x + y) % 256;
            let low_fix = xl + yl > 15 || a % 16 > 9;
            let carry = x + y > 255 || a > 0x99;
            let adjust = (if low_fix { 6int } else { 0 }) + (if carry { 0x60int } else { 0 });
            let r = (a + adjust) % 256;
            &&& r / 16 <= 9
            &&& r % 16 <= 9
            &&& (r / 16) * 10 + r % 16 == (10 * xh + xl + 10 * yh + yl) % 100
            &&& carry == (10 * xh + xl + 10 * yh + yl >= 100)
        }),
{
    let x = 16 * xh + xl;
    let y = 16 * yh + yl;
    let sh = xh + yh;
    let sl = xl + yl;
    let t = x + y;
    let d = 10 * sh + sl;
    if t <= 255 {
        lemma_fundamental_div_mod_converse(t, 256, 0, t);
    } else {
        lemma_fundamental_div_mod_converse(t, 256, 1, t - 256);
    }
    let a = t % 256;
    let base: int = if t <= 255 { sh } else { sh - 16 };
    if sl <= 15 {
        lemma_fundamental_div_mod_converse(a, 16, base, sl);
    } else {
        lemma_fundamental_div_mod_converse(a, 16, base + 1, sl - 16);
    }
    let low_fix = sl > 15 || a % 16 > 9;
    let carry = t > 255 || a > 0x99;
    let adjust = (if low_fix { 6int } else { 0 }) + (if carry { 0x60int } else { 0 });
    assert(low_fix == (sl >= 10));
    assert(carry == (d >= 100));
    let (q, m): (int, int) = if sl <= 9 {
        if sh <= 9 {
            (sh, sl)
        } else {
            (sh - 10, sl)
        }
    } else {
        if sh <= 8 {
            (sh + 1, sl - 10)
        } else {
            (sh - 9, sl - 10)
        }
    };
    assert(0 <= q <= 9 && 0 <= m <= 9);
    assert(a + adjust == 16 * q + m || a + adjust == 16 * q + m + 256);
    if a + adjust >= 256 {
        lemma_fundamental_div_mod_converse(a + adjust, 256, 1, 16 * q + m);
    } else {
        lemma_fundamental_div_mod_converse(a + adjust, 256, 0, 16 * q + m);
    }
    lemma_fundamental_div_mod_converse(16 * q + m, 16, q, m);
    if d >= 100 {
        lemma_fundamental_div_mod_converse(d, 100, 1, d - 100);
    } else {
        lemma_fundamental_div_mod_converse(d, 100, 0, d);
    }
}

/// DAA after an 8-bit addition or subtraction of two BCD bytes leaves in A
/// the BCD form of the decimal result modulo 100, and the carry flag says
/// whether the decimal sum reached 100 or the difference borrowed: after a
/// subtraction (N set) the correction is taken off A, after an addition it
/// is added.
pub proof fn lemma_daa_decimal_arithmetic(x: u8, y: u8, flags: u8)
    requires
        is_bcd(x),
        is_bcd(y),
    ensures
        ({
            let sum = af_daa(af_add(join(x, flags), y, false));
            &&& is_bcd(hi(sum))
            &&& bcd_value(hi(sum)) == (bcd_value(x) + bcd_value(y)) % 100
            &&& flag_set(sum, FLAG_C) == (bcd_value(x) + bcd_value(y) >= 100)
            &&& flag_set(sum, FLAG_Z) == (bcd_value(hi(sum)) == 0)
            &&& !flag_set(sum, FLAG_N) && !flag_set(sum, FLAG_H)
        }),
        ({
            let difference = af_daa(af_sub(join(x, flags), y, false));
            &&& is_bcd(hi(difference))
            &&& bcd_value(hi(difference)) == (bcd_value(x) - bcd_value(y) + 100) % 100
            &&& flag_set(difference, FLAG_C) == (bcd_value(x) < bcd_value(y))
            &&& flag_set(difference, FLAG_Z) == (bcd_value(hi(difference)) == 0)
            &&& flag_set(difference, FLAG_N) && !flag_set(difference, FLAG_H)
        }),
{
    lemma_register_layout();
    let xh = (x / 16) as int;
    let xl = (x % 16) as int;
    let yh = (y / 16) as int;
    let yl = (y % 16) as int;
    lemma_bcd_sub_digits(xh, xl, yh, yl);
    lemma_bcd_add_digits(xh, xl, yh, yl);
    assert(hi(join(x, flags)) == x);
    let added = af_add(join(x, flags), y, false);
    let subtracted = af_sub(join(x, flags), y, false);
    assert(hi(added) == ((x + y) % 256) as u8);
    assert(hi(subtracted) == ((x - y) % 256) as u8);
}

// ---------------------------------------------------------------------------
// The CPU
// ---------------------------------------------------------------------------

/// Whether the core runs, waits for an interrupt, or stopped on an opcode it
/// cannot execute.
#[derive(Clone, Copy, Debug, PartialEq, Eq, Structural)]
pub enum CoreState {
    Running,
    Halted,
    Stopped,
    Faulted { opcode: u8, prefixed: bool },
}

/// The memory of the machine beyond the CPU's own registers, as its
/// instructions reach it. While an access waits for its answer, an
/// implementation may serve other components' accesses to the CPU's
/// registers in `io`.
pub trait CpuBus {
    /// The byte at `address`.
    fn read(&mut self, io: &mut CpuIo, address: u16) -> u8;

    /// Writes `value` to `address` and says whether its owner took it.
    fn write(&mut self, io: &mut CpuIo, address: u16, value: u8) -> WriteResult;

    /// The boot ROM was unmapped: a direct view of the cartridge is to stop
    /// showing it.
    fn boot_rom_unmapped(&mut self);
}

/// One access of the CPU to the memory map: a read of `value` at `address`,
/// or a write of `value` to it.
#[derive(Clone, Copy, Debug, PartialEq, Eq, Structural)]
pub enum BusAccess {
    Read { address: u16, value: u8 },
    Write { address: u16, value: u8 },
}

/// A read of `value` at `address`.
pub open spec fn rd(address: u16, value: u8) -> BusAccess {
    BusAccess::Read { address, value }
}

/// A write of `value` to `address`.
pub open spec fn wr(address: u16, value: u8) -> BusAccess {
    BusAccess::Write { address, value }
}

/// The high-page address of an offset, as the CPU forms it.
proof fn lemma_high_page(offset: u8)
    ensures
        0xff00u16 | (offset as u16) == high_page(offset),
{
    assert(0xff00u16 | (offset as u16) == (0xff00 + offset) as u16) by (bit_vector);
}

/// A word joined from two bytes splits back into them.
proof fn lemma_join_halves(h: u8, l: u8)
    ensures
        hi(join(h, l)) == h && lo(join(h, l)) == l,
{
    assert(((((h as u16) << 8u16) | (l as u16)) >> 8u16) as u8 == h && (((h as u16) << 8u16) | (
    l as u16)) as u8 == l) by (bit_vector);
}

/// `address` plus `n`, wrapping at 16 bits.
pub open spec fn addr_plus(address: u16, n: int) -> u16 {
    ((address + n) % 65536) as u16
}

/// The CPU: registers, interrupt state, the registers it owns, and the
/// cycle count. `trace` records, in order, every access it has made to the
/// memory map.
pub struct CpuThread {
    pub bus: Bus,
    pub boot_target_mode: HardwareMode,
    pub registers: CpuRegisters,
    pub io: CpuIo,
    pub clock: MasterClock,
    pub interrupt_master_enable: bool,
    pub ime_enable_delay: u8,
    pub last_joypad: u8,
    pub cycles: u64,
    pub last_step_pc: u16,
    pub state: CoreState,
    pub halt_bug: bool,
    pub steps: u64,
    pub shutdown: bool,
    pub trace: Ghost<Seq<BusAccess>>,
}

impl CpuThread {
    pub open spec fn with_registers(self, r: CpuRegisters) -> CpuThread {
        CpuThread { registers: r, ..self }
    }

    fn a(&self) -> (v: u8)
        ensures
            v == hi(self.registers.af),
    {
        (self.registers.af >> 8) as u8
    }

    fn b(&self) -> (v: u8)
        ensures
            v == hi(self.registers.bc),
    {
        (self.registers.bc >> 8) as u8
    }

    fn c(&self) -> (v: u8)
        ensures
            v == lo(self.registers.bc),
    {
        self.registers.bc as u8
    }

    fn d(&self) -> (v: u8)
        ensures
            v == hi(self.registers.de),
    {
        (self.registers.de >> 8) as u8
    }

    fn e(&self) -> (v: u8)
        ensures
            v == lo(self.registers.de),
    {
        self.registers.de as u8
    }

    fn h(&self) -> (v: u8)
        ensures
            v == hi(self.registers.hl),
    {
        (self.registers.hl >> 8) as u8
    }

    fn l(&self) -> (v: u8)
        ensures
            v == lo(self.registers.hl),
    {
        self.registers.hl as u8
    }

    fn flags(&self) -> (f: u8)
        ensures
            f == lo(self.registers.af) & 0xf0,
    {
        self.registers.af as u8 & 0xf0
    }

    fn flag(&self, mask: u8) -> (set: bool)
        ensures
            set == flag_set(self.registers.af, mask),
    {
        self.flags() & mask != 0
    }

    fn set_a(&mut self, value: u8)
        ensures
            *final(self) == old(self).with_registers(with_r8(old(self).registers, 7, value)),
    {
        self.registers.af = ((value as u16) << 8) | (self.flags() as u16);
    }

    fn set_b(&mut self, value: u8)
        ensures
            *final(self) == old(self).with_registers(with_r8(old(self).registers, 0, value)),
    {
        self.registers.bc = ((value as u16) << 8) | (self.c() as u16);
    }

    fn set_c(&mut self, value: u8)
        ensures
            *final(self) == old(self).with_registers(with_r8(old(self).registers, 1, value)),
    {
        self.registers.bc = ((self.b() as u16) << 8) | (value as u16);
    }

    fn set_d(&mut self, value: u8)
        ensures
            *final(self) == old(self).with_registers(with_r8(old(self).registers, 2, value)),
    {
        self.registers.de = ((value as u16) << 8) | (self.e() as u16);
    }

    fn set_e(&mut self, value: u8)
        ensures
            *final(self) == old(self).with_registers(with_r8(old(self).registers, 3, value)),
    {
        self.registers.de = ((self.d() as u16) << 8) | (value as u16);
    }

    fn set_h(&mut self, value: u8)
        ensures
            *final(self) == old(self).with_registers(with_r8(old(self).registers, 4, value)),
    {
        self.registers.hl = ((value as u16) << 8) | (self.l() as u16);
    }

    fn set_l(&mut self, value: u8)
        ensures
            *final(self) == old(self).with_registers(with_r8(old(self).registers, 5, value)),
    {
        self.registers.hl = ((self.h() as u16) << 8) | (value as u16);
    }

    /// Sets all four flags; A is kept.
    fn set_flags(&mut self, zero: bool, subtract: bool, half_carry: bool, carry: bool)
        ensures
            *final(self) == old(self).with_registers(
                CpuRegisters {
                    af: join(hi(old(self).registers.af), flag_bits(zero, subtract, half_carry, carry)),
                    ..old(self).registers
                },
            ),
    {
        let mut flags: u8 = 0;
        if zero {
            flags = flags | FLAG_Z;
        }
        if subtract {
            flags = flags | FLAG_N;
        }
        if half_carry {
            flags = flags | FLAG_H;
        }
        if carry {
            flags = flags | FLAG_C;
        }
        assert(flags == flag_bits(zero, subtract, half_carry, carry)) by {
            lemma_register_layout();
        }
        self.registers.af = ((self.a() as u16) << 8) | (flags as u16);
    }
}

/// The arithmetic meaning of the masks, shifts and rotations of a byte that
/// the instructions use.
pub proof fn lemma_byte_arith(v: u8)
    ensures
        v & 0x0f == v % 16,
        (v & 0x80 != 0) == (v >= 128),
        (v & 0x01 != 0) == (v % 2 == 1),
        (v << 1) | (v >> 7) == ((2 * v) % 256 + v / 128) as u8,
        (v >> 1) | (v << 7) == (v / 2 + (v % 2) * 128) as u8,
        (v << 1) | 1u8 == ((2 * v) % 256 + 1) as u8,
        (v << 1) | 0u8 == ((2 * v) % 256) as u8,
        (v >> 1) | 0x80u8 == (v / 2 + 128) as u8,
        (v >> 1) | 0u8 == (v / 2) as u8,
        v << 1 == ((2 * v) % 256) as u8,
        (v >> 1) | (v & 0x80) == (v / 2 + (v / 128) * 128) as u8,
        (v << 4) | (v >> 4) == ((v % 16) * 16 + v / 16) as u8,
        v >> 1 == (v / 2) as u8,
        !v == 255 - v,
        0u8 | 0x06u8 == 6 && 0u8 | 0x60u8 == 0x60 && 0x06u8 | 0x60u8 == 0x66,
{
    assert({
        &&& v & 0x0f == v % 16
        &&& (v & 0x80 != 0) == (v >= 128)
        &&& (v & 0x01 != 0) == (v % 2 == 1)
        &&& (v << 1) | (v >> 7) == ((2 * v) % 256 + v / 128) as u8
        &&& (v >> 1) | (v << 7) == (v / 2 + (v % 2) * 128) as u8
        &&& (v << 1) | 1u8 == ((2 * v) % 256 + 1) as u8
        &&& (v << 1) | 0u8 == ((2 * v) % 256) as u8
        &&& (v >> 1) | 0x80u8 == (v / 2 + 128) as u8
        &&& (v >> 1) | 0u8 == (v / 2) as u8
        &&& v << 1 == ((2 * v) % 256) as u8
        &&& (v >> 1) | (v & 0x80) == (v / 2 + (v / 128) * 128) as u8
        &&& (v << 4) | (v >> 4) == ((v % 16) * 16 + v / 16) as u8
        &&& v >> 1 == (v / 2) as u8
        &&& !v == 255 - v
        &&& 0u8 | 0x06u8 == 6 && 0u8 | 0x60u8 == 0x60 && 0x06u8 | 0x60u8 == 0x66
    }) by (bit_vector);
}

/// The low nibbles of two bytes, as remainders.
pub proof fn lemma_low_nibbles(a: u8, v: u8)
    ensures
        a & 0x0f == a % 16,
        v & 0x0f == v % 16,
{
    lemma_byte_arith(a);
    lemma_byte_arith(v);
}

/// The arithmetic meaning of the low-bit masks of a word.
pub proof fn lemma_word_arith(x: u16)
    ensures
        x & 0x000f == x % 16,
        x & 0x00ff == x % 256,
        x & 0x0fff == x % 4096,
{
    assert(x & 0x000f == x % 16 && x & 0x00ff == x % 256 && x & 0x0fff == x % 4096)
        by (bit_vector);
}

/// The two's-complement bits of a signed offset, as an unsigned word.
pub open spec fn offset_bits(offset: i8) -> int {
    (offset + 65536) % 65536
}

/// SP (or HL) plus a signed byte offset, with the half-carry and carry of
/// adding the offset's low byte to the low byte of `base`.
pub fn add_signed_offset(base: u16, offset: i8) -> (r: (u16, bool, bool))
    ensures
        r.0 == ((base + offset_bits(offset)) % 65536) as u16,
        r.1 == (base % 16 + offset_bits(offset) % 16 > 15),
        r.2 == (base % 256 + offset_bits(offset) % 256 > 255),
{
    let signed = offset;
    let offset = signed as i16 as u16;
    proof {
        assert(offset == (signed + 65536) % 65536) by (bit_vector)
            requires
                offset == signed as i16 as u16,
        ;
        lemma_word_arith(base);
        lemma_word_arith(offset);
    }
    let result = base.wrapping_add(offset);
    let half_carry = ((base & 0x000f) + (offset & 0x000f)) > 0x000f;
    let carry = ((base & 0x00ff) + (offset & 0x00ff)) > 0x00ff;
    (result, half_carry, carry)
}

impl CpuThread {
    fn add_to_a(&mut self, value: u8, include_carry: bool)
        ensures
            *final(self) == old(self).with_registers(
                CpuRegisters { af: af_add(old(self).registers.af, value, include_carry), ..old(self).registers },
            ),
    {
        let a = self.a();
        let carry: u8 = if include_carry && self.flag(FLAG_C) { 1 } else { 0 };
        let result = a.wrapping_add(value).wrapping_add(carry);
        self.set_a(result);
        proof {
            lemma_register_layout();
            lemma_low_nibbles(a, value);
        }
        self.set_flags(
            result == 0,
            false,
            ((a & 0x0f) + (value & 0x0f) + carry) > 0x0f,
            (a as u16) + (value as u16) + (carry as u16) > 0x00ff,
        );
    }

    fn sub_from_a(&mut self, value: u8, include_carry: bool)
        ensures
            *final(self) == old(self).with_registers(
                CpuRegisters { af: af_sub(old(self).registers.af, value, include_carry), ..old(self).registers },
            ),
    {
        let a = self.a();
        let carry: u8 = if include_carry && self.flag(FLAG_C) { 1 } else { 0 };
        let result = a.wrapping_sub(value).wrapping_sub(carry);
        self.set_a(result);
        proof {
            lemma_register_layout();
            lemma_low_nibbles(a, value);
        }
        self.set_flags(
            result == 0,
            true,
            (a & 0x0f) < ((value & 0x0f) + carry),
            (a as u16) < ((value as u16) + (carry as u16)),
        );
    }

    fn logic_and(&mut self, value: u8)
        ensures
            *final(self) == old(self).with_registers(
                CpuRegisters { af: af_and(old(self).registers.af, value), ..old(self).registers },
            ),
    {
        let result = self.a() & value;
        self.set_a(result);
        proof {
            lemma_register_layout();
        }
        self.set_flags(result == 0, false, true, false);
    }

    fn logic_xor(&mut self, value: u8)
        ensures
            *final(self) == old(self).with_registers(
                CpuRegisters { af: af_xor(old(self).registers.af, value), ..old(self).registers },
            ),
    {
        let result = self.a() ^ value;
        self.set_a(result);
        proof {
            lemma_register_layout();
        }
        self.set_flags(result == 0, false, false, false);
    }

    fn logic_or(&mut self, value: u8)
        ensures
            *final(self) == old(self).with_registers(
                CpuRegisters { af: af_or(old(self).registers.af, value), ..old(self).registers },
            ),
    {
        let result = self.a() | value;
        self.set_a(result);
        proof {
            lemma_register_layout();
        }
        self.set_flags(result == 0, false, false, false);
    }

    fn compare_a(&mut self, value: u8)
        ensures
            *final(self) == old(self).with_registers(
                CpuRegisters { af: af_cp(old(self).registers.af, value), ..old(self).registers },
            ),
    {
        let a = self.a();
        let result = a.wrapping_sub(value);
        proof {
            lemma_low_nibbles(a, value);
        }
        self.set_flags(result == 0, true, (a & 0x0f) < (value & 0x0f), a < value);
    }

    /// The ALU operation `op` (ADD, ADC, SUB, SBC, AND, XOR, OR, CP) on A.
    fn alu(&mut self, op: u8, value: u8)
        requires
            op < 8,
        ensures
            *final(self) == old(self).with_registers(
                CpuRegisters { af: af_alu(old(self).registers.af, op, value), ..old(self).registers },
            ),
    {
        if op == 0 {
            self.add_to_a(value, false)
        } else if op == 1 {
            self.add_to_a(value, true)
        } else if op == 2 {
            self.sub_from_a(value, false)
        } else if op == 3 {
            self.sub_from_a(value, true)
        } else if op == 4 {
            self.logic_and(value)
        } else if op == 5 {
            self.logic_xor(value)
        } else if op == 6 {
            self.logic_or(value)
        } else {
            self.compare_a(value)
        }
    }

    fn rotate_a_left(&mut self, through_carry: bool)
        ensures
            *final(self) == old(self).with_registers(
                CpuRegisters { af: af_rotate_left(old(self).registers.af, through_carry), ..old(self).registers },
            ),
    {
        let value = self.a();
        let carry_in: u8 = if through_carry && self.flag(FLAG_C) { 1 } else { 0 };
        let carry_out = value & 0x80 != 0;
        let result = if through_carry {
            (value << 1) | carry_in
        } else {
            (value << 1) | (value >> 7)
        };
        proof {
            lemma_byte_arith(value);
            lemma_register_layout();
        }
        self.set_a(result);
        self.set_flags(false, false, false, carry_out);
    }

    fn rotate_a_right(&mut self, through_carry: bool)
        ensures
            *final(self) == old(self).with_registers(
                CpuRegisters { af: af_rotate_right(old(self).registers.af, through_carry), ..old(self).registers },
            ),
    {
        let value = self.a();
        let carry_in: u8 = if through_carry && self.flag(FLAG_C) { 0x80 } else { 0x00 };
        let carry_out = value & 0x01 != 0;
        let result = if through_carry {
            (value >> 1) | carry_in
        } else {
            (value >> 1) | (value << 7)
        };
        proof {
            lemma_byte_arith(value);
            lemma_register_layout();
        }
        self.set_a(result);
        self.set_flags(false, false, false, carry_out);
    }

    fn decimal_adjust_accumulator(&mut self)
        ensures
            *final(self) == old(self).with_registers(
                CpuRegisters { af: af_daa(old(self).registers.af), ..old(self).registers },
            ),
    {
        let mut a = self.a();
        let mut adjust: u8 = 0;
        let mut carry = self.flag(FLAG_C);
        let n = self.flag(FLAG_N);
        proof {
            lemma_low_nibbles(a, a);
            lemma_byte_arith(0);
        }
        if self.flag(FLAG_H) || (!n && (a & 0x0f) > 0x09) {
            adjust = adjust | 0x06;
        }
        if carry || (!n && a > 0x99) {
            adjust = adjust | 0x60;
            carry = true;
        }
        a = if n {
            a.wrapping_sub(adjust)
        } else {
            a.wrapping_add(adjust)
        };
        proof {
            lemma_register_layout();
        }
        self.set_a(a);
        self.set_flags(a == 0, n, false, carry);
    }

    fn set_inc_flags(&mut self, result: u8, original: u8)
        requires
            result == (original + 1) % 256,
        ensures
            *final(self) == old(self).with_registers(
                CpuRegisters { af: af_inc_flags(old(self).registers.af, original), ..old(self).registers },
            ),
    {
        proof {
            lemma_low_nibbles(original, original);
        }
        self.set_flags(result == 0, false, (original & 0x0f) == 0x0f, self.flag(FLAG_C));
    }

    fn set_dec_flags(&mut self, result: u8, original: u8)
        requires
            result == (original + 255) % 256,
        ensures
            *final(self) == old(self).with_registers(
                CpuRegisters { af: af_dec_flags(old(self).registers.af, original), ..old(self).registers },
            ),
    {
        proof {
            lemma_low_nibbles(original, original);
        }
        self.set_flags(result == 0, true, (original & 0x0f) == 0x00, self.flag(FLAG_C));
    }

    fn reg16(&self, register: u8) -> (v: u16)
        ensures
            v == r16(self.registers, register),
    {
        if register == 0 {
            self.registers.bc
        } else if register == 1 {
            self.registers.de
        } else if register == 2 {
            self.registers.hl
        } else {
            self.registers.sp
        }
    }

    fn set_reg16(&mut self, register: u8, value: u16)
        ensures
            *final(self) == old(self).with_registers(with_r16(old(self).registers, register, value)),
    {
        if register == 0 {
            self.registers.bc = value;
        } else if register == 1 {
            self.registers.de = value;
        } else if register == 2 {
            self.registers.hl = value;
        } else {
            self.registers.sp = value;
        }
    }

    fn stack_reg(&self, register: u8) -> (v: u16)
        ensures
            v == stack_r16(self.registers, register),
    {
        if register == 3 {
            self.registers.af & 0xfff0
        } else {
            self.reg16(register)
        }
    }

    fn set_stack_reg(&mut self, register: u8, value: u16)
        ensures
            *final(self) == old(self).with_registers(with_stack_r16(old(self).registers, register, value)),
    {
        if register == 3 {
            self.registers.af = value & 0xfff0;
        } else {
            self.set_reg16(register, value);
        }
    }

    /// Condition `condition` of a jump (NZ, Z, NC, C for 0-3).
    fn condition(&self, condition: u8) -> (holds: bool)
        ensures
            holds == spec_condition(self.registers.af, condition),
    {
        if condition == 0 {
            !self.flag(FLAG_Z)
        } else if condition == 1 {
            self.flag(FLAG_Z)
        } else if condition == 2 {
            !self.flag(FLAG_C)
        } else {
            self.flag(FLAG_C)
        }
    }

    fn pending_interrupts(&self) -> (pending: u8)
        ensures
            pending == self.spec_pending_interrupts(),
    {
        self.io.interrupt_enable & self.io.interrupt_flags.load() & 0x1f
    }

    /// The requested interrupts that are enabled.
    pub open spec fn spec_pending_interrupts(&self) -> u8 {
        self.io.interrupt_enable & self.io.interrupt_flags.flags & 0x1f
    }
}

/// Condition `condition` of a jump (NZ, Z, NC, C for 0-3) on the flags of `af`.
pub open spec fn spec_condition(af: u16, condition: u8) -> bool {
    if condition == 0 {
        !flag_set(af, FLAG_Z)
    } else if condition == 1 {
        flag_set(af, FLAG_Z)
    } else if condition == 2 {
        !flag_set(af, FLAG_C)
    } else {
        flag_set(af, FLAG_C)
    }
}

// ---------------------------------------------------------------------------
// Memory accesses
// ---------------------------------------------------------------------------

impl CpuThread {
    /// `after` keeps everything of `self` that a memory access leaves alone:
    /// all but the registers, the I/O registers, the halt bug, the cycle
    /// count and the clock.
    pub open spec fn frame(&self, after: &CpuThread) -> bool {
        &&& after.bus == self.bus
        &&& after.boot_target_mode == self.boot_target_mode
        &&& after.interrupt_master_enable == self.interrupt_master_enable
        &&& after.ime_enable_delay == self.ime_enable_delay
        &&& after.last_joypad == self.last_joypad
        &&& after.last_step_pc == self.last_step_pc
        &&& after.state == self.state
        &&& after.steps == self.steps
        &&& after.shutdown == self.shutdown
    }

    /// Reads `address`: from the CPU's own registers where it owns it, else
    /// through `bus`. Either way the access takes four cycles.
    fn read_byte<B: CpuBus>(&mut self, bus: &mut B, address: u16) -> (value: u8)
        requires
            old(self).cycles + 4 <= u64::MAX,
        ensures
            old(self).frame(final(self)),
            final(self).registers == old(self).registers,
            final(self).halt_bug == old(self).halt_bug,
            final(self).cycles == old(self).cycles + 4,
            old(self).io.spec_read(address) matches Some(v) ==> value == v && final(self).io
                == old(self).io,
            final(self).trace@ == old(self).trace@.push(rd(address, value)),
    {
        let value = match self.io.read_cpu_owned(address) {
            Some(value) => value,
            None => bus.read(&mut self.io, address),
        };
        self.cycles = self.cycles + 4;
        self.clock.advance(self.cycles);
        proof {
            self.trace@ = self.trace@.push(rd(address, value));
        }
        value
    }

    /// Writes through to the owner of `address` (or to the CPU's own
    /// registers), taking four cycles. A nonzero write to 0xFF50 that the
    /// cartridge accepts ends the boot ROM.
    fn write_byte_sync<B: CpuBus>(&mut self, bus: &mut B, address: u16, value: u8)
        requires
            old(self).cycles + 4 <= u64::MAX,
        ensures
            old(self).frame(final(self)),
            final(self).registers == old(self).registers,
            final(self).halt_bug == old(self).halt_bug,
            final(self).cycles == old(self).cycles + 4,
            old(self).io.owns_write(address) ==> old(self).io.write_post(&final(self).io, address, value),
            final(self).trace@ == old(self).trace@.push(wr(address, value)),
    {
        proof {
            self.trace@ = self.trace@.push(wr(address, value));
        }
        if self.io.write_cpu_owned(address, value) {
            self.cycles = self.cycles + 4;
            self.clock.advance(self.cycles);
            return;
        }
        let result = bus.write(&mut self.io, address, value);
        self.cycles = self.cycles + 4;
        self.clock.advance(self.cycles);
        if address == 0xff50 && value != 0x00 {
            match result {
                WriteResult::Accepted => self.finish_boot_transition(bus),
                WriteResult::NoData => {},
            }
        }
    }

    /// Writes `value` to `address`: a write the CPU owns is taken at once,
    /// with no cycles counted; any other goes through `write_byte_sync`.
    fn write_byte<B: CpuBus>(&mut self, bus: &mut B, address: u16, value: u8)
        requires
            old(self).cycles + 4 <= u64::MAX,
        ensures
            old(self).frame(final(self)),
            final(self).registers == old(self).registers,
            final(self).halt_bug == old(self).halt_bug,
            final(self).cycles == old(self).cycles || final(self).cycles == old(self).cycles + 4,
            old(self).io.owns_write(address) ==> old(self).io.write_post(&final(self).io, address, value)
                && final(self).cycles == old(self).cycles,
            final(self).trace@ == old(self).trace@.push(wr(address, value)),
    {
        if self.io.write_cpu_owned(address, value) {
            proof {
                self.trace@ = self.trace@.push(wr(address, value));
            }
            return;
        }
        self.write_byte_sync(bus, address, value);
    }

    /// What `write_byte` of `value` at `address` takes `self` to: `after`.
    pub open spec fn byte_written(&self, after: &CpuThread, address: u16, value: u8) -> bool {
        &&& self.frame(after)
        &&& after.registers == self.registers
        &&& after.halt_bug == self.halt_bug
        &&& (after.cycles == self.cycles || after.cycles == self.cycles + 4)
        &&& (self.io.owns_write(address) ==> self.io.write_post(&after.io, address, value)
            && after.cycles == self.cycles)
        &&& after.trace@ == self.trace@.push(wr(address, value))
    }

    /// Writes `value` little-endian at `address` and `address + 1`.
    fn write_word<B: CpuBus>(&mut self, bus: &mut B, address: u16, value: u16)
        requires
            old(self).cycles + 8 <= u64::MAX,
        ensures
            old(self).frame(final(self)),
            final(self).registers == old(self).registers,
            final(self).halt_bug == old(self).halt_bug,
            old(self).cycles <= final(self).cycles <= old(self).cycles + 8,
            exists|mid: CpuThread|
                #![trigger old(self).byte_written(&mid, address, lo(value))]
                old(self).byte_written(&mid, address, lo(value)) && mid.byte_written(
                    final(self),
                    ((address + 1) % 65536) as u16,
                    hi(value),
                ),
            final(self).trace@ == old(self).trace@.push(wr(address, lo(value))).push(
                wr(addr_plus(address, 1), hi(value)),
            ),
    {
        let low = value as u8;
        let high = (value >> 8) as u8;
        self.write_byte(bus, address, low);
        let ghost mid = *self;
        self.write_byte(bus, address.wrapping_add(1), high);
        assert(old(self).byte_written(&mid, address, lo(value)));
    }

    /// The byte at PC; PC moves past it unless the halt bug holds it back
    /// for this one fetch.
    fn fetch_byte<B: CpuBus>(&mut self, bus: &mut B) -> (value: u8)
        requires
            old(self).cycles + 4 <= u64::MAX,
        ensures
            old(self).frame(final(self)),
            final(self).registers == (CpuRegisters {
                pc: if old(self).halt_bug {
                    old(self).registers.pc
                } else {
                    ((old(self).registers.pc + 1) % 65536) as u16
                },
                ..old(self).registers
            }),
            !final(self).halt_bug,
            final(self).cycles == old(self).cycles + 4,
            old(self).io.spec_read(old(self).registers.pc) matches Some(v) ==> value == v && final(self).io
                == old(self).io,
            final(self).trace@ == old(self).trace@.push(rd(old(self).registers.pc, value)),
    {
        let value = self.read_byte(bus, self.registers.pc);
        if self.halt_bug {
            self.halt_bug = false;
        } else {
            self.registers.pc = self.registers.pc.wrapping_add(1);
        }
        value
    }

    /// The little-endian word at PC.
    fn fetch_word<B: CpuBus>(&mut self, bus: &mut B) -> (value: u16)
        requires
            old(self).cycles + 8 <= u64::MAX,
        ensures
            old(self).frame(final(self)),
            final(self).registers == (CpuRegisters { pc: final(self).registers.pc, ..old(self).registers }),
            final(self).registers.pc == if old(self).halt_bug {
                ((old(self).registers.pc + 1) % 65536) as u16
            } else {
                ((old(self).registers.pc + 2) % 65536) as u16
            },
            !final(self).halt_bug,
            final(self).cycles == old(self).cycles + 8,
            final(self).trace@ == old(self).trace@.push(rd(old(self).registers.pc, lo(value))).push(
                rd(
                    if old(self).halt_bug {
                        old(self).registers.pc
                    } else {
                        addr_plus(old(self).registers.pc, 1)
                    },
                    hi(value),
                ),
            ),
    {
        proof {
            lemma_register_layout();
        }
        let low = self.fetch_byte(bus);
        let high = self.fetch_byte(bus);
        assert(hi(join(high, low)) == high && lo(join(high, low)) == low) by {
            lemma_join_halves(high, low);
        }
        ((high as u16) << 8) | (low as u16)
    }

    /// Pushes `value`: SP goes down by two, the high byte lands above the low.
    fn push_word<B: CpuBus>(&mut self, bus: &mut B, value: u16)
        requires
            old(self).cycles + 8 <= u64::MAX,
        ensures
            old(self).frame(final(self)),
            final(self).registers == (CpuRegisters {
                sp: ((old(self).registers.sp + 65534) % 65536) as u16,
                ..old(self).registers
            }),
            final(self).halt_bug == old(self).halt_bug,
            final(self).cycles == old(self).cycles + 8,
            final(self).trace@ == old(self).trace@.push(wr(addr_plus(old(self).registers.sp, 65535), hi(value))).push(
                wr(addr_plus(old(self).registers.sp, 65534), lo(value)),
            ),
    {
        let low = value as u8;
        let high = (value >> 8) as u8;
        self.registers.sp = self.registers.sp.wrapping_sub(1);
        self.write_byte_sync(bus, self.registers.sp, high);
        self.registers.sp = self.registers.sp.wrapping_sub(1);
        self.write_byte_sync(bus, self.registers.sp, low);
    }

    /// Pops a word: the low byte at SP, the high byte above it; SP goes up by two.
    fn pop_word<B: CpuBus>(&mut self, bus: &mut B) -> (value: u16)
        requires
            old(self).cycles + 8 <= u64::MAX,
        ensures
            old(self).frame(final(self)),
            final(self).registers == (CpuRegisters {
                sp: ((old(self).registers.sp + 2) % 65536) as u16,
                ..old(self).registers
            }),
            final(self).halt_bug == old(self).halt_bug,
            final(self).cycles == old(self).cycles + 8,
            final(self).trace@ == old(self).trace@.push(rd(old(self).registers.sp, lo(value))).push(
                rd(addr_plus(old(self).registers.sp, 1), hi(value)),
            ),
    {
        proof {
            lemma_register_layout();
        }
        let low = self.read_byte(bus, self.registers.sp);
        self.registers.sp = self.registers.sp.wrapping_add(1);
        let high = self.read_byte(bus, self.registers.sp);
        self.registers.sp = self.registers.sp.wrapping_add(1);
        assert(hi(join(high, low)) == high && lo(join(high, low)) == low) by {
            lemma_join_halves(high, low);
        }
        ((high as u16) << 8) | (low as u16)
    }

    /// The 8-bit operand `register`: a register, or (HL) in memory for 6.
    fn read_r8<B: CpuBus>(&mut self, bus: &mut B, register: u8) -> (value: u8)
        requires
            old(self).cycles + 4 <= u64::MAX,
        ensures
            register != 6 ==> value == r8(old(self).registers, register) && *final(self) == *old(self),
            register == 6 ==> old(self).frame(final(self)) && final(self).registers == old(self).registers && final(self).halt_bug == old(self).halt_bug && final(self).cycles == old(self).cycles + 4,
            register == 6 ==> final(self).trace@ == old(self).trace@.push(rd(old(self).registers.hl, value)),
    {
        if register == 0 {
            self.b()
        } else if register == 1 {
            self.c()
        } else if register == 2 {
            self.d()
        } else if register == 3 {
            self.e()
        } else if register == 4 {
            self.h()
        } else if register == 5 {
            self.l()
        } else if register == 6 {
            self.read_byte(bus, self.registers.hl)
        } else {
            self.a()
        }
    }

    /// Stores into the 8-bit operand `register`: a register, or (HL) for 6.
    fn write_r8<B: CpuBus>(&mut self, bus: &mut B, register: u8, value: u8)
        requires
            old(self).cycles + 4 <= u64::MAX,
        ensures
            register != 6 ==> *final(self) == old(self).with_registers(
                with_r8(old(self).registers, register, value),
            ),
            register == 6 ==> old(self).frame(final(self)) && final(self).registers == old(self).registers && final(self).halt_bug == old(self).halt_bug && old(self).cycles <= final(self).cycles <= old(self).cycles + 4,
            register == 6 ==> final(self).trace@ == old(self).trace@.push(wr(old(self).registers.hl, value)),
            register == 6 && old(self).io.owns_write(old(self).registers.hl) ==> old(self).io.write_post(
                &final(self).io,
                old(self).registers.hl,
                value,
            ),
    {
        if register == 0 {
            self.set_b(value)
        } else if register == 1 {
            self.set_c(value)
        } else if register == 2 {
            self.set_d(value)
        } else if register == 3 {
            self.set_e(value)
        } else if register == 4 {
            self.set_h(value)
        } else if register == 5 {
            self.set_l(value)
        } else if register == 6 {
            self.write_byte(bus, self.registers.hl, value)
        } else {
            self.set_a(value)
        }
    }

    /// Unmaps the boot ROM, once: the CPU switches to the mode the boot ROM
    /// was preparing and tells the other components.
    fn finish_boot_transition<B: CpuBus>(&mut self, bus: &mut B)
        ensures
            *final(self) == (if old(self).io.boot_rom_unmapped {
                *old(self)
            } else {
                CpuThread {
                    io: CpuIo {
                        boot_rom_unmapped: true,
                        hardware_mode: old(self).boot_target_mode,
                        ..old(self).io
                    },
                    ..*old(self)
                }
            }),
    {
        if self.io.boot_rom_unmapped {
            return;
        }
        self.io.boot_rom_unmapped = true;
        bus.boot_rom_unmapped();
        self.io.hardware_mode = self.boot_target_mode;
        let _ = self.bus.propagate_hardware_mode(self.boot_target_mode);
    }
}

// ---------------------------------------------------------------------------
// Interrupts, the EI delay, the serial port and the joypad line
// ---------------------------------------------------------------------------

/// The interrupt served first among `pending`: the lowest set bit of 0-4.
pub open spec fn first_interrupt(pending: u8) -> Option<u8> {
    if pending & 0x01 != 0 {
        Some(0u8)
    } else if pending & 0x02 != 0 {
        Some(1u8)
    } else if pending & 0x04 != 0 {
        Some(2u8)
    } else if pending & 0x08 != 0 {
        Some(3u8)
    } else if pending & 0x10 != 0 {
        Some(4u8)
    } else {
        None
    }
}

/// The handler address of interrupt `bit` (VBlank, STAT, timer, serial, joypad).
pub open spec fn interrupt_vector(bit: u8) -> u16 {
    (0x40 + 8 * bit) as u16
}

impl CpuThread {
    /// Serves the first pending interrupt: IME off, its request cleared, PC
    /// pushed, and a jump to its handler.
    fn service_interrupt<B: CpuBus>(&mut self, bus: &mut B, pending_interrupts: u8)
        requires
            old(self).cycles + 8 <= u64::MAX,
        ensures
            first_interrupt(pending_interrupts) is None ==> *final(self) == *old(self),
            first_interrupt(pending_interrupts) matches Some(bit) ==> {
                &&& final(self).registers == (CpuRegisters {
                    pc: interrupt_vector(bit),
                    sp: ((old(self).registers.sp + 65534) % 65536) as u16,
                    ..old(self).registers
                })
                &&& !final(self).interrupt_master_enable
                &&& final(self).ime_enable_delay == 0
                &&& final(self).state == CoreState::Running
                &&& final(self).halt_bug == old(self).halt_bug
                &&& final(self).cycles == old(self).cycles + 8
                &&& final(self).bus == old(self).bus
                &&& final(self).boot_target_mode == old(self).boot_target_mode
                &&& final(self).last_joypad == old(self).last_joypad
                &&& final(self).last_step_pc == old(self).last_step_pc
                &&& final(self).steps == old(self).steps
                &&& final(self).shutdown == old(self).shutdown
                &&& final(self).trace@ == old(self).trace@.push(
                    wr(addr_plus(old(self).registers.sp, 65535), hi(old(self).registers.pc)),
                ).push(wr(addr_plus(old(self).registers.sp, 65534), lo(old(self).registers.pc)))
            },
    {
        let interrupt_bit: u8 = if pending_interrupts & 0x01 != 0 {
            0
        } else if pending_interrupts & 0x02 != 0 {
            1
        } else if pending_interrupts & 0x04 != 0 {
            2
        } else if pending_interrupts & 0x08 != 0 {
            3
        } else if pending_interrupts & 0x10 != 0 {
            4
        } else {
            return;
        };
        let interrupt_mask: u8 = 1u8 << interrupt_bit;
        let handler: u16 = 0x40 + 8 * (interrupt_bit as u16);
        self.interrupt_master_enable = false;
        self.ime_enable_delay = 0;
        self.state = CoreState::Running;
        self.io.interrupt_flags.clear(interrupt_mask);
        self.push_word(bus, self.registers.pc);
        self.registers.pc = handler;
    }

    /// Counts down the delay after EI; IME comes on when it reaches zero.
    fn advance_ime_delay(&mut self)
        ensures
            *final(self) == (if old(self).ime_enable_delay == 0 {
                *old(self)
            } else if old(self).ime_enable_delay == 1 {
                CpuThread { ime_enable_delay: 0, interrupt_master_enable: true, ..*old(self) }
            } else {
                CpuThread { ime_enable_delay: (old(self).ime_enable_delay - 1) as u8, ..*old(self) }
            }),
    {
        if self.ime_enable_delay == 0 {
            return;
        }
        self.ime_enable_delay = self.ime_enable_delay - 1;
        if self.ime_enable_delay == 0 {
            self.interrupt_master_enable = true;
        }
    }

    /// Counts down a serial transfer. With no cable attached it ends with
    /// 0xFF shifted into SB, the transfer bit of SC cleared and the serial
    /// interrupt requested.
    fn advance_serial_transfer(&mut self)
        ensures
            final(self).registers == old(self).registers,
            old(self).frame(final(self)),
            final(self).halt_bug == old(self).halt_bug && final(self).cycles == old(self).cycles,
            old(self).io.serial_transfer_countdown == 0 ==> *final(self) == *old(self),
            old(self).io.serial_transfer_countdown > 1 ==> *final(self) == (CpuThread {
                io: CpuIo {
                    serial_transfer_countdown: (old(self).io.serial_transfer_countdown - 1) as u16,
                    ..old(self).io
                },
                ..*old(self)
            }),
            old(self).io.serial_transfer_countdown == 1 ==> {
                &&& final(self).io.serial_transfer_countdown == 0
                &&& final(self).io.io_registers@ == old(self).io.io_registers@.update(1, 0xff).update(
                    2,
                    old(self).io.io_registers@[2] & 0x7f,
                )
                &&& final(self).io.interrupt_flags.flags == old(self).io.interrupt_flags.flags
                    | SERIAL_INTERRUPT_MASK
                &&& final(self).io.hram == old(self).io.hram
                &&& final(self).io.interrupt_enable == old(self).io.interrupt_enable
            },
            serial_advanced(*old(self), *final(self)),
    {
        if self.io.serial_transfer_countdown == 0 {
            return;
        }
        self.io.serial_transfer_countdown = self.io.serial_transfer_countdown - 1;
        if self.io.serial_transfer_countdown == 0 {
            self.io.io_registers[SERIAL_DATA_INDEX] = 0xff;
            self.io.io_registers[SERIAL_CONTROL_INDEX] = self.io.io_registers[SERIAL_CONTROL_INDEX] & 0x7f;
            self.io.interrupt_flags.set(SERIAL_INTERRUPT_MASK);
        }
    }

    /// Samples the selected joypad lines; a line that fell from 1 to 0 since
    /// the last sample requests the joypad interrupt.
    fn poll_joypad_interrupt(&mut self)
        ensures
            ({
                let current = spec_joypad_read(old(self).io.joypad.packed, old(self).io.io_registers@[0]) & 0x0f;
                let falling = old(self).last_joypad & !current;
                *final(self) == CpuThread {
                    last_joypad: current,
                    io: CpuIo {
                        interrupt_flags: InterruptFlags {
                            flags: if falling != 0 {
                                old(self).io.interrupt_flags.flags | JOYPAD_INTERRUPT_MASK
                            } else {
                                old(self).io.interrupt_flags.flags
                            },
                        },
                        ..old(self).io
                    },
                    ..*old(self)
                }
            }),
    {
        let select = self.io.io_registers[0];
        let current = self.io.joypad.read(select) & 0x0f;
        let previous = self.last_joypad;
        self.last_joypad = current;
        let falling_edges = previous & !current;
        if falling_edges != 0 {
            self.io.interrupt_flags.set(JOYPAD_INTERRUPT_MASK);
        }
    }
}

// ---------------------------------------------------------------------------
// Decoding and executing instructions
// ---------------------------------------------------------------------------

/// The opcodes the CPU does not have; executing one faults the core.
pub open spec fn is_illegal_opcode(opcode: u8) -> bool {
    opcode == 0xd3 || opcode == 0xdb || opcode == 0xdd || opcode == 0xe3 || opcode == 0xe4 || opcode
        == 0xeb || opcode == 0xec || opcode == 0xed || opcode == 0xf4 || opcode == 0xfc || opcode
        == 0xfd
}

fn is_illegal(opcode: u8) -> (illegal: bool)
    ensures
        illegal == is_illegal_opcode(opcode),
{
    opcode == 0xd3 || opcode == 0xdb || opcode == 0xdd || opcode == 0xe3 || opcode == 0xe4 || opcode
        == 0xeb || opcode == 0xec || opcode == 0xed || opcode == 0xf4 || opcode == 0xfc || opcode
        == 0xfd
}

/// The least number of cycles an opcode takes (a conditional branch counted
/// as not taken; an opcode the CPU does not have counts none).
pub open spec fn spec_opcode_cycles(opcode: u8) -> u8 {
    if (0x02 <= opcode <= 0x03) || opcode == 0x06 || (0x09 <= opcode <= 0x0b) ||
        opcode == 0x0e || (0x12 <= opcode <= 0x13) || opcode == 0x16 ||
        (0x19 <= opcode <= 0x1b) || opcode == 0x1e || opcode == 0x20 ||
        (0x22 <= opcode <= 0x23) || opcode == 0x26 || (0x28 <= opcode <= 0x2b) ||
        opcode == 0x2e || opcode == 0x30 || (0x32 <= opcode <= 0x33) ||
        (0x38 <= opcode <= 0x3b) || opcode == 0x3e || opcode == 0x46 || opcode == 0x4e ||
        opcode == 0x56 || opcode == 0x5e || opcode == 0x66 || opcode == 0x6e ||
        (0x70 <= opcode <= 0x75) || opcode == 0x77 || opcode == 0x7e || opcode == 0x86 ||
        opcode == 0x8e || opcode == 0x96 || opcode == 0x9e || opcode == 0xa6 ||
        opcode == 0xae || opcode == 0xb6 || opcode == 0xbe || opcode == 0xc0 ||
        opcode == 0xc6 || opcode == 0xc8 || opcode == 0xce || opcode == 0xd0 ||
        opcode == 0xd6 || opcode == 0xd8 || opcode == 0xde || opcode == 0xe2 ||
        opcode == 0xe6 || opcode == 0xee || opcode == 0xf2 || opcode == 0xf6 ||
        opcode == 0xf9 || opcode == 0xfe {
        8
    } else if opcode == 0x01 || opcode == 0x11 || opcode == 0x18 || opcode == 0x21 ||
        opcode == 0x31 || (0x34 <= opcode <= 0x36) || (0xc1 <= opcode <= 0xc2) ||
        opcode == 0xc4 || opcode == 0xca || opcode == 0xcc || (0xd1 <= opcode <= 0xd2) ||
        opcode == 0xd4 || opcode == 0xda || opcode == 0xdc || (0xe0 <= opcode <= 0xe1) ||
        (0xf0 <= opcode <= 0xf1) || opcode == 0xf8 {
        12
    } else if opcode == 0xc3 || opcode == 0xc5 || opcode == 0xc7 || opcode == 0xc9 ||
        opcode == 0xcf || opcode == 0xd5 || opcode == 0xd7 || opcode == 0xd9 ||
        opcode == 0xdf || opcode == 0xe5 || (0xe7 <= opcode <= 0xe8) || opcode == 0xea ||
        opcode == 0xef || opcode == 0xf5 || opcode == 0xf7 || opcode == 0xfa ||
        opcode == 0xff {
        16
    } else if opcode == 0x08 {
        20
    } else if opcode == 0xcd {
        24
    } else if is_illegal_opcode(opcode) {
        0
    } else {
        4
    }
}

fn opcode_cycles(opcode: u8) -> (cycles: u8)
    ensures
        cycles == spec_opcode_cycles(opcode),
{
    if (0x02 <= opcode && opcode <= 0x03) || opcode == 0x06 ||
        (0x09 <= opcode && opcode <= 0x0b) || opcode == 0x0e ||
        (0x12 <= opcode && opcode <= 0x13) || opcode == 0x16 ||
        (0x19 <= opcode && opcode <= 0x1b) || opcode == 0x1e || opcode == 0x20 ||
        (0x22 <= opcode && opcode <= 0x23) || opcode == 0x26 ||
        (0x28 <= opcode && opcode <= 0x2b) || opcode == 0x2e || opcode == 0x30 ||
        (0x32 <= opcode && opcode <= 0x33) || (0x38 <= opcode && opcode <= 0x3b) ||
        opcode == 0x3e || opcode == 0x46 || opcode == 0x4e || opcode == 0x56 ||
        opcode == 0x5e || opcode == 0x66 || opcode == 0x6e ||
        (0x70 <= opcode && opcode <= 0x75) || opcode == 0x77 || opcode == 0x7e ||
        opcode == 0x86 || opcode == 0x8e || opcode == 0x96 || opcode == 0x9e ||
        opcode == 0xa6 || opcode == 0xae || opcode == 0xb6 || opcode == 0xbe ||
        opcode == 0xc0 || opcode == 0xc6 || opcode == 0xc8 || opcode == 0xce ||
        opcode == 0xd0 || opcode == 0xd6 || opcode == 0xd8 || opcode == 0xde ||
        opcode == 0xe2 || opcode == 0xe6 || opcode == 0xee || opcode == 0xf2 ||
        opcode == 0xf6 || opcode == 0xf9 || opcode == 0xfe {
        8
    } else if opcode == 0x01 || opcode == 0x11 || opcode == 0x18 || opcode == 0x21 ||
        opcode == 0x31 || (0x34 <= opcode && opcode <= 0x36) ||
        (0xc1 <= opcode && opcode <= 0xc2) || opcode == 0xc4 || opcode == 0xca ||
        opcode == 0xcc || (0xd1 <= opcode && opcode <= 0xd2) || opcode == 0xd4 ||
        opcode == 0xda || opcode == 0xdc || (0xe0 <= opcode && opcode <= 0xe1) ||
        (0xf0 <= opcode && opcode <= 0xf1) || opcode == 0xf8 {
        12
    } else if opcode == 0xc3 || opcode == 0xc5 || opcode == 0xc7 || opcode == 0xc9 ||
        opcode == 0xcf || opcode == 0xd5 || opcode == 0xd7 || opcode == 0xd9 ||
        opcode == 0xdf || opcode == 0xe5 || (0xe7 <= opcode && opcode <= 0xe8) ||
        opcode == 0xea || opcode == 0xef || opcode == 0xf5 || opcode == 0xf7 ||
        opcode == 0xfa || opcode == 0xff {
        16
    } else if opcode == 0x08 {
        20
    } else if opcode == 0xcd {
        24
    } else if is_illegal(opcode) {
        0
    } else {
        4
    }
}

/// The fields of an opcode: bits 5-3, bits 2-0, bits 5-4.
pub proof fn lemma_opcode_fields(opcode: u8)
    ensures
        (opcode >> 3) & 0x07 == (opcode / 8) % 8,
        opcode & 0x07 == opcode % 8,
        (opcode >> 4) & 0x03 == (opcode / 16) % 4,
        (opcode >> 3) & 0x03 == (opcode / 8) % 4,
        opcode >> 6 == opcode / 64,
        opcode & 0x0f == opcode % 16,
        opcode >= 0xc0 && opcode & 0x07 == 7 ==> opcode & 0x38 == opcode - 0xc7,
{
    assert({
        &&& (opcode >> 3) & 0x07 == (opcode / 8) % 8
        &&& opcode & 0x07 == opcode % 8
        &&& (opcode >> 4) & 0x03 == (opcode / 16) % 4
        &&& (opcode >> 3) & 0x03 == (opcode / 8) % 4
        &&& opcode >> 6 == opcode / 64
        &&& opcode & 0x0f == opcode % 16
        &&& (opcode >= 0xc0 && opcode & 0x07 == 7 ==> opcode & 0x38 == opcode - 0xc7)
    }) by (bit_vector);
}

/// The registers after an opcode that touches neither memory nor the
/// interrupt state, executed once it has been fetched; `None` for any other
/// opcode. Index 6 of the 8-bit operands names (HL) in memory.
pub open spec fn register_step(r: CpuRegisters, opcode: u8) -> Option<CpuRegisters> {
    let y = ((opcode / 8) % 8) as u8;
    let z = (opcode % 8) as u8;
    let p = ((opcode / 16) % 4) as u8;
    if opcode == 0x00 {
        Some(r)
    } else if opcode < 0x40 && opcode % 16 == 3 {
        Some(with_r16(r, p, ((r16(r, p) + 1) % 65536) as u16))
    } else if opcode < 0x40 && opcode % 16 == 11 {
        Some(with_r16(r, p, ((r16(r, p) + 65535) % 65536) as u16))
    } else if opcode < 0x40 && opcode % 8 == 4 && y != 6 {
        let v = r8(r, y);
        let r1 = with_r8(r, y, ((v + 1) % 256) as u8);
        Some(CpuRegisters { af: af_inc_flags(r1.af, v), ..r1 })
    } else if opcode < 0x40 && opcode % 8 == 5 && y != 6 {
        let v = r8(r, y);
        let r1 = with_r8(r, y, ((v + 255) % 256) as u8);
        Some(CpuRegisters { af: af_dec_flags(r1.af, v), ..r1 })
    } else if opcode == 0x07 {
        Some(CpuRegisters { af: af_rotate_left(r.af, false), ..r })
    } else if opcode == 0x17 {
        Some(CpuRegisters { af: af_rotate_left(r.af, true), ..r })
    } else if opcode == 0x0f {
        Some(CpuRegisters { af: af_rotate_right(r.af, false), ..r })
    } else if opcode == 0x1f {
        Some(CpuRegisters { af: af_rotate_right(r.af, true), ..r })
    } else if opcode < 0x40 && opcode % 16 == 9 {
        let v = r16(r, p);
        Some(
            CpuRegisters {
                hl: ((r.hl + v) % 65536) as u16,
                af: join(
                    hi(r.af),
                    flag_bits(
                        flag_set(r.af, FLAG_Z),
                        false,
                        r.hl % 4096 + v % 4096 > 4095,
                        r.hl + v > 65535,
                    ),
                ),
                ..r
            },
        )
    } else if opcode == 0x27 {
        Some(CpuRegisters { af: af_daa(r.af), ..r })
    } else if opcode == 0x2f {
        Some(
            CpuRegisters {
                af: join(
                    (255 - hi(r.af)) as u8,
                    flag_bits(flag_set(r.af, FLAG_Z), true, true, flag_set(r.af, FLAG_C)),
                ),
                ..r
            },
        )
    } else if opcode == 0x37 {
        Some(
            CpuRegisters {
                af: join(hi(r.af), flag_bits(flag_set(r.af, FLAG_Z), false, false, true)),
                ..r
            },
        )
    } else if opcode == 0x3f {
        Some(
            CpuRegisters {
                af: join(
                    hi(r.af),
                    flag_bits(flag_set(r.af, FLAG_Z), false, false, !flag_set(r.af, FLAG_C)),
                ),
                ..r
            },
        )
    } else if 0x40 <= opcode < 0x80 && opcode != 0x76 && y != 6 && z != 6 {
        Some(with_r8(r, y, r8(r, z)))
    } else if 0x80 <= opcode < 0xc0 && z != 6 {
        Some(CpuRegisters { af: af_alu(r.af, y, r8(r, z)), ..r })
    } else if opcode == 0xe9 {
        Some(CpuRegisters { pc: r.hl, ..r })
    } else if opcode == 0xf9 {
        Some(CpuRegisters { sp: r.hl, ..r })
    } else {
        None
    }
}

/// RST: a call to the fixed address in bits 5-3.
pub open spec fn is_rst(opcode: u8) -> bool {
    opcode >= 0xc0 && opcode % 8 == 7
}

/// PUSH of BC, DE, HL or AF.
pub open spec fn is_push(opcode: u8) -> bool {
    opcode >= 0xc0 && opcode % 16 == 5
}

/// `r` with PC moved on by `n`.
pub open spec fn pc_plus(r: CpuRegisters, n: int) -> CpuRegisters {
    CpuRegisters { pc: ((r.pc + n) % 65536) as u16, ..r }
}

/// `r` with SP moved by `n`.
pub open spec fn sp_plus(r: CpuRegisters, n: int) -> CpuRegisters {
    CpuRegisters { sp: ((r.sp + n) % 65536) as u16, ..r }
}

/// Where JR with offset `e` lands from the registers `r` of its opcode
/// fetch: past the offset byte, then `e` on.
pub open spec fn jr_target(r: CpuRegisters, e: i8) -> u16 {
    ((pc_plus(r, 1).pc + offset_bits(e)) % 65536) as u16
}

/// ADD SP,e (0xE8) or LD HL,SP+e (0xF8) from the registers `r` of the opcode
/// fetch: SP plus `e` into SP or HL, Z and N cleared, H and C from the low
/// nibble and byte of the addition.
pub open spec fn sp_offset_step(r: CpuRegisters, opcode: u8, e: i8) -> CpuRegisters {
    let sum = ((r.sp + offset_bits(e)) % 65536) as u16;
    let moved = pc_plus(r, 1);
    let flags = join(
        hi(r.af),
        flag_bits(false, false, r.sp % 16 + offset_bits(e) % 16 > 15, r.sp % 256 + offset_bits(e) % 256 > 255),
    );
    if opcode == 0xe8 {
        CpuRegisters { sp: sum, af: flags, ..moved }
    } else {
        CpuRegisters { hl: sum, af: flags, ..moved }
    }
}

/// The address 0xFF00 + `offset` of the high page.
pub open spec fn high_page(offset: u8) -> u16 {
    (0xff00 + offset) as u16
}

/// A conditional opcode's condition (NZ, Z, NC, C from bits 4-3) holds.
pub open spec fn taken(r: CpuRegisters, opcode: u8) -> bool {
    spec_condition(r.af, ((opcode / 8) % 4) as u8)
}

/// The accesses and registers of an opcode that touches memory or reads
/// operands after it, once fetched: the accesses it appends to the trace, in
/// order, and the registers it leaves, in terms of the bytes it read (which
/// the bus decides).
pub open spec fn operand_step(old: CpuThread, new: CpuThread, opcode: u8) -> bool {
    if opcode < 0x40 {
        low_operand_step(old, new, opcode)
    } else if opcode < 0x80 {
        load_operand_step(old, new, opcode)
    } else if opcode < 0xc0 {
        alu_operand_step(old, new, opcode)
    } else if opcode < 0xe0 {
        flow_operand_step(old, new, opcode)
    } else {
        high_operand_step(old, new, opcode)
    }
}

/// `operand_step` for the opcodes 0x00-0x3F.
pub open spec fn low_operand_step(old: CpuThread, new: CpuThread, opcode: u8) -> bool {
    let r = old.registers;
    let t = old.trace@;
    let y = ((opcode / 8) % 8) as u8;
    let z = (opcode % 8) as u8;
    let p = ((opcode / 16) % 4) as u8;
    let pc1 = addr_plus(r.pc, 1);
    let pc2 = addr_plus(r.pc, 2);
    let a = hi(r.af);
    &&& (opcode < 0x40 && z == 6 && y != 6 ==> exists|v: u8|
        #![trigger rd(r.pc, v)]
        new.trace@ == t.push(rd(r.pc, v)) && new.registers == with_r8(pc_plus(r, 1), y, v))
    &&& (opcode == 0x36 ==> exists|v: u8|
        #![trigger rd(r.pc, v)]
        new.trace@ == t.push(rd(r.pc, v)).push(wr(r.hl, v)) && new.registers == pc_plus(r, 1))
    &&& (opcode == 0x34 ==> exists|v: u8|
        #![trigger rd(r.hl, v)]
        new.trace@ == t.push(rd(r.hl, v)).push(wr(r.hl, ((v + 1) % 256) as u8)) && new.registers
            == CpuRegisters { af: af_inc_flags(r.af, v), ..r })
    &&& (opcode == 0x35 ==> exists|v: u8|
        #![trigger rd(r.hl, v)]
        new.trace@ == t.push(rd(r.hl, v)).push(wr(r.hl, ((v + 255) % 256) as u8)) && new.registers
            == CpuRegisters { af: af_dec_flags(r.af, v), ..r })
    &&& (opcode < 0x40 && opcode % 16 == 1 ==> exists|l: u8, h: u8|
        #![trigger join(h, l)]
        new.trace@ == t.push(rd(r.pc, l)).push(rd(pc1, h)) && new.registers == with_r16(
            pc_plus(r, 2),
            p,
            join(h, l),
        ))
    &&& (opcode == 0x08 ==> exists|l: u8, h: u8|
        #![trigger join(h, l)]
        new.trace@ == t.push(rd(r.pc, l)).push(rd(pc1, h)).push(wr(join(h, l), lo(r.sp))).push(
            wr(addr_plus(join(h, l), 1), hi(r.sp)),
        ) && new.registers == pc_plus(r, 2))
    &&& (opcode == 0x02 ==> new.trace@ == t.push(wr(r.bc, a)) && new.registers == r)
    &&& (opcode == 0x12 ==> new.trace@ == t.push(wr(r.de, a)) && new.registers == r)
    &&& (opcode == 0x22 ==> new.trace@ == t.push(wr(r.hl, a)) && new.registers == CpuRegisters {
        hl: addr_plus(r.hl, 1),
        ..r
    })
    &&& (opcode == 0x32 ==> new.trace@ == t.push(wr(r.hl, a)) && new.registers == CpuRegisters {
        hl: addr_plus(r.hl, 65535),
        ..r
    })
    &&& (opcode == 0x0a ==> exists|v: u8|
        #![trigger rd(r.bc, v)]
        new.trace@ == t.push(rd(r.bc, v)) && new.registers == with_r8(r, 7, v))
    &&& (opcode == 0x1a ==> exists|v: u8|
        #![trigger rd(r.de, v)]
        new.trace@ == t.push(rd(r.de, v)) && new.registers == with_r8(r, 7, v))
    &&& (opcode == 0x2a ==> exists|v: u8|
        #![trigger rd(r.hl, v)]
        new.trace@ == t.push(rd(r.hl, v)) && new.registers == with_r8(
            CpuRegisters { hl: addr_plus(r.hl, 1), ..r },
            7,
            v,
        ))
    &&& (opcode == 0x3a ==> exists|v: u8|
        #![trigger rd(r.hl, v)]
        new.trace@ == t.push(rd(r.hl, v)) && new.registers == with_r8(
            CpuRegisters { hl: addr_plus(r.hl, 65535), ..r },
            7,
            v,
        ))
    &&& (opcode == 0x10 ==> exists|v: u8|
        #![trigger rd(r.pc, v)]
        new.trace@ == t.push(rd(r.pc, v)) && new.registers == pc_plus(r, 1))
    &&& ((opcode == 0x18 || opcode == 0x20 || opcode == 0x28 || opcode == 0x30 || opcode == 0x38) ==> exists|
        v: u8,
    |
        #![trigger rd(r.pc, v)]
        new.trace@ == t.push(rd(r.pc, v)) && new.registers == if opcode == 0x18 || taken(r, opcode) {
            CpuRegisters { pc: jr_target(r, v as i8), ..r }
        } else {
            pc_plus(r, 1)
        })
    &&& ((opcode == 0x02 || opcode == 0x12 || opcode == 0x22 || opcode == 0x32) ==> {
        let address = if opcode == 0x02 { r.bc } else if opcode == 0x12 { r.de } else { r.hl };
        old.io.owns_write(address) ==> old.io.write_post(&new.io, address, a)
    })
}

/// `operand_step` for the opcodes 0x40-0x7F.
pub open spec fn load_operand_step(old: CpuThread, new: CpuThread, opcode: u8) -> bool {
    let r = old.registers;
    let t = old.trace@;
    let y = ((opcode / 8) % 8) as u8;
    let z = (opcode % 8) as u8;
    let p = ((opcode / 16) % 4) as u8;
    let pc1 = addr_plus(r.pc, 1);
    let pc2 = addr_plus(r.pc, 2);
    let a = hi(r.af);
    &&& (0x40 <= opcode < 0x80 && z == 6 && y != 6 ==> exists|v: u8|
        #![trigger rd(r.hl, v)]
        new.trace@ == t.push(rd(r.hl, v)) && new.registers == with_r8(r, y, v))
    &&& (0x70 <= opcode < 0x78 && opcode != 0x76 ==> new.trace@ == t.push(wr(r.hl, r8(r, z)))
        && new.registers == r && (old.io.owns_write(r.hl) ==> old.io.write_post(&new.io, r.hl, r8(r, z))))
}

/// `operand_step` for the opcodes 0x80-0xBF.
pub open spec fn alu_operand_step(old: CpuThread, new: CpuThread, opcode: u8) -> bool {
    let r = old.registers;
    let t = old.trace@;
    let y = ((opcode / 8) % 8) as u8;
    let z = (opcode % 8) as u8;
    let p = ((opcode / 16) % 4) as u8;
    let pc1 = addr_plus(r.pc, 1);
    let pc2 = addr_plus(r.pc, 2);
    let a = hi(r.af);
    &&& (0x80 <= opcode < 0xc0 && z == 6 ==> exists|v: u8|
        #![trigger rd(r.hl, v)]
        new.trace@ == t.push(rd(r.hl, v)) && new.registers == CpuRegisters { af: af_alu(r.af, y, v), ..r })
}

/// `operand_step` for the opcodes 0xC0-0xDF.
pub open spec fn flow_operand_step(old: CpuThread, new: CpuThread, opcode: u8) -> bool {
    let r = old.registers;
    let t = old.trace@;
    let y = ((opcode / 8) % 8) as u8;
    let z = (opcode % 8) as u8;
    let p = ((opcode / 16) % 4) as u8;
    let pc1 = addr_plus(r.pc, 1);
    let pc2 = addr_plus(r.pc, 2);
    let a = hi(r.af);
    &&& (opcode >= 0xc0 && z == 6 ==> exists|v: u8|
        #![trigger rd(r.pc, v)]
        new.trace@ == t.push(rd(r.pc, v)) && new.registers == CpuRegisters {
            af: af_alu(r.af, y, v),
            ..pc_plus(r, 1)
        })
    &&& (opcode >= 0xc0 && opcode % 16 == 1 ==> exists|l: u8, h: u8|
        #![trigger join(h, l)]
        new.trace@ == t.push(rd(r.sp, l)).push(rd(addr_plus(r.sp, 1), h)) && new.registers
            == with_stack_r16(sp_plus(r, 2), p, join(h, l)))
    &&& (is_push(opcode) ==> new.trace@ == t.push(wr(addr_plus(r.sp, 65535), hi(stack_r16(r, p)))).push(
        wr(addr_plus(r.sp, 65534), lo(stack_r16(r, p))),
    ))
    &&& (is_rst(opcode) ==> new.trace@ == t.push(wr(addr_plus(r.sp, 65535), hi(r.pc))).push(
        wr(addr_plus(r.sp, 65534), lo(r.pc)),
    ))
    &&& ((opcode == 0xc3 || opcode == 0xc2 || opcode == 0xca || opcode == 0xd2 || opcode == 0xda) ==> exists|
        l: u8,
        h: u8,
    |
        #![trigger join(h, l)]
        new.trace@ == t.push(rd(r.pc, l)).push(rd(pc1, h)) && new.registers == if opcode == 0xc3 || taken(
            r,
            opcode,
        ) {
            CpuRegisters { pc: join(h, l), ..r }
        } else {
            pc_plus(r, 2)
        })
    &&& ((opcode == 0xcd || opcode == 0xc4 || opcode == 0xcc || opcode == 0xd4 || opcode == 0xdc) ==> exists|
        l: u8,
        h: u8,
    |
        #![trigger join(h, l)]
        if opcode == 0xcd || taken(r, opcode) {
            &&& new.trace@ == t.push(rd(r.pc, l)).push(rd(pc1, h)).push(wr(addr_plus(r.sp, 65535), hi(pc2))).push(
                wr(addr_plus(r.sp, 65534), lo(pc2)),
            )
            &&& new.registers == CpuRegisters { pc: join(h, l), sp: addr_plus(r.sp, 65534), ..r }
        } else {
            new.trace@ == t.push(rd(r.pc, l)).push(rd(pc1, h)) && new.registers == pc_plus(r, 2)
        })
    &&& ((opcode == 0xc9 || opcode == 0xd9 || ((opcode == 0xc0 || opcode == 0xc8 || opcode == 0xd0
        || opcode == 0xd8) && taken(r, opcode))) ==> exists|l: u8, h: u8|
        #![trigger join(h, l)]
        new.trace@ == t.push(rd(r.sp, l)).push(rd(addr_plus(r.sp, 1), h)) && new.registers == CpuRegisters {
            pc: join(h, l),
            sp: addr_plus(r.sp, 2),
            ..r
        })
    &&& ((opcode == 0xc0 || opcode == 0xc8 || opcode == 0xd0 || opcode == 0xd8) && !taken(r, opcode) ==> new.trace@
        == t && new.registers == r)
}

/// `operand_step` for the opcodes 0xE0-0xFF.
pub open spec fn high_operand_step(old: CpuThread, new: CpuThread, opcode: u8) -> bool {
    let r = old.registers;
    let t = old.trace@;
    let y = ((opcode / 8) % 8) as u8;
    let z = (opcode % 8) as u8;
    let p = ((opcode / 16) % 4) as u8;
    let pc1 = addr_plus(r.pc, 1);
    let pc2 = addr_plus(r.pc, 2);
    let a = hi(r.af);
    &&& (opcode == 0xe2 && old.io.owns_write(high_page(lo(r.bc))) ==> old.io.write_post(
        &new.io,
        high_page(lo(r.bc)),
        a,
    ))
    &&& (opcode >= 0xc0 && z == 6 ==> exists|v: u8|
        #![trigger rd(r.pc, v)]
        new.trace@ == t.push(rd(r.pc, v)) && new.registers == CpuRegisters {
            af: af_alu(r.af, y, v),
            ..pc_plus(r, 1)
        })
    &&& (opcode >= 0xc0 && opcode % 16 == 1 ==> exists|l: u8, h: u8|
        #![trigger join(h, l)]
        new.trace@ == t.push(rd(r.sp, l)).push(rd(addr_plus(r.sp, 1), h)) && new.registers
            == with_stack_r16(sp_plus(r, 2), p, join(h, l)))
    &&& (is_push(opcode) ==> new.trace@ == t.push(wr(addr_plus(r.sp, 65535), hi(stack_r16(r, p)))).push(
        wr(addr_plus(r.sp, 65534), lo(stack_r16(r, p))),
    ))
    &&& (is_rst(opcode) ==> new.trace@ == t.push(wr(addr_plus(r.sp, 65535), hi(r.pc))).push(
        wr(addr_plus(r.sp, 65534), lo(r.pc)),
    ))
    &&& (opcode == 0xe0 ==> exists|v: u8|
        #![trigger rd(r.pc, v)]
        new.trace@ == t.push(rd(r.pc, v)).push(wr(high_page(v), a)) && new.registers == pc_plus(r, 1))
    &&& (opcode == 0xe2 ==> new.trace@ == t.push(wr(high_page(lo(r.bc)), a)) && new.registers == r)
    &&& (opcode == 0xea ==> exists|l: u8, h: u8|
        #![trigger join(h, l)]
        new.trace@ == t.push(rd(r.pc, l)).push(rd(pc1, h)).push(wr(join(h, l), a)) && new.registers == pc_plus(
            r,
            2,
        ))
    &&& (opcode == 0xf0 ==> exists|v: u8, w: u8|
        #![trigger rd(r.pc, v), rd(high_page(v), w)]
        new.trace@ == t.push(rd(r.pc, v)).push(rd(high_page(v), w)) && new.registers == with_r8(
            pc_plus(r, 1),
            7,
            w,
        ))
    &&& (opcode == 0xf2 ==> exists|w: u8|
        #![trigger rd(high_page(lo(r.bc)), w)]
        new.trace@ == t.push(rd(high_page(lo(r.bc)), w)) && new.registers == with_r8(r, 7, w))
    &&& (opcode == 0xfa ==> exists|l: u8, h: u8, w: u8|
        #![trigger join(h, l), rd(join(h, l), w)]
        new.trace@ == t.push(rd(r.pc, l)).push(rd(pc1, h)).push(rd(join(h, l), w)) && new.registers
            == with_r8(pc_plus(r, 2), 7, w))
    &&& ((opcode == 0xe8 || opcode == 0xf8) ==> exists|v: u8|
        #![trigger rd(r.pc, v)]
        new.trace@ == t.push(rd(r.pc, v)) && new.registers == sp_offset_step(r, opcode, v as i8))
}

/// What executing the fetched `opcode` took `old` to: `new`. Opcodes
/// without memory traffic are stated exactly; for the others, which
/// registers and state they may touch.
pub open spec fn execute_post(old: CpuThread, new: CpuThread, opcode: u8) -> bool {
    &&& new.bus == old.bus
    &&& new.boot_target_mode == old.boot_target_mode
    &&& new.last_joypad == old.last_joypad
    &&& new.last_step_pc == old.last_step_pc
    &&& new.steps == old.steps
    &&& new.shutdown == old.shutdown
    &&& old.cycles <= new.cycles <= old.cycles + 32
    &&& (old.registers.af & 0x0f == 0 ==> new.registers.af & 0x0f == 0)
    &&& ((is_illegal_opcode(opcode) || opcode == 0xcb) ==> new == CpuThread {
        state: CoreState::Faulted { opcode, prefixed: false },
        ..old
    })
    &&& (register_step(old.registers, opcode) matches Some(r) ==> new == old.with_registers(r))
    &&& (opcode == 0xf3 ==> new == CpuThread {
        interrupt_master_enable: false,
        ime_enable_delay: 0,
        ..old
    })
    &&& (opcode == 0xfb ==> new == CpuThread { ime_enable_delay: 2, ..old })
    &&& (opcode == 0x76 ==> new == (if !old.interrupt_master_enable
        && old.spec_pending_interrupts() != 0 {
        CpuThread { halt_bug: true, ..old }
    } else {
        CpuThread { state: CoreState::Halted, ..old }
    }))
    &&& (opcode == 0xd9 ==> new.interrupt_master_enable && new.ime_enable_delay == 0)
    &&& (opcode != 0xf3 && opcode != 0xfb && opcode != 0xd9 ==> new.interrupt_master_enable
        == old.interrupt_master_enable && new.ime_enable_delay == old.ime_enable_delay)
    &&& (!(is_illegal_opcode(opcode) || opcode == 0xcb || opcode == 0x76 || opcode == 0x10)
        ==> new.state == old.state)
    &&& (opcode == 0x10 ==> new.state == old.state || new.state == CoreState::Stopped)
    &&& (is_rst(opcode) ==> new.registers == CpuRegisters {
        pc: (opcode - 0xc7) as u16,
        sp: ((old.registers.sp + 65534) % 65536) as u16,
        ..old.registers
    })
    &&& (is_push(opcode) ==> new.registers == CpuRegisters {
        sp: ((old.registers.sp + 65534) % 65536) as u16,
        ..old.registers
    })
    &&& operand_step(old, new, opcode)
}

impl CpuThread {
    /// Executes the fetched `opcode`. Opcodes the CPU does not have fault
    /// the core; 0xCB arrives here only if the caller did not take the
    /// prefix, and faults too.
    fn execute_opcode<B: CpuBus>(&mut self, bus: &mut B, opcode: u8)
        requires
            !old(self).halt_bug,
            old(self).cycles + 32 <= u64::MAX,
        ensures
            execute_post(*old(self), *final(self), opcode),
    {
        proof {
            lemma_register_layout();
        }
        if is_illegal(opcode) || opcode == 0xcb {
            self.state = CoreState::Faulted { opcode, prefixed: false };
            return;
        }
        if opcode < 0x40 {
            self.execute_block_low(bus, opcode);
        } else if opcode < 0x80 {
            self.execute_load(bus, opcode);
        } else if opcode < 0xc0 {
            self.execute_alu_operand(bus, opcode);
        } else {
            self.execute_block_high(bus, opcode);
        }
    }

    /// 0x40-0x7F: LD between 8-bit operands, and HALT at 0x76.
    #[verifier::rlimit(100)]
    #[verifier::spinoff_prover]
    fn execute_load<B: CpuBus>(&mut self, bus: &mut B, opcode: u8)
        requires
            !old(self).halt_bug,
            0x40 <= opcode < 0x80,
            old(self).cycles + 32 <= u64::MAX,
        ensures
            execute_post(*old(self), *final(self), opcode),
    {
        proof {
            lemma_register_layout();
            lemma_opcode_fields(opcode);
        }
        if opcode == 0x76 {
            if !self.interrupt_master_enable && self.pending_interrupts() != 0 {
                self.halt_bug = true;
            } else {
                self.state = CoreState::Halted;
            }
        } else {
            let source = opcode & 0x07;
            let target = (opcode >> 3) & 0x07;
            let value = self.read_r8(bus, source);
            self.write_r8(bus, target, value);
        }
    }

    /// 0x80-0xBF: the ALU operation in bits 5-3 on A and the 8-bit operand
    /// in bits 2-0.
    fn execute_alu_operand<B: CpuBus>(&mut self, bus: &mut B, opcode: u8)
        requires
            !old(self).halt_bug,
            0x80 <= opcode < 0xc0,
            old(self).cycles + 32 <= u64::MAX,
        ensures
            execute_post(*old(self), *final(self), opcode),
    {
        proof {
            lemma_register_layout();
            lemma_opcode_fields(opcode);
        }
        let value = self.read_r8(bus, opcode & 0x07);
        self.alu((opcode >> 3) & 0x07, value);
    }
}

impl CpuThread {
    /// 0x00-0x3F: loads of immediates, 16-bit increments and additions, 8-bit
    /// increments, rotations of A, relative jumps, and the flag operations.
    #[verifier::rlimit(100)]
    #[verifier::spinoff_prover]
    fn execute_block_low<B: CpuBus>(&mut self, bus: &mut B, opcode: u8)
        requires
            !old(self).halt_bug,
            opcode < 0x40,
            old(self).cycles + 32 <= u64::MAX,
        ensures
            execute_post(*old(self), *final(self), opcode),
    {
        proof {
            lemma_register_layout();
            lemma_opcode_fields(opcode);
        }
        let low = opcode & 0x0f;
        proof {
        }
        if low == 0x01 || low == 0x03 || low == 0x0b {
            self.execute_word_op(bus, opcode);
        } else if low == 0x09 {
            self.execute_add_hl(opcode);
        } else if opcode == 0x08 || opcode == 0x10 {
            self.execute_low_immediate(bus, opcode);
        } else if low == 0x04 || low == 0x0c || low == 0x05 || low == 0x0d || low == 0x06 || low
            == 0x0e {
            self.execute_byte_op(bus, opcode);
        } else if opcode == 0x00 {
        } else if opcode == 0x02 || opcode == 0x12 || opcode == 0x22 || opcode == 0x32 || opcode == 0x0a
            || opcode == 0x1a || opcode == 0x2a || opcode == 0x3a {
            self.execute_indirect_a(bus, opcode);
        } else if opcode == 0x07 {
            self.rotate_a_left(false);
        } else if opcode == 0x17 {
            self.rotate_a_left(true);
        } else if opcode == 0x0f {
            self.rotate_a_right(false);
        } else if opcode == 0x1f {
            self.rotate_a_right(true);
        } else if opcode == 0x18 || opcode == 0x20 || opcode == 0x28 || opcode == 0x30 || opcode == 0x38 {
            self.execute_relative_jump(bus, opcode);
        } else if opcode == 0x27 {
            self.decimal_adjust_accumulator();
        } else if opcode == 0x2f {
            let a = self.a();
            let zero = self.flag(FLAG_Z);
            let carry = self.flag(FLAG_C);
            proof {
                lemma_byte_arith(a);
            }
            self.set_a(!a);
            self.set_flags(zero, true, true, carry);
        } else if opcode == 0x37 {
            let zero = self.flag(FLAG_Z);
            self.set_flags(zero, false, false, true);
        } else {
            let zero = self.flag(FLAG_Z);
            let carry = !self.flag(FLAG_C);
            self.set_flags(zero, false, false, carry);
        }
    }
}

impl CpuThread {
    /// 0xC0-0xFF: returns, pops and pushes, jumps and calls, ALU operations
    /// on immediates, restarts, the high-page loads, SP arithmetic, DI and EI.
    #[verifier::rlimit(80)]
    #[verifier::spinoff_prover]
    fn execute_block_high<B: CpuBus>(&mut self, bus: &mut B, opcode: u8)
        requires
            !old(self).halt_bug,
            0xc0 <= opcode,
            !is_illegal_opcode(opcode),
            opcode != 0xcb,
            old(self).cycles + 32 <= u64::MAX,
        ensures
            execute_post(*old(self), *final(self), opcode),
    {
        proof {
            lemma_register_layout();
            lemma_opcode_fields(opcode);
        }
        let low = opcode & 0x0f;
        if ((opcode == 0xc0 || opcode == 0xc8 || opcode == 0xd0 || opcode == 0xd8) || (low == 0x01) || (opcode == 0xc2 || opcode == 0xca || opcode == 0xd2 || opcode == 0xda) || (opcode == 0xc3) || (opcode == 0xc4 || opcode == 0xcc || opcode == 0xd4 || opcode == 0xdc) || (low == 0x05) || (low == 0x07 || low == 0x0f) || (opcode == 0xc9) || (opcode == 0xcd) || (opcode == 0xd9)) {
            self.execute_control_flow(bus, opcode);
        } else if low == 0x06 || low == 0x0e {
            self.execute_immediate_alu(bus, opcode);
        } else if opcode == 0xe0 || opcode == 0xe2 || opcode == 0xea {
            self.execute_high_store(bus, opcode);
        } else if opcode == 0xf0 || opcode == 0xf2 || opcode == 0xfa {
            self.execute_high_load(bus, opcode);
        } else if opcode == 0xe8 || opcode == 0xf8 {
            self.execute_sp_offset(bus, opcode);
        } else if opcode == 0xe9 {
            self.registers.pc = self.registers.hl;
        } else if opcode == 0xf3 {
            self.interrupt_master_enable = false;
            self.ime_enable_delay = 0;
        } else if opcode == 0xf9 {
            self.registers.sp = self.registers.hl;
        } else {
            self.ime_enable_delay = 2;
        }
    }

    /// The ALU operation in bits 5-3 on A and the byte after the opcode.
    #[verifier::rlimit(60)]
    #[verifier::spinoff_prover]
    fn execute_immediate_alu<B: CpuBus>(&mut self, bus: &mut B, opcode: u8)
        requires
            !old(self).halt_bug,
            0xc0 <= opcode,
            opcode % 8 == 6,
            old(self).cycles + 32 <= u64::MAX,
        ensures
            execute_post(*old(self), *final(self), opcode),
    {
        proof {
            lemma_register_layout();
            lemma_opcode_fields(opcode);
        }
        let value = self.fetch_byte(bus);
        self.alu((opcode >> 3) & 0x07, value);
        assert(self.trace@ == old(self).trace@.push(rd(old(self).registers.pc, value)));
        assert(self.registers == CpuRegisters {
            af: af_alu(old(self).registers.af, (opcode >> 3) & 0x07, value),
            ..pc_plus(old(self).registers, 1)
        });
    }

    /// LDH (n),A, LD (C),A and LD (nn),A.
    #[verifier::rlimit(60)]
    #[verifier::spinoff_prover]
    fn execute_high_store<B: CpuBus>(&mut self, bus: &mut B, opcode: u8)
        requires
            !old(self).halt_bug,
            opcode == 0xe0 || opcode == 0xe2 || opcode == 0xea,
            old(self).cycles + 32 <= u64::MAX,
        ensures
            execute_post(*old(self), *final(self), opcode),
    {
        proof {
            lemma_register_layout();
            lemma_opcode_fields(opcode);
        }
        if opcode == 0xe0 {
            let offset = self.fetch_byte(bus);
            let a = self.a();
            proof {
                lemma_high_page(offset);
            }
            self.write_byte(bus, 0xff00 | (offset as u16), a);
            assert(self.trace@ == old(self).trace@.push(rd(old(self).registers.pc, offset)).push(
                wr(high_page(offset), a),
            ));
        } else if opcode == 0xe2 {
            let c = self.c();
            proof {
                lemma_high_page(c);
            }
            let a = self.a();
            self.write_byte(bus, 0xff00 | (c as u16), a);
        } else {
            let address = self.fetch_word(bus);
            let a = self.a();
            self.write_byte(bus, address, a);
            assert(join(hi(address), lo(address)) == address);
        }
    }

    /// LDH A,(n), LD A,(C) and LD A,(nn).
    #[verifier::rlimit(60)]
    #[verifier::spinoff_prover]
    fn execute_high_load<B: CpuBus>(&mut self, bus: &mut B, opcode: u8)
        requires
            !old(self).halt_bug,
            opcode == 0xf0 || opcode == 0xf2 || opcode == 0xfa,
            old(self).cycles + 32 <= u64::MAX,
        ensures
            execute_post(*old(self), *final(self), opcode),
    {
        proof {
            lemma_register_layout();
            lemma_opcode_fields(opcode);
        }
        if opcode == 0xf0 {
            let offset = self.fetch_byte(bus);
            proof {
                lemma_high_page(offset);
            }
            let value = self.read_byte(bus, 0xff00 | (offset as u16));
            self.set_a(value);
            assert(self.trace@ == old(self).trace@.push(rd(old(self).registers.pc, offset)).push(
                rd(high_page(offset), value),
            ));
        } else if opcode == 0xf2 {
            let c = self.c();
            proof {
                lemma_high_page(c);
            }
            let value = self.read_byte(bus, 0xff00 | (c as u16));
            self.set_a(value);
            assert(self.trace@ == old(self).trace@.push(rd(high_page(lo(old(self).registers.bc)), value)));
        } else {
            let address = self.fetch_word(bus);
            let value = self.read_byte(bus, address);
            self.set_a(value);
            assert(join(hi(address), lo(address)) == address);
            assert(self.trace@ == old(self).trace@.push(rd(old(self).registers.pc, lo(address))).push(
                rd(addr_plus(old(self).registers.pc, 1), hi(address)),
            ).push(rd(join(hi(address), lo(address)), value)));
        }
    }

    /// LD (BC),A, LD (DE),A, LD (HL+),A, LD (HL-),A and the loads of A from
    /// the same addresses.
    #[verifier::rlimit(60)]
    #[verifier::spinoff_prover]
    fn execute_indirect_a<B: CpuBus>(&mut self, bus: &mut B, opcode: u8)
        requires
            !old(self).halt_bug,
            opcode == 0x02 || opcode == 0x12 || opcode == 0x22 || opcode == 0x32 || opcode == 0x0a
                || opcode == 0x1a || opcode == 0x2a || opcode == 0x3a,
            old(self).cycles + 32 <= u64::MAX,
        ensures
            execute_post(*old(self), *final(self), opcode),
    {
        if opcode == 0x02 || opcode == 0x12 || opcode == 0x22 || opcode == 0x32 {
            self.execute_store_a(bus, opcode);
        } else {
            self.execute_load_a(bus, opcode);
        }
    }

    /// LD (BC),A, LD (DE),A, LD (HL+),A and LD (HL-),A.
    #[verifier::rlimit(60)]
    #[verifier::spinoff_prover]
    fn execute_store_a<B: CpuBus>(&mut self, bus: &mut B, opcode: u8)
        requires
            !old(self).halt_bug,
            opcode == 0x02 || opcode == 0x12 || opcode == 0x22 || opcode == 0x32,
            old(self).cycles + 32 <= u64::MAX,
        ensures
            execute_post(*old(self), *final(self), opcode),
    {
        proof {
            lemma_register_layout();
            lemma_opcode_fields(opcode);
        }
        {
            let address = if opcode == 0x02 {
                self.registers.bc
            } else if opcode == 0x12 {
                self.registers.de
            } else {
                self.registers.hl
            };
            let a = self.a();
            self.write_byte(bus, address, a);
            if opcode == 0x22 {
                self.registers.hl = self.registers.hl.wrapping_add(1);
            } else if opcode == 0x32 {
                self.registers.hl = self.registers.hl.wrapping_sub(1);
            }
        }
    }

    /// LD A,(BC), LD A,(DE), LD A,(HL+) and LD A,(HL-).
    #[verifier::rlimit(100)]
    #[verifier::spinoff_prover]
    fn execute_load_a<B: CpuBus>(&mut self, bus: &mut B, opcode: u8)
        requires
            !old(self).halt_bug,
            opcode == 0x0a || opcode == 0x1a || opcode == 0x2a || opcode == 0x3a,
            old(self).cycles + 32 <= u64::MAX,
        ensures
            execute_post(*old(self), *final(self), opcode),
    {
        proof {
            lemma_register_layout();
            lemma_opcode_fields(opcode);
        }
        let r = self.registers;
        if opcode == 0x0a || opcode == 0x1a {
            let address = if opcode == 0x0a {
                self.registers.bc
            } else {
                self.registers.de
            };
            let value = self.read_byte(bus, address);
            self.set_a(value);
            assert(self.trace@ == old(self).trace@.push(rd(address, value)) && self.registers == with_r8(r, 7, value));
        } else {
            let value = self.read_byte(bus, self.registers.hl);
            if opcode == 0x2a {
                self.registers.hl = self.registers.hl.wrapping_add(1);
            } else {
                self.registers.hl = self.registers.hl.wrapping_sub(1);
            }
            self.set_a(value);
            assert(self.trace@ == old(self).trace@.push(rd(r.hl, value)));
            assert(opcode == 0x2a ==> self.registers == with_r8(CpuRegisters { hl: addr_plus(r.hl, 1), ..r }, 7, value));
            assert(opcode == 0x3a ==> self.registers == with_r8(CpuRegisters { hl: addr_plus(r.hl, 65535), ..r }, 7, value));
        }
    }

    /// LD (nn),SP and STOP.
    #[verifier::rlimit(60)]
    #[verifier::spinoff_prover]
    fn execute_low_immediate<B: CpuBus>(&mut self, bus: &mut B, opcode: u8)
        requires
            !old(self).halt_bug,
            opcode == 0x08 || opcode == 0x10,
            old(self).cycles + 32 <= u64::MAX,
        ensures
            execute_post(*old(self), *final(self), opcode),
    {
        proof {
            lemma_register_layout();
            lemma_opcode_fields(opcode);
        }
        if opcode == 0x08 {
            let address = self.fetch_word(bus);
            self.write_word(bus, address, self.registers.sp);
            assert(join(hi(address), lo(address)) == address);
        } else {
            let v = self.fetch_byte(bus);
            assert(self.trace@ == old(self).trace@.push(rd(old(self).registers.pc, v)));
            if self.io.speed_switch_armed && self.io.hardware_mode != HardwareMode::DmgCompatibility {
                self.io.double_speed = !self.io.double_speed;
                self.io.speed_switch_armed = false;
            } else {
                self.state = CoreState::Stopped;
            }
        }
    }

    /// JR e and JR cc,e: the offset byte is fetched, and where the jump is
    /// taken PC moves by it (four cycles more for a taken conditional jump).
    #[verifier::rlimit(60)]
    #[verifier::spinoff_prover]
    fn execute_relative_jump<B: CpuBus>(&mut self, bus: &mut B, opcode: u8)
        requires
            !old(self).halt_bug,
            opcode == 0x18 || opcode == 0x20 || opcode == 0x28 || opcode == 0x30 || opcode == 0x38,
            old(self).cycles + 32 <= u64::MAX,
        ensures
            execute_post(*old(self), *final(self), opcode),
    {
        proof {
            lemma_register_layout();
            lemma_opcode_fields(opcode);
        }
        let offset = self.fetch_byte(bus) as i8;
        if opcode == 0x18 {
            let (target, _, _) = add_signed_offset(self.registers.pc, offset);
            self.registers.pc = target;
            assert(!old(self).halt_bug ==> self.registers == CpuRegisters {
                pc: jr_target(old(self).registers, offset),
                ..old(self).registers
            });
        } else if self.condition((opcode >> 3) & 0x03) {
            let (target, _, _) = add_signed_offset(self.registers.pc, offset);
            self.registers.pc = target;
            self.cycles = self.cycles + 4;
            assert(!old(self).halt_bug ==> self.registers == CpuRegisters {
                pc: jr_target(old(self).registers, offset),
                ..old(self).registers
            });
        }
    }

    /// ADD SP,e and LD HL,SP+e.
    #[verifier::rlimit(60)]
    #[verifier::spinoff_prover]
    fn execute_sp_offset<B: CpuBus>(&mut self, bus: &mut B, opcode: u8)
        requires
            !old(self).halt_bug,
            opcode == 0xe8 || opcode == 0xf8,
            old(self).cycles + 32 <= u64::MAX,
        ensures
            execute_post(*old(self), *final(self), opcode),
    {
        proof {
            lemma_register_layout();
            lemma_opcode_fields(opcode);
        }
        let offset = self.fetch_byte(bus) as i8;
        let (result, half_carry, carry) = add_signed_offset(self.registers.sp, offset);
        if opcode == 0xe8 {
            self.registers.sp = result;
        } else {
            self.registers.hl = result;
        }
        self.set_flags(false, false, half_carry, carry);
        assert(!old(self).halt_bug ==> self.registers == sp_offset_step(old(self).registers, opcode, offset));
    }

    /// The control flow and stack opcodes of 0xC0-0xFF: RET, POP, JP, CALL,
    /// PUSH, RST and RETI.
    #[verifier::rlimit(80)]
    #[verifier::spinoff_prover]
    fn execute_control_flow<B: CpuBus>(&mut self, bus: &mut B, opcode: u8)
        requires
            !old(self).halt_bug,
            0xc0 <= opcode,
            !is_illegal_opcode(opcode),
            opcode != 0xcb,
            opcode % 16 == 1 || opcode % 16 == 5 || opcode % 8 == 7 || opcode == 0xc0 || opcode == 0xc8
                || opcode == 0xd0 || opcode == 0xd8 || opcode == 0xc2 || opcode == 0xca || opcode == 0xd2
                || opcode == 0xda || opcode == 0xc3 || opcode == 0xc4 || opcode == 0xcc || opcode == 0xd4
                || opcode == 0xdc || opcode == 0xc9 || opcode == 0xcd || opcode == 0xd9,
            old(self).cycles + 32 <= u64::MAX,
        ensures
            execute_post(*old(self), *final(self), opcode),
    {
        proof {
            lemma_register_layout();
            lemma_opcode_fields(opcode);
        }
        let low = opcode & 0x0f;
        if opcode == 0xc0 || opcode == 0xc8 || opcode == 0xd0 || opcode == 0xd8 || opcode == 0xc9 || opcode == 0xd9 {
            self.execute_return(bus, opcode);
        } else if opcode == 0xc2 || opcode == 0xca || opcode == 0xd2 || opcode == 0xda || opcode == 0xc3 {
            self.execute_jump(bus, opcode);
        } else if opcode == 0xc4 || opcode == 0xcc || opcode == 0xd4 || opcode == 0xdc || opcode == 0xcd {
            self.execute_call(bus, opcode);
        } else {
            self.execute_stack_op(bus, opcode);
        }
    }

    /// RET, RET cc and RETI.
    #[verifier::rlimit(60)]
    #[verifier::spinoff_prover]
    fn execute_return<B: CpuBus>(&mut self, bus: &mut B, opcode: u8)
        requires
            !old(self).halt_bug,
            opcode == 0xc0 || opcode == 0xc8 || opcode == 0xd0 || opcode == 0xd8 || opcode == 0xc9 || opcode == 0xd9,
            old(self).cycles + 32 <= u64::MAX,
        ensures
            execute_post(*old(self), *final(self), opcode),
    {
        proof {
            lemma_register_layout();
            lemma_opcode_fields(opcode);
        }
        if opcode == 0xc9 || opcode == 0xd9 || self.condition((opcode >> 3) & 0x03) {
            let target = self.pop_word(bus);
            self.registers.pc = target;
            if opcode == 0xd9 {
                self.interrupt_master_enable = true;
                self.ime_enable_delay = 0;
            } else if opcode != 0xc9 {
                self.cycles = self.cycles + 8;
            }
            assert(join(hi(target), lo(target)) == target);
        }
    }

    /// JP nn and JP cc,nn.
    #[verifier::rlimit(60)]
    #[verifier::spinoff_prover]
    fn execute_jump<B: CpuBus>(&mut self, bus: &mut B, opcode: u8)
        requires
            !old(self).halt_bug,
            opcode == 0xc2 || opcode == 0xca || opcode == 0xd2 || opcode == 0xda || opcode == 0xc3,
            old(self).cycles + 32 <= u64::MAX,
        ensures
            execute_post(*old(self), *final(self), opcode),
    {
        proof {
            lemma_register_layout();
            lemma_opcode_fields(opcode);
        }
        let address = self.fetch_word(bus);
        assert(join(hi(address), lo(address)) == address);
        if opcode == 0xc3 {
            self.registers.pc = address;
        } else if self.condition((opcode >> 3) & 0x03) {
            self.registers.pc = address;
            self.cycles = self.cycles + 4;
        }
    }

    /// CALL nn and CALL cc,nn.
    #[verifier::rlimit(60)]
    #[verifier::spinoff_prover]
    fn execute_call<B: CpuBus>(&mut self, bus: &mut B, opcode: u8)
        requires
            !old(self).halt_bug,
            opcode == 0xc4 || opcode == 0xcc || opcode == 0xd4 || opcode == 0xdc || opcode == 0xcd,
            old(self).cycles + 32 <= u64::MAX,
        ensures
            execute_post(*old(self), *final(self), opcode),
    {
        proof {
            lemma_register_layout();
            lemma_opcode_fields(opcode);
        }
        let address = self.fetch_word(bus);
        assert(join(hi(address), lo(address)) == address);
        if opcode == 0xcd || self.condition((opcode >> 3) & 0x03) {
            self.push_word(bus, self.registers.pc);
            self.registers.pc = address;
            if opcode != 0xcd {
                self.cycles = self.cycles + 4;
            }
        }
    }

    /// POP, PUSH and RST.
    #[verifier::rlimit(60)]
    #[verifier::spinoff_prover]
    fn execute_stack_op<B: CpuBus>(&mut self, bus: &mut B, opcode: u8)
        requires
            !old(self).halt_bug,
            opcode >= 0xc0 && (opcode % 16 == 1 || opcode % 16 == 5 || opcode % 8 == 7),
            old(self).cycles + 32 <= u64::MAX,
        ensures
            execute_post(*old(self), *final(self), opcode),
    {
        proof {
            lemma_register_layout();
            lemma_opcode_fields(opcode);
        }
        let low = opcode & 0x0f;
        if low == 0x01 {
            let value = self.pop_word(bus);
            self.set_stack_reg((opcode >> 4) & 0x03, value);
            assert(join(hi(value), lo(value)) == value);
            assert(with_stack_r16(sp_plus(old(self).registers, 2), (opcode >> 4) & 0x03, join(hi(value), lo(value)))
                == self.registers);
        } else if low == 0x05 {
            let value = self.stack_reg((opcode >> 4) & 0x03);
            self.push_word(bus, value);
        } else {
            self.push_word(bus, self.registers.pc);
            self.registers.pc = (opcode as u16) & 0x0038;
        }
    }
}

impl CpuThread {
    /// The 16-bit loads and steps of 0x00-0x3F: LD rr,nn, INC rr, DEC rr.
    #[verifier::rlimit(100)]
    #[verifier::spinoff_prover]
    fn execute_word_op<B: CpuBus>(&mut self, bus: &mut B, opcode: u8)
        requires
            !old(self).halt_bug,
            opcode < 0x40,
            opcode % 16 == 1 || opcode % 16 == 3 || opcode % 16 == 11,
            old(self).cycles + 32 <= u64::MAX,
        ensures
            execute_post(*old(self), *final(self), opcode),
    {
        if opcode % 16 == 1 {
            self.execute_load_word(bus, opcode);
        } else {
            self.execute_step_word(opcode);
        }
    }

    /// INC rr and DEC rr.
    #[verifier::rlimit(60)]
    #[verifier::spinoff_prover]
    fn execute_step_word(&mut self, opcode: u8)
        requires
            opcode < 0x40,
            opcode % 16 == 3 || opcode % 16 == 11,
        ensures
            execute_post(*old(self), *final(self), opcode),
    {
        proof {
            lemma_register_layout();
            lemma_opcode_fields(opcode);
            lemma_register_step_low(old(self).registers, opcode);
        }
        let register = (opcode >> 4) & 0x03;
        if opcode & 0x0f == 0x03 {
            let value = self.reg16(register).wrapping_add(1);
            self.set_reg16(register, value);
        } else {
            let value = self.reg16(register).wrapping_sub(1);
            self.set_reg16(register, value);
        }
    }

    /// LD rr,nn.
    #[verifier::rlimit(60)]
    #[verifier::spinoff_prover]
    fn execute_load_word<B: CpuBus>(&mut self, bus: &mut B, opcode: u8)
        requires
            !old(self).halt_bug,
            opcode < 0x40,
            opcode % 16 == 1,
            old(self).cycles + 32 <= u64::MAX,
        ensures
            execute_post(*old(self), *final(self), opcode),
    {
        proof {
            lemma_register_layout();
            lemma_opcode_fields(opcode);
            lemma_register_step_low(old(self).registers, opcode);
        }
        let register = (opcode >> 4) & 0x03;
        let value = self.fetch_word(bus);
        self.set_reg16(register, value);
        assert(join(hi(value), lo(value)) == value);
        assert(with_r16(pc_plus(old(self).registers, 2), register, join(hi(value), lo(value)))
            == self.registers);
    }

    /// ADD HL,rr: N cleared, H from bit 11, C from bit 15; Z kept.
    #[verifier::rlimit(60)]
    #[verifier::spinoff_prover]
    fn execute_add_hl(&mut self, opcode: u8)
        requires
            !old(self).halt_bug,
            opcode < 0x40,
            opcode % 16 == 9,
        ensures
            execute_post(*old(self), *final(self), opcode),
    {
        proof {
            lemma_register_layout();
            lemma_opcode_fields(opcode);
            lemma_register_step_low(old(self).registers, opcode);
        }
        let value = self.reg16((opcode >> 4) & 0x03);
        let hl = self.registers.hl;
        let result = hl.wrapping_add(value);
        let zero = self.flag(FLAG_Z);
        proof {
            lemma_word_arith(hl);
            lemma_word_arith(value);
        }
        self.set_flags(
            zero,
            false,
            ((hl & 0x0fff) + (value & 0x0fff)) > 0x0fff,
            (hl as u32 + value as u32) > 0xffff,
        );
        self.registers.hl = result;
    }

    /// The 8-bit operations of 0x00-0x3F: INC r, DEC r and LD r,n.
    fn execute_byte_op<B: CpuBus>(&mut self, bus: &mut B, opcode: u8)
        requires
            !old(self).halt_bug,
            opcode < 0x40,
            opcode % 8 == 4 || opcode % 8 == 5 || opcode % 8 == 6,
            old(self).cycles + 32 <= u64::MAX,
        ensures
            execute_post(*old(self), *final(self), opcode),
    {
        proof {
            lemma_opcode_fields(opcode);
        }
        let column = opcode & 0x07;
        if column == 0x04 {
            self.execute_inc8(bus, opcode);
        } else if column == 0x05 {
            self.execute_dec8(bus, opcode);
        } else {
            proof {
                lemma_register_layout();
                lemma_register_step_low(old(self).registers, opcode);
            }
            let value = self.fetch_byte(bus);
            self.write_r8(bus, (opcode >> 3) & 0x07, value);
            assert(!old(self).halt_bug && (opcode >> 3) & 0x07 != 6 ==> with_r8(
                pc_plus(old(self).registers, 1),
                (opcode >> 3) & 0x07,
                value,
            ) == self.registers);
        }
    }

    /// INC r and INC (HL).
    #[verifier::rlimit(60)]
    #[verifier::spinoff_prover]
    fn execute_inc8<B: CpuBus>(&mut self, bus: &mut B, opcode: u8)
        requires
            !old(self).halt_bug,
            opcode < 0x40,
            opcode % 8 == 4,
            old(self).cycles + 32 <= u64::MAX,
        ensures
            execute_post(*old(self), *final(self), opcode),
    {
        proof {
            lemma_register_layout();
            lemma_opcode_fields(opcode);
            lemma_register_step_low(old(self).registers, opcode);
        }
        let register = (opcode >> 3) & 0x07;
        let value = self.read_r8(bus, register);
        let result = value.wrapping_add(1);
        self.write_r8(bus, register, result);
        self.set_inc_flags(result, value);
    }

    /// DEC r and DEC (HL).
    #[verifier::rlimit(60)]
    #[verifier::spinoff_prover]
    fn execute_dec8<B: CpuBus>(&mut self, bus: &mut B, opcode: u8)
        requires
            !old(self).halt_bug,
            opcode < 0x40,
            opcode % 8 == 5,
            old(self).cycles + 32 <= u64::MAX,
        ensures
            execute_post(*old(self), *final(self), opcode),
    {
        proof {
            lemma_register_layout();
            lemma_opcode_fields(opcode);
            lemma_register_step_low(old(self).registers, opcode);
        }
        let register = (opcode >> 3) & 0x07;
        let value = self.read_r8(bus, register);
        let result = value.wrapping_sub(1);
        self.write_r8(bus, register, result);
        self.set_dec_flags(result, value);
    }
}

/// Which of the register-only opcodes of 0x00-0x3F an opcode is, with
/// its effect, one group at a time.
pub proof fn lemma_register_step_low(r: CpuRegisters, opcode: u8)
    requires
        opcode < 0x40,
    ensures
        ({
            let y = ((opcode / 8) % 8) as u8;
            let p = ((opcode / 16) % 4) as u8;
            &&& (opcode % 16 == 3 ==> register_step(r, opcode) == Some(
                with_r16(r, p, ((r16(r, p) + 1) % 65536) as u16),
            ))
            &&& (opcode % 16 == 11 ==> register_step(r, opcode) == Some(
                with_r16(r, p, ((r16(r, p) + 65535) % 65536) as u16),
            ))
            &&& (opcode % 8 == 4 && y != 6 ==> register_step(r, opcode) == Some(
                CpuRegisters {
                    af: af_inc_flags(with_r8(r, y, ((r8(r, y) + 1) % 256) as u8).af, r8(r, y)),
                    ..with_r8(r, y, ((r8(r, y) + 1) % 256) as u8)
                },
            ))
            &&& (opcode % 8 == 5 && y != 6 ==> register_step(r, opcode) == Some(
                CpuRegisters {
                    af: af_dec_flags(with_r8(r, y, ((r8(r, y) + 255) % 256) as u8).af, r8(r, y)),
                    ..with_r8(r, y, ((r8(r, y) + 255) % 256) as u8)
                },
            ))
            &&& (opcode % 16 == 9 ==> register_step(r, opcode) == Some(
                CpuRegisters {
                    hl: ((r.hl + r16(r, p)) % 65536) as u16,
                    af: join(
                        hi(r.af),
                        flag_bits(
                            flag_set(r.af, FLAG_Z),
                            false,
                            r.hl % 4096 + r16(r, p) % 4096 > 4095,
                            r.hl + r16(r, p) > 65535,
                        ),
                    ),
                    ..r
                },
            ))
            &&& ((opcode % 16 == 1 || opcode == 0x08 || (opcode % 8 == 6) || ((opcode % 8 == 4
                || opcode % 8 == 5) && y == 6)) ==> register_step(r, opcode) is None)
        }),
{
}

// ---------------------------------------------------------------------------
// The 0xCB-prefixed instructions
// ---------------------------------------------------------------------------

/// The rotate or shift `kind` (RLC, RRC, RL, RR, SLA, SRA, SWAP, SRL for 0-7)
/// of `v` with the carry flag `carry`: the result and the carry out.
pub open spec fn spec_cb_shift(kind: u8, v: u8, carry: bool) -> (u8, bool) {
    if kind == 0 {
        (((2 * v) % 256 + v / 128) as u8, v >= 128)
    } else if kind == 1 {
        ((v / 2 + (v % 2) * 128) as u8, v % 2 == 1)
    } else if kind == 2 {
        (((2 * v) % 256 + (if carry { 1int } else { 0 })) as u8, v >= 128)
    } else if kind == 3 {
        ((v / 2 + (if carry { 128int } else { 0 })) as u8, v % 2 == 1)
    } else if kind == 4 {
        (((2 * v) % 256) as u8, v >= 128)
    } else if kind == 5 {
        ((v / 2 + (v / 128) * 128) as u8, v % 2 == 1)
    } else if kind == 6 {
        (((v % 16) * 16 + v / 16) as u8, false)
    } else {
        ((v / 2) as u8, v % 2 == 1)
    }
}

fn cb_shift(kind: u8, value: u8, carry: bool) -> (r: (u8, bool))
    requires
        kind < 8,
    ensures
        r == spec_cb_shift(kind, value, carry),
{
    let carry_bit: u8 = if carry { 1 } else { 0 };
    proof {
        lemma_byte_arith(value);
    }
    if kind == 0 {
        ((value << 1) | (value >> 7), value & 0x80 != 0)
    } else if kind == 1 {
        ((value >> 1) | (value << 7), value & 0x01 != 0)
    } else if kind == 2 {
        ((value << 1) | carry_bit, value & 0x80 != 0)
    } else if kind == 3 {
        let carry_in: u8 = if carry { 0x80 } else { 0x00 };
        ((value >> 1) | carry_in, value & 0x01 != 0)
    } else if kind == 4 {
        (value << 1, value & 0x80 != 0)
    } else if kind == 5 {
        ((value >> 1) | (value & 0x80), value & 0x01 != 0)
    } else if kind == 6 {
        ((value << 4) | (value >> 4), false)
    } else {
        (value >> 1, value & 0x01 != 0)
    }
}

/// The registers after the 0xCB-prefixed `opcode` on a register operand
/// (bits 2-0 not 6): rotates and shifts, BIT, RES, SET.
pub open spec fn cb_step(r: CpuRegisters, opcode: u8) -> CpuRegisters {
    let z = (opcode % 8) as u8;
    let b = ((opcode / 8) % 8) as u8;
    let v = r8(r, z);
    let group = opcode / 64;
    if group == 0 {
        let (result, carry) = spec_cb_shift(b, v, flag_set(r.af, FLAG_C));
        let r1 = with_r8(r, z, result);
        CpuRegisters { af: join(hi(r1.af), flag_bits(result == 0, false, false, carry)), ..r1 }
    } else if group == 1 {
        CpuRegisters {
            af: join(
                hi(r.af),
                flag_bits(v & (1u8 << b) == 0, false, true, flag_set(r.af, FLAG_C)),
            ),
            ..r
        }
    } else if group == 2 {
        with_r8(r, z, v & !(1u8 << b))
    } else {
        with_r8(r, z, v | (1u8 << b))
    }
}

/// A 0xCB-prefixed `opcode` on (HL) that read `v`, with AF `af`: the new AF,
/// and the byte written back (none for BIT).
pub open spec fn cb_hl_step(af: u16, opcode: u8, v: u8) -> (u16, Option<u8>) {
    let b = ((opcode / 8) % 8) as u8;
    let group = opcode / 64;
    if group == 0 {
        let (result, carry) = spec_cb_shift(b, v, flag_set(af, FLAG_C));
        (join(hi(af), flag_bits(result == 0, false, false, carry)), Some(result))
    } else if group == 1 {
        (join(hi(af), flag_bits(v & (1u8 << b) == 0, false, true, flag_set(af, FLAG_C))), None)
    } else if group == 2 {
        (af, Some(v & !(1u8 << b)))
    } else {
        (af, Some(v | (1u8 << b)))
    }
}

/// The accesses and registers of a 0xCB-prefixed `opcode` on (HL) from `old`
/// to `new`: the read of (HL), the write back where there is one.
pub open spec fn cb_hl_post(old: CpuThread, new: CpuThread, opcode: u8) -> bool {
    exists|v: u8|
        #![trigger rd(old.registers.hl, v)]
        new.registers == CpuRegisters { af: cb_hl_step(old.registers.af, opcode, v).0, ..old.registers }
            && new.trace@ == match cb_hl_step(old.registers.af, opcode, v).1 {
            Some(w) => old.trace@.push(rd(old.registers.hl, v)).push(wr(old.registers.hl, w)),
            None => old.trace@.push(rd(old.registers.hl, v)),
        }
}

impl CpuThread {
    /// Executes the 0xCB-prefixed `opcode`.
    #[verifier::rlimit(60)]
    #[verifier::spinoff_prover]
    fn execute_cb_opcode<B: CpuBus>(&mut self, bus: &mut B, opcode: u8)
        requires
            !old(self).halt_bug,
            old(self).cycles + 8 <= u64::MAX,
        ensures
            opcode % 8 != 6 ==> *final(self) == old(self).with_registers(cb_step(old(self).registers, opcode)),
            opcode % 8 == 6 ==> {
                &&& old(self).frame(final(self))
                &&& final(self).halt_bug == old(self).halt_bug
                &&& final(self).registers == (CpuRegisters { af: final(self).registers.af, ..old(self).registers })
                &&& old(self).cycles <= final(self).cycles <= old(self).cycles + 8
                &&& cb_hl_post(*old(self), *final(self), opcode)
            },
            old(self).registers.af & 0x0f == 0 ==> final(self).registers.af & 0x0f == 0,
    {
        proof {
            lemma_register_layout();
            lemma_opcode_fields(opcode);
        }
        let register = opcode & 0x07;
        let value = self.read_r8(bus, register);
        let group = opcode >> 6;
        let bit = (opcode >> 3) & 0x07;
        if group == 0 {
            let (result, carry) = cb_shift(bit, value, self.flag(FLAG_C));
            self.write_r8(bus, register, result);
            self.set_flags(result == 0, false, false, carry);
        } else if group == 1 {
            let carry = self.flag(FLAG_C);
            self.set_flags(value & (1u8 << bit) == 0, false, true, carry);
        } else if group == 2 {
            self.write_r8(bus, register, value & !(1u8 << bit));
        } else {
            self.write_r8(bus, register, value | (1u8 << bit));
        }
    }
}

// ---------------------------------------------------------------------------
// One step of the core
// ---------------------------------------------------------------------------

/// `new` is `old` having taken the first of its pending interrupts: PC
/// pushed, a jump to the handler, IME off, the core running.
pub open spec fn served_interrupt(old: CpuThread, new: CpuThread) -> bool {
    first_interrupt(old.spec_pending_interrupts()) matches Some(bit) && {
        &&& new.registers == (CpuRegisters {
            pc: interrupt_vector(bit),
            sp: ((old.registers.sp + 65534) % 65536) as u16,
            ..old.registers
        })
        &&& !new.interrupt_master_enable
        &&& new.ime_enable_delay == 0
        &&& new.state == CoreState::Running
        &&& new.cycles == old.cycles + 8
        &&& new.steps == ((old.steps + 1) % 0x1_0000_0000_0000_0000) as u64
        &&& new.last_step_pc == old.last_step_pc
        &&& new.bus == old.bus
        &&& new.trace@ == old.trace@.push(wr(addr_plus(old.registers.sp, 65535), hi(old.registers.pc))).push(
            wr(addr_plus(old.registers.sp, 65534), lo(old.registers.pc)),
        )
    }
}

proof fn lemma_pending_has_first(requested: u8)
    requires
        requested & 0x1f != 0,
    ensures
        first_interrupt(requested & 0x1f) is Some,
{
    let pending = requested & 0x1f;
    assert(requested & 0x1f != 0 ==> ((requested & 0x1f) & 0x01 != 0 || (requested & 0x1f) & 0x02
        != 0 || (requested & 0x1f) & 0x04 != 0 || (requested & 0x1f) & 0x08 != 0 || (requested
        & 0x1f) & 0x10 != 0)) by (bit_vector);
}

/// `new` is `old` after the fetch of `byte` at PC (`fetch_byte`): PC moves
/// past it (unless the halt bug holds it), four cycles pass, and a byte the
/// CPU itself holds is the one fetched.
pub open spec fn fetched(old: CpuThread, new: CpuThread, byte: u8) -> bool {
    &&& old.frame(&new)
    &&& new.registers == (CpuRegisters {
        pc: if old.halt_bug {
            old.registers.pc
        } else {
            ((old.registers.pc + 1) % 65536) as u16
        },
        ..old.registers
    })
    &&& !new.halt_bug
    &&& new.cycles == old.cycles + 4
    &&& (old.io.spec_read(old.registers.pc) matches Some(v) ==> byte == v && new.io == old.io)
    &&& new.trace@ == old.trace@.push(rd(old.registers.pc, byte))
}

/// What the 0xCB-prefixed `opcode`, once fetched, took `old` to
/// (`execute_cb_opcode`).
pub open spec fn cb_post(old: CpuThread, new: CpuThread, opcode: u8) -> bool {
    &&& (opcode % 8 != 6 ==> new == old.with_registers(cb_step(old.registers, opcode)))
    &&& (opcode % 8 == 6 ==> {
        &&& old.frame(&new)
        &&& new.halt_bug == old.halt_bug
        &&& new.registers == (CpuRegisters { af: new.registers.af, ..old.registers })
        &&& old.cycles <= new.cycles <= old.cycles + 8
        &&& cb_hl_post(old, new, opcode)
    })
    &&& (old.registers.af & 0x0f == 0 ==> new.registers.af & 0x0f == 0)
}

/// `new` is `old` having fetched `opcode` and executed it: for 0xCB, the
/// second byte is fetched and executed as a prefixed opcode.
pub open spec fn executed_instruction(old: CpuThread, new: CpuThread, opcode: u8) -> bool {
    exists|f: CpuThread|
        #![trigger fetched(old, f, opcode)]
        fetched(old, f, opcode) && (opcode != 0xcb ==> execute_post(f, new, opcode)) && (opcode
            == 0xcb ==> exists|g: CpuThread, prefixed: u8|
            #![trigger fetched(f, g, prefixed)]
            fetched(f, g, prefixed) && cb_post(g, new, prefixed))
}

/// The EI delay counted down by one step (`advance_ime_delay`).
pub open spec fn ime_advanced(c: CpuThread) -> CpuThread {
    if c.ime_enable_delay == 0 {
        c
    } else if c.ime_enable_delay == 1 {
        CpuThread { ime_enable_delay: 0, interrupt_master_enable: true, ..c }
    } else {
        CpuThread { ime_enable_delay: (c.ime_enable_delay - 1) as u8, ..c }
    }
}

/// `new` is `old` with its serial transfer counted down one step; the last
/// step shifts in 0xFF, clears the transfer bit and requests the serial
/// interrupt (`advance_serial_transfer`).
pub open spec fn serial_advanced(old: CpuThread, new: CpuThread) -> bool {
    let n = old.io.serial_transfer_countdown;
    if n == 0 {
        new == old
    } else if n > 1 {
        new == (CpuThread { io: CpuIo { serial_transfer_countdown: (n - 1) as u16, ..old.io }, ..old })
    } else {
        &&& new == (CpuThread {
            io: CpuIo {
                serial_transfer_countdown: 0,
                io_registers: new.io.io_registers,
                interrupt_flags: InterruptFlags {
                    flags: old.io.interrupt_flags.flags | SERIAL_INTERRUPT_MASK,
                },
                ..old.io
            },
            ..old
        })
        &&& new.io.io_registers@ == old.io.io_registers@.update(1, 0xff).update(
            2,
            old.io.io_registers@[2] & 0x7f,
        )
    }
}

/// The joypad lines sampled once (`poll_joypad_interrupt`).
pub open spec fn joypad_polled(c: CpuThread) -> CpuThread {
    let current = spec_joypad_read(c.io.joypad.packed, c.io.io_registers@[0]) & 0x0f;
    let falling = c.last_joypad & !current;
    CpuThread {
        last_joypad: current,
        io: CpuIo {
            interrupt_flags: InterruptFlags {
                flags: if falling != 0 {
                    c.io.interrupt_flags.flags | JOYPAD_INTERRUPT_MASK
                } else {
                    c.io.interrupt_flags.flags
                },
            },
            ..c.io
        },
        ..c
    }
}

/// `new` is what a step ends in once the instruction `opcode`, started at
/// cycle `start_cycles` from `start_pc`, was executed up to `executed`: the cycles made up to the
/// opcode's table count (the clock following), the step counted, the EI
/// delay, the serial transfer and the joypad advanced, and the PC of the
/// instruction recorded.
pub open spec fn finished_step(start_cycles: u64, start_pc: u16, executed: CpuThread, opcode: u8, new: CpuThread) -> bool {
    exists|s: CpuThread|
        #![trigger serial_advanced(ime_advanced(counted_step(start_cycles, executed, opcode)), s)]
        serial_advanced(ime_advanced(counted_step(start_cycles, executed, opcode)), s) && new == (
        CpuThread { last_step_pc: start_pc, ..joypad_polled(s) })
}

/// `executed` with its cycles made up to the table count of `opcode` from
/// `start_cycles` (the clock following) and the step counted.
pub open spec fn counted_step(start_cycles: u64, executed: CpuThread, opcode: u8) -> CpuThread {
    let minimum = start_cycles + spec_opcode_cycles(opcode);
    let padded = if executed.cycles < minimum {
        CpuThread {
            cycles: minimum as u64,
            clock: MasterClock { target_cycle: minimum as u64 },
            ..executed
        }
    } else {
        executed
    };
    CpuThread { steps: ((padded.steps + 1) % 0x1_0000_0000_0000_0000) as u64, ..padded }
}

/// What one step (`step`) took `old` to, and whether it ran: a faulted core
/// stays; a halted or stopped one wakes on a pending interrupt and serves it
/// if IME is on; a running one serves a pending interrupt if IME is on, else
/// fetches and executes one instruction and finishes the step.
pub open spec fn step_post(old: CpuThread, new: CpuThread, ran: bool) -> bool {
    &&& (old.registers.af & 0x0f == 0 ==> new.registers.af & 0x0f == 0)
    &&& (old.cycles <= new.cycles <= old.cycles + 64)
    &&& (old.state is Faulted ==> !ran && new == old)
    &&& ((old.state is Halted || old.state is Stopped) ==> {
            if old.spec_pending_interrupts() == 0 {
                !ran && new == old
            } else if !old.interrupt_master_enable {
                !ran && new == (CpuThread { state: CoreState::Running, ..old })
            } else {
                ran && served_interrupt(old, new)
            }
        })
    &&& (old.state is Running ==> ran && if old.interrupt_master_enable
            && old.spec_pending_interrupts() != 0 {
            served_interrupt(old, new)
        } else {
            &&& new.steps == ((old.steps + 1) % 0x1_0000_0000_0000_0000) as u64
            &&& new.last_step_pc == old.registers.pc
            &&& new.cycles >= old.cycles + 4
            &&& exists|opcode: u8, executed: CpuThread|
                #![trigger executed_instruction(old, executed, opcode)]
                executed_instruction(old, executed, opcode) && finished_step(
                    old.cycles,
                    old.registers.pc,
                    executed,
                    opcode,
                    new,
                )
        })
}

/// `new` is `old` after `n` steps that each ran.
pub open spec fn ran_steps(old: CpuThread, new: CpuThread, n: nat) -> bool
    decreases n,
{
    if n == 0 {
        new == old
    } else {
        exists|mid: CpuThread|
            #![trigger step_post(mid, new, true)]
            ran_steps(old, mid, (n - 1) as nat) && step_post(mid, new, true)
    }
}

/// How a quantum ends from the state `last` its steps reached: a quantum
/// that took no cycle counts four per instruction anyway, and the master
/// clock is set to the count.
pub open spec fn quantum_closed(start_cycles: u64, last: CpuThread) -> CpuThread {
    let cycles = if last.cycles == start_cycles {
        (start_cycles + 4 * INSTRUCTIONS_PER_QUANTUM) as u64
    } else {
        last.cycles
    };
    CpuThread { cycles, clock: MasterClock { target_cycle: cycles }, ..last }
}

impl CpuThread {
    /// Runs one step: a faulted core does nothing; a halted or stopped one
    /// wakes on a pending interrupt (and serves it if IME is on); a running
    /// one serves a pending interrupt if IME is on, else fetches and executes
    /// one instruction, counts at least its table cycles, and then advances
    /// the EI delay, the serial transfer and the joypad line. Returns whether
    /// a step was taken.
    #[verifier::rlimit(60)]
    #[verifier::spinoff_prover]
    pub fn step<B: CpuBus>(&mut self, bus: &mut B) -> (ran: bool)
        requires
            old(self).cycles + 64 <= u64::MAX,
        ensures
            step_post(*old(self), *final(self), ran),
    {
        let current_pc = self.registers.pc;
        let pending_interrupts = self.pending_interrupts();
        proof {
            lemma_register_layout();
            if pending_interrupts != 0 {
                lemma_pending_has_first(self.io.interrupt_enable & self.io.interrupt_flags.flags);
            }
        }
        match self.state {
            CoreState::Faulted { .. } => {
                return false;
            },
            CoreState::Halted | CoreState::Stopped => {
                if pending_interrupts != 0 {
                    self.state = CoreState::Running;
                    if self.interrupt_master_enable {
                        self.service_interrupt(bus, pending_interrupts);
                        self.steps = self.steps.wrapping_add(1);
                        return true;
                    }
                }
                return false;
            },
            CoreState::Running => {},
        }
        if self.interrupt_master_enable && pending_interrupts != 0 {
            self.service_interrupt(bus, pending_interrupts);
            self.steps = self.steps.wrapping_add(1);
            return true;
        }
        let ghost start = *self;
        let cycles_before = self.cycles;
        let opcode = self.fetch_byte(bus);
        let ghost f = *self;
        if opcode == 0xcb {
            let prefixed = self.fetch_byte(bus);
            let ghost g = *self;
            self.execute_cb_opcode(bus, prefixed);
            assert(fetched(f, g, prefixed) && cb_post(g, *self, prefixed));
        } else {
            self.execute_opcode(bus, opcode);
        }
        let ghost executed = *self;
        assert(fetched(start, f, opcode));
        assert(executed_instruction(start, executed, opcode));
        self.finish_instruction(cycles_before, opcode, current_pc);
        assert(finished_step(start.cycles, start.registers.pc, executed, opcode, *self));
        true
    }

    /// The end of a step that ran `opcode` (begun at cycle `cycles_before`
    /// from `current_pc`): the cycles made up to its table count, the step
    /// counted, then the EI delay, the serial transfer and the joypad.
    fn finish_instruction(&mut self, cycles_before: u64, opcode: u8, current_pc: u16)
        requires
            cycles_before + 64 <= u64::MAX,
            old(self).cycles <= cycles_before + 64,
        ensures
            finished_step(cycles_before, current_pc, *old(self), opcode, *final(self)),
            final(self).cycles == if old(self).cycles < cycles_before + spec_opcode_cycles(opcode) {
                cycles_before + spec_opcode_cycles(opcode)
            } else {
                old(self).cycles as int
            },
            final(self).registers == old(self).registers,
            final(self).steps == ((old(self).steps + 1) % 0x1_0000_0000_0000_0000) as u64,
            final(self).last_step_pc == current_pc,
            final(self).state == old(self).state,
    {
        let ghost executed = *self;
        let minimum = cycles_before + opcode_cycles(opcode) as u64;
        if self.cycles < minimum {
            self.cycles = minimum;
            self.clock.advance(self.cycles);
        }
        let ghost padded = *self;
        assert(padded == (if executed.cycles < cycles_before + spec_opcode_cycles(opcode) {
            CpuThread {
                cycles: (cycles_before + spec_opcode_cycles(opcode)) as u64,
                clock: MasterClock { target_cycle: (cycles_before + spec_opcode_cycles(opcode)) as u64 },
                ..executed
            }
        } else {
            executed
        }));
        self.steps = self.steps.wrapping_add(1);
        let ghost counted = *self;
        assert(counted == counted_step(cycles_before, executed, opcode));
        self.advance_ime_delay();
        assert(*self == ime_advanced(counted));
        self.advance_serial_transfer();
        let ghost serialed = *self;
        assert(serial_advanced(ime_advanced(counted), serialed));
        self.poll_joypad_interrupt();
        assert(*self == joypad_polled(serialed));
        self.last_step_pc = current_pc;
        assert(*self == (CpuThread { last_step_pc: current_pc, ..joypad_polled(serialed) }));
        assert(serial_advanced(ime_advanced(counted_step(cycles_before, executed, opcode)), serialed));
    }

    /// One quantum of the CPU's loop: up to `INSTRUCTIONS_PER_QUANTUM` steps,
    /// ending early at a step that does not run. Where the quantum took no
    /// cycle (a halted, stopped or faulted CPU), the count moves on by four
    /// cycles per instruction anyway, so that the other components keep
    /// going. The master clock ends at the CPU's count. Returns the steps run.
    pub fn run_quantum<B: CpuBus>(&mut self, bus: &mut B) -> (steps_run: usize)
        requires
            old(self).cycles + 256 <= u64::MAX,
        ensures
            old(self).cycles < final(self).cycles <= old(self).cycles + 256,
            final(self).clock.target_cycle == final(self).cycles,
            steps_run <= INSTRUCTIONS_PER_QUANTUM,
            old(self).registers.af & 0x0f == 0 ==> final(self).registers.af & 0x0f == 0,
            old(self).state is Faulted ==> steps_run == 0 && *final(self) == (CpuThread {
                cycles: (old(self).cycles + 4 * INSTRUCTIONS_PER_QUANTUM) as u64,
                clock: final(self).clock,
                ..*old(self)
            }),
            exists|last: CpuThread|
                #![trigger ran_steps(*old(self), last, steps_run as nat)]
                ran_steps(*old(self), last, steps_run as nat) && (steps_run == INSTRUCTIONS_PER_QUANTUM
                    ==> *final(self) == quantum_closed(old(self).cycles, last)) && (steps_run
                    < INSTRUCTIONS_PER_QUANTUM ==> exists|stopped: CpuThread|
                    #![trigger step_post(last, stopped, false)]
                    step_post(last, stopped, false) && *final(self) == quantum_closed(
                        old(self).cycles,
                        stopped,
                    )),
    {
        let cycles_before = self.cycles;
        let mut steps_run: usize = 0;
        let ghost mut last = *self;
        while steps_run < INSTRUCTIONS_PER_QUANTUM
            invariant_except_break
                steps_run <= INSTRUCTIONS_PER_QUANTUM,
                cycles_before == old(self).cycles,
                cycles_before <= self.cycles <= cycles_before + 64 * steps_run,
                old(self).cycles + 256 <= u64::MAX,
                old(self).registers.af & 0x0f == 0 ==> self.registers.af & 0x0f == 0,
                old(self).state is Faulted ==> steps_run == 0 && *self == *old(self),
                ran_steps(*old(self), *self, steps_run as nat),
                last == *self,
            ensures
                steps_run <= INSTRUCTIONS_PER_QUANTUM,
                cycles_before == old(self).cycles,
                cycles_before <= self.cycles <= cycles_before + 64 * INSTRUCTIONS_PER_QUANTUM,
                old(self).registers.af & 0x0f == 0 ==> self.registers.af & 0x0f == 0,
                old(self).state is Faulted ==> steps_run == 0 && *self == *old(self),
                ran_steps(*old(self), last, steps_run as nat),
                steps_run == INSTRUCTIONS_PER_QUANTUM ==> *self == last,
                steps_run < INSTRUCTIONS_PER_QUANTUM ==> step_post(last, *self, false),
            decreases INSTRUCTIONS_PER_QUANTUM - steps_run,
        {
            let ghost before = *self;
            if !self.step(bus) {
                assert(step_post(before, *self, false));
                break;
            }
            steps_run = steps_run + 1;
            assert(ran_steps(*old(self), *self, steps_run as nat)) by {
                assert(ran_steps(*old(self), before, (steps_run - 1) as nat));
                assert(step_post(before, *self, true));
            }
            proof {
                last = *self;
            }
        }
        let ghost reached = *self;
        if self.cycles == cycles_before {
            self.cycles = self.cycles + 4 * INSTRUCTIONS_PER_QUANTUM as u64;
        }
        self.clock.advance(self.cycles);
        assert(*self == quantum_closed(cycles_before, reached));
        if steps_run < INSTRUCTIONS_PER_QUANTUM {
            assert(step_post(last, reached, false));
        }
        steps_run
    }

    /// The CPU as `init_state` describes it, running, with IME off, at cycle 0.
    pub fn from_init_state(init_state: CpuInitState, bus: Bus) -> (cpu: Self)
        ensures
            cpu.bus == bus,
            cpu.io.hardware_mode == init_state.hardware_mode,
            cpu.boot_target_mode == init_state.boot_target_mode,
            cpu.registers == init_state.registers,
            cpu.io.io_registers == init_state.io_registers,
            cpu.io.hram == init_state.hram,
            cpu.io.interrupt_flags == init_state.interrupt_flags,
            cpu.io.interrupt_enable == init_state.interrupt_enable,
            cpu.io.joypad == init_state.joypad,
            cpu.io.serial_output == init_state.serial_output,
            !cpu.io.boot_rom_unmapped && !cpu.io.double_speed && !cpu.io.speed_switch_armed,
            cpu.io.serial_transfer_countdown == 0,
            cpu.clock.target_cycle == 0,
            !cpu.interrupt_master_enable && cpu.ime_enable_delay == 0,
            cpu.last_joypad == 0x0f,
            cpu.cycles == 0 && cpu.steps == 0,
            cpu.last_step_pc == init_state.registers.pc,
            cpu.state == CoreState::Running,
            !cpu.halt_bug && !cpu.shutdown,
    {
        CpuThread {
            bus,
            boot_target_mode: init_state.boot_target_mode,
            registers: init_state.registers,
            io: CpuIo {
                hardware_mode: init_state.hardware_mode,
                boot_rom_unmapped: false,
                io_registers: init_state.io_registers,
                hram: init_state.hram,
                interrupt_flags: init_state.interrupt_flags,
                interrupt_enable: init_state.interrupt_enable,
                joypad: init_state.joypad,
                double_speed: false,
                speed_switch_armed: false,
                serial_transfer_countdown: 0,
                serial_output: init_state.serial_output,
            },
            clock: MasterClock::new(),
            interrupt_master_enable: false,
            ime_enable_delay: 0,
            last_joypad: 0x0f,
            cycles: 0,
            last_step_pc: init_state.registers.pc,
            state: CoreState::Running,
            halt_bug: false,
            steps: 0,
            shutdown: false,
            trace: Ghost(Seq::empty()),
        }
    }

    /// A CPU in the default state, wired to mailboxes nobody reads.
    pub fn default() -> (cpu: Self)
        ensures
            cpu.registers == (CpuRegisters { af: 0, bc: 0, de: 0, hl: 0, sp: 0, pc: 0 }),
            cpu.state == CoreState::Running,
            cpu.cycles == 0 && cpu.steps == 0,
            cpu.io.hardware_mode == HardwareMode::Cgb,
    {
        let (cpu_sender, _cpu_receiver) = new_channel();
        let (ppu_sender, _ppu_receiver) = new_channel();
        let (wram_sender, _wram_receiver) = new_channel();
        let (cartridge_sender, _cartridge_receiver) = new_channel();
        let (timer_sender, _timer_receiver) = new_channel();
        let (apu_sender, _apu_receiver) = new_channel();
        CpuThread::from_init_state(
            CpuInitState::default(),
            Bus::new(cpu_sender, ppu_sender, wram_sender, cartridge_sender, timer_sender, apu_sender),
        )
    }
}

// ---------------------------------------------------------------------------
// Pacing, and a memory for running the core alone
// ---------------------------------------------------------------------------

/// The cycle the CPU should have reached after `elapsed_nanos` of wall time:
/// elapsed time times the clock rate, or `u64::MAX` where that overflows.
pub fn wall_target_cycles(elapsed_nanos: u64) -> (target: u64)
    ensures
        elapsed_nanos * CPU_CLOCK_HZ <= u64::MAX ==> target == elapsed_nanos * CPU_CLOCK_HZ
            / 1_000_000_000,
        elapsed_nanos * CPU_CLOCK_HZ > u64::MAX ==> target == u64::MAX,
{
    match elapsed_nanos.checked_mul(CPU_CLOCK_HZ) {
        Some(n) => n / 1_000_000_000,
        None => u64::MAX,
    }
}

/// Whether the CPU reports its registers after `steps` steps: after the
/// first quantum, and every `CPU_REPORT_INTERVAL` steps.
pub fn should_report(steps: u64) -> (report: bool)
    ensures
        report == (steps == INSTRUCTIONS_PER_QUANTUM as u64 || steps % CPU_REPORT_INTERVAL == 0),
{
    steps == INSTRUCTIONS_PER_QUANTUM as u64 || steps % CPU_REPORT_INTERVAL == 0
}

/// A flat memory of 64 KiB and nothing else, so that the core can run a
/// program on its own; addresses past the end of `bytes` read 0xFF.
pub struct FlatMemory {
    pub bytes: Vec<u8>,
}

impl FlatMemory {
    /// 64 KiB of zeros with `program` loaded at `origin`, as far as it fits.
    pub fn with_program(origin: u16, program: &Vec<u8>) -> (memory: Self)
        ensures
            memory.bytes@.len() == 0x10000,
            forall|i: int|
                0 <= i < 0x10000 ==> #[trigger] memory.bytes@[i] == if origin <= i < origin
                    + program@.len() {
                    program@[i - origin]
                } else {
                    0u8
                },
    {
        let mut bytes: Vec<u8> = Vec::new();
        let mut i: usize = 0;
        while i < 0x10000
            invariant
                i <= 0x10000,
                bytes@.len() == i,
                forall|j: int|
                    0 <= j < i ==> #[trigger] bytes@[j] == if origin <= j < origin + program@.len() {
                        program@[j - origin]
                    } else {
                        0u8
                    },
            decreases 0x10000 - i,
        {
            let value = if origin as usize <= i && i - (origin as usize) < program.len() {
                program[i - origin as usize]
            } else {
                0
            };
            bytes.push(value);
            i = i + 1;
        }
        FlatMemory { bytes }
    }
}

impl CpuBus for FlatMemory {
    fn read(&mut self, io: &mut CpuIo, address: u16) -> (value: u8)
        ensures
            *final(self) == *old(self),
            *final(io) == *old(io),
            value == if (address as int) < old(self).bytes@.len() {
                old(self).bytes@[address as int]
            } else {
                0xffu8
            },
    {
        if (address as usize) < self.bytes.len() {
            self.bytes[address as usize]
        } else {
            0xff
        }
    }

    fn write(&mut self, io: &mut CpuIo, address: u16, value: u8) -> (result: WriteResult)
        ensures
            *final(io) == *old(io),
            (address as int) < old(self).bytes@.len() ==> final(self).bytes@ == old(self).bytes@.update(
                address as int,
                value,
            ) && result == WriteResult::Accepted,
            (address as int) >= old(self).bytes@.len() ==> *final(self) == *old(self) && result
                == WriteResult::NoData,
    {
        if (address as usize) < self.bytes.len() {
            self.bytes.set(address as usize, value);
            WriteResult::Accepted
        } else {
            WriteResult::NoData
        }
    }

    fn boot_rom_unmapped(&mut self) {
    }
}

} // verus!
