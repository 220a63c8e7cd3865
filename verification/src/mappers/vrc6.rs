//! VRC6 — mappers 24 (VRC6a) and 26 (VRC6b).
//!
//! Konami's VRC6 adds PRG/CHR banking, a CPU-clocked IRQ timer and three
//! expansion audio channels (two pulses and a sawtooth). Mapper 26 swaps
//! address lines A0 and A1, exchanging the `$x001` and `$x002` registers.
//! Registers decode on `addr & 0xF003`:
//!
//! | Address       | Function                                 |
//! |---------------|------------------------------------------|
//! | `$8000`       | 16 KB PRG bank at `$8000-$BFFF`          |
//! | `$9000-$9003` | Pulse 1 control, period low/high, scale  |
//! | `$A000-$A002` | Pulse 2 control, period low/high         |
//! | `$B000-$B002` | Sawtooth rate, period low/high           |
//! | `$B003`       | Mirroring                                |
//! | `$C000`       | 8 KB PRG bank at `$C000-$DFFF`           |
//! | `$D000-$E003` | CHR banks 0-7                            |
//! | `$F000-$F002` | IRQ latch, control, acknowledge          |
//!
//! `$E000-$FFFF` holds the last 8 KB PRG bank; `$6000-$7FFF` is 8 KB PRG-RAM.
//!
//! See: https://www.nesdev.org/wiki/VRC6

use vstd::prelude::*;
use super::{Mirroring, initial_chr, bank_byte, bank_count, bank_index, store_if_in, make_chr, get_or_zero,
    set_if_in, read_bank, count_banks, zeroed, byte_or_zero, overlay_prefix, clone_bytes, copy_prefix, MapperState};

verus! {

/// PRG-ROM 16 KB bank size (`$8000-$BFFF` window).
pub const VRC6_PRG_16K_SIZE: usize = 16384;
/// PRG-ROM 8 KB bank size (`$C000` and fixed `$E000` windows).
pub const VRC6_PRG_8K_SIZE: usize = 8192;
/// CHR bank size (1 KB).
pub const VRC6_CHR_1K_SIZE: usize = 1024;
/// PRG-RAM size (8 KB).
pub const VRC6_PRG_RAM_SIZE: usize = 8192;

/// A VRC6 pulse channel.
#[derive(Clone, Copy, Debug, PartialEq, Eq, Structural)]
pub struct PulseChannel {
    /// Bits 4-6 = duty (0-7), bits 0-3 = volume.
    pub control: u8,
    /// 12-bit period.
    pub period: u16,
    /// Running timer.
    pub timer: u16,
    /// Duty step position (0-15).
    pub step: u8,
    /// Channel enable (bit 7 of `$x002`).
    pub enabled: bool,
    /// Frequency scaling (`$9003`; bit 0 doubles the period).
    pub scale: u8,
}

/// The VRC6 sawtooth channel.
#[derive(Clone, Copy, Debug, PartialEq, Eq, Structural)]
pub struct SawChannel {
    /// Accumulator rate (bits 0-5 used).
    pub rate: u8,
    /// 12-bit period.
    pub period: u16,
    /// Running timer.
    pub timer: u16,
    /// 7-bit phase accumulator.
    pub accum: u8,
    /// Channel enable (bit 7 of `$B002`).
    pub enabled: bool,
}

/// A silent, disabled pulse channel.
pub open spec fn pulse_reset() -> PulseChannel {
    PulseChannel { control: 0, period: 0, timer: 0, step: 0, enabled: false, scale: 0 }
}

/// A silent, disabled sawtooth channel.
pub open spec fn saw_reset() -> SawChannel {
    SawChannel { rate: 0, period: 0, timer: 0, accum: 0, enabled: false }
}

/// The timer period a pulse channel runs with: doubled (saturating) when
/// scaling is on, and at least 1.
pub open spec fn pulse_period(ch: PulseChannel) -> u16 {
    let p: u16 = if ch.scale % 2 != 0 {
        if ch.period > 32767 {
            65535u16
        } else {
            (ch.period * 2) as u16
        }
    } else {
        ch.period
    };
    if p < 1 {
        1u16
    } else {
        p
    }
}

/// `(timer, step)` of an enabled pulse channel after `n` cycles at `period`.
pub open spec fn pulse_after(timer: u16, step: u8, period: u16, n: nat) -> (u16, u8)
    decreases n,
{
    if n == 0 {
        (timer, step)
    } else {
        let (t, s) = pulse_after(timer, step, period, (n - 1) as nat);
        if t == 0 {
            (period, ((s + 1) % 16) as u8)
        } else {
            ((t - 1) as u16, s)
        }
    }
}

/// The sawtooth accumulator after one timer reload at rate `rate`.
pub open spec fn saw_advance(accum: u8, rate: u8) -> u8 {
    let a = ((accum + rate % 64) % 256) as u8;
    if a >= 0x80 {
        0u8
    } else {
        a
    }
}

/// `(timer, accum)` of an enabled sawtooth after `n` cycles at `period`.
pub open spec fn saw_after(timer: u16, accum: u8, rate: u8, period: u16, n: nat) -> (u16, u8)
    decreases n,
{
    if n == 0 {
        (timer, accum)
    } else {
        let (t, a) = saw_after(timer, accum, rate, period, (n - 1) as nat);
        if t == 0 {
            (period, saw_advance(a, rate))
        } else {
            ((t - 1) as u16, a)
        }
    }
}

/// A pulse channel after `n` cycles (a disabled one does not move).
pub open spec fn pulse_clocked(ch: PulseChannel, n: nat) -> PulseChannel {
    if !ch.enabled {
        ch
    } else {
        let (t, s) = pulse_after(ch.timer, ch.step, pulse_period(ch), n);
        PulseChannel { timer: t, step: s, ..ch }
    }
}

/// A sawtooth after `n` cycles (a disabled one does not move).
pub open spec fn saw_clocked(ch: SawChannel, n: nat) -> SawChannel {
    if !ch.enabled {
        ch
    } else {
        let p: u16 = if ch.period < 1 { 1u16 } else { ch.period };
        let (t, a) = saw_after(ch.timer, ch.accum, ch.rate, p, n);
        SawChannel { timer: t, accum: a, ..ch }
    }
}

/// A pulse channel's output: its volume inside the duty window, else 0.
pub open spec fn pulse_output(ch: PulseChannel) -> u8 {
    if ch.enabled && ch.step < (ch.control / 16) % 8 + 1 {
        ch.control % 16
    } else {
        0
    }
}

/// The sawtooth's output: the top 5 bits of its 7-bit accumulator.
pub open spec fn saw_output(ch: SawChannel) -> u8 {
    if ch.enabled {
        ch.accum / 4
    } else {
        0
    }
}

/// `(counter, enable, pending)` after `n` cycles of the IRQ timer.
pub open spec fn vrc6_irq_after(counter: u8, latch: u8, enable: bool, after_ack: bool, pending: bool, n: nat) -> (u8, bool, bool)
    decreases n,
{
    if n == 0 {
        (counter, enable, pending)
    } else {
        let (c, e, p) = vrc6_irq_after(counter, latch, enable, after_ack, pending, (n - 1) as nat);
        if c == 0 {
            if e {
                (latch, after_ack, true)
            } else {
                (latch, e, p)
            }
        } else {
            ((c - 1) as u8, e, p)
        }
    }
}

impl PulseChannel {
    /// A silent, disabled channel.
    pub fn reset() -> (ch: PulseChannel)
        ensures
            ch == pulse_reset(),
    {
        PulseChannel { control: 0, period: 0, timer: 0, step: 0, enabled: false, scale: 0 }
    }

    /// Duty length in 16ths (1-8, bits 4-6 of control plus one).
    pub fn duty(&self) -> (d: u8)
        ensures
            d == (self.control / 16) % 8 + 1,
    {
        proof {
            crate::bits::lemma_u8_masks(self.control);
            crate::bits::lemma_u8_masks(self.control >> 4u8);
        }
        ((self.control >> 4u8) & 0x07) + 1
    }

    /// Volume (bits 0-3 of control).
    pub fn volume(&self) -> (v: u8)
        ensures
            v == self.control % 16,
    {
        proof {
            crate::bits::lemma_u8_masks(self.control);
        }
        self.control & 0x0F
    }

    /// Advance by `cpu_cycles` CPU cycles and return the output: each time
    /// the timer reaches 0 it reloads and the duty step advances.
    pub fn clock(&mut self, cpu_cycles: u32) -> (out: u8)
        ensures
            *final(self) == pulse_clocked(*old(self), cpu_cycles as nat),
            out == pulse_output(*final(self)),
    {
        if !self.enabled {
            return 0;
        }
        let doubled: u16 = if self.period > 32767 {
            65535
        } else {
            self.period * 2
        };
        let scaled: u16 = if self.scale & 1 != 0 {
            if doubled < 1 { 1 } else { doubled }
        } else {
            self.period
        };
        let period: u16 = if scaled < 1 {
            1
        } else {
            scaled
        };
        proof {
            crate::bits::lemma_u8_masks(self.scale);
        }
        assert(period == pulse_period(*old(self)));
        let mut i: u32 = 0;
        while i < cpu_cycles
            invariant
                i <= cpu_cycles,
                old(self).enabled,
                period == pulse_period(*old(self)),
                (self.timer, self.step) == pulse_after(old(self).timer, old(self).step, period, i as nat),
                *self == (PulseChannel { timer: self.timer, step: self.step, ..*old(self) }),
            decreases cpu_cycles - i,
        {
            if self.timer == 0 {
                self.timer = period;
                let s1: u8 = self.step.wrapping_add(1);
                proof {
                    crate::bits::lemma_u8_masks(s1);
                }
                self.step = s1 & 0x0F;
            } else {
                self.timer = self.timer - 1;
            }
            i = i + 1;
        }
        if self.step < self.duty() {
            self.volume()
        } else {
            0
        }
    }
}

impl PulseChannel {
    /// Write `value` to the channel's register `sub`: 0 control, 1 period
    /// low, 2 period high and enable, 3 frequency scale (channel 1 only).
    pub fn write_reg(&mut self, sub: u16, value: u8, has_scale: bool)
        ensures
            *final(self) == pulse_write(*old(self), sub, value, has_scale),
    {
        if sub == 0 {
            self.control = value;
        } else if sub == 1 {
            self.period = (self.period & 0x0F00) | (value as u16);
        } else if sub == 2 {
            self.period = (self.period & 0x00FF) | (((value as u16) & 0x0F) << 8u16);
            self.enabled = (value & 0x80) != 0;
        } else if sub == 3 && has_scale {
            self.scale = value;
        }
    }
}

impl SawChannel {
    /// Write `value` to the channel's register `sub`: 0 rate, 1 period low,
    /// 2 period high and enable.
    pub fn write_reg(&mut self, sub: u16, value: u8)
        ensures
            *final(self) == saw_write(*old(self), sub, value),
    {
        if sub == 0 {
            self.rate = value;
        } else if sub == 1 {
            self.period = (self.period & 0x0F00) | (value as u16);
        } else if sub == 2 {
            self.period = (self.period & 0x00FF) | (((value as u16) & 0x0F) << 8u16);
            self.enabled = (value & 0x80) != 0;
        }
    }

    /// A silent, disabled channel.
    pub fn reset() -> (ch: SawChannel)
        ensures
            ch == saw_reset(),
    {
        SawChannel { rate: 0, period: 0, timer: 0, accum: 0, enabled: false }
    }

    /// Advance by `cpu_cycles` CPU cycles and return the output (0-31):
    /// each timer reload adds the rate to the accumulator, which resets to
    /// 0 on reaching 128.
    pub fn clock(&mut self, cpu_cycles: u32) -> (out: u8)
        ensures
            *final(self) == saw_clocked(*old(self), cpu_cycles as nat),
            old(self).enabled ==> out == final(self).accum / 4,
            !old(self).enabled ==> out == 0,
    {
        if !self.enabled {
            return 0;
        }
        let period: u16 = if self.period < 1 {
            1
        } else {
            self.period
        };
        let mut i: u32 = 0;
        while i < cpu_cycles
            invariant
                i <= cpu_cycles,
                old(self).enabled,
                period == (if old(self).period < 1 { 1u16 } else { old(self).period }),
                (self.timer, self.accum) == saw_after(old(self).timer, old(self).accum, old(self).rate, period, i as nat),
                *self == (SawChannel { timer: self.timer, accum: self.accum, ..*old(self) }),
            decreases cpu_cycles - i,
        {
            if self.timer == 0 {
                self.timer = period;
                proof {
                    crate::bits::lemma_u8_masks(self.rate);
                }
                self.accum = self.accum.wrapping_add(self.rate & 0x3F);
                if self.accum >= 0x80 {
                    self.accum = 0;
                }
            } else {
                self.timer = self.timer - 1;
            }
            i = i + 1;
        }
        proof {
            crate::bits::lemma_u8_masks(self.accum);
        }
        self.accum >> 2u8
    }
}

/// VRC6 cartridge state.
pub struct Vrc6 {
    pub prg_rom: Vec<u8>,
    /// CHR data — ROM when `chr_is_ram` is false, RAM when true.
    pub chr: Vec<u8>,
    pub chr_is_ram: bool,
    /// 8 KB PRG-RAM at `$6000-$7FFF`.
    pub prg_ram: Vec<u8>,
    pub has_battery: bool,
    /// 16 KB PRG bank for `$8000-$BFFF`.
    pub prg_bank_16k: u8,
    /// 8 KB PRG bank for `$C000-$DFFF`.
    pub prg_bank_8k: u8,
    /// CHR bank registers.
    pub chr_banks: [u8; 8],
    /// Mirroring: false = vertical, true = horizontal.
    pub mirror_horizontal: bool,
    /// IRQ reload value.
    pub irq_latch: u8,
    /// Running IRQ counter.
    pub irq_counter: u8,
    /// IRQ enable.
    pub irq_enable: bool,
    /// Re-enable mode after acknowledge (`$F002` bit 1); without it the
    /// IRQ disables itself on firing.
    pub irq_enable_after_ack: bool,
    /// IRQ asserted; cleared by `$F002`.
    pub irq_pending: bool,
    /// Pulse channel 1.
    pub pulse1: PulseChannel,
    /// Pulse channel 2.
    pub pulse2: PulseChannel,
    /// Sawtooth channel.
    pub saw: SawChannel,
    /// Mapper 26: A0 and A1 swapped in register decode.
    pub swap_addr: bool,
}

/// Canonical register address of CPU address `addr` (`addr & 0xF003`,
/// with A0/A1 exchanged for mapper 26).
pub open spec fn vrc6_decode(swap: bool, addr: u16) -> u16 {
    let masked = addr & 0xF003;
    if !swap {
        masked
    } else {
        (masked & 0xFFFC) | ((masked & 0x001) << 1u16) | ((masked & 0x002) >> 1u16)
    }
}

/// A pulse channel after a write of `value` to its register `sub` (0-3).
pub open spec fn pulse_write(ch: PulseChannel, sub: u16, value: u8, has_scale: bool) -> PulseChannel {
    if sub == 0 {
        PulseChannel { control: value, ..ch }
    } else if sub == 1 {
        PulseChannel { period: (ch.period & 0x0F00) | (value as u16), ..ch }
    } else if sub == 2 {
        PulseChannel {
            period: (ch.period & 0x00FF) | (((value as u16) & 0x0F) << 8u16),
            enabled: value & 0x80 != 0,
            ..ch
        }
    } else if sub == 3 && has_scale {
        PulseChannel { scale: value, ..ch }
    } else {
        ch
    }
}

/// The sawtooth after a write of `value` to its register `sub` (0-2).
pub open spec fn saw_write(ch: SawChannel, sub: u16, value: u8) -> SawChannel {
    if sub == 0 {
        SawChannel { rate: value, ..ch }
    } else if sub == 1 {
        SawChannel { period: (ch.period & 0x0F00) | (value as u16), ..ch }
    } else if sub == 2 {
        SawChannel {
            period: (ch.period & 0x00FF) | (((value as u16) & 0x0F) << 8u16),
            enabled: value & 0x80 != 0,
            ..ch
        }
    } else {
        ch
    }
}

impl Vrc6 {
    /// The byte the CPU sees at `addr` (`$6000-$FFFF`).
    pub open spec fn prg_byte(&self, addr: u16) -> u8 {
        let local = (addr as int) - 0x8000;
        if 0x6000 <= addr < 0x8000 {
            byte_or_zero(self.prg_ram@, (addr as int) - 0x6000)
        } else if local < 16384 {
            bank_byte(
                self.prg_rom@,
                16384,
                (self.prg_bank_16k as int) % bank_count(self.prg_rom@.len() as int, 16384),
                local,
            )
        } else if local < 24576 {
            bank_byte(
                self.prg_rom@,
                8192,
                (self.prg_bank_8k as int) % bank_count(self.prg_rom@.len() as int, 8192),
                local - 16384,
            )
        } else {
            bank_byte(self.prg_rom@, 8192, bank_count(self.prg_rom@.len() as int, 8192) - 1, local - 24576)
        }
    }

    /// Index into CHR of PPU address `addr`.
    pub open spec fn spec_chr_index(&self, addr: u16) -> int {
        bank_index(self.chr@.len() as int, 1024, self.chr_banks[(addr as int) / 1024] as int, (addr as int) % 1024)
    }

    /// The byte the PPU sees at `addr` (`$0000-$1FFF`).
    pub open spec fn chr_byte(&self, addr: u16) -> u8 {
        byte_or_zero(self.chr@, self.spec_chr_index(addr))
    }

    /// The memories and fixed flags are unchanged between `self` and `post`.
    pub open spec fn same_data(&self, post: &Self) -> bool {
        &&& post.prg_rom == self.prg_rom
        &&& post.chr == self.chr
        &&& post.chr_is_ram == self.chr_is_ram
        &&& post.prg_ram == self.prg_ram
        &&& post.has_battery == self.has_battery
        &&& post.swap_addr == self.swap_addr
    }

    /// State after a register write of `value` at canonical address `reg`.
    pub open spec fn register_write_post(&self, post: &Self, reg: u16, value: u8) -> bool {
        &&& self.same_data(post)
        &&& post.prg_bank_16k == (if reg == 0x8000 { value & 0x3F } else { self.prg_bank_16k })
        &&& post.prg_bank_8k == (if reg == 0xC000 { value & 0x3F } else { self.prg_bank_8k })
        &&& post.pulse1 == (if 0x9000 <= reg <= 0x9003 {
            pulse_write(self.pulse1, (reg - 0x9000) as u16, value, true)
        } else {
            self.pulse1
        })
        &&& post.pulse2 == (if 0xA000 <= reg <= 0xA003 {
            pulse_write(self.pulse2, (reg - 0xA000) as u16, value, false)
        } else {
            self.pulse2
        })
        &&& post.saw == (if 0xB000 <= reg <= 0xB002 { saw_write(self.saw, (reg - 0xB000) as u16, value) } else { self.saw })
        &&& post.mirror_horizontal == (if reg == 0xB003 { value & 1 != 0 } else { self.mirror_horizontal })
        &&& post.chr_banks@ == (if 0xD000 <= reg <= 0xD003 {
            self.chr_banks@.update(reg - 0xD000, value)
        } else if 0xE000 <= reg <= 0xE003 {
            self.chr_banks@.update(reg - 0xE000 + 4, value)
        } else {
            self.chr_banks@
        })
        &&& post.irq_latch == (if reg == 0xF000 { value } else { self.irq_latch })
        &&& post.irq_counter == (if reg == 0xF001 { self.irq_latch } else { self.irq_counter })
        &&& post.irq_enable == (if reg == 0xF001 || reg == 0xF002 { value & 1 != 0 } else { self.irq_enable })
        &&& post.irq_enable_after_ack == (if reg == 0xF002 { value & 2 != 0 } else { self.irq_enable_after_ack })
        &&& post.irq_pending == (if reg == 0xF002 { false } else { self.irq_pending })
    }

    /// Whether `self` is the board as built from PRG `prg`, CHR `chr`
    /// (empty for CHR-RAM), header mirroring `mirroring` and battery flag
    /// `has_battery` and address wiring `swap_addr`: its power-on state.
    pub open spec fn fresh(&self, prg: Seq<u8>, chr: Seq<u8>, mirroring: Mirroring, has_battery: bool, swap_addr: bool) -> bool {
        &&& self.prg_rom@ == prg
        &&& self.chr@ == initial_chr(chr)
        &&& self.chr_is_ram == (chr.len() == 0)
        &&& self.prg_ram@ == Seq::new(VRC6_PRG_RAM_SIZE as nat, |i: int| 0u8)
        &&& self.has_battery == has_battery
        &&& self.prg_bank_16k == 0 && self.prg_bank_8k == 0
        &&& self.chr_banks@ == Seq::new(8, |i: int| 0u8)
        &&& self.mirror_horizontal == (mirroring == Mirroring::Horizontal)
        &&& self.irq_latch == 0 && self.irq_counter == 0
        &&& !self.irq_enable && !self.irq_enable_after_ack && !self.irq_pending
        &&& self.pulse1 == pulse_reset() && self.pulse2 == pulse_reset() && self.saw == saw_reset()
        &&& self.swap_addr == swap_addr
    }

    /// Construct a VRC6 (`swap_addr` false for mapper 24, true for 26): all
    /// banks 0, audio silent, IRQ idle, mirroring horizontal exactly when
    /// the header says so.
    pub fn new(prg_rom: Vec<u8>, chr_rom: Vec<u8>, mirroring: Mirroring, has_battery: bool, swap_addr: bool) -> (m: Self)
        ensures
            m.prg_rom@ == prg_rom@,
            m.chr@ == initial_chr(chr_rom@),
            m.chr_is_ram == (chr_rom@.len() == 0),
            m.prg_ram@ == Seq::new(VRC6_PRG_RAM_SIZE as nat, |i: int| 0u8),
            m.has_battery == has_battery,
            m.prg_bank_16k == 0 && m.prg_bank_8k == 0,
            m.chr_banks@ == Seq::new(8, |i: int| 0u8),
            m.mirror_horizontal == (mirroring == Mirroring::Horizontal),
            m.irq_latch == 0 && m.irq_counter == 0,
            !m.irq_enable && !m.irq_enable_after_ack && !m.irq_pending,
            m.pulse1 == pulse_reset() && m.pulse2 == pulse_reset() && m.saw == saw_reset(),
            m.swap_addr == swap_addr,
            m.fresh(prg_rom@, chr_rom@, mirroring, has_battery, swap_addr),
    {
        let (chr, chr_is_ram) = make_chr(chr_rom);
        let m = Vrc6 {
            prg_rom,
            chr,
            chr_is_ram,
            prg_ram: zeroed(VRC6_PRG_RAM_SIZE),
            has_battery,
            prg_bank_16k: 0,
            prg_bank_8k: 0,
            chr_banks: [0u8; 8],
            mirror_horizontal: match mirroring {
                Mirroring::Horizontal => true,
                _ => false,
            },
            irq_latch: 0,
            irq_counter: 0,
            irq_enable: false,
            irq_enable_after_ack: false,
            irq_pending: false,
            pulse1: PulseChannel::reset(),
            pulse2: PulseChannel::reset(),
            saw: SawChannel::reset(),
            swap_addr,
        };
        assert(m.chr_banks@ =~= Seq::new(8, |i: int| 0u8));
        m
    }

    /// Number of 16 KB PRG banks (at least 1).
    pub fn prg_16k_count(&self) -> (c: usize)
        ensures
            c == bank_count(self.prg_rom@.len() as int, 16384),
            c >= 1,
    {
        count_banks(self.prg_rom.len(), VRC6_PRG_16K_SIZE)
    }

    /// Number of 8 KB PRG banks (at least 1).
    pub fn prg_8k_count(&self) -> (c: usize)
        ensures
            c == bank_count(self.prg_rom@.len() as int, 8192),
            c >= 1,
    {
        count_banks(self.prg_rom.len(), VRC6_PRG_8K_SIZE)
    }

    /// Number of 1 KB CHR banks (at least 1).
    pub fn chr_1k_count(&self) -> (c: usize)
        ensures
            c == bank_count(self.chr@.len() as int, 1024),
            c >= 1,
    {
        count_banks(self.chr.len(), VRC6_CHR_1K_SIZE)
    }

    /// Canonical register address of `addr` (see [`vrc6_decode`]).
    pub fn decode(&self, addr: u16) -> (r: u16)
        ensures
            r == vrc6_decode(self.swap_addr, addr),
    {
        let masked: u16 = addr & 0xF003;
        if !self.swap_addr {
            return masked;
        }
        let a0: u16 = (masked & 0x001) << 1u16;
        let a1: u16 = (masked & 0x002) >> 1u16;
        (masked & 0xFFFC) | a0 | a1
    }

    /// Read a PRG-ROM byte from an 8 KB bank and offset.
    pub fn prg_read_8k(&self, bank: usize, offset: usize) -> (b: u8)
        ensures
            b == bank_byte(self.prg_rom@, 8192, bank as int, offset as int),
    {
        read_bank(&self.prg_rom, VRC6_PRG_8K_SIZE, bank, offset)
    }

    /// Read a PRG-ROM byte from a 16 KB bank and offset.
    pub fn prg_read_16k(&self, bank: usize, offset: usize) -> (b: u8)
        ensures
            b == bank_byte(self.prg_rom@, 16384, bank as int, offset as int),
    {
        read_bank(&self.prg_rom, VRC6_PRG_16K_SIZE, bank, offset)
    }

    /// Advance the three audio channels by `cpu_cycles` CPU cycles.
    pub fn clock_audio(&mut self, cpu_cycles: u32)
        ensures
            final(self).pulse1 == pulse1_after_call(*old(self), Vrc6Call::Clock(cpu_cycles)),
            final(self).pulse1 == pulse_clocked(old(self).pulse1, cpu_cycles as nat),
            final(self).pulse2 == pulse_clocked(old(self).pulse2, cpu_cycles as nat),
            final(self).saw == saw_clocked(old(self).saw, cpu_cycles as nat),
            *final(self) == (Vrc6 {
                pulse1: final(self).pulse1,
                pulse2: final(self).pulse2,
                saw: final(self).saw,
                ..*old(self)
            }),
    {
        self.pulse1.clock(cpu_cycles);
        self.pulse2.clock(cpu_cycles);
        self.saw.clock(cpu_cycles);
    }

    /// The mixed expansion sample (0-255): the clipped sum of the three
    /// channel outputs (at most 63) scaled by 255/63.
    pub fn audio_sample(&self) -> (s: u8)
        ensures
            s as int == (if pulse_output(self.pulse1) + pulse_output(self.pulse2) + saw_output(self.saw) > 63 {
                63int
            } else {
                pulse_output(self.pulse1) + pulse_output(self.pulse2) + saw_output(self.saw)
            }) * 255 / 63,
    {
        let p1: u32 = self.pulse1_sample() as u32;
        let p2: u32 = self.pulse2_sample() as u32;
        let saw: u32 = self.saw_sample() as u32;
        let sum: u32 = p1 + p2 + saw;
        let clipped: u32 = if sum > 63 {
            63
        } else {
            sum
        };
        (clipped * 255 / 63) as u8
    }

    /// Pulse 1 output (0-15).
    pub fn pulse1_sample(&self) -> (s: u8)
        ensures
            s == pulse_output(self.pulse1),
    {
        if self.pulse1.enabled && self.pulse1.step < self.pulse1.duty() {
            self.pulse1.volume()
        } else {
            0
        }
    }

    /// Pulse 2 output (0-15).
    pub fn pulse2_sample(&self) -> (s: u8)
        ensures
            s == pulse_output(self.pulse2),
    {
        if self.pulse2.enabled && self.pulse2.step < self.pulse2.duty() {
            self.pulse2.volume()
        } else {
            0
        }
    }

    /// Sawtooth output (0-31).
    pub fn saw_sample(&self) -> (s: u8)
        ensures
            s == saw_output(self.saw),
    {
        proof {
            crate::bits::lemma_u8_masks(self.saw.accum);
        }
        if self.saw.enabled {
            self.saw.accum >> 2u8
        } else {
            0
        }
    }

    /// Read a byte from the CPU side: PRG-RAM at `$6000-$7FFF`, the 16 KB
    /// bank at `$8000`, the 8 KB bank at `$C000`, the last bank at `$E000`.
    pub fn read_prg(&self, addr: u16) -> (b: u8)
        requires
            addr >= 0x6000,
        ensures
            b == self.prg_byte(addr),
    {
        if addr < 0x8000 {
            let a: usize = addr as usize - 0x6000;
            let idx: usize = a & (VRC6_PRG_RAM_SIZE - 1);
            proof {
                crate::bits::lemma_usize_masks(a);
            }
            return get_or_zero(&self.prg_ram, idx);
        }
        let local: usize = (addr - 0x8000) as usize;
        if local < VRC6_PRG_16K_SIZE {
            let bank: usize = (self.prg_bank_16k as usize) % self.prg_16k_count();
            return self.prg_read_16k(bank, local);
        }
        if local < VRC6_PRG_16K_SIZE + VRC6_PRG_8K_SIZE {
            let off: usize = local - VRC6_PRG_16K_SIZE;
            let bank: usize = (self.prg_bank_8k as usize) % self.prg_8k_count();
            return self.prg_read_8k(bank, off);
        }
        let off: usize = local - VRC6_PRG_16K_SIZE - VRC6_PRG_8K_SIZE;
        let last: usize = self.prg_8k_count() - 1;
        self.prg_read_8k(last, off)
    }

    /// The contract of [`Vrc6::write_prg`] as a predicate on the state it leaves `before` in.
    pub open spec fn write_prg_post(&self, before: Vrc6, addr: u16, value: u8) -> bool {
        &&& (addr < 0x8000 ==> self.prg_ram@ == store_if_in(before.prg_ram@, (addr as int) - 0x6000, value) && *self == (Vrc6 { prg_ram: self.prg_ram, ..before }))
        &&& (addr >= 0x8000 ==> before.register_write_post(self, vrc6_decode(before.swap_addr, addr), value) && self.irq_latch == (if vrc6_decode(before.swap_addr, addr) == 0xF000 { value } else { before.irq_latch }))
        &&& (self.pulse1 == pulse1_after_call(before, Vrc6Call::WritePrg(addr, value)))
    }

    /// Write a byte from the CPU side: PRG-RAM at `$6000-$7FFF`, else the
    /// register at the decoded address (unknown registers are ignored).
    pub fn write_prg(&mut self, addr: u16, value: u8)
        requires
            addr >= 0x6000,
        ensures
            addr < 0x8000 ==> final(self).prg_ram@ == store_if_in(old(self).prg_ram@, (addr as int) - 0x6000, value)
                && *final(self) == (Vrc6 { prg_ram: final(self).prg_ram, ..*old(self) }),
            addr >= 0x8000 ==> old(self).register_write_post(&*final(self), vrc6_decode(old(self).swap_addr, addr), value)
                && final(self).irq_latch == (if vrc6_decode(old(self).swap_addr, addr) == 0xF000 { value } else { old(self).irq_latch }),
            final(self).pulse1 == pulse1_after_call(*old(self), Vrc6Call::WritePrg(addr, value)),
            final(self).write_prg_post(*old(self), addr, value),
    {
        if addr < 0x8000 {
            let a: usize = addr as usize - 0x6000;
            let idx: usize = a & (VRC6_PRG_RAM_SIZE - 1);
            proof {
                crate::bits::lemma_usize_masks(a);
            }
            set_if_in(&mut self.prg_ram, idx, value);
            return;
        }
        let reg: u16 = self.decode(addr);
        proof {
            crate::bits::lemma_u8_masks(value);
        }
        if reg == 0x8000 {
            self.prg_bank_16k = value & 0x3F;
        } else if 0x9000 <= reg && reg <= 0x9003 {
            self.pulse1.write_reg(reg - 0x9000, value, true);
        } else if 0xA000 <= reg && reg <= 0xA003 {
            self.pulse2.write_reg(reg - 0xA000, value, false);
        } else if 0xB000 <= reg && reg <= 0xB002 {
            self.saw.write_reg(reg - 0xB000, value);
        } else if reg == 0xB003 {
            self.mirror_horizontal = (value & 0x01) != 0;
        } else if reg == 0xC000 {
            self.prg_bank_8k = value & 0x3F;
        } else if 0xD000 <= reg && reg <= 0xD003 {
            self.chr_banks[(reg - 0xD000) as usize] = value;
        } else if 0xE000 <= reg && reg <= 0xE003 {
            self.chr_banks[(reg - 0xE000 + 4) as usize] = value;
        } else if reg == 0xF000 {
            self.irq_latch = value;
        } else if reg == 0xF001 {
            self.irq_enable = (value & 0x01) != 0;
            self.irq_counter = self.irq_latch;
        } else if reg == 0xF002 {
            self.irq_enable_after_ack = (value & 0x02) != 0;
            self.irq_enable = (value & 0x01) != 0;
            self.irq_pending = false;
        }
    }

    /// Index into CHR of PPU address `addr`; past the end reports the length.
    pub fn chr_index(&self, addr: u16) -> (idx: usize)
        requires
            addr < 0x2000,
        ensures
            self.spec_chr_index(addr) < self.chr@.len() ==> idx == self.spec_chr_index(addr),
            self.spec_chr_index(addr) >= self.chr@.len() ==> idx == self.chr@.len(),
    {
        let a: usize = addr as usize;
        let slot: usize = a / VRC6_CHR_1K_SIZE;
        let offset: usize = a & (VRC6_CHR_1K_SIZE - 1);
        proof {
            crate::bits::lemma_usize_masks(a);
        }
        super::bank_offset_of(self.chr.len(), VRC6_CHR_1K_SIZE, self.chr_banks[slot] as usize, offset)
    }

    /// Read a byte from the PPU side through the eight 1 KB CHR banks.
    pub fn read_chr(&self, addr: u16) -> (b: u8)
        requires
            addr < 0x2000,
        ensures
            b == self.chr_byte(addr),
    {
        let idx: usize = self.chr_index(addr);
        get_or_zero(&self.chr, idx)
    }

    /// The contract of [`Vrc6::write_chr`] as a predicate on the state it leaves `before` in.
    pub open spec fn write_chr_post(&self, before: Vrc6, addr: u16, value: u8) -> bool {
        &&& (self.chr@ == (if before.chr_is_ram { store_if_in(before.chr@, before.spec_chr_index(addr), value) } else { before.chr@ }))
        &&& (*self == (Vrc6 { chr: self.chr, ..before }))
    }

    /// Write a byte to the PPU side; only CHR-RAM takes it.
    pub fn write_chr(&mut self, addr: u16, value: u8)
        requires
            addr < 0x2000,
        ensures
            final(self).chr@ == (if old(self).chr_is_ram {
                store_if_in(old(self).chr@, old(self).spec_chr_index(addr), value)
            } else {
                old(self).chr@
            }),
            *final(self) == (Vrc6 { chr: final(self).chr, ..*old(self) }),
            final(self).write_chr_post(*old(self), addr, value),
    {
        if !self.chr_is_ram {
            return;
        }
        let idx: usize = self.chr_index(addr);
        set_if_in(&mut self.chr, idx, value);
    }

    /// Current mirroring: horizontal or vertical.
    pub fn mirror_mode(&self) -> (m: Mirroring)
        ensures
            m == (if self.mirror_horizontal { Mirroring::Horizontal } else { Mirroring::Vertical }),
    {
        if self.mirror_horizontal {
            Mirroring::Horizontal
        } else {
            Mirroring::Vertical
        }
    }

    /// The contract of [`Vrc6::has_battery`] as a predicate.
    pub open spec fn has_battery_post(&self, b: bool) -> bool {
        &&& (b == self.has_battery)
    }

    /// Whether the cartridge has battery-backed PRG-RAM.
    pub fn has_battery(&self) -> (b: bool)
        ensures
            b == self.has_battery,
            self.has_battery_post(b),
    {
        self.has_battery
    }

    /// The contract of [`Vrc6::battery_sram`] as a predicate.
    pub open spec fn battery_sram_post(&self, r: Option<Vec<u8>>) -> bool {
        &&& (self.has_battery ==> (r matches Some(v) && v@ == self.prg_ram@))
        &&& (!self.has_battery ==> r is None)
    }

    /// A copy of PRG-RAM when battery-backed, else `None`.
    pub fn battery_sram(&self) -> (r: Option<Vec<u8>>)
        ensures
            self.has_battery ==> (r matches Some(v) && v@ == self.prg_ram@),
            !self.has_battery ==> r is None,
            self.battery_sram_post(r),
    {
        if self.has_battery {
            Some(clone_bytes(&self.prg_ram))
        } else {
            None
        }
    }

    /// The contract of [`Vrc6::load_battery_sram`] as a predicate on the state it leaves `before` in.
    pub open spec fn load_battery_sram_post(&self, before: Vrc6, data: &[u8]) -> bool {
        &&& (self.prg_ram@ == (if before.has_battery { overlay_prefix(before.prg_ram@, data@) } else { before.prg_ram@ }))
        &&& (*self == (Vrc6 { prg_ram: self.prg_ram, ..before }))
    }

    /// Load battery-backed PRG-RAM from `data` (as many bytes as fit);
    /// nothing happens without a battery.
    pub fn load_battery_sram(&mut self, data: &[u8])
        ensures
            final(self).prg_ram@ == (if old(self).has_battery {
                overlay_prefix(old(self).prg_ram@, data@)
            } else {
                old(self).prg_ram@
            }),
            *final(self) == (Vrc6 { prg_ram: final(self).prg_ram, ..*old(self) }),
            final(self).load_battery_sram_post(*old(self), data),
    {
        if !self.has_battery {
            return;
        }
        copy_prefix(&mut self.prg_ram, data);
    }

    /// The contract of [`Vrc6::irq_pending`] as a predicate.
    pub open spec fn irq_pending_post(&self, b: bool) -> bool {
        &&& (b == self.irq_pending)
    }

    /// Whether the IRQ line is asserted.
    pub fn irq_pending(&self) -> (b: bool)
        ensures
            b == self.irq_pending,
            self.irq_pending_post(b),
    {
        self.irq_pending
    }

    /// The contract of [`Vrc6::clock_cpu`] as a predicate on the state it leaves `before` in.
    pub open spec fn clock_cpu_post(&self, before: Vrc6, cpu_cycles: u32) -> bool {
        &&& (self.pulse1 == pulse1_after_call(before, Vrc6Call::Clock(cpu_cycles)))
        &&& ((self.irq_counter, self.irq_enable, self.irq_pending) == vrc6_irq_after(before.irq_counter, before.irq_latch, before.irq_enable, before.irq_enable_after_ack, before.irq_pending, cpu_cycles as nat,))
        &&& (self.pulse1 == pulse_clocked(before.pulse1, cpu_cycles as nat))
        &&& (self.pulse2 == pulse_clocked(before.pulse2, cpu_cycles as nat))
        &&& (self.saw == saw_clocked(before.saw, cpu_cycles as nat))
        &&& (*self == (Vrc6 { irq_counter: self.irq_counter, irq_enable: self.irq_enable, irq_pending: self.irq_pending, pulse1: self.pulse1, pulse2: self.pulse2, saw: self.saw, ..before }))
    }

    /// Clock the IRQ counter and the audio by `cpu_cycles` CPU cycles. Each
    /// cycle a zero counter reloads from the latch; an enabled IRQ then
    /// fires and, unless re-enable-after-acknowledge is set, disables itself.
    pub fn clock_cpu(&mut self, cpu_cycles: u32)
        ensures
            final(self).pulse1 == pulse1_after_call(*old(self), Vrc6Call::Clock(cpu_cycles)),
            (final(self).irq_counter, final(self).irq_enable, final(self).irq_pending) == vrc6_irq_after(
                old(self).irq_counter,
                old(self).irq_latch,
                old(self).irq_enable,
                old(self).irq_enable_after_ack,
                old(self).irq_pending,
                cpu_cycles as nat,
            ),
            final(self).pulse1 == pulse_clocked(old(self).pulse1, cpu_cycles as nat),
            final(self).pulse2 == pulse_clocked(old(self).pulse2, cpu_cycles as nat),
            final(self).saw == saw_clocked(old(self).saw, cpu_cycles as nat),
            *final(self) == (Vrc6 {
                irq_counter: final(self).irq_counter,
                irq_enable: final(self).irq_enable,
                irq_pending: final(self).irq_pending,
                pulse1: final(self).pulse1,
                pulse2: final(self).pulse2,
                saw: final(self).saw,
                ..*old(self)
            }),
            final(self).clock_cpu_post(*old(self), cpu_cycles),
    {
        let mut i: u32 = 0;
        while i < cpu_cycles
            invariant
                i <= cpu_cycles,
                (self.irq_counter, self.irq_enable, self.irq_pending) == vrc6_irq_after(
                    old(self).irq_counter,
                    old(self).irq_latch,
                    old(self).irq_enable,
                    old(self).irq_enable_after_ack,
                    old(self).irq_pending,
                    i as nat,
                ),
                *self == (Vrc6 {
                    irq_counter: self.irq_counter,
                    irq_enable: self.irq_enable,
                    irq_pending: self.irq_pending,
                    ..*old(self)
                }),
            decreases cpu_cycles - i,
        {
            if self.irq_counter == 0 {
                self.irq_counter = self.irq_latch;
                if self.irq_enable {
                    self.irq_pending = true;
                    if !self.irq_enable_after_ack {
                        self.irq_enable = false;
                    }
                }
            } else {
                self.irq_counter = self.irq_counter - 1;
            }
            i = i + 1;
        }
        self.clock_audio(cpu_cycles);
    }
}

/// A disabled channel is silent and does not move however long it is clocked.
pub proof fn law_vrc6_disabled_channels_silent(p: PulseChannel, s: SawChannel, n: nat)
    requires
        !p.enabled,
        !s.enabled,
    ensures
        pulse_clocked(p, n) == p,
        saw_clocked(s, n) == s,
        pulse_output(p) == 0,
        saw_output(s) == 0,
{
}

/// The sawtooth accumulator stays below 128, so its output stays in 0-31.
pub proof fn law_vrc6_saw_bounded(accum: u8, rate: u8)
    requires
        accum < 128,
    ensures
        saw_advance(accum, rate) < 128,
        saw_advance(accum, rate) / 4 < 32,
{
}


impl Vrc6 {
    /// Whether `o` holds the same state as `self`, byte for byte.
    pub open spec fn same_state(&self, o: &Vrc6) -> bool {
        &&& o.prg_rom@ == self.prg_rom@
        &&& o.chr@ == self.chr@
        &&& o.chr_is_ram == self.chr_is_ram
        &&& o.prg_ram@ == self.prg_ram@
        &&& o.has_battery == self.has_battery
        &&& o.prg_bank_16k == self.prg_bank_16k
        &&& o.prg_bank_8k == self.prg_bank_8k
        &&& o.chr_banks == self.chr_banks
        &&& o.mirror_horizontal == self.mirror_horizontal
        &&& o.irq_latch == self.irq_latch
        &&& o.irq_counter == self.irq_counter
        &&& o.irq_enable == self.irq_enable
        &&& o.irq_enable_after_ack == self.irq_enable_after_ack
        &&& o.irq_pending == self.irq_pending
        &&& o.pulse1 == self.pulse1
        &&& o.pulse2 == self.pulse2
        &&& o.saw == self.saw
        &&& o.swap_addr == self.swap_addr
    }

    /// The contract of [`Vrc6::save_state`] as a predicate.
    pub open spec fn save_state_post(&self, s: MapperState) -> bool {
        &&& (s matches MapperState::Vrc6(m) && self.same_state(&m))
    }

    /// Capture the mapper's whole state as a snapshot.
    pub fn save_state(&self) -> (s: MapperState)
        ensures
            s matches MapperState::Vrc6(m) && self.same_state(&m),
            self.save_state_post(s),
    {
        MapperState::Vrc6(Vrc6 {
            prg_rom: clone_bytes(&self.prg_rom),
            chr: clone_bytes(&self.chr),
            chr_is_ram: self.chr_is_ram,
            prg_ram: clone_bytes(&self.prg_ram),
            has_battery: self.has_battery,
            prg_bank_16k: self.prg_bank_16k,
            prg_bank_8k: self.prg_bank_8k,
            chr_banks: self.chr_banks,
            mirror_horizontal: self.mirror_horizontal,
            irq_latch: self.irq_latch,
            irq_counter: self.irq_counter,
            irq_enable: self.irq_enable,
            irq_enable_after_ack: self.irq_enable_after_ack,
            irq_pending: self.irq_pending,
            pulse1: self.pulse1,
            pulse2: self.pulse2,
            saw: self.saw,
            swap_addr: self.swap_addr,
        })
    }

    /// Restore the mapper's state from a snapshot of the same board type.
    pub fn restore_state(&mut self, state: MapperState)
        requires
            state is Vrc6,
        ensures
            state matches MapperState::Vrc6(m) && *final(self) == m,
    {
        match state {
            MapperState::Vrc6(m) => {
                *self = m;
            },
            _ => {},
        }
    }
}

} // verus!

verus! {

/// A pulse channel that is never enabled stays silent: every register
/// write other than one to its enable register (`$x002`) with bit 7 set
/// keeps it disabled, clocking keeps it disabled, and a disabled channel
/// outputs 0. In any state its output is 0 or its volume (at most 15).
pub proof fn law_vrc6_pulse1_silent_until_enabled(before: Vrc6, after: Vrc6, reg: u16, value: u8, n: nat)
    ensures
        pulse_output(before.pulse1) == 0 || pulse_output(before.pulse1) == before.pulse1.control % 16,
        pulse_output(before.pulse1) <= 15,
        !before.pulse1.enabled ==> pulse_output(before.pulse1) == 0,
        !before.pulse1.enabled ==> !pulse_clocked(before.pulse1, n).enabled,
        !before.pulse1.enabled && before.register_write_post(&after, reg, value) && !(reg == 0x9002 && value & 0x80 != 0)
            ==> !after.pulse1.enabled,
        !pulse_reset().enabled,
{
}

} // verus!

verus! {

/// A call on a VRC6 board, as far as pulse 1 is concerned: a CPU write, a
/// clock of `n` CPU cycles, or any other call (all of which keep pulse 1).
pub enum Vrc6Call {
    WritePrg(u16, u8),
    Clock(u32),
    Other,
}

/// Pulse 1 of `v` after `call`.
pub open spec fn pulse1_after_call(v: Vrc6, call: Vrc6Call) -> PulseChannel {
    match call {
        Vrc6Call::WritePrg(addr, value) => {
            let reg = vrc6_decode(v.swap_addr, addr);
            if addr >= 0x8000 && 0x9000 <= reg <= 0x9003 {
                pulse_write(v.pulse1, (reg - 0x9000) as u16, value, true)
            } else {
                v.pulse1
            }
        },
        Vrc6Call::Clock(n) => pulse_clocked(v.pulse1, n as nat),
        Vrc6Call::Other => v.pulse1,
    }
}

/// Whether `call` on `v` enables pulse 1: a write with bit 7 set to the
/// register that decodes to `$9002`.
pub open spec fn enables_pulse1(v: Vrc6, call: Vrc6Call) -> bool {
    match call {
        Vrc6Call::WritePrg(addr, value) => addr >= 0x8000 && vrc6_decode(v.swap_addr, addr) == 0x9002 && value & 0x80 != 0,
        _ => false,
    }
}

/// Pulse 1 of a freshly built VRC6 stays silent through any run of calls
/// that never enables it: at the end it is still disabled and outputs 0.
pub proof fn law_vrc6_pulse1_silent_over_calls(states: Seq<Vrc6>, calls: Seq<Vrc6Call>)
    requires
        states.len() == calls.len() + 1,
        states[0].pulse1 == pulse_reset(),
        forall|i: int| 0 <= i < calls.len() ==> #[trigger] states[i + 1].pulse1 == pulse1_after_call(states[i], calls[i]),
        forall|i: int| 0 <= i < calls.len() ==> !#[trigger] enables_pulse1(states[i], calls[i]),
    ensures
        !states.last().pulse1.enabled,
        pulse_output(states.last().pulse1) == 0,
    decreases calls.len(),
{
    if calls.len() > 0 {
        let n = calls.len() - 1;
        law_vrc6_pulse1_silent_over_calls(states.take(n + 1), calls.take(n));
        assert(states.take(n + 1).last() == states[n]);
        assert(states[n + 1].pulse1 == pulse1_after_call(states[n], calls[n]));
        assert(!enables_pulse1(states[n], calls[n]));
    }
}

} // verus!

verus! {

/// An enabled pulse channel outputs its volume (`$x000` bits 0-3) exactly
/// while its step lies in the duty window, the first `duty + 1` of its 16
/// steps with `duty` in `$x000` bits 4-6; outside the window, or while
/// disabled, it outputs 0.
pub proof fn law_vrc6_pulse_duty_window(ch: PulseChannel)
    ensures
        ch.enabled && ch.step < ((ch.control >> 4u8) & 7) + 1 ==> pulse_output(ch) == ch.control & 0x0F,
        ch.enabled && ch.step >= ((ch.control >> 4u8) & 7) + 1 ==> pulse_output(ch) == 0,
        !ch.enabled ==> pulse_output(ch) == 0,
{
    crate::bits::lemma_u8_masks(ch.control);
    crate::bits::lemma_u8_masks(ch.control >> 4u8);
}

} // verus!

verus! {

/// The sawtooth outputs the top five bits of its 7-bit accumulator while
/// enabled; at each timer reload the accumulator grows by the rate's low
/// six bits and restarts at 0 on reaching 128.
pub proof fn law_vrc6_saw_ramp(ch: SawChannel, accum: u8, rate: u8)
    requires
        accum < 128,
    ensures
        ch.enabled ==> saw_output(ch) == ch.accum >> 2u8,
        !ch.enabled ==> saw_output(ch) == 0,
        accum + (rate & 0x3F) < 128 ==> saw_advance(accum, rate) == accum + (rate & 0x3F),
        accum + (rate & 0x3F) >= 128 ==> saw_advance(accum, rate) == 0,
{
    crate::bits::lemma_u8_masks(ch.accum);
    crate::bits::lemma_u8_masks(rate);
}

/// A pulse channel's timer counts down each cycle; when it is at 0 it
/// reloads from the period and the duty step moves on by one, from 15
/// back to 0.
pub proof fn law_vrc6_pulse_step_advance(timer: u16, step: u8, period: u16)
    requires
        step < 16,
    ensures
        timer > 0 ==> pulse_after(timer, step, period, 1) == ((timer - 1) as u16, step),
        timer == 0 && step < 15 ==> pulse_after(timer, step, period, 1) == (period, (step + 1) as u8),
        timer == 0 && step == 15 ==> pulse_after(timer, step, period, 1) == (period, 0u8),
{
    assert(pulse_after(timer, step, period, 0) == (timer, step));
}

} // verus!
