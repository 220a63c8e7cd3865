//! Famicom Disk System expansion audio — one wavetable channel with a
//! frequency modulator.
//!
//! | Address       | Function                                          |
//! |---------------|---------------------------------------------------|
//! | `$4040-$407F` | Wave table write (6-bit; auto-increment unless the  |
//! |               | `$4089` write-mode bit is set)                    |
//! | `$4080`       | Volume (bits 0-5), envelope off (6), up (7)       |
//! | `$4081/$4082` | Frequency high (bits 0-3) / low                   |
//! | `$4083`       | Modulator frequency high, bit 7 = mod disable     |
//! | `$4084/$4085` | Modulator sweep rate, negative / positive         |
//! | `$4086/$4087` | Modulator gain, negative / positive (+ disable)   |
//! | `$4088`       | Modulator table write (3-bit, auto-increment)     |
//! | `$4089`       | Master volume (bits 0-1), bit 6 = wave write mode |
//! | `$408A`       | Bit 7 = mod disable                               |
//! | `$4090/$4092` | Read: volume gain / modulator gain output (6-bit) |
//!
//! The sample level is an integer here; the program scales it to
//! floating point.
//!
//! See: https://www.nesdev.org/wiki/FDS_audio

use vstd::prelude::*;

verus! {

/// Wave table size.
pub const WAVE_TABLE_SIZE: usize = 64;
/// Modulator table size.
pub const MOD_TABLE_SIZE: usize = 64;

/// FDS audio state.
#[derive(Clone, Copy)]
pub struct FdsAudio {
    /// Wave table (6-bit samples).
    pub wave_ram: [u8; 64],
    /// Wave table write pointer.
    pub wave_addr: u8,
    /// Wave RAM write mode (`$4089` bit 6): while set, wave-table writes
    /// leave the write pointer where it is.
    pub wave_write_mode: bool,
    /// Master volume (6-bit).
    pub master_volume: u8,
    /// Volume envelope disabled (`$4080` bit 6).
    pub env_disabled: bool,
    /// Envelope direction: true = increase (`$4080` bit 7).
    pub env_increase: bool,
    /// Current volume gain (6-bit).
    pub volume_gain: u8,
    /// Main channel frequency (12-bit).
    pub freq: u16,
    /// Main channel phase accumulator.
    pub phase_acc: u32,
    /// Modulator frequency (12-bit).
    pub mod_freq: u16,
    /// Modulator phase accumulator.
    pub mod_phase_acc: u32,
    /// Modulator table (3-bit samples).
    pub mod_wave: [u8; 64],
    /// Modulator table write pointer.
    pub mod_wave_addr: u8,
    /// Modulator disabled.
    pub mod_disabled: bool,
    /// Signed modulator gain.
    pub mod_gain: i8,
    /// Sweep/envelope tick counter (0-7).
    pub mod_sweep_counter: u8,
    /// Sweep rate, negative direction.
    pub mod_sweep_neg: u8,
    /// Sweep rate, positive direction.
    pub mod_sweep_pos: u8,
    /// Modulator gain output (read at `$4092`).
    pub mod_gain_output: u8,
}

/// `a + b` clamped to the `i8` range (`i8::saturating_add`).
pub open spec fn sat_add_i8(a: i8, b: i8) -> i8 {
    if a + b > 127 {
        127i8
    } else if a + b < -128 {
        -128i8
    } else {
        (a + b) as i8
    }
}

/// `a - b` clamped to the `i8` range (`i8::saturating_sub`).
pub open spec fn sat_sub_i8(a: i8, b: i8) -> i8 {
    if a - b > 127 {
        127i8
    } else if a - b < -128 {
        -128i8
    } else {
        (a - b) as i8
    }
}

/// `a + b` wrapping at 2^32.
pub open spec fn wrap_add_u32(a: u32, b: u32) -> u32 {
    ((a + b) % 0x1_0000_0000) as u32
}

/// The audio state one APU cycle later: the phases advance by their
/// frequencies; an active modulator ticks the sweep counter and, every
/// eighth tick, sweeps its gain; the envelope moves the volume gain one
/// step whenever the counter is at 0.
pub open spec fn fds_audio_step(a: FdsAudio) -> FdsAudio {
    let phase = wrap_add_u32(a.phase_acc, a.freq as u32);
    let (mod_phase, counter, gain) = if !a.mod_disabled {
        let mp = wrap_add_u32(a.mod_phase_acc, a.mod_freq as u32);
        let c1 = ((a.mod_sweep_counter + 1) % 256) as u8;
        if c1 >= 8 {
            let g1 = if a.mod_sweep_neg > 0 { sat_sub_i8(a.mod_gain, a.mod_sweep_neg as i8) } else { a.mod_gain };
            let g2 = if a.mod_sweep_pos > 0 { sat_add_i8(g1, a.mod_sweep_pos as i8) } else { g1 };
            (mp, 0u8, g2)
        } else {
            (mp, c1, a.mod_gain)
        }
    } else {
        (a.mod_phase_acc, a.mod_sweep_counter, a.mod_gain)
    };
    let vg: u8 = if !a.env_disabled && counter == 0 {
        if a.env_increase && a.volume_gain < 0x3F {
            (a.volume_gain + 1) as u8
        } else if !a.env_increase && a.volume_gain > 0 {
            (a.volume_gain - 1) as u8
        } else {
            a.volume_gain
        }
    } else {
        a.volume_gain
    };
    FdsAudio {
        phase_acc: phase,
        mod_phase_acc: mod_phase,
        mod_sweep_counter: counter,
        mod_gain: gain,
        volume_gain: vg,
        ..a
    }
}

/// The audio state after `n` APU cycles.
pub open spec fn fds_audio_after(a: FdsAudio, n: nat) -> FdsAudio
    decreases n,
{
    if n == 0 {
        a
    } else {
        fds_audio_step(fds_audio_after(a, (n - 1) as nat))
    }
}

/// The output level of `a` before scaling: the wave table entry at the
/// phase, offset by the modulator (gain × table value, divided by 8 and
/// rounded down) when
/// it is active, centred at 32 and multiplied by the volume gain.
pub open spec fn fds_sample_level(a: FdsAudio) -> i32 {
    let wave_idx = (a.phase_acc / 4096) % 64;
    let mod_offset: int = if !a.mod_disabled {
        (a.mod_gain * a.mod_wave@[((a.mod_phase_acc / 4096) % 64) as int]) / 8
    } else {
        0
    };
    let eff = (wave_idx + mod_offset) % 64;
    ((a.wave_ram@[eff] - 32) * a.volume_gain) as i32
}

/// The state after a write of `value` to control register `addr`.
pub open spec fn fds_audio_write(a: FdsAudio, addr: u16, value: u8) -> FdsAudio {
    if addr == 0x4080 {
        let vol = value % 64;
        let disabled = value & 0x40 != 0;
        let inc = value & 0x80 != 0;
        FdsAudio {
            master_volume: vol,
            env_disabled: disabled,
            env_increase: inc,
            volume_gain: if disabled { vol } else if inc { 0u8 } else { 0x3Fu8 },
            ..a
        }
    } else if addr == 0x4081 {
        FdsAudio { freq: (a.freq & 0x00FF) | (((value as u16) & 0x0F) << 8u16), ..a }
    } else if addr == 0x4082 {
        FdsAudio { freq: (a.freq & 0x0F00) | (value as u16), ..a }
    } else if addr == 0x4083 {
        FdsAudio {
            mod_freq: (a.mod_freq & 0x00FF) | (((value as u16) & 0x0F) << 8u16),
            mod_disabled: if value & 0x80 != 0 { true } else { a.mod_disabled },
            mod_phase_acc: if value & 0x80 != 0 { 0u32 } else { a.mod_phase_acc },
            ..a
        }
    } else if addr == 0x4084 {
        FdsAudio { mod_sweep_neg: value % 16, ..a }
    } else if addr == 0x4085 {
        FdsAudio { mod_sweep_pos: value % 16, ..a }
    } else if addr == 0x4086 {
        FdsAudio { mod_gain: sat_sub_i8(a.mod_gain, (value % 64) as i8), ..a }
    } else if addr == 0x4087 {
        FdsAudio {
            mod_gain: sat_add_i8(a.mod_gain, (value % 64) as i8),
            mod_disabled: if value & 0x80 != 0 { true } else { a.mod_disabled },
            ..a
        }
    } else if addr == 0x4089 {
        FdsAudio { master_volume: (a.master_volume & 0x3C) | (value % 4), wave_write_mode: value & 0x40 != 0, ..a }
    } else if addr == 0x408A {
        FdsAudio { mod_disabled: if value & 0x80 != 0 { true } else { a.mod_disabled }, ..a }
    } else {
        a
    }
}

/// `a + b` clamped to the `i8` range.
fn saturating_add_i8(a: i8, b: i8) -> (r: i8)
    ensures
        r == sat_add_i8(a, b),
{
    let s: i16 = a as i16 + b as i16;
    if s > 127 {
        127
    } else if s < -128 {
        -128
    } else {
        s as i8
    }
}

/// `a - b` clamped to the `i8` range.
fn saturating_sub_i8(a: i8, b: i8) -> (r: i8)
    ensures
        r == sat_sub_i8(a, b),
{
    let s: i16 = a as i16 - b as i16;
    if s > 127 {
        127
    } else if s < -128 {
        -128
    } else {
        s as i8
    }
}

impl FdsAudio {
    /// The power-on state: tables zeroed, silent, modulator disabled.
    pub open spec fn power_on(&self) -> bool {
        let a = *self;
        &&& a.wave_ram@ == Seq::new(64, |i: int| 0u8)
        &&& a.mod_wave@ == Seq::new(64, |i: int| 0u8)
        &&& a.wave_addr == 0 && a.master_volume == 0 && !a.env_disabled && !a.env_increase
        &&& !a.wave_write_mode
        &&& a.volume_gain == 0 && a.freq == 0 && a.phase_acc == 0
        &&& a.mod_freq == 0 && a.mod_phase_acc == 0 && a.mod_wave_addr == 0
        &&& a.mod_disabled
        &&& a.mod_gain == 0 && a.mod_sweep_counter == 0 && a.mod_sweep_neg == 0 && a.mod_sweep_pos == 0
        &&& a.mod_gain_output == 0
    }

    /// The value a read of register `addr` gives.
    pub open spec fn register_value(&self, addr: u16) -> u8 {
        if addr == 0x4090 {
            self.volume_gain % 64
        } else if addr == 0x4092 {
            self.mod_gain_output % 64
        } else {
            0
        }
    }

    /// Whether `self` is the state a write of `value` at `addr` leaves
    /// `before` in: a table write stores the value (6 bits for the wave
    /// table, 3 for the modulator table) at the table's pointer and moves
    /// the pointer on (the wave pointer only while the `$4089` write-mode
    /// bit is clear); a control write acts as [`fds_audio_write`]; any
    /// other address changes nothing.
    pub open spec fn after_write(&self, before: FdsAudio, addr: u16, value: u8) -> bool {
        if 0x4040 <= addr <= 0x407F {
            &&& self.wave_ram@ == before.wave_ram@.update((before.wave_addr % 64) as int, value % 64)
            &&& self.wave_addr == (if before.wave_write_mode {
                before.wave_addr
            } else {
                (((before.wave_addr + 1) % 256) % 64) as u8
            })
            &&& (FdsAudio { wave_ram: before.wave_ram, wave_addr: before.wave_addr, ..*self }) == before
        } else if addr == 0x4088 {
            &&& self.mod_wave@ == before.mod_wave@.update((before.mod_wave_addr % 64) as int, value % 8)
            &&& self.mod_wave_addr == (((before.mod_wave_addr + 1) % 256) % 64) as u8
            &&& (FdsAudio { mod_wave: before.mod_wave, mod_wave_addr: before.mod_wave_addr, ..*self }) == before
        } else if 0x4080 <= addr <= 0x408A {
            *self == fds_audio_write(before, addr, value)
        } else {
            *self == before
        }
    }

    /// Power-on state: tables zeroed, silent, modulator disabled.
    pub fn new() -> (a: Self)
        ensures
            a.power_on(),
            a.wave_ram@ == Seq::new(64, |i: int| 0u8),
            a.mod_wave@ == Seq::new(64, |i: int| 0u8),
            a.wave_addr == 0 && a.master_volume == 0 && !a.env_disabled && !a.env_increase,
            !a.wave_write_mode,
            a.volume_gain == 0 && a.freq == 0 && a.phase_acc == 0,
            a.mod_freq == 0 && a.mod_phase_acc == 0 && a.mod_wave_addr == 0,
            a.mod_disabled,
            a.mod_gain == 0 && a.mod_sweep_counter == 0 && a.mod_sweep_neg == 0 && a.mod_sweep_pos == 0,
            a.mod_gain_output == 0,
    {
        let a = FdsAudio {
            wave_ram: [0u8; 64],
            wave_addr: 0,
            wave_write_mode: false,
            master_volume: 0,
            env_disabled: false,
            env_increase: false,
            volume_gain: 0,
            freq: 0,
            phase_acc: 0,
            mod_freq: 0,
            mod_phase_acc: 0,
            mod_wave: [0u8; 64],
            mod_wave_addr: 0,
            mod_disabled: true,
            mod_gain: 0,
            mod_sweep_counter: 0,
            mod_sweep_neg: 0,
            mod_sweep_pos: 0,
            mod_gain_output: 0,
        };
        assert(a.wave_ram@ =~= Seq::new(64, |i: int| 0u8));
        assert(a.mod_wave@ =~= Seq::new(64, |i: int| 0u8));
        a
    }

    /// Write an audio register (`$4040-$408A`); other addresses are ignored.
    /// A wave-table write stores the low 6 bits at the write pointer and
    /// advances it unless `$4089` bit 6 is set; a modulator-table write stores the low 3 bits likewise.
    pub fn write_register(&mut self, addr: u16, value: u8)
        ensures
            final(self).after_write(*old(self), addr, value),
    {
        if 0x4040 <= addr && addr <= 0x407F {
            self.write_wave(value);
        } else if addr == 0x4088 {
            self.write_mod_wave(value);
        } else if 0x4080 <= addr && addr <= 0x408A {
            self.write_control(addr, value);
        }
    }

    /// Store the low 6 bits of `value` in the wave table and, outside wave
    /// write mode, advance its pointer.
    fn write_wave(&mut self, value: u8)
        ensures
            final(self).wave_ram@ == old(self).wave_ram@.update((old(self).wave_addr % 64) as int, value % 64),
            final(self).wave_addr == (if old(self).wave_write_mode {
                old(self).wave_addr
            } else {
                (((old(self).wave_addr + 1) % 256) % 64) as u8
            }),
            (FdsAudio { wave_ram: old(self).wave_ram, wave_addr: old(self).wave_addr, ..*final(self) }) == *old(self),
    {
        let i: usize = self.wave_addr as usize % 64;
        self.wave_ram[i] = value % 64;
        if !self.wave_write_mode {
            let w1: u8 = self.wave_addr.wrapping_add(1);
            self.wave_addr = w1 % 64;
        }
    }

    /// Store the low 3 bits of `value` in the modulator table and advance its pointer.
    fn write_mod_wave(&mut self, value: u8)
        ensures
            final(self).mod_wave@ == old(self).mod_wave@.update((old(self).mod_wave_addr % 64) as int, value % 8),
            final(self).mod_wave_addr == (((old(self).mod_wave_addr + 1) % 256) % 64) as u8,
            (FdsAudio { mod_wave: old(self).mod_wave, mod_wave_addr: old(self).mod_wave_addr, ..*final(self) }) == *old(self),
    {
        let i: usize = self.mod_wave_addr as usize % 64;
        self.mod_wave[i] = value % 8;
        let w1: u8 = self.mod_wave_addr.wrapping_add(1);
        self.mod_wave_addr = w1 % 64;
    }

    /// Write one of the control registers `$4080-$408A` (not `$4088`).
    fn write_control(&mut self, addr: u16, value: u8)
        requires
            0x4080 <= addr <= 0x408A,
            addr != 0x4088,
        ensures
            *final(self) == fds_audio_write(*old(self), addr, value),
    {
        proof {
            crate::bits::lemma_u8_masks(value);
        }
        if addr == 0x4080 {
            self.master_volume = value & 0x3F;
            self.env_disabled = (value & 0x40) != 0;
            self.env_increase = (value & 0x80) != 0;
            if self.env_disabled {
                self.volume_gain = self.master_volume;
            } else {
                self.volume_gain = if self.env_increase { 0 } else { 0x3F };
            }
        } else if addr == 0x4081 {
            self.freq = (self.freq & 0x00FF) | (((value as u16) & 0x0F) << 8u16);
        } else if addr == 0x4082 {
            self.freq = (self.freq & 0x0F00) | (value as u16);
        } else if addr == 0x4083 {
            self.mod_freq = (self.mod_freq & 0x00FF) | (((value as u16) & 0x0F) << 8u16);
            if value & 0x80 != 0 {
                self.mod_disabled = true;
                self.mod_phase_acc = 0;
            }
        } else if addr == 0x4084 {
            self.mod_sweep_neg = value & 0x0F;
        } else if addr == 0x4085 {
            self.mod_sweep_pos = value & 0x0F;
        } else if addr == 0x4086 {
            let neg: i8 = (value & 0x3F) as i8;
            self.mod_gain = saturating_sub_i8(self.mod_gain, neg);
        } else if addr == 0x4087 {
            let pos: i8 = (value & 0x3F) as i8;
            self.mod_gain = saturating_add_i8(self.mod_gain, pos);
            if value & 0x80 != 0 {
                self.mod_disabled = true;
            }
        } else if addr == 0x4089 {
            self.master_volume = (self.master_volume & 0x3C) | (value & 0x03);
            self.wave_write_mode = (value & 0x40) != 0;
        } else if addr == 0x408A {
            if value & 0x80 != 0 {
                self.mod_disabled = true;
            }
        }
    }

    /// Read an audio register: `$4090` the volume gain, `$4092` the
    /// modulator gain output (6 bits each); anything else reads 0.
    pub fn read_register(&self, addr: u16) -> (r: u8)
        ensures
            r == self.register_value(addr),
            addr == 0x4090 ==> r == self.volume_gain % 64,
            addr == 0x4092 ==> r == self.mod_gain_output % 64,
            addr != 0x4090 && addr != 0x4092 ==> r == 0,
    {
        proof {
            crate::bits::lemma_u8_masks(self.volume_gain);
            crate::bits::lemma_u8_masks(self.mod_gain_output);
        }
        if addr == 0x4090 {
            self.volume_gain & 0x3F
        } else if addr == 0x4092 {
            self.mod_gain_output & 0x3F
        } else {
            0
        }
    }

    /// Advance the audio by one APU cycle.
    fn step(&mut self)
        ensures
            *final(self) == fds_audio_step(*old(self)),
    {
        self.phase_acc = self.phase_acc.wrapping_add(self.freq as u32);
        if !self.mod_disabled {
            self.mod_phase_acc = self.mod_phase_acc.wrapping_add(self.mod_freq as u32);
            self.mod_sweep_counter = self.mod_sweep_counter.wrapping_add(1);
            if self.mod_sweep_counter >= 8 {
                self.mod_sweep_counter = 0;
                if self.mod_sweep_neg > 0 {
                    self.mod_gain = saturating_sub_i8(self.mod_gain, self.mod_sweep_neg as i8);
                }
                if self.mod_sweep_pos > 0 {
                    self.mod_gain = saturating_add_i8(self.mod_gain, self.mod_sweep_pos as i8);
                }
            }
        }
        if !self.env_disabled && self.mod_sweep_counter == 0 {
            if self.env_increase && self.volume_gain < 0x3F {
                self.volume_gain = self.volume_gain + 1;
            } else if !self.env_increase && self.volume_gain > 0 {
                self.volume_gain = self.volume_gain - 1;
            }
        }
    }

    /// Advance the audio by `apu_cycles` APU cycles (CPU clock / 2).
    pub fn clock(&mut self, apu_cycles: u32)
        ensures
            *final(self) == fds_audio_after(*old(self), apu_cycles as nat),
    {
        let mut i: u32 = 0;
        while i < apu_cycles
            invariant
                i <= apu_cycles,
                *self == fds_audio_after(*old(self), i as nat),
            decreases apu_cycles - i,
        {
            self.step();
            i = i + 1;
        }
    }

    /// The current output level before scaling: the wave table entry at
    /// the phase (shifted by the modulator when active), centred at 32 and
    /// multiplied by the volume gain; `None` while the frequency is 0
    /// (silence).
    pub fn sample_level(&self) -> (r: Option<i32>)
        ensures
            self.freq == 0 ==> r is None,
            self.freq != 0 ==> r == Some(fds_sample_level(*self)),
    {
        if self.freq == 0 {
            return None;
        }
        proof {
            crate::bits::lemma_u32_masks(self.phase_acc);
            crate::bits::lemma_u32_masks(self.phase_acc >> 12u32);
            crate::bits::lemma_u32_masks(self.mod_phase_acc);
            crate::bits::lemma_u32_masks(self.mod_phase_acc >> 12u32);
        }
        let wave_idx: u32 = (self.phase_acc >> 12u32) & 0x3F;
        let mod_offset: i32 = if !self.mod_disabled {
            let mod_idx: u32 = (self.mod_phase_acc >> 12u32) & 0x3F;
            let mod_val: i32 = self.mod_wave[mod_idx as usize] as i32;
            let g: i32 = self.mod_gain as i32;
            assert(-128 * 255 <= g * mod_val <= 127 * 255) by (nonlinear_arith)
                requires -128 <= g <= 127, 0 <= mod_val <= 255;
            let p: i32 = g * mod_val;
            if p >= 0 {
                p / 8
            } else {
                0 - ((0 - p + 7) / 8)
            }
        } else {
            0
        };
        let s: i32 = wave_idx as i32 + mod_offset;
        let eff: u32 = if s >= 0 {
            (s as u32) % 64
        } else {
            let t: u32 = ((0 - s) as u32) % 64;
            if t == 0 { 0 } else { 64 - t }
        };
        let wave_val: i32 = self.wave_ram[eff as usize] as i32;
        let vol: i32 = self.volume_gain as i32;
        assert(-32 * 255 <= (wave_val - 32) * vol <= 223 * 255) by (nonlinear_arith)
            requires 0 <= wave_val <= 255, 0 <= vol <= 255;
        Some((wave_val - 32) * vol)
    }

    /// The wave table.
    pub fn wave_ram(&self) -> (r: &[u8; 64])
        ensures
            r@ == self.wave_ram@,
    {
        &self.wave_ram
    }

    /// The modulator table.
    pub fn mod_wave(&self) -> (r: &[u8; 64])
        ensures
            r@ == self.mod_wave@,
    {
        &self.mod_wave
    }

    /// The main channel frequency (12-bit).
    pub fn freq_value(&self) -> (r: u16)
        ensures
            r == self.freq,
    {
        self.freq
    }

    /// The main channel phase accumulator.
    pub fn phase_value(&self) -> (r: u32)
        ensures
            r == self.phase_acc,
    {
        self.phase_acc
    }

    /// The current volume gain.
    pub fn volume_gain_value(&self) -> (r: u8)
        ensures
            r == self.volume_gain,
    {
        self.volume_gain
    }
}

/// The envelope keeps the volume gain within 6 bits: from a gain of at
/// most 63, any number of cycles leaves it at most 63.
pub proof fn law_fds_volume_gain_bounded(a: FdsAudio, n: nat)
    requires
        a.volume_gain <= 63,
    ensures
        fds_audio_after(a, n).volume_gain <= 63,
    decreases n,
{
    if n > 0 {
        law_fds_volume_gain_bounded(a, (n - 1) as nat);
    }
}

} // verus!

verus! {

/// The volume envelope moves the gain one step per envelope tick in the
/// direction `$4080` bit 7 selects: up by one while increasing and below
/// 63, down by one while decreasing and above 0, and not at all at the end
/// of its range. An envelope tick is a cycle that leaves the modulator's
/// sweep counter at 0: with the modulator off and the counter at 0, or
/// with it on and the counter about to wrap from 7.
pub proof fn law_fds_envelope_direction(a: FdsAudio)
    requires
        !a.env_disabled,
        (a.mod_disabled && a.mod_sweep_counter == 0) || (!a.mod_disabled && a.mod_sweep_counter == 7),
    ensures
        a.env_increase && a.volume_gain < 63 ==> fds_audio_after(a, 1).volume_gain == a.volume_gain + 1,
        !a.env_increase && a.volume_gain > 0 ==> fds_audio_after(a, 1).volume_gain == a.volume_gain - 1,
        a.env_increase && a.volume_gain >= 63 ==> fds_audio_after(a, 1).volume_gain == a.volume_gain,
        !a.env_increase && a.volume_gain == 0 ==> fds_audio_after(a, 1).volume_gain == 0,
{
    assert(fds_audio_after(a, 0) == a);
    assert(fds_audio_after(a, 1) == fds_audio_step(fds_audio_after(a, 0)));
}

/// With the envelope disabled the volume gain holds whatever the cycle.
pub proof fn law_fds_envelope_disabled_holds(a: FdsAudio, n: nat)
    requires
        a.env_disabled,
    ensures
        fds_audio_after(a, n).volume_gain == a.volume_gain,
        fds_audio_after(a, n).env_disabled,
    decreases n,
{
    if n > 0 {
        law_fds_envelope_disabled_holds(a, (n - 1) as nat);
    }
}

} // verus!

verus! {

/// Every eighth tick of an active modulator sweeps its gain: the negative
/// sweep rate lowers it and the positive one raises it (each clamped to the
/// `i8` range); an inactive modulator leaves the gain and its counter
/// alone.
pub proof fn law_fds_mod_sweep_direction(a: FdsAudio)
    requires
        -64 <= a.mod_gain <= 63,
        a.mod_sweep_neg < 16,
        a.mod_sweep_pos < 16,
    ensures
        !a.mod_disabled && a.mod_sweep_counter == 7 ==> fds_audio_after(a, 1).mod_gain == a.mod_gain
            - a.mod_sweep_neg + a.mod_sweep_pos,
        !a.mod_disabled && a.mod_sweep_counter == 7 ==> fds_audio_after(a, 1).mod_sweep_counter == 0,
        !a.mod_disabled && a.mod_sweep_counter < 7 ==> fds_audio_after(a, 1).mod_gain == a.mod_gain
            && fds_audio_after(a, 1).mod_sweep_counter == a.mod_sweep_counter + 1,
        a.mod_disabled ==> fds_audio_after(a, 1).mod_gain == a.mod_gain && fds_audio_after(a, 1).mod_sweep_counter
            == a.mod_sweep_counter,
{
    assert(fds_audio_after(a, 0) == a);
    assert(fds_audio_after(a, 1) == fds_audio_step(fds_audio_after(a, 0)));
}

} // verus!
