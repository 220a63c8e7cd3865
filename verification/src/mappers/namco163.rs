//! Namco 163 — iNES mapper 19: four 8 KB PRG banks,
//! eight 1 KB CHR banks, switchable mirroring, 8 KB PRG-RAM, an IRQ counter
//! and an eight-channel wavetable synthesiser.
//!
//! Wave RAM (128 bytes) is read and written at `$4800-$4FFF` through the
//! address latch at `$F800` (bits 0-6 address, bit 7 auto-increment after
//! each write). Channel registers sit at `$5000-$57FF`, eight bytes per
//! channel. Bank registers are decoded by `addr & $F801`: `$8000-$B800` CHR
//! 0-7, `$C000-$D800` PRG 0-3, `$E000` mirroring, `$E800` PRG-RAM control,
//! `$F000` IRQ latch (low byte, then high byte).
//!
//! See: https://www.nesdev.org/wiki/Namco_163

use vstd::prelude::*;

use super::{
    bank_byte, bank_count, bank_index, byte_or_zero, clone_bytes, copy_prefix, count_banks, get_or_zero,
    initial_chr, make_chr, overlay_prefix, read_bank, set_if_in, store_if_in, zeroed, MapperState, Mirroring,
};

verus! {

pub const NAMCO_PRG_8K_SIZE: usize = 8192;
pub const NAMCO_CHR_1K_SIZE: usize = 1024;
pub const NAMCO_PRG_RAM_SIZE: usize = 8192;
/// Wave RAM size in bytes.
pub const WAVE_RAM_SIZE: usize = 0x80;
/// Number of wavetable channels.
pub const WAVE_CHANNELS: usize = 8;

/// One wavetable channel.
#[derive(Clone, Copy, Debug)]
pub struct WaveChan {
    /// 12-bit frequency.
    pub freq: u16,
    /// Waveform length, in units of eight samples (minus one).
    pub length: u8,
    /// Volume 0-15.
    pub volume: u8,
    /// Wave RAM start of the waveform, in bytes.
    pub offset: u8,
    /// Phase accumulator; bits 16 and up index the waveform's samples.
    pub phase: u32,
    pub enabled: bool,
}

/// Namco 163 cartridge state.
pub struct Namco163 {
    pub prg_rom: Vec<u8>,
    pub chr: Vec<u8>,
    pub chr_is_ram: bool,
    pub prg_ram: Vec<u8>,
    pub has_battery: bool,
    pub prg_banks: [u8; 4],
    pub chr_banks: [u8; 8],
    pub mirror: Mirroring,
    pub prg_ram_enable: bool,
    pub prg_ram_write_protect: bool,
    pub irq_latch: u16,
    pub irq_counter: u16,
    pub irq_enable: bool,
    pub irq_pending: bool,
    /// The next `$F000` write loads the high byte of the IRQ latch.
    pub irq_latch_high: bool,
    pub wave_ram: [u8; 128],
    /// Wave RAM address latch: bits 0-6 address, bit 7 auto-increment.
    pub wave_addr: u8,
    pub chans: [WaveChan; 8],
}

/// A silent, disabled channel.
pub open spec fn chan_reset() -> WaveChan {
    WaveChan { freq: 0, length: 0, volume: 0, offset: 0, phase: 0, enabled: false }
}

/// Register byte `sub` (0-7) of channel `c` as read back.
pub open spec fn chan_read(c: WaveChan, sub: int) -> u8 {
    if sub == 0 {
        (c.freq & 0xFF) as u8
    } else if sub == 1 {
        (((c.freq >> 8u16) & 0x0F) as u8) | ((c.length & 0x0F) << 4u8)
    } else if sub == 2 {
        c.volume & 0x0F
    } else if sub == 3 {
        (c.offset & 0x60) | (if c.enabled { 0x80u8 } else { 0u8 })
    } else {
        0
    }
}

/// Channel `c` after `value` is written to its register byte `sub` (0-7).
pub open spec fn chan_write(c: WaveChan, sub: int, value: u8) -> WaveChan {
    if sub == 0 {
        WaveChan { freq: (c.freq & 0x0F00) | (value as u16), ..c }
    } else if sub == 1 {
        WaveChan {
            freq: (c.freq & 0x00FF) | (((value as u16) & 0x0F) << 8u16),
            length: (value >> 4u8) & 0x0F,
            ..c
        }
    } else if sub == 2 {
        WaveChan { volume: value & 0x0F, ..c }
    } else if sub == 3 {
        WaveChan { offset: value & 0x60, enabled: value & 0x80 != 0, ..c }
    } else {
        c
    }
}

/// Bank-register address of CPU address `addr`.
pub open spec fn namco_decode(addr: u16) -> u16 {
    addr & 0xF801
}

/// Mirroring selected by a `$E000` write of `value`.
pub open spec fn namco_mirroring(value: u8) -> Mirroring {
    let m = value & 0x03;
    if m == 0 {
        Mirroring::Vertical
    } else if m == 1 {
        Mirroring::Horizontal
    } else if m == 2 {
        Mirroring::SingleScreen(0)
    } else {
        Mirroring::SingleScreen(1)
    }
}

/// The wave RAM address latch after a wave RAM write: with bit 7 set, the
/// 7-bit address moves to the next byte, wrapping within wave RAM.
pub open spec fn wave_addr_after_write(a: u8) -> u8 {
    if a & 0x80 != 0 {
        (a & 0x80) | ((((a & 0x7F) as int + 1) % 128) as u8)
    } else {
        a
    }
}

/// `(counter, pending)` after `n` CPU cycles: a zero counter reloads from
/// the latch (raising the IRQ when enabled), any other counts down.
pub open spec fn namco_irq_after(counter: u16, latch: u16, enable: bool, pending: bool, n: nat) -> (u16, bool)
    decreases n,
{
    if n == 0 {
        (counter, pending)
    } else {
        let (c, p) = namco_irq_after(counter, latch, enable, pending, (n - 1) as nat);
        if c == 0 {
            (latch, p || enable)
        } else {
            ((c - 1) as u16, p)
        }
    }
}

/// `a + b` modulo 2^32.
pub open spec fn wrap_add32(a: u32, b: u32) -> u32 {
    ((a as int + b as int) % 0x1_0000_0000) as u32
}

/// A phase accumulator advanced `n` times by `inc`, wrapping at 2^32.
pub open spec fn phase_after(phase: u32, inc: u32, n: nat) -> u32
    decreases n,
{
    if n == 0 {
        phase
    } else {
        wrap_add32(phase_after(phase, inc, (n - 1) as nat), inc)
    }
}

/// Number of enabled channels among the first `k`.
pub open spec fn enabled_count(chans: Seq<WaveChan>, k: int) -> nat
    decreases k,
{
    if k <= 0 {
        0
    } else {
        enabled_count(chans, k - 1) + if chans[k - 1].enabled { 1nat } else { 0nat }
    }
}

/// The phase step of channel `c` per CPU cycle with `active` channels
/// sharing the synthesiser (at least one).
pub open spec fn phase_step(c: WaveChan, active: nat) -> u32 {
    ((((c.freq as u32) << 8u32) as nat) / (if active == 0 { 1 } else { active })) as u32
}

/// Channel `c` after `n` CPU cycles with `active` channels enabled: an
/// enabled channel's phase advances by its step each cycle.
pub open spec fn chan_clocked(c: WaveChan, active: nat, n: nat) -> WaveChan {
    if c.enabled {
        WaveChan { phase: phase_after(c.phase, phase_step(c, active), n), ..c }
    } else {
        c
    }
}

/// The current output (0-15) of channel `c` over wave RAM `wave`: the
/// 4-bit sample at its phase (low nibble first in each byte) scaled by its
/// volume, or 0 when disabled.
pub open spec fn chan_output(c: WaveChan, wave: Seq<u8>) -> u8 {
    if !c.enabled {
        0
    } else {
        let len_nibbles = ((c.length as int) + 1) * 8;
        let nib = ((c.phase as int) / 0x10000) % len_nibbles;
        let b = wave[((c.offset as int) + nib / 2) % 128];
        let s = if nib % 2 == 1 { b / 16 } else { b % 16 };
        ((s * c.volume) / 15) as u8
    }
}

impl Namco163 {
    /// Every channel volume is at most 15.
    pub open spec fn wf(&self) -> bool {
        forall|i: int| 0 <= i < 8 ==> #[trigger] self.chans[i].volume <= 15
    }

    /// Index into PRG-RAM of CPU address `addr` (`$6000-$7FFF`).
    pub open spec fn prg_byte(&self, addr: u16) -> u8 {
        if 0x6000 <= addr < 0x8000 {
            if self.prg_ram_enable {
                byte_or_zero(self.prg_ram@, (addr as int) - 0x6000)
            } else {
                0
            }
        } else if 0x4800 <= addr < 0x5000 {
            self.wave_ram[(self.wave_addr % 128) as int]
        } else if 0x5000 <= addr < 0x5800 {
            let off = (addr as int) - 0x5000;
            if off / 8 < 8 {
                chan_read(self.chans[off / 8], off % 8)
            } else {
                0
            }
        } else {
            let local = (addr as int) - 0x8000;
            let count = bank_count(self.prg_rom@.len() as int, 8192);
            bank_byte(self.prg_rom@, 8192, ((self.prg_banks[local / 8192] as int) % count) % count, local % 8192)
        }
    }

    /// Index into CHR of PPU address `addr`.
    pub open spec fn spec_chr_index(&self, addr: u16) -> int {
        bank_index(self.chr@.len() as int, 1024, self.chr_banks[(addr as int) / 1024] as int, (addr as int) % 1024)
    }

    /// The byte the PPU sees at `addr` (`$0000-$1FFF`).
    pub open spec fn chr_byte(&self, addr: u16) -> u8 {
        byte_or_zero(self.chr@, self.spec_chr_index(addr))
    }

    /// `post` is the board after a write of `value` to bank register `reg`.
    pub open spec fn register_write_post(&self, post: &Self, reg: u16, value: u8) -> bool {
        &&& post.chr_banks@ == (if 0x8000 <= reg <= 0xB800 && reg % 0x800 == 0 {
            self.chr_banks@.update(((reg - 0x8000) / 0x800) as int, value)
        } else {
            self.chr_banks@
        })
        &&& post.prg_banks@ == (if 0xC000 <= reg <= 0xD800 && reg % 0x800 == 0 {
            self.prg_banks@.update(((reg - 0xC000) / 0x800) as int, value & 0x3F)
        } else {
            self.prg_banks@
        })
        &&& post.mirror == (if reg == 0xE000 { namco_mirroring(value) } else { self.mirror })
        &&& post.prg_ram_enable == (if reg == 0xE800 { value & 0x80 != 0 } else { self.prg_ram_enable })
        &&& post.prg_ram_write_protect == (if reg == 0xE800 { value & 0x40 != 0 } else { self.prg_ram_write_protect })
        &&& post.irq_latch == (if reg == 0xF000 {
            if !self.irq_latch_high {
                (self.irq_latch & 0xFF00) | (value as u16)
            } else {
                (self.irq_latch & 0x00FF) | ((value as u16) << 8u16)
            }
        } else {
            self.irq_latch
        })
        &&& post.irq_latch_high == (if reg == 0xF000 { !self.irq_latch_high } else { self.irq_latch_high })
        &&& post.wave_addr == (if reg == 0xF800 { value } else { self.wave_addr })
        &&& *post == (Namco163 {
            chr_banks: post.chr_banks,
            prg_banks: post.prg_banks,
            mirror: post.mirror,
            prg_ram_enable: post.prg_ram_enable,
            prg_ram_write_protect: post.prg_ram_write_protect,
            irq_latch: post.irq_latch,
            irq_latch_high: post.irq_latch_high,
            wave_addr: post.wave_addr,
            ..*self
        })
    }

    /// Whether `self` is the board as built from PRG `prg`, CHR `chr`
    /// (empty for CHR-RAM), header mirroring `mirroring` and battery flag
    /// `has_battery`: its power-on state.
    pub open spec fn fresh(&self, prg: Seq<u8>, chr: Seq<u8>, mirroring: Mirroring, has_battery: bool) -> bool {
        &&& self.wf()
        &&& self.prg_rom@ == prg
        &&& self.chr@ == initial_chr(chr)
        &&& self.chr_is_ram == (chr.len() == 0)
        &&& self.prg_ram@ == Seq::new(NAMCO_PRG_RAM_SIZE as nat, |i: int| 0u8)
        &&& self.has_battery == has_battery
        &&& self.prg_banks@ == Seq::new(4, |i: int| 0u8)
        &&& self.chr_banks@ == Seq::new(8, |i: int| 0u8)
        &&& self.mirror == mirroring
        &&& !self.prg_ram_enable && !self.prg_ram_write_protect
        &&& self.irq_latch == 0 && self.irq_counter == 0 && !self.irq_enable && !self.irq_pending && !self.irq_latch_high
        &&& self.wave_ram@ == Seq::new(128, |i: int| 0u8)
        &&& self.wave_addr == 0
        &&& forall|i: int| 0 <= i < 8 ==> #[trigger] self.chans[i] == chan_reset()
    }

    /// A Namco 163 with all banks 0, PRG-RAM disabled and zeroed, wave RAM
    /// zeroed, every channel silent and the IRQ idle.
    pub fn new(prg_rom: Vec<u8>, chr_rom: Vec<u8>, mirroring: Mirroring, has_battery: bool) -> (m: Self)
        ensures
            m.wf(),
            m.prg_rom@ == prg_rom@,
            m.chr@ == initial_chr(chr_rom@),
            m.chr_is_ram == (chr_rom@.len() == 0),
            m.prg_ram@ == Seq::new(NAMCO_PRG_RAM_SIZE as nat, |i: int| 0u8),
            m.has_battery == has_battery,
            m.prg_banks@ == Seq::new(4, |i: int| 0u8),
            m.chr_banks@ == Seq::new(8, |i: int| 0u8),
            m.mirror == mirroring,
            !m.prg_ram_enable && !m.prg_ram_write_protect,
            m.irq_latch == 0 && m.irq_counter == 0 && !m.irq_enable && !m.irq_pending && !m.irq_latch_high,
            m.wave_ram@ == Seq::new(128, |i: int| 0u8),
            m.wave_addr == 0,
            forall|i: int| 0 <= i < 8 ==> #[trigger] m.chans[i] == chan_reset(),
            m.fresh(prg_rom@, chr_rom@, mirroring, has_battery),
    {
        let (chr, chr_is_ram) = make_chr(chr_rom);
        let off = WaveChan { freq: 0, length: 0, volume: 0, offset: 0, phase: 0, enabled: false };
        let m = Namco163 {
            prg_rom,
            chr,
            chr_is_ram,
            prg_ram: zeroed(NAMCO_PRG_RAM_SIZE),
            has_battery,
            prg_banks: [0u8; 4],
            chr_banks: [0u8; 8],
            mirror: mirroring,
            prg_ram_enable: false,
            prg_ram_write_protect: false,
            irq_latch: 0,
            irq_counter: 0,
            irq_enable: false,
            irq_pending: false,
            irq_latch_high: false,
            wave_ram: [0u8; 128],
            wave_addr: 0,
            chans: [off; 8],
        };
        assert(m.prg_banks@ =~= Seq::new(4, |i: int| 0u8));
        assert(m.chr_banks@ =~= Seq::new(8, |i: int| 0u8));
        assert(m.wave_ram@ =~= Seq::new(128, |i: int| 0u8));
        m
    }

    /// Number of 8 KB PRG banks (at least 1).
    pub fn prg_8k_count(&self) -> (c: usize)
        ensures
            c == bank_count(self.prg_rom@.len() as int, 8192),
            c >= 1,
    {
        count_banks(self.prg_rom.len(), NAMCO_PRG_8K_SIZE)
    }

    /// Number of 1 KB CHR banks (at least 1).
    pub fn chr_1k_count(&self) -> (c: usize)
        ensures
            c == bank_count(self.chr@.len() as int, 1024),
            c >= 1,
    {
        count_banks(self.chr.len(), NAMCO_CHR_1K_SIZE)
    }

    /// PRG-ROM byte `offset` of 8 KB bank `bank` (taken modulo the bank count).
    pub fn prg_read_bank(&self, bank: usize, offset: usize) -> (b: u8)
        ensures
            b == bank_byte(self.prg_rom@, 8192, (bank as int) % bank_count(self.prg_rom@.len() as int, 8192), offset as int),
    {
        let count: usize = self.prg_8k_count();
        read_bank(&self.prg_rom, NAMCO_PRG_8K_SIZE, bank % count, offset)
    }

    /// Bank-register address of `addr` (see [`namco_decode`]).
    pub fn decode(addr: u16) -> (r: u16)
        ensures
            r == namco_decode(addr),
    {
        addr & 0xF801
    }

    /// The wave RAM byte at the address latch.
    pub fn wave_read(&self) -> (b: u8)
        ensures
            b == self.wave_ram[(self.wave_addr % 128) as int],
    {
        let a: usize = (self.wave_addr % 128) as usize;
        self.wave_ram[a]
    }

    /// Store `value` at the address latch, then advance the latch when
    /// auto-increment is on.
    pub fn wave_write(&mut self, value: u8)
        ensures
            final(self).wave_ram@ == old(self).wave_ram@.update((old(self).wave_addr % 128) as int, value),
            *final(self) == (Namco163 {
                wave_ram: final(self).wave_ram,
                wave_addr: wave_addr_after_write(old(self).wave_addr),
                ..*old(self)
            }),
    {
        let a: usize = (self.wave_addr % 128) as usize;
        self.wave_ram[a] = value;
        if self.wave_addr & 0x80 != 0 {
            proof {
                crate::bits::lemma_u8_masks(self.wave_addr);
            }
            let next: u8 = ((self.wave_addr % 128) + 1) % 128;
            self.wave_addr = (self.wave_addr & 0x80) | next;
        }
    }

    /// Read the channel register at `addr` (`$5000-$57FF`).
    pub fn chan_param_read(&self, addr: u16) -> (b: u8)
        requires
            0x5000 <= addr < 0x5800,
        ensures
            b == (if ((addr as int) - 0x5000) / 8 < 8 {
                chan_read(self.chans[((addr as int) - 0x5000) / 8], ((addr as int) - 0x5000) % 8)
            } else {
                0
            }),
    {
        let off: usize = (addr - 0x5000) as usize;
        let ch: usize = off / 8;
        let sub: usize = off % 8;
        if ch >= WAVE_CHANNELS {
            return 0;
        }
        let c: WaveChan = self.chans[ch];
        if sub == 0 {
            (c.freq & 0xFF) as u8
        } else if sub == 1 {
            (((c.freq >> 8) & 0x0F) as u8) | ((c.length & 0x0F) << 4)
        } else if sub == 2 {
            c.volume & 0x0F
        } else if sub == 3 {
            (c.offset & 0x60) | (if c.enabled { 0x80u8 } else { 0u8 })
        } else {
            0
        }
    }

    /// Write `value` to the channel register at `addr` (`$5000-$57FF`).
    pub fn chan_param_write(&mut self, addr: u16, value: u8)
        requires
            0x5000 <= addr < 0x5800,
            old(self).wf(),
        ensures
            final(self).wf(),
            final(self).chans@ == (if ((addr as int) - 0x5000) / 8 < 8 {
                old(self).chans@.update(
                    ((addr as int) - 0x5000) / 8,
                    chan_write(old(self).chans[((addr as int) - 0x5000) / 8], ((addr as int) - 0x5000) % 8, value),
                )
            } else {
                old(self).chans@
            }),
            *final(self) == (Namco163 { chans: final(self).chans, ..*old(self) }),
    {
        let off: usize = (addr - 0x5000) as usize;
        let ch: usize = off / 8;
        let sub: usize = off % 8;
        if ch >= WAVE_CHANNELS {
            return;
        }
        let mut c: WaveChan = self.chans[ch];
        proof {
            crate::bits::lemma_u8_masks(value);
        }
        if sub == 0 {
            c.freq = (c.freq & 0x0F00) | (value as u16);
        } else if sub == 1 {
            c.freq = (c.freq & 0x00FF) | (((value as u16) & 0x0F) << 8);
            c.length = (value >> 4) & 0x0F;
        } else if sub == 2 {
            c.volume = value & 0x0F;
        } else if sub == 3 {
            c.offset = value & 0x60;
            c.enabled = (value & 0x80) != 0;
        }
        self.chans[ch] = c;
    }

    /// Output (0-15) of channel `ch` (see [`chan_output`]).
    pub fn chan_sample(&self, ch: usize) -> (s: u8)
        requires
            self.wf(),
            ch < WAVE_CHANNELS,
        ensures
            s == chan_output(self.chans[ch as int], self.wave_ram@),
            s <= 15,
    {
        let c: WaveChan = self.chans[ch];
        if !c.enabled {
            return 0;
        }
        let length_nibbles: u32 = ((c.length as u32) + 1) * 8;
        let phase_nibble: u32 = (c.phase / 0x10000) % length_nibbles;
        let byte_idx: usize = (((c.offset as u32) + phase_nibble / 2) % 128) as usize;
        let byte: u8 = self.wave_ram[byte_idx];
        let nibble: u8 = if phase_nibble % 2 == 1 { byte / 16 } else { byte % 16 };
        assert(nibble * c.volume <= 225) by (nonlinear_arith)
            requires
                nibble <= 15,
                c.volume <= 15,
        ;
        (nibble * c.volume) / 15
    }

    /// Sum of the eight channel outputs (0-120).
    pub fn audio_level(&self) -> (s: u32)
        requires
            self.wf(),
        ensures
            s <= 120,
            s == chan_output(self.chans[0], self.wave_ram@) + chan_output(self.chans[1], self.wave_ram@)
                + chan_output(self.chans[2], self.wave_ram@) + chan_output(self.chans[3], self.wave_ram@)
                + chan_output(self.chans[4], self.wave_ram@) + chan_output(self.chans[5], self.wave_ram@)
                + chan_output(self.chans[6], self.wave_ram@) + chan_output(self.chans[7], self.wave_ram@),
    {
        let s0: u32 = self.chan_sample(0) as u32;
        let s1: u32 = self.chan_sample(1) as u32;
        let s2: u32 = self.chan_sample(2) as u32;
        let s3: u32 = self.chan_sample(3) as u32;
        let s4: u32 = self.chan_sample(4) as u32;
        let s5: u32 = self.chan_sample(5) as u32;
        let s6: u32 = self.chan_sample(6) as u32;
        let s7: u32 = self.chan_sample(7) as u32;
        s0 + s1 + s2 + s3 + s4 + s5 + s6 + s7
    }

    /// Read a byte from the CPU side: PRG-RAM at `$6000-$7FFF` (0 while
    /// disabled), wave RAM at `$4800-$4FFF`, channel registers at
    /// `$5000-$57FF`, the four 8 KB PRG banks from `$8000`.
    pub fn read_prg(&self, addr: u16) -> (b: u8)
        requires
            (0x4800 <= addr < 0x5800) || addr >= 0x6000,
        ensures
            b == self.prg_byte(addr),
    {
        if 0x6000 <= addr && addr < 0x8000 {
            if self.prg_ram_enable {
                let a: usize = addr as usize - 0x6000;
                let idx: usize = a & (NAMCO_PRG_RAM_SIZE - 1);
                proof {
                    crate::bits::lemma_usize_masks(a);
                }
                return get_or_zero(&self.prg_ram, idx);
            }
            return 0;
        }
        if 0x4800 <= addr && addr < 0x5000 {
            return self.wave_read();
        }
        if 0x5000 <= addr && addr < 0x5800 {
            return self.chan_param_read(addr);
        }
        let local: usize = (addr - 0x8000) as usize;
        let slot: usize = local / NAMCO_PRG_8K_SIZE;
        let offset: usize = local & (NAMCO_PRG_8K_SIZE - 1);
        proof {
            crate::bits::lemma_usize_masks(local);
        }
        let bank: usize = (self.prg_banks[slot] as usize) % self.prg_8k_count();
        self.prg_read_bank(bank, offset)
    }

    /// The contract of [`Namco163::write_prg`] as a predicate on the state it leaves `before` in.
    pub open spec fn write_prg_post(&self, before: Namco163, addr: u16, value: u8) -> bool {
        &&& (self.wf())
        &&& (0x6000 <= addr < 0x8000 ==> self.prg_ram@ == (if before.prg_ram_enable && !before.prg_ram_write_protect { store_if_in(before.prg_ram@, (addr as int) - 0x6000, value) } else { before.prg_ram@ }) && *self == (Namco163 { prg_ram: self.prg_ram, ..before }))
        &&& (0x4800 <= addr < 0x5000 ==> self.wave_ram@ == before.wave_ram@.update((before.wave_addr % 128) as int, value,) && *self == (Namco163 { wave_ram: self.wave_ram, wave_addr: wave_addr_after_write(before.wave_addr), ..before }))
        &&& (0x5000 <= addr < 0x5800 ==> self.chans@ == (if ((addr as int) - 0x5000) / 8 < 8 { before.chans@.update(((addr as int) - 0x5000) / 8, chan_write(before.chans[((addr as int) - 0x5000) / 8], ((addr as int) - 0x5000) % 8, value),) } else { before.chans@ }) && *self == (Namco163 { chans: self.chans, ..before }))
        &&& (!(0x6000 <= addr < 0x8000) && !(0x4800 <= addr < 0x5800) ==> before.register_write_post(self, namco_decode(addr), value,))
    }

    /// Write a byte from the CPU side: PRG-RAM at `$6000-$7FFF` (when
    /// enabled and not write-protected), wave RAM at `$4800-$4FFF`, channel
    /// registers at `$5000-$57FF`, else the bank register at
    /// [`namco_decode`]`(addr)` (unknown registers are ignored).
    pub fn write_prg(&mut self, addr: u16, value: u8)
        requires
            old(self).wf(),
        ensures
            final(self).wf(),
            0x6000 <= addr < 0x8000 ==> final(self).prg_ram@ == (if old(self).prg_ram_enable && !old(self).prg_ram_write_protect {
                store_if_in(old(self).prg_ram@, (addr as int) - 0x6000, value)
            } else {
                old(self).prg_ram@
            }) && *final(self) == (Namco163 { prg_ram: final(self).prg_ram, ..*old(self) }),
            0x4800 <= addr < 0x5000 ==> final(self).wave_ram@ == old(self).wave_ram@.update(
                (old(self).wave_addr % 128) as int,
                value,
            ) && *final(self) == (Namco163 {
                wave_ram: final(self).wave_ram,
                wave_addr: wave_addr_after_write(old(self).wave_addr),
                ..*old(self)
            }),
            0x5000 <= addr < 0x5800 ==> final(self).chans@ == (if ((addr as int) - 0x5000) / 8 < 8 {
                old(self).chans@.update(
                    ((addr as int) - 0x5000) / 8,
                    chan_write(old(self).chans[((addr as int) - 0x5000) / 8], ((addr as int) - 0x5000) % 8, value),
                )
            } else {
                old(self).chans@
            }) && *final(self) == (Namco163 { chans: final(self).chans, ..*old(self) }),
            !(0x6000 <= addr < 0x8000) && !(0x4800 <= addr < 0x5800) ==> old(self).register_write_post(
                &*final(self),
                namco_decode(addr),
                value,
            ),
            final(self).write_prg_post(*old(self), addr, value),
    {
        if 0x6000 <= addr && addr < 0x8000 {
            if self.prg_ram_enable && !self.prg_ram_write_protect {
                let a: usize = addr as usize - 0x6000;
                let idx: usize = a & (NAMCO_PRG_RAM_SIZE - 1);
                proof {
                    crate::bits::lemma_usize_masks(a);
                }
                set_if_in(&mut self.prg_ram, idx, value);
            }
            return;
        }
        if 0x4800 <= addr && addr < 0x5000 {
            self.wave_write(value);
            return;
        }
        if 0x5000 <= addr && addr < 0x5800 {
            self.chan_param_write(addr, value);
            return;
        }
        let reg: u16 = Self::decode(addr);
        if 0x8000 <= reg && reg <= 0xB800 && reg % 0x800 == 0 {
            self.chr_banks[((reg - 0x8000) / 0x800) as usize] = value;
        } else if 0xC000 <= reg && reg <= 0xD800 && reg % 0x800 == 0 {
            self.prg_banks[((reg - 0xC000) / 0x800) as usize] = value & 0x3F;
        } else if reg == 0xE000 {
            let m: u8 = value & 0x03;
            self.mirror = if m == 0 {
                Mirroring::Vertical
            } else if m == 1 {
                Mirroring::Horizontal
            } else if m == 2 {
                Mirroring::SingleScreen(0)
            } else {
                Mirroring::SingleScreen(1)
            };
        } else if reg == 0xE800 {
            self.prg_ram_enable = (value & 0x80) != 0;
            self.prg_ram_write_protect = (value & 0x40) != 0;
        } else if reg == 0xF000 {
            if !self.irq_latch_high {
                self.irq_latch = (self.irq_latch & 0xFF00) | (value as u16);
                self.irq_latch_high = true;
            } else {
                self.irq_latch = (self.irq_latch & 0x00FF) | ((value as u16) << 8);
                self.irq_latch_high = false;
            }
        } else if reg == 0xF800 {
            self.wave_addr = value;
        }
    }

    /// Index into CHR of PPU address `addr`; past the end reports the length.
    pub fn chr_index(&self, addr: u16) -> (idx: usize)
        requires
            addr < 0x2000,
        ensures
            self.spec_chr_index(addr) < self.chr@.len() ==> idx == self.spec_chr_index(addr),
            self.spec_chr_index(addr) >= self.chr@.len() ==> idx == self.chr@.len(),
    {
        let a: usize = addr as usize;
        let slot: usize = a / NAMCO_CHR_1K_SIZE;
        let offset: usize = a & (NAMCO_CHR_1K_SIZE - 1);
        proof {
            crate::bits::lemma_usize_masks(a);
        }
        super::bank_offset_of(self.chr.len(), NAMCO_CHR_1K_SIZE, self.chr_banks[slot] as usize, offset)
    }

    /// Read a byte from the PPU side through the eight 1 KB CHR banks.
    pub fn read_chr(&self, addr: u16) -> (b: u8)
        requires
            addr < 0x2000,
        ensures
            b == self.chr_byte(addr),
    {
        let idx: usize = self.chr_index(addr);
        get_or_zero(&self.chr, idx)
    }

    /// The contract of [`Namco163::write_chr`] as a predicate on the state it leaves `before` in.
    pub open spec fn write_chr_post(&self, before: Namco163, addr: u16, value: u8) -> bool {
        &&& (self.chr@ == (if before.chr_is_ram { store_if_in(before.chr@, before.spec_chr_index(addr), value) } else { before.chr@ }))
        &&& (*self == (Namco163 { chr: self.chr, ..before }))
    }

    /// Write a byte to the PPU side; only CHR-RAM takes it.
    pub fn write_chr(&mut self, addr: u16, value: u8)
        requires
            addr < 0x2000,
        ensures
            final(self).chr@ == (if old(self).chr_is_ram {
                store_if_in(old(self).chr@, old(self).spec_chr_index(addr), value)
            } else {
                old(self).chr@
            }),
            *final(self) == (Namco163 { chr: final(self).chr, ..*old(self) }),
            final(self).write_chr_post(*old(self), addr, value),
    {
        if !self.chr_is_ram {
            return;
        }
        let idx: usize = self.chr_index(addr);
        set_if_in(&mut self.chr, idx, value);
    }

    pub fn mirror_mode(&self) -> (m: Mirroring)
        ensures
            m == self.mirror,
    {
        self.mirror
    }

    /// The contract of [`Namco163::has_battery`] as a predicate.
    pub open spec fn has_battery_post(&self, b: bool) -> bool {
        &&& (b == self.has_battery)
    }

    pub fn has_battery(&self) -> (b: bool)
        ensures
            b == self.has_battery,
            self.has_battery_post(b),
    {
        self.has_battery
    }

    /// The contract of [`Namco163::battery_sram`] as a predicate.
    pub open spec fn battery_sram_post(&self, r: Option<Vec<u8>>) -> bool {
        &&& (self.has_battery ==> (r matches Some(v) && v@ == self.prg_ram@))
        &&& (!self.has_battery ==> r is None)
    }

    /// A copy of PRG-RAM when battery-backed, else `None`.
    pub fn battery_sram(&self) -> (r: Option<Vec<u8>>)
        ensures
            self.has_battery ==> (r matches Some(v) && v@ == self.prg_ram@),
            !self.has_battery ==> r is None,
            self.battery_sram_post(r),
    {
        if self.has_battery {
            Some(clone_bytes(&self.prg_ram))
        } else {
            None
        }
    }

    /// The contract of [`Namco163::load_battery_sram`] as a predicate on the state it leaves `before` in.
    pub open spec fn load_battery_sram_post(&self, before: Namco163, data: &[u8]) -> bool {
        &&& (self.prg_ram@ == (if before.has_battery { overlay_prefix(before.prg_ram@, data@) } else { before.prg_ram@ }))
        &&& (*self == (Namco163 { prg_ram: self.prg_ram, ..before }))
    }

    /// Load battery-backed PRG-RAM from `data` (as many bytes as fit);
    /// nothing happens without a battery.
    pub fn load_battery_sram(&mut self, data: &[u8])
        ensures
            final(self).prg_ram@ == (if old(self).has_battery {
                overlay_prefix(old(self).prg_ram@, data@)
            } else {
                old(self).prg_ram@
            }),
            *final(self) == (Namco163 { prg_ram: final(self).prg_ram, ..*old(self) }),
            final(self).load_battery_sram_post(*old(self), data),
    {
        if !self.has_battery {
            return;
        }
        copy_prefix(&mut self.prg_ram, data);
    }

    /// The contract of [`Namco163::irq_pending`] as a predicate.
    pub open spec fn irq_pending_post(&self, b: bool) -> bool {
        &&& (b == self.irq_pending)
    }

    pub fn irq_pending(&self) -> (b: bool)
        ensures
            b == self.irq_pending,
            self.irq_pending_post(b),
    {
        self.irq_pending
    }

    /// Number of enabled channels.
    pub fn active_channels(&self) -> (n: u32)
        ensures
            n == enabled_count(self.chans@, 8),
            n <= 8,
    {
        let mut n: u32 = 0;
        let mut i: usize = 0;
        while i < WAVE_CHANNELS
            invariant
                i <= 8,
                n == enabled_count(self.chans@, i as int),
                n <= i,
            decreases 8 - i,
        {
            if self.chans[i].enabled {
                n = n + 1;
            }
            i = i + 1;
        }
        n
    }

    /// The contract of [`Namco163::clock_cpu`] as a predicate on the state it leaves `before` in.
    pub open spec fn clock_cpu_post(&self, before: Namco163, cpu_cycles: u32) -> bool {
        &&& (self.wf())
        &&& ((self.irq_counter, self.irq_pending) == namco_irq_after(before.irq_counter, before.irq_latch, before.irq_enable, before.irq_pending, cpu_cycles as nat,))
        &&& (forall|i: int| 0 <= i < 8 ==> #[trigger] self.chans[i] == chan_clocked(before.chans[i], enabled_count(before.chans@, 8), cpu_cycles as nat,))
        &&& (*self == (Namco163 { irq_counter: self.irq_counter, irq_pending: self.irq_pending, chans: self.chans, ..before }))
    }

    /// Clock the IRQ counter and the wavetable phases by `cpu_cycles` CPU
    /// cycles. Each cycle a zero counter reloads from the latch (raising
    /// the IRQ when enabled), any other counts down; each enabled channel's
    /// phase advances by its frequency times 256, divided among the enabled
    /// channels.
    pub fn clock_cpu(&mut self, cpu_cycles: u32)
        requires
            old(self).wf(),
        ensures
            final(self).wf(),
            (final(self).irq_counter, final(self).irq_pending) == namco_irq_after(
                old(self).irq_counter,
                old(self).irq_latch,
                old(self).irq_enable,
                old(self).irq_pending,
                cpu_cycles as nat,
            ),
            forall|i: int| 0 <= i < 8 ==> #[trigger] final(self).chans[i] == chan_clocked(
                old(self).chans[i],
                enabled_count(old(self).chans@, 8),
                cpu_cycles as nat,
            ),
            *final(self) == (Namco163 {
                irq_counter: final(self).irq_counter,
                irq_pending: final(self).irq_pending,
                chans: final(self).chans,
                ..*old(self)
            }),
            final(self).clock_cpu_post(*old(self), cpu_cycles),
    {
        let mut i: u32 = 0;
        while i < cpu_cycles
            invariant
                i <= cpu_cycles,
                (self.irq_counter, self.irq_pending) == namco_irq_after(
                    old(self).irq_counter,
                    old(self).irq_latch,
                    old(self).irq_enable,
                    old(self).irq_pending,
                    i as nat,
                ),
                *self == (Namco163 { irq_counter: self.irq_counter, irq_pending: self.irq_pending, ..*old(self) }),
            decreases cpu_cycles - i,
        {
            if self.irq_counter == 0 {
                self.irq_counter = self.irq_latch;
                if self.irq_enable {
                    self.irq_pending = true;
                }
            } else {
                self.irq_counter = self.irq_counter - 1;
            }
            i = i + 1;
        }
        let active: u32 = self.active_channels();
        let divisor: u32 = if active >= 1 { active } else { 1 };
        let ghost mid = *self;
        let mut ch: usize = 0;
        while ch < WAVE_CHANNELS
            invariant
                ch <= 8,
                mid.wf(),
                active == enabled_count(mid.chans@, 8),
                divisor == (if active >= 1 { active } else { 1 }),
                forall|j: int| 0 <= j < ch ==> #[trigger] self.chans[j] == chan_clocked(mid.chans[j], active as nat, cpu_cycles as nat),
                forall|j: int| ch <= j < 8 ==> #[trigger] self.chans[j] == mid.chans[j],
                *self == (Namco163 { chans: self.chans, ..mid }),
            decreases 8 - ch,
        {
            let mut c: WaveChan = self.chans[ch];
            if c.enabled {
                let inc: u32 = ((c.freq as u32) << 8) / divisor;
                assert(inc == phase_step(c, active as nat));
                let mut k: u32 = 0;
                while k < cpu_cycles
                    invariant
                        k <= cpu_cycles,
                        c == (WaveChan { phase: c.phase, ..mid.chans[ch as int] }),
                        c.phase == phase_after(mid.chans[ch as int].phase, inc, k as nat),
                    decreases cpu_cycles - k,
                {
                    c.phase = c.phase.wrapping_add(inc);
                    k = k + 1;
                }
            }
            self.chans[ch] = c;
            ch = ch + 1;
        }
    }
}

/// The IRQ flag, once raised, stays raised however long the counter runs.
pub proof fn law_namco_irq_pending_sticky(counter: u16, latch: u16, enable: bool, n: nat)
    ensures
        namco_irq_after(counter, latch, enable, true, n).1,
    decreases n,
{
    if n > 0 {
        law_namco_irq_pending_sticky(counter, latch, enable, (n - 1) as nat);
    }
}

/// A disabled channel neither moves nor sounds, and every channel's output
/// stays within 0-15 when its volume does.
pub proof fn law_namco_channel_output_bounded(c: WaveChan, wave: Seq<u8>, active: nat, n: nat)
    requires
        c.volume <= 15,
        wave.len() == 128,
    ensures
        chan_output(c, wave) <= 15,
        !c.enabled ==> chan_clocked(c, active, n) == c && chan_output(c, wave) == 0,
{
    if c.enabled {
        let len_nibbles = ((c.length as int) + 1) * 8;
        let nib = ((c.phase as int) / 0x10000) % len_nibbles;
        let b = wave[((c.offset as int) + nib / 2) % 128];
        let s = if nib % 2 == 1 { b / 16 } else { b % 16 };
        assert(s * c.volume <= 225) by (nonlinear_arith)
            requires
                0 <= s <= 15,
                c.volume <= 15,
        ;
    }
}

impl Namco163 {
    /// Whether `o` holds the same state as `self`, byte for byte.
    pub open spec fn same_state(&self, o: &Namco163) -> bool {
        &&& o.prg_rom@ == self.prg_rom@
        &&& o.chr@ == self.chr@
        &&& o.chr_is_ram == self.chr_is_ram
        &&& o.prg_ram@ == self.prg_ram@
        &&& o.has_battery == self.has_battery
        &&& o.prg_banks == self.prg_banks
        &&& o.chr_banks == self.chr_banks
        &&& o.mirror == self.mirror
        &&& o.prg_ram_enable == self.prg_ram_enable
        &&& o.prg_ram_write_protect == self.prg_ram_write_protect
        &&& o.irq_latch == self.irq_latch
        &&& o.irq_counter == self.irq_counter
        &&& o.irq_enable == self.irq_enable
        &&& o.irq_pending == self.irq_pending
        &&& o.irq_latch_high == self.irq_latch_high
        &&& o.wave_ram == self.wave_ram
        &&& o.wave_addr == self.wave_addr
        &&& o.chans == self.chans
    }

    /// The contract of [`Namco163::save_state`] as a predicate.
    pub open spec fn save_state_post(&self, s: MapperState) -> bool {
        &&& (s matches MapperState::Namco163(m) && self.same_state(&m))
    }

    /// Capture the mapper's whole state as a snapshot.
    pub fn save_state(&self) -> (s: MapperState)
        ensures
            s matches MapperState::Namco163(m) && self.same_state(&m),
            self.save_state_post(s),
    {
        MapperState::Namco163(Namco163 {
            prg_rom: clone_bytes(&self.prg_rom),
            chr: clone_bytes(&self.chr),
            chr_is_ram: self.chr_is_ram,
            prg_ram: clone_bytes(&self.prg_ram),
            has_battery: self.has_battery,
            prg_banks: self.prg_banks,
            chr_banks: self.chr_banks,
            mirror: self.mirror,
            prg_ram_enable: self.prg_ram_enable,
            prg_ram_write_protect: self.prg_ram_write_protect,
            irq_latch: self.irq_latch,
            irq_counter: self.irq_counter,
            irq_enable: self.irq_enable,
            irq_pending: self.irq_pending,
            irq_latch_high: self.irq_latch_high,
            wave_ram: self.wave_ram,
            wave_addr: self.wave_addr,
            chans: self.chans,
        })
    }

    /// Restore the mapper's state from a snapshot of the same board type.
    pub fn restore_state(&mut self, state: MapperState)
        requires
            state is Namco163,
        ensures
            state matches MapperState::Namco163(m) && *final(self) == m,
    {
        match state {
            MapperState::Namco163(m) => {
                *self = m;
            },
            _ => {},
        }
    }
}

} // verus!

verus! {

/// A phase accumulator advanced `n` times by `inc` is the start plus
/// `n * inc`, modulo 2^32.
pub proof fn lemma_phase_after_closed(phase: u32, inc: u32, n: nat)
    ensures
        phase_after(phase, inc, n) as int == (phase as int + n * inc) % 0x1_0000_0000,
    decreases n,
{
    if n == 0 {
        vstd::arithmetic::div_mod::lemma_small_mod(phase as nat, 0x1_0000_0000);
    } else {
        lemma_phase_after_closed(phase, inc, (n - 1) as nat);
        let x: int = phase as int + (n - 1) * inc;
        vstd::arithmetic::div_mod::lemma_add_mod_noop(x, inc as int, 0x1_0000_0000);
        vstd::arithmetic::div_mod::lemma_small_mod(inc as nat, 0x1_0000_0000);
        assert(x + inc == phase as int + n * inc) by (nonlinear_arith)
            requires
                x == phase as int + (n - 1) * inc,
                n >= 1,
        ;
    }
}

/// The synthesiser is shared among the enabled channels: with `k` of them
/// enabled, each CPU cycle advances an enabled channel's phase by its
/// frequency times 256 divided by `k`, so after `n` cycles the phase has
/// moved `n` such steps (modulo 2^32); a disabled channel does not move.
pub proof fn law_namco_phase_shared(c: WaveChan, k: nat, n: nat)
    requires
        1 <= k <= 8,
    ensures
        c.enabled ==> chan_clocked(c, k, n).phase as int == (c.phase as int + n * ((c.freq as int * 256) / (k as int)))
            % 0x1_0000_0000,
        !c.enabled ==> chan_clocked(c, k, n) == c,
{
    crate::bits::lemma_u16_shl8_u32(c.freq);
    assert(((c.freq as u32) << 8u32) as int == c.freq as int * 256);
    let step = phase_step(c, k);
    assert(step as int == (c.freq as int * 256) / (k as int)) by {
        assert(c.freq as int * 256 <= 0xFFFF * 256);
        assert((c.freq as int * 256) / (k as int) <= c.freq as int * 256) by {
            vstd::arithmetic::div_mod::lemma_div_is_ordered_by_denominator(c.freq as int * 256, 1, k as int);
        }
    }
    if c.enabled {
        lemma_phase_after_closed(c.phase, step, n);
    }
}

} // verus!

verus! {

/// A channel plays its waveform a nibble per phase step of 2^16, low nibble
/// of each wave byte first: at full volume an enabled channel outputs the
/// low nibble of the byte at an even position and the high nibble at an
/// odd one; a disabled channel outputs 0, and the output never exceeds the
/// volume.
pub proof fn law_namco_nibble_order(c: WaveChan, wave: Seq<u8>)
    requires
        wave.len() == 128,
        c.volume <= 15,
    ensures
        c.enabled && c.volume == 15 && ((c.phase as int) / 0x10000) % (((c.length as int) + 1) * 8) % 2 == 0
            ==> chan_output(c, wave) == wave[((c.offset as int) + ((c.phase as int) / 0x10000) % (((c.length as int) + 1)
            * 8) / 2) % 128] & 0x0F,
        c.enabled && c.volume == 15 && ((c.phase as int) / 0x10000) % (((c.length as int) + 1) * 8) % 2 == 1
            ==> chan_output(c, wave) == wave[((c.offset as int) + ((c.phase as int) / 0x10000) % (((c.length as int) + 1)
            * 8) / 2) % 128] >> 4u8,
        !c.enabled ==> chan_output(c, wave) == 0,
        chan_output(c, wave) <= c.volume,
{
    let nib = ((c.phase as int) / 0x10000) % (((c.length as int) + 1) * 8);
    let b = wave[((c.offset as int) + nib / 2) % 128];
    crate::bits::lemma_u8_masks(b);
    if c.enabled {
        let s: int = if nib % 2 == 1 { (b / 16) as int } else { (b % 16) as int };
        assert(0 <= s <= 15);
        assert(s * c.volume / 15 <= c.volume) by (nonlinear_arith)
            requires
                0 <= s <= 15,
                c.volume <= 15,
        ;
        if c.volume == 15 {
            assert(s * 15 / 15 == s) by (nonlinear_arith);
        }
    }
}

} // verus!
