//! YM2149 / AY-3-8910 PSG — the three-channel tone, noise and envelope
//! synthesiser of the Sunsoft 5B (the audio variant of mapper 69).
//!
//! Each channel mixes its square tone and the shared noise through a 4-bit
//! volume or the shared envelope. The chip runs at half the CPU clock.
//! Registers are reached through an address latch and a data port:
//!
//! | Addr  | Function                                              |
//! |-------|-------------------------------------------------------|
//! | `$00-$05` | Channel A/B/C period, low byte then high nibble   |
//! | `$06` | Noise period (bits 0-4)                               |
//! | `$07` | Disable bits: 0-2 tone A/B/C, 3-5 noise A/B/C         |
//! | `$08-$0A` | Channel A/B/C volume (bits 0-3), envelope (bit 4) |
//! | `$0B-$0C` | Envelope period, low byte then high byte          |
//! | `$0D` | Envelope shape (bits 0-3)                             |
//!
//! See: https://www.nesdev.org/wiki/Sunsoft_5B_audio

use vstd::prelude::*;

verus! {

/// Number of tone channels.
pub const YM_CHANNELS: usize = 3;

/// YM2149 chip state.
pub struct Ym2149 {
    /// Register file.
    pub regs: [u8; 16],
    /// Register selected for the next data access.
    pub addr_latch: u8,
    /// Tone down-counters.
    pub tone_timer: [u16; 3],
    /// Tone square outputs (0/1).
    pub tone_out: [u8; 3],
    pub noise_timer: u16,
    /// 17-bit noise shift register.
    pub noise_lfsr: u32,
    /// Noise output (0/1).
    pub noise_out: u8,
    pub env_timer: u16,
    /// Envelope step 0-31.
    pub env_pos: u8,
    /// The envelope has stopped.
    pub env_holding: bool,
}

/// Tone period of channel `ch` in register file `r` (at least 1).
pub open spec fn tone_period(r: Seq<u8>, ch: int) -> u16 {
    let p = (r[2 * ch] as u16) | (((r[2 * ch + 1] as u16) & 0x0F) << 8u16);
    if p == 0 { 1 } else { p }
}

/// Noise period in register file `r` (at least 1).
pub open spec fn noise_period(r: Seq<u8>) -> u16 {
    let p = (r[6] as u16) & 0x1F;
    if p == 0 { 1 } else { p }
}

/// Envelope period in register file `r` (at least 1).
pub open spec fn env_period(r: Seq<u8>) -> u16 {
    let p = (r[0x0B] as u16) | ((r[0x0C] as u16) << 8u16);
    if p == 0 { 1 } else { p }
}

/// A tone channel `(timer, out)` after `n` clocks with period `period`:
/// at zero the timer reloads and the output toggles.
pub open spec fn tone_after(timer: u16, out: u8, period: u16, n: nat) -> (u16, u8)
    decreases n,
{
    if n == 0 {
        (timer, out)
    } else {
        let (t, o) = tone_after(timer, out, period, (n - 1) as nat);
        if t == 0 {
            (period, o ^ 1u8)
        } else {
            ((t - 1) as u16, o)
        }
    }
}

/// The noise shift register after one shift: bit 16 takes bit 0 XOR bit 3.
pub open spec fn lfsr_next(l: u32) -> u32 {
    (l >> 1u32) | (((l ^ (l >> 3u32)) & 1) << 16u32)
}

/// The noise `(timer, lfsr, out)` after `n` clocks with period `period`:
/// at zero the timer reloads and the register shifts, its bit 0 the output.
pub open spec fn noise_after(timer: u16, lfsr: u32, out: u8, period: u16, n: nat) -> (u16, u32, u8)
    decreases n,
{
    if n == 0 {
        (timer, lfsr, out)
    } else {
        let (t, l, o) = noise_after(timer, lfsr, out, period, (n - 1) as nat);
        if t == 0 {
            (period, lfsr_next(l), (lfsr_next(l) & 1) as u8)
        } else {
            ((t - 1) as u16, l, o)
        }
    }
}

/// The envelope `(pos, holding)` at the end of a cycle for shape `shape`:
/// with hold it stops (mirrored when alternating), else it restarts.
pub open spec fn env_cycle_end(pos: u8, shape: u8) -> (u8, bool) {
    if shape & 0x08 != 0 {
        (if shape & 0x04 != 0 { (31 - pos) as u8 } else { pos }, true)
    } else {
        (0, false)
    }
}

/// The envelope `(timer, pos, holding)` after `n` clocks with period
/// `period` and shape `shape`: while running, at zero the timer reloads
/// and the position steps, ending the cycle after step 31.
pub open spec fn env_after(timer: u16, pos: u8, holding: bool, period: u16, shape: u8, n: nat) -> (u16, u8, bool)
    decreases n,
{
    if n == 0 {
        (timer, pos, holding)
    } else {
        let (t, p, h) = env_after(timer, pos, holding, period, shape, (n - 1) as nat);
        if h {
            (t, p, h)
        } else if t == 0 {
            if p < 31 {
                (period, (p + 1) as u8, false)
            } else {
                let (p2, h2) = env_cycle_end(p, shape);
                (period, p2, h2)
            }
        } else {
            ((t - 1) as u16, p, false)
        }
    }
}

/// Envelope amplitude (0-15) at step `pos` of shape `shape`: the first 16
/// steps ramp up (attack) or down, two steps per level; the second 16
/// ramp back when alternating, else sit at the end value of the attack
/// (15) or decay (0).
pub open spec fn env_amplitude_of(pos: u8, shape: u8) -> u8 {
    let attack = shape & 0x02 != 0;
    let alternate = shape & 0x04 != 0;
    let half: int = if pos / 2 > 15 { 15 } else { (pos / 2) as int };
    if pos >= 16 {
        if alternate {
            let second: int = if (pos - 16) / 2 > 15 { 15 } else { (pos - 16) / 2 };
            (if attack { 15 - second } else { second }) as u8
        } else if attack {
            15
        } else {
            0
        }
    } else {
        (if attack { half } else { 15 - half }) as u8
    }
}

impl Ym2149 {
    /// The envelope step is within its cycle and the outputs are bits.
    pub open spec fn wf(&self) -> bool {
        &&& self.env_pos <= 31
        &&& self.noise_out <= 1
        &&& forall|c: int| 0 <= c < 3 ==> #[trigger] self.tone_out[c] <= 1
    }

    /// Output (0-15) of channel `ch`: the volume, or the envelope in
    /// envelope mode, while its enabled tone or noise is high; else 0.
    pub open spec fn chan_output(&self, ch: int) -> u8 {
        let disable = self.regs[7];
        let tone_en = (disable >> (ch as u8)) & 1 == 0;
        let noise_en = (disable >> ((ch + 3) as u8)) & 1 == 0;
        let v = self.regs[8 + ch];
        let amp = if v & 0x10 != 0 { env_amplitude_of(self.env_pos, self.regs[0x0D] & 0x0F) } else { v & 0x0F };
        let tone = if tone_en { self.tone_out[ch] } else { 0 };
        let noise = if noise_en { self.noise_out } else { 0 };
        if tone | noise != 0 {
            amp
        } else {
            0
        }
    }

    /// A silent chip: registers zero, shift register seeded with bit 16.
    pub fn new() -> (y: Self)
        ensures
            y.wf(),
            y.regs@ == Seq::new(16, |i: int| 0u8),
            y.addr_latch == 0,
            y.tone_timer@ == Seq::new(3, |i: int| 0u16),
            y.tone_out@ == Seq::new(3, |i: int| 0u8),
            y.noise_timer == 0 && y.noise_lfsr == 0x1_0000 && y.noise_out == 0,
            y.env_timer == 0 && y.env_pos == 0 && !y.env_holding,
    {
        let y = Ym2149 {
            regs: [0u8; 16],
            addr_latch: 0,
            tone_timer: [0u16; 3],
            tone_out: [0u8; 3],
            noise_timer: 0,
            noise_lfsr: 0x1_0000,
            noise_out: 0,
            env_timer: 0,
            env_pos: 0,
            env_holding: false,
        };
        assert(y.regs@ =~= Seq::new(16, |i: int| 0u8));
        assert(y.tone_timer@ =~= Seq::new(3, |i: int| 0u16));
        assert(y.tone_out@ =~= Seq::new(3, |i: int| 0u8));
        y
    }

    /// Select register `addr & 0x0F`.
    pub fn write_addr(&mut self, addr: u8)
        ensures
            *final(self) == (Ym2149 { addr_latch: addr & 0x0F, ..*old(self) }),
    {
        self.addr_latch = addr & 0x0F;
    }

    /// Write `value` to the selected register (a latch past 15 is ignored).
    pub fn write_data(&mut self, value: u8)
        ensures
            final(self).regs@ == (if old(self).addr_latch < 16 {
                old(self).regs@.update(old(self).addr_latch as int, value)
            } else {
                old(self).regs@
            }),
            *final(self) == (Ym2149 { regs: final(self).regs, ..*old(self) }),
    {
        let a: usize = self.addr_latch as usize;
        if a >= 16 {
            return;
        }
        self.regs[a] = value;
    }

    /// The selected register (0 for a latch past 15).
    pub fn read_data(&self) -> (r: u8)
        ensures
            r == (if self.addr_latch < 16 { self.regs[self.addr_latch as int] } else { 0 }),
    {
        let a: usize = self.addr_latch as usize;
        if a >= 16 {
            0
        } else {
            self.regs[a]
        }
    }

    /// Envelope amplitude at the current step (see [`env_amplitude_of`]).
    pub fn env_amplitude(&self) -> (r: u8)
        ensures
            r == env_amplitude_of(self.env_pos, self.regs[0x0D] & 0x0F),
            r <= 15,
    {
        let shape: u8 = self.regs[0x0D] & 0x0F;
        let attack: bool = (shape & 0x02) != 0;
        let alternate: bool = (shape & 0x04) != 0;
        let pos: u8 = self.env_pos;
        let half: u8 = if pos / 2 > 15 { 15 } else { pos / 2 };
        if pos >= 16 {
            if alternate {
                let second: u8 = if (pos - 16) / 2 > 15 { 15 } else { (pos - 16) / 2 };
                if attack {
                    15 - second
                } else {
                    second
                }
            } else if attack {
                15
            } else {
                0
            }
        } else {
            if attack {
                half
            } else {
                15 - half
            }
        }
    }

    /// Output of channel `ch` (see [`Self::chan_output`]).
    pub fn chan_out(&self, ch: usize) -> (r: u8)
        requires
            ch < YM_CHANNELS,
        ensures
            r == self.chan_output(ch as int),
            r <= 15,
    {
        let disable: u8 = self.regs[7];
        let tone_en: bool = (disable >> (ch as u8)) & 1 == 0;
        let noise_en: bool = (disable >> ((ch + 3) as u8)) & 1 == 0;
        let v: u8 = self.regs[8 + ch];
        proof {
            crate::bits::lemma_u8_masks(v);
        }
        let amp: u8 = if v & 0x10 != 0 { self.env_amplitude() } else { v & 0x0F };
        let tone: u8 = if tone_en { self.tone_out[ch] } else { 0 };
        let noise: u8 = if noise_en { self.noise_out } else { 0 };
        if tone | noise != 0 {
            amp
        } else {
            0
        }
    }

    /// Sum of the three channel outputs (0-45); the program scales it into
    /// a sample.
    pub fn mix_level(&self) -> (r: u32)
        ensures
            r == self.chan_output(0) + self.chan_output(1) + self.chan_output(2),
            r <= 45,
    {
        (self.chan_out(0) as u32) + (self.chan_out(1) as u32) + (self.chan_out(2) as u32)
    }

    /// Advance the chip by `apu_cycles` clocks: the tone, noise and
    /// envelope counters each run on their own (see [`tone_after`],
    /// [`noise_after`], [`env_after`]) with the periods and shape in the
    /// registers.
    pub fn clock(&mut self, apu_cycles: u32)
        requires
            old(self).wf(),
        ensures
            final(self).wf(),
            forall|c: int| 0 <= c < 3 ==> (#[trigger] final(self).tone_timer[c], final(self).tone_out[c]) == tone_after(
                old(self).tone_timer[c],
                old(self).tone_out[c],
                tone_period(old(self).regs@, c),
                apu_cycles as nat,
            ),
            (final(self).noise_timer, final(self).noise_lfsr, final(self).noise_out) == noise_after(
                old(self).noise_timer,
                old(self).noise_lfsr,
                old(self).noise_out,
                noise_period(old(self).regs@),
                apu_cycles as nat,
            ),
            (final(self).env_timer, final(self).env_pos, final(self).env_holding) == env_after(
                old(self).env_timer,
                old(self).env_pos,
                old(self).env_holding,
                env_period(old(self).regs@),
                old(self).regs[0x0D] & 0x0F,
                apu_cycles as nat,
            ),
            final(self).regs == old(self).regs,
            final(self).addr_latch == old(self).addr_latch,
    {
        let mut ch: usize = 0;
        while ch < YM_CHANNELS
            invariant
                ch <= 3,
                self.wf(),
                self.regs == old(self).regs,
                self.addr_latch == old(self).addr_latch,
                self.noise_timer == old(self).noise_timer,
                self.noise_lfsr == old(self).noise_lfsr,
                self.noise_out == old(self).noise_out,
                self.env_timer == old(self).env_timer,
                self.env_pos == old(self).env_pos,
                self.env_holding == old(self).env_holding,
                forall|c: int| 0 <= c < ch ==> (#[trigger] self.tone_timer[c], self.tone_out[c]) == tone_after(
                    old(self).tone_timer[c],
                    old(self).tone_out[c],
                    tone_period(old(self).regs@, c),
                    apu_cycles as nat,
                ),
                forall|c: int| ch <= c < 3 ==> #[trigger] self.tone_timer[c] == old(self).tone_timer[c],
                forall|c: int| ch <= c < 3 ==> #[trigger] self.tone_out[c] == old(self).tone_out[c],
            decreases 3 - ch,
        {
            let lo: u16 = self.regs[2 * ch] as u16;
            let hi: u16 = (self.regs[2 * ch + 1] as u16) & 0x0F;
            let p: u16 = lo | (hi << 8);
            let period: u16 = if p == 0 { 1 } else { p };
            let mut t: u16 = self.tone_timer[ch];
            let mut o: u8 = self.tone_out[ch];
            assert(o <= 1);
            let mut n: u32 = 0;
            while n < apu_cycles
                invariant
                    n <= apu_cycles,
                    o <= 1,
                    (t, o) == tone_after(old(self).tone_timer[ch as int], old(self).tone_out[ch as int], period, n as nat),
                decreases apu_cycles - n,
            {
                if t == 0 {
                    t = period;
                    assert(o ^ 1u8 <= 1) by (bit_vector)
                        requires
                            o <= 1;
                    o = o ^ 1;
                } else {
                    t = t - 1;
                }
                n = n + 1;
            }
            assert(period == tone_period(old(self).regs@, ch as int));
            let ghost tt0 = self.tone_timer;
            let ghost to0 = self.tone_out;
            self.tone_timer[ch] = t;
            self.tone_out[ch] = o;
            proof {
                assert forall|c: int| 0 <= c < 3 && c != ch implies #[trigger] self.tone_timer[c] == tt0[c] by {}
                assert forall|c: int| 0 <= c < 3 && c != ch implies #[trigger] self.tone_out[c] == to0[c] by {}
                assert forall|c: int| ch < c < 3 implies #[trigger] self.tone_timer[c] == old(self).tone_timer[c] by {
                    assert(tt0[c] == old(self).tone_timer[c]);
                }
                assert forall|c: int| ch < c < 3 implies #[trigger] self.tone_out[c] == old(self).tone_out[c] by {
                    assert(to0[c] == old(self).tone_out[c]);
                }
                assert(self.tone_timer[ch as int] == t && self.tone_out[ch as int] == o);
            }
            ch = ch + 1;
        }
        let ghost tt1 = self.tone_timer;
        let ghost to1 = self.tone_out;
        let np: u16 = (self.regs[6] as u16) & 0x1F;
        let nperiod: u16 = if np == 0 { 1 } else { np };
        let mut n: u32 = 0;
        while n < apu_cycles
            invariant
                n <= apu_cycles,
                self.noise_out <= 1,
                (self.noise_timer, self.noise_lfsr, self.noise_out) == noise_after(
                    old(self).noise_timer,
                    old(self).noise_lfsr,
                    old(self).noise_out,
                    nperiod,
                    n as nat,
                ),
                self.regs == old(self).regs,
                self.addr_latch == old(self).addr_latch,
                self.tone_timer == tt1,
                self.tone_out == to1,
                self.env_timer == old(self).env_timer,
                self.env_pos == old(self).env_pos,
                self.env_holding == old(self).env_holding,
                forall|c: int| 0 <= c < 3 ==> #[trigger] self.tone_out[c] <= 1,
                forall|c: int| 0 <= c < 3 ==> (#[trigger] self.tone_timer[c], self.tone_out[c]) == tone_after(
                    old(self).tone_timer[c],
                    old(self).tone_out[c],
                    tone_period(old(self).regs@, c),
                    apu_cycles as nat,
                ),
            decreases apu_cycles - n,
        {
            if self.noise_timer == 0 {
                self.noise_timer = nperiod;
                let l: u32 = self.noise_lfsr;
                let bit: u32 = (l ^ (l >> 3)) & 1;
                let next: u32 = (l >> 1) | (bit << 16);
                self.noise_lfsr = next;
                assert(next & 1 <= 1) by (bit_vector);
                self.noise_out = (next & 1) as u8;
            } else {
                self.noise_timer = self.noise_timer - 1;
            }
            n = n + 1;
        }
        let elo: u16 = self.regs[0x0B] as u16;
        let ehi: u16 = self.regs[0x0C] as u16;
        let ep: u16 = elo | (ehi << 8);
        let eperiod: u16 = if ep == 0 { 1 } else { ep };
        let shape: u8 = self.regs[0x0D] & 0x0F;
        let ghost nt = self.noise_timer;
        let ghost nl = self.noise_lfsr;
        let ghost no = self.noise_out;
        assert(nperiod == noise_period(old(self).regs@));
        assert(eperiod == env_period(old(self).regs@));
        let mut n: u32 = 0;
        while n < apu_cycles
            invariant
                n <= apu_cycles,
                self.env_pos <= 31,
                self.regs == old(self).regs,
                self.addr_latch == old(self).addr_latch,
                self.tone_timer == tt1,
                self.tone_out == to1,
                self.noise_timer == nt,
                self.noise_lfsr == nl,
                self.noise_out == no,
                no <= 1,
                forall|c: int| 0 <= c < 3 ==> #[trigger] self.tone_out[c] <= 1,
                forall|c: int| 0 <= c < 3 ==> (#[trigger] self.tone_timer[c], self.tone_out[c]) == tone_after(
                    old(self).tone_timer[c],
                    old(self).tone_out[c],
                    tone_period(old(self).regs@, c),
                    apu_cycles as nat,
                ),
                (nt, nl, no) == noise_after(
                    old(self).noise_timer,
                    old(self).noise_lfsr,
                    old(self).noise_out,
                    noise_period(old(self).regs@),
                    apu_cycles as nat,
                ),
                (self.env_timer, self.env_pos, self.env_holding) == env_after(
                    old(self).env_timer,
                    old(self).env_pos,
                    old(self).env_holding,
                    eperiod,
                    shape,
                    n as nat,
                ),
            decreases apu_cycles - n,
        {
            if !self.env_holding {
                if self.env_timer == 0 {
                    self.env_timer = eperiod;
                    if self.env_pos < 31 {
                        self.env_pos = self.env_pos + 1;
                    } else {
                        if shape & 0x08 != 0 {
                            self.env_holding = true;
                            if shape & 0x04 != 0 {
                                self.env_pos = 31 - self.env_pos;
                            }
                        } else {
                            self.env_pos = 0;
                        }
                    }
                } else {
                    self.env_timer = self.env_timer - 1;
                }
            }
            n = n + 1;
        }
    }
}

/// The envelope amplitude is always a 4-bit level.
pub proof fn law_ym_envelope_amplitude_bounded(pos: u8, shape: u8)
    requires
        pos <= 31,
    ensures
        env_amplitude_of(pos, shape) <= 15,
{
}

/// The noise shift register keeps to 17 bits.
pub proof fn law_ym_lfsr_stays_17_bits(l: u32)
    requires
        l < 0x2_0000,
    ensures
        lfsr_next(l) < 0x2_0000,
{
    assert(l < 0x2_0000 ==> (l >> 1u32) | (((l ^ (l >> 3u32)) & 1) << 16u32) < 0x2_0000) by (bit_vector);
}

} // verus!

verus! {

/// The envelope over its 32-step cycle (`shape` bit 1 = attack, bit 2 =
/// alternate): the first 16 steps ramp up (attack) or down, a level per
/// two steps; with alternate set the second half turns back from where the
/// first ended, so it starts at 15 and falls (attack) or starts at 0 and
/// rises (decay); without alternate it stays at 15 (attack) or 0.
pub proof fn law_ym_envelope_shape(pos: u8, shape: u8, later: u8)
    requires
        pos <= 31,
        later <= 31,
    ensures
        shape & 2 != 0 && pos < 16 ==> env_amplitude_of(pos, shape) == pos / 2,
        shape & 2 == 0 && pos < 16 ==> env_amplitude_of(pos, shape) == 15 - pos / 2,
        shape & 4 != 0 && shape & 2 != 0 && pos >= 16 ==> env_amplitude_of(pos, shape) == 15 - (pos - 16) / 2,
        shape & 4 != 0 && shape & 2 == 0 && pos >= 16 ==> env_amplitude_of(pos, shape) == (pos - 16) / 2,
        shape & 4 == 0 && shape & 2 != 0 && pos >= 16 ==> env_amplitude_of(pos, shape) == 15,
        shape & 4 == 0 && shape & 2 == 0 && pos >= 16 ==> env_amplitude_of(pos, shape) == 0,
        shape & 4 != 0 && shape & 2 != 0 ==> env_amplitude_of(16, shape) == 15,
        shape & 4 != 0 && shape & 2 == 0 ==> env_amplitude_of(16, shape) == 0,
        shape & 4 != 0 && shape & 2 != 0 && 16 <= pos <= later ==> env_amplitude_of(later, shape) <= env_amplitude_of(
            pos,
            shape,
        ),
        shape & 4 != 0 && shape & 2 == 0 && 16 <= pos <= later ==> env_amplitude_of(pos, shape) <= env_amplitude_of(
            later,
            shape,
        ),
{
}

} // verus!

verus! {

/// A tone channel's timer counts down from the period while the output
/// holds, for `k` clocks at most the period.
pub proof fn lemma_tone_countdown(period: u16, out: u8, k: nat)
    requires
        k <= period,
    ensures
        tone_after(period, out, period, k) == ((period - k) as u16, out),
    decreases k,
{
    if k > 0 {
        lemma_tone_countdown(period, out, (k - 1) as nat);
    }
}

/// A tone channel's square wave holds each level for `period + 1` clocks:
/// from a reload it keeps its output for `period` clocks and flips it on
/// the next one, reloading the timer.
pub proof fn law_ym_tone_half_period(period: u16, out: u8)
    ensures
        tone_after(period, out, period, period as nat) == (0u16, out),
        tone_after(period, out, period, (period + 1) as nat) == (period, out ^ 1u8),
{
    lemma_tone_countdown(period, out, period as nat);
}

} // verus!
