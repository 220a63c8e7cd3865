//! YM2413 OPLL — the FM synthesiser inside the VRC7 (mapper 85).
//!
//! A compact two-operator FM model with the six melodic channels that the
//! VRC7 exposes: correct register semantics and an approximate timbre.
//! Registers are reached through an address latch and a data port:
//!
//! | Reg       | Function                                           |
//! |-----------|----------------------------------------------------|
//! | `$10-$17` | User instrument (8 bytes; the last one applies it) |
//! | `$20-$25` | Channel 0-5 F-Number low 8 bits                    |
//! | `$30-$35` | Channel 0-5 volume (low 4) + instrument (high 4)   |
//! | `$40-$45` | Channel 0-5 F-Number bit 8, block (bits 1-3) and   |
//! |           | key-on (bit 4)                                     |
//!
//! See: https://www.nesdev.org/wiki/VRC7_audio

use vstd::prelude::*;

verus! {

/// Number of melodic channels.
pub const OPLL_CHANNELS: usize = 6;
/// Largest envelope attenuation (silence).
pub const ENV_MAX: i32 = 4095;

/// The first quarter of a sine wave in 65 steps, scaled to 0-4095:
/// entry `i` is `round(4095 * sin(i/64 * pi/2))`.
pub const QUARTER_SINE: [u16; 65] = [
    0, 100, 201, 301, 401, 501, 601, 700, 799, 897, 995, 1092, 1189, 1285, 1380, 1474, 1567, 1659, 1751,
    1841, 1930, 2018, 2105, 2191, 2275, 2358, 2439, 2519, 2598, 2675, 2750, 2824, 2896, 2966, 3034, 3101,
    3165, 3228, 3289, 3348, 3405, 3460, 3512, 3563, 3611, 3658, 3702, 3744, 3783, 3821, 3856, 3888, 3919,
    3947, 3972, 3996, 4016, 4035, 4051, 4064, 4075, 4084, 4090, 4094, 4095,
];

/// Envelope stage of an operator.
#[derive(Clone, Copy, PartialEq, Eq, Debug, Structural)]
pub enum EnvPhase {
    Off,
    Attack,
    Decay,
    Sustain,
    Release,
}

/// One FM operator (modulator or carrier).
#[derive(Clone, Copy, Debug)]
pub struct Operator {
    /// 20-bit-scaled phase accumulator (wraps at 2^32).
    pub phase: u32,
    /// Output scale 0-1023 derived from the envelope.
    pub level: i32,
    pub env_phase: EnvPhase,
    /// Envelope attenuation: 0 loud, 4095 silent.
    pub env_amp: i32,
}

/// A channel's decoded registers.
#[derive(Clone, Copy, Debug)]
pub struct ChanReg {
    /// 9-bit F-Number.
    pub fnum: u16,
    /// Octave block 0-7.
    pub block: u8,
    pub key_on: bool,
    /// Attenuation 0-15.
    pub volume: u8,
    /// Instrument 0-15 (15 is the user instrument).
    pub instrument: u8,
}

/// One instrument.
#[derive(Clone, Copy, Debug)]
pub struct Patch {
    pub mult: u8,
    pub tl: u8,
    pub fb: u8,
    pub ar: u8,
    pub dr: u8,
    pub sl: u8,
    pub rr: u8,
    pub kl: u8,
    pub am: u8,
    pub wf: u8,
}

/// The OPLL chip state.
pub struct Opll {
    /// Raw register file.
    pub regs: [u8; 128],
    /// Register selected for the next data write.
    pub addr_latch: u8,
    pub chan: [ChanReg; 6],
    /// Modulator (index 0) and carrier (index 1) of each channel.
    pub ops: [[Operator; 2]; 6],
    pub patches: [Patch; 16],
    /// User instrument bytes as written.
    pub user_inst_buf: [u8; 8],
}

/// The instrument described by the eight user-instrument bytes `b`.
pub open spec fn patch_from_regs(b: Seq<u8>) -> Patch {
    Patch {
        mult: b[0] & 0x0F,
        tl: ((b[0] >> 4u8) & 0x0F) | ((b[2] & 0x03) << 4u8),
        fb: b[1] & 0x07,
        ar: (b[2] >> 2u8) & 0x0F,
        dr: b[3] & 0x0F,
        sl: (b[3] >> 4u8) & 0x0F,
        rr: b[4] & 0x0F,
        kl: (b[4] >> 4u8) & 0x03,
        am: b[5] & 0x07,
        wf: b[7] & 0x03,
    }
}

/// An instrument from its ten parameters.
pub open spec fn patch(mult: u8, tl: u8, fb: u8, ar: u8, dr: u8, sl: u8, rr: u8, kl: u8, am: u8, wf: u8) -> Patch {
    Patch { mult, tl, fb, ar, dr, sl, rr, kl, am, wf }
}

/// The built-in instrument set: fifteen fixed timbres and an empty user
/// instrument.
pub open spec fn default_patch_table() -> Seq<Patch> {
    seq![
        patch(1, 24, 0, 15, 7, 3, 10, 0, 0, 0),
        patch(1, 16, 2, 15, 6, 5, 8, 1, 0, 0),
        patch(1, 8, 5, 15, 8, 5, 8, 0, 0, 0),
        patch(1, 12, 0, 15, 7, 5, 8, 1, 0, 0),
        patch(1, 8, 0, 15, 5, 3, 8, 1, 0, 0),
        patch(1, 16, 3, 15, 7, 5, 8, 1, 0, 0),
        patch(2, 16, 3, 15, 8, 5, 8, 1, 0, 0),
        patch(1, 24, 0, 15, 7, 3, 10, 0, 0, 0),
        patch(1, 12, 1, 15, 5, 4, 8, 1, 0, 0),
        patch(1, 8, 4, 15, 8, 5, 8, 0, 0, 0),
        patch(1, 16, 0, 15, 5, 3, 8, 1, 0, 0),
        patch(1, 8, 3, 15, 7, 5, 8, 1, 0, 0),
        patch(1, 16, 0, 15, 5, 3, 8, 1, 0, 0),
        patch(1, 16, 0, 15, 5, 3, 8, 1, 0, 0),
        patch(1, 16, 0, 15, 5, 3, 8, 1, 0, 0),
        patch(0, 0, 0, 0, 0, 0, 0, 0, 0, 0),
    ]
}

/// Phase step per clock of an operator with multiplier `mult` on channel `c`:
/// `fnum * mult * 2^block` (a zero multiplier counts as one).
pub open spec fn phase_inc(c: ChanReg, mult: u8) -> u32 {
    let m: int = if mult == 0 { 1 } else { mult as int };
    (((c.fnum as int) * m) * pow2(c.block as nat)) as u32
}

/// `2^n`.
pub open spec fn pow2(n: nat) -> int
    decreases n,
{
    if n == 0 {
        1
    } else {
        2 * pow2((n - 1) as nat)
    }
}

/// `2^b` for `b <= 7` lies in 1-128.
proof fn lemma_pow2_small(b: nat)
    requires
        b <= 7,
    ensures
        1 <= pow2(b) <= 128,
{
    reveal_with_fuel(pow2, 8);
}

/// Envelope step for rate `r`: `8r`.
pub open spec fn env_step(r: u8) -> int {
    (r as int) * 8
}

/// The operator after one envelope clock: the stage machine advances
/// (attack falls by four steps of `ar` to 0, decay rises by `dr` to the
/// sustain level `16 * 8 * sl`, release rises by two steps of `rr` to
/// silence), then the output level is recomputed from the attenuation and,
/// for the carrier, the channel volume and total level, or for the
/// modulator the total level alone.
pub open spec fn env_clocked(op: Operator, p: Patch, is_carrier: bool, vol: u8) -> Operator {
    let sl = (p.sl as int) * 128;
    let (amp, ph) = match op.env_phase {
        EnvPhase::Off => (ENV_MAX as int, EnvPhase::Off),
        EnvPhase::Attack => {
            let a = op.env_amp - env_step(p.ar) * 4;
            if a <= 0 {
                (0int, EnvPhase::Decay)
            } else {
                (a, EnvPhase::Attack)
            }
        },
        EnvPhase::Decay => {
            let a = op.env_amp + env_step(p.dr);
            if a >= sl {
                (sl, EnvPhase::Sustain)
            } else {
                (a, EnvPhase::Decay)
            }
        },
        EnvPhase::Sustain => (op.env_amp as int, EnvPhase::Sustain),
        EnvPhase::Release => {
            let a = op.env_amp + env_step(p.rr) * 2;
            if a >= ENV_MAX {
                (ENV_MAX as int, EnvPhase::Off)
            } else {
                (a, EnvPhase::Release)
            }
        },
    };
    let clamped = if amp < 0 { 0 } else if amp > ENV_MAX { ENV_MAX as int } else { amp };
    let base = (ENV_MAX - clamped) / 4;
    let atten = if is_carrier {
        let t = (vol as int) + (p.tl as int) / 4;
        (if t > 63 { 63 } else { t }) * 16
    } else {
        (p.tl as int) * 16
    };
    let level = if base - atten > 0 { base - atten } else { 0 };
    Operator { phase: op.phase, level: level as i32, env_phase: ph, env_amp: amp as i32 }
}

/// `a + b` modulo 2^32.
pub open spec fn wrapping_add32(a: u32, b: u32) -> u32 {
    ((a as int + b as int) % 0x1_0000_0000) as u32
}

/// One clock of an operator: its phase advances by `inc`, then its
/// envelope is clocked.
pub open spec fn op_step(op: Operator, p: Patch, is_carrier: bool, vol: u8, inc: u32) -> Operator {
    env_clocked(Operator { phase: wrapping_add32(op.phase, inc), ..op }, p, is_carrier, vol)
}

/// An operator after `n` clocks.
pub open spec fn op_after(op: Operator, p: Patch, is_carrier: bool, vol: u8, inc: u32, n: nat) -> Operator
    decreases n,
{
    if n == 0 {
        op
    } else {
        op_step(op_after(op, p, is_carrier, vol, inc, (n - 1) as nat), p, is_carrier, vol, inc)
    }
}

/// An operator's envelope stays within its range and its level within
/// 0-1023.
pub open spec fn op_ok(op: Operator) -> bool {
    0 <= op.env_amp <= ENV_MAX && 0 <= op.level <= 1023
}

/// An instrument's multiplier, sustain level and feedback are in range.
pub open spec fn patch_ok(p: Patch) -> bool {
    p.mult <= 15 && p.sl <= 15 && p.fb <= 7
}

/// A channel's fields are in range.
pub open spec fn chan_ok(c: ChanReg) -> bool {
    c.fnum <= 0x1FF && c.block <= 7 && c.instrument < 16 && c.volume <= 15
}

/// An operator on key-on: attack from full volume at phase 0.
pub open spec fn keyed_on(op: Operator) -> Operator {
    Operator { env_phase: EnvPhase::Attack, env_amp: 0, phase: 0, ..op }
}

/// An operator on key-off: release.
pub open spec fn keyed_off(op: Operator) -> Operator {
    Operator { env_phase: EnvPhase::Release, ..op }
}

/// The channel after a write of `value` to its register group `group`
/// (`0x20`, `0x30` or `0x40`).
pub open spec fn chan_written(c: ChanReg, group: int, value: u8) -> ChanReg {
    if group == 0x20 {
        ChanReg { fnum: (c.fnum & 0x0100) | (value as u16), ..c }
    } else if group == 0x30 {
        ChanReg { volume: value & 0x0F, instrument: (value >> 4u8) & 0x0F, ..c }
    } else if group == 0x40 {
        ChanReg {
            fnum: (c.fnum & 0x00FF) | (((value as u16) & 0x01) << 8u16),
            block: (value >> 1u8) & 0x07,
            key_on: value & 0x10 != 0,
            ..c
        }
    } else {
        c
    }
}

/// The sine wave at 10-bit phase index `idx` (0-1023), in -4095..4095,
/// rebuilt from [`QUARTER_SINE`] by quarter-wave symmetry.
pub open spec fn sine_at(idx: int) -> int {
    let quad = idx / 256;
    let intra = if quad == 0 {
        idx
    } else if quad == 1 {
        1023 - idx
    } else if quad == 2 {
        idx - 512
    } else {
        1023 - (idx - 512)
    };
    let i = if intra / 4 > 64 { 64 } else { intra / 4 };
    let v = QUARTER_SINE[i] as int;
    if quad == 1 || quad == 3 {
        -v
    } else {
        v
    }
}

impl Opll {
    /// Every channel, instrument and operator field is in range.
    pub open spec fn wf(&self) -> bool {
        &&& forall|c: int| 0 <= c < 6 ==> #[trigger] chan_ok(self.chan[c])
        &&& forall|p: int| 0 <= p < 16 ==> #[trigger] patch_ok(self.patches[p])
        &&& forall|c: int, k: int| 0 <= c < 6 && 0 <= k < 2 ==> #[trigger] op_ok(self.ops[c][k])
    }

    /// The power-on chip: registers and latch zeroed, built-in
    /// instruments, every channel keyed off at F-Number 0, every operator
    /// off at phase 0.
    pub open spec fn power_on(&self) -> bool {
        &&& self.wf()
        &&& self.regs@ == Seq::new(128, |i: int| 0u8)
        &&& self.addr_latch == 0
        &&& self.patches@ == default_patch_table()
        &&& self.user_inst_buf@ == Seq::new(8, |i: int| 0u8)
        &&& forall|c: int| 0 <= c < 6 ==> (#[trigger] self.chan[c]) == (ChanReg {
            fnum: 0,
            block: 0,
            key_on: false,
            volume: 0,
            instrument: 0,
        })
        &&& forall|c: int, k: int| 0 <= c < 6 && 0 <= k < 2 ==> (#[trigger] self.ops[c][k]) == (Operator {
            phase: 0,
            level: 0,
            env_phase: EnvPhase::Off,
            env_amp: 0,
        })
    }

    /// A silent chip with the built-in instruments.
    pub fn new() -> (o: Self)
        ensures
            o.wf(),
            o.power_on(),
            o.regs@ == Seq::new(128, |i: int| 0u8),
            o.addr_latch == 0,
            o.patches@ == default_patch_table(),
            o.user_inst_buf@ == Seq::new(8, |i: int| 0u8),
            forall|c: int| 0 <= c < 6 ==> (#[trigger] o.chan[c]) == (ChanReg {
                fnum: 0,
                block: 0,
                key_on: false,
                volume: 0,
                instrument: 0,
            }),
            forall|c: int, k: int| 0 <= c < 6 && 0 <= k < 2 ==> (#[trigger] o.ops[c][k]) == (Operator {
                phase: 0,
                level: 0,
                env_phase: EnvPhase::Off,
                env_amp: 0,
            }),
    {
        let c0 = ChanReg { fnum: 0, block: 0, key_on: false, volume: 0, instrument: 0 };
        let op0 = Operator { phase: 0, level: 0, env_phase: EnvPhase::Off, env_amp: 0 };
        let o = Opll {
            regs: [0u8; 128],
            addr_latch: 0,
            chan: [c0; 6],
            ops: [[op0; 2]; 6],
            patches: default_patches(),
            user_inst_buf: [0u8; 8],
        };
        assert(o.regs@ =~= Seq::new(128, |i: int| 0u8));
        assert(o.user_inst_buf@ =~= Seq::new(8, |i: int| 0u8));
        o
    }

    /// Select register `addr & 0x7F` for the next data write.
    pub fn write_addr(&mut self, addr: u8)
        ensures
            old(self).addr_written(&*final(self), addr),
            opll_call_post(*old(self), *final(self), OpllCall::WriteAddr(addr)),
    {
        self.addr_latch = addr & 0x7F;
    }

    /// Write `value` to the selected register and apply it (see the
    /// register table); a latch past `$7F` is ignored.
    pub fn write_data(&mut self, value: u8)
        requires
            old(self).wf(),
        ensures
            final(self).wf(),
            old(self).data_written(&*final(self), value),
            opll_call_post(*old(self), *final(self), OpllCall::WriteData(value)),
    {
        let addr: usize = self.addr_latch as usize;
        if addr >= 0x80 {
            return;
        }
        self.regs[addr] = value;
        self.apply_reg(addr, value);
    }

    /// `post` is the chip after `addr` is written to the address latch.
    pub open spec fn addr_written(&self, post: &Self, addr: u8) -> bool {
        &&& post.addr_latch == addr & 0x7F
        &&& post.regs == self.regs
        &&& post.chan == self.chan
        &&& post.ops == self.ops
        &&& post.patches == self.patches
        &&& post.user_inst_buf == self.user_inst_buf
    }

    /// `post` is the chip after `value` is written to the data port.
    pub open spec fn data_written(&self, post: &Self, value: u8) -> bool {
        &&& post.addr_latch == self.addr_latch
        &&& self.addr_latch >= 0x80 ==> post.regs == self.regs && post.chan == self.chan && post.ops == self.ops
            && post.patches == self.patches && post.user_inst_buf == self.user_inst_buf
        &&& self.addr_latch < 0x80 ==> post.regs@ == self.regs@.update(self.addr_latch as int, value)
            && self.applied(post, self.addr_latch as int, value)
    }

    /// `post` is the chip after register `addr` takes `value` (the raw
    /// register file aside).
    pub open spec fn applied(&self, post: &Self, addr: int, value: u8) -> bool {
        &&& post.addr_latch == self.addr_latch
        &&& post.user_inst_buf@ == (if 0x10 <= addr <= 0x17 {
            self.user_inst_buf@.update(addr - 0x10, value)
        } else {
            self.user_inst_buf@
        })
        &&& post.patches@ == (if addr == 0x17 {
            self.patches@.update(15, patch_from_regs(self.user_inst_buf@.update(7, value)))
        } else {
            self.patches@
        })
        &&& post.chan@ == (if 0x20 <= addr <= 0x25 {
            self.chan@.update(addr - 0x20, chan_written(self.chan[addr - 0x20], 0x20, value))
        } else if 0x30 <= addr <= 0x35 {
            self.chan@.update(addr - 0x30, chan_written(self.chan[addr - 0x30], 0x30, value))
        } else if 0x40 <= addr <= 0x45 {
            self.chan@.update(addr - 0x40, chan_written(self.chan[addr - 0x40], 0x40, value))
        } else {
            self.chan@
        })
        &&& forall|c: int, k: int| 0 <= c < 6 && 0 <= k < 2 ==> (#[trigger] post.ops[c][k]) == (if 0x40 <= addr <= 0x45
            && c == addr - 0x40 {
            let now_on = value & 0x10 != 0;
            let was_on = self.chan[c].key_on;
            if now_on && !was_on {
                keyed_on(self.ops[c][k])
            } else if !now_on && was_on {
                keyed_off(self.ops[c][k])
            } else {
                self.ops[c][k]
            }
        } else {
            self.ops[c][k]
        })
    }

    /// Apply a write of `value` to register `addr`.
    fn apply_reg(&mut self, addr: usize, value: u8)
        requires
            old(self).wf(),
            addr < 0x80,
        ensures
            final(self).wf(),
            final(self).regs == old(self).regs,
            old(self).applied(&*final(self), addr as int, value),
    {
        proof {
            crate::bits::lemma_u8_masks(value);
            crate::bits::lemma_u8_masks(value >> 1u8);
            crate::bits::lemma_u8_masks(value >> 4u8);
        }
        if 0x10 <= addr && addr <= 0x17 {
            let i: usize = addr - 0x10;
            self.user_inst_buf[i] = value;
            if i == 7 {
                let p: Patch = patch_from_bytes(&self.user_inst_buf);
                self.patches[15] = p;
            }
        } else if 0x30 <= addr && addr <= 0x35 {
            let ch: usize = addr - 0x30;
            let mut c: ChanReg = self.chan[ch];
            c.volume = value & 0x0F;
            c.instrument = (value >> 4) & 0x0F;
            self.chan[ch] = c;
        } else if 0x20 <= addr && addr <= 0x25 {
            let ch: usize = addr - 0x20;
            let mut c: ChanReg = self.chan[ch];
            proof {
                crate::bits::lemma_fnum_bits(c.fnum, value);
            }
            c.fnum = (c.fnum & 0x0100) | (value as u16);
            self.chan[ch] = c;
        } else if 0x40 <= addr && addr <= 0x45 {
            let ch: usize = addr - 0x40;
            let mut c: ChanReg = self.chan[ch];
            let was_on: bool = c.key_on;
            proof {
                crate::bits::lemma_fnum_bits(c.fnum, value);
            }
            c.fnum = (c.fnum & 0x00FF) | (((value as u16) & 0x01) << 8);
            c.block = (value >> 1) & 0x07;
            c.key_on = (value & 0x10) != 0;
            self.chan[ch] = c;
            let now_on: bool = c.key_on;
            if now_on && !was_on {
                let mut pair: [Operator; 2] = self.ops[ch];
                let mut k: usize = 0;
                while k < 2
                    invariant
                        k <= 2,
                        forall|j: int| 0 <= j < k ==> #[trigger] pair[j] == keyed_on(old(self).ops[ch as int][j]),
                        forall|j: int| k <= j < 2 ==> #[trigger] pair[j] == old(self).ops[ch as int][j],
                    decreases 2 - k,
                {
                    let mut op: Operator = pair[k];
                    op.env_phase = EnvPhase::Attack;
                    op.env_amp = 0;
                    op.phase = 0;
                    pair[k] = op;
                    k = k + 1;
                }
                self.ops[ch] = pair;
            } else if !now_on && was_on {
                let mut pair: [Operator; 2] = self.ops[ch];
                let mut k: usize = 0;
                while k < 2
                    invariant
                        k <= 2,
                        forall|j: int| 0 <= j < k ==> #[trigger] pair[j] == keyed_off(old(self).ops[ch as int][j]),
                        forall|j: int| k <= j < 2 ==> #[trigger] pair[j] == old(self).ops[ch as int][j],
                    decreases 2 - k,
                {
                    let mut op: Operator = pair[k];
                    op.env_phase = EnvPhase::Release;
                    pair[k] = op;
                    k = k + 1;
                }
                self.ops[ch] = pair;
            }
        }
        proof {
            assert forall|c: int, k: int| 0 <= c < 6 && 0 <= k < 2 implies #[trigger] op_ok(self.ops[c][k]) by {
                assert(op_ok(old(self).ops[c][k]));
            }
            assert forall|c: int| 0 <= c < 6 implies #[trigger] chan_ok(self.chan[c]) by {
                assert(chan_ok(old(self).chan[c]));
            }
            assert forall|q: int| 0 <= q < 16 implies #[trigger] patch_ok(self.patches[q]) by {
                assert(patch_ok(old(self).patches[q]));
            }
        }
    }

    /// Advance the chip by `apu_cycles` clocks: each clock, every
    /// operator's phase advances by its step (modulator with the
    /// instrument's multiplier, carrier with multiplier one) and its
    /// envelope is clocked.
    pub fn clock(&mut self, apu_cycles: u32)
        requires
            old(self).wf(),
        ensures
            final(self).wf(),
            opll_call_post(*old(self), *final(self), OpllCall::Clock(apu_cycles)),
            final(self).regs == old(self).regs,
            final(self).addr_latch == old(self).addr_latch,
            final(self).chan == old(self).chan,
            final(self).patches == old(self).patches,
            final(self).user_inst_buf == old(self).user_inst_buf,
            forall|c: int| 0 <= c < 6 ==> {
                let p = old(self).patches[old(self).chan[c].instrument as int];
                &&& #[trigger] final(self).ops[c][0] == op_after(
                    old(self).ops[c][0],
                    p,
                    false,
                    old(self).chan[c].volume,
                    phase_inc(old(self).chan[c], p.mult),
                    apu_cycles as nat,
                )
                &&& final(self).ops[c][1] == op_after(
                    old(self).ops[c][1],
                    p,
                    true,
                    old(self).chan[c].volume,
                    phase_inc(old(self).chan[c], 1),
                    apu_cycles as nat,
                )
            },
    {
        let ghost start = self.ops;
        let mut ch: usize = 0;
        while ch < OPLL_CHANNELS
            invariant
                ch <= 6,
                self.wf(),
                self.regs == old(self).regs,
                self.addr_latch == old(self).addr_latch,
                self.chan == old(self).chan,
                self.patches == old(self).patches,
                self.user_inst_buf == old(self).user_inst_buf,
                start == old(self).ops,
                forall|c: int| 0 <= c < ch ==> {
                    let p = old(self).patches[old(self).chan[c].instrument as int];
                    &&& #[trigger] self.ops[c][0] == op_after(
                        start[c][0],
                        p,
                        false,
                        old(self).chan[c].volume,
                        phase_inc(old(self).chan[c], p.mult),
                        apu_cycles as nat,
                    )
                    &&& self.ops[c][1] == op_after(
                        start[c][1],
                        p,
                        true,
                        old(self).chan[c].volume,
                        phase_inc(old(self).chan[c], 1),
                        apu_cycles as nat,
                    )
                },
                forall|c: int| ch <= c < 6 ==> #[trigger] self.ops[c] == start[c],
            decreases 6 - ch,
        {
            let c: ChanReg = self.chan[ch];
            assert(chan_ok(self.chan[ch as int]));
            assert(patch_ok(self.patches[c.instrument as int]));
            assert(op_ok(self.ops[ch as int][0]) && op_ok(self.ops[ch as int][1]));
            let p: Patch = self.patches[c.instrument as usize];
            let inc_mod: u32 = Self::phase_step(c, p.mult);
            let inc_car: u32 = Self::phase_step(c, 1);
            let mut pair: [Operator; 2] = self.ops[ch];
            let ghost p0 = pair;
            let mut n: u32 = 0;
            while n < apu_cycles
                invariant
                    n <= apu_cycles,
                    patch_ok(p),
                    c.volume <= 15,
                    pair[0] == op_after(p0[0], p, false, c.volume, inc_mod, n as nat),
                    pair[1] == op_after(p0[1], p, true, c.volume, inc_car, n as nat),
                    op_ok(pair[0]),
                    op_ok(pair[1]),
                decreases apu_cycles - n,
            {
                let mut m: Operator = pair[0];
                m.phase = m.phase.wrapping_add(inc_mod);
                pair[0] = Self::clock_env(m, p, false, c.volume);
                let mut k: Operator = pair[1];
                k.phase = k.phase.wrapping_add(inc_car);
                pair[1] = Self::clock_env(k, p, true, c.volume);
                n = n + 1;
            }
            self.ops[ch] = pair;
            ch = ch + 1;
        }
        assert forall|c: int| 0 <= c < 6 implies #[trigger] self.ops[c][1] == op_after(
            old(self).ops[c][1],
            old(self).patches[old(self).chan[c].instrument as int],
            true,
            old(self).chan[c].volume,
            phase_inc(old(self).chan[c], 1),
            apu_cycles as nat,
        ) by {
            assert(c < ch);
            let p = old(self).patches[old(self).chan[c].instrument as int];
            assert(self.ops[c][0] == op_after(
                start[c][0],
                p,
                false,
                old(self).chan[c].volume,
                phase_inc(old(self).chan[c], p.mult),
                apu_cycles as nat,
            ));
        }
    }

    /// Phase step of an operator with multiplier `mult` on channel `c`.
    fn phase_step(c: ChanReg, mult: u8) -> (r: u32)
        requires
            chan_ok(c),
            mult <= 15,
        ensures
            r == phase_inc(c, mult),
    {
        let m: u32 = if mult == 0 { 1 } else { mult as u32 };
        let f: u32 = c.fnum as u32;
        assert(f * m <= 511 * 15) by (nonlinear_arith)
            requires
                f <= 0x1FF,
                m <= 15,
        ;
        let base: u32 = f * m;
        let mut r: u32 = base;
        let mut b: u8 = 0;
        proof {
            lemma_pow2_small(0);
        }
        while b < c.block
            invariant
                b <= c.block,
                c.block <= 7,
                base <= 511 * 15,
                r == base * pow2(b as nat),
                pow2(b as nat) <= 128,
            decreases c.block - b,
        {
            proof {
                lemma_pow2_small((b + 1) as nat);
            }
            assert(pow2((b + 1) as nat) == 2 * pow2(b as nat));
            assert(r * 2 <= 511 * 15 * 256) by (nonlinear_arith)
                requires
                    r == base * pow2(b as nat),
                    base <= 511 * 15,
                    pow2(b as nat) <= 128,
            ;
            r = r * 2;
            proof {
                assert(r == base * pow2((b + 1) as nat)) by (nonlinear_arith)
                    requires
                        r == 2 * (base * pow2(b as nat)),
                        pow2((b + 1) as nat) == 2 * pow2(b as nat),
                ;
            }
            b = b + 1;
        }
        r
    }

    /// One envelope clock of `op` (see [`env_clocked`]).
    fn clock_env(op: Operator, p: Patch, is_carrier: bool, vol: u8) -> (r: Operator)
        requires
            op_ok(op),
            patch_ok(p),
            vol <= 15,
        ensures
            r == env_clocked(op, p, is_carrier, vol),
            op_ok(r),
    {
        let sl: i32 = (p.sl as i32) * 128;
        let mut amp: i32 = op.env_amp;
        let mut ph: EnvPhase = op.env_phase;
        match op.env_phase {
            EnvPhase::Off => {
                amp = ENV_MAX;
            },
            EnvPhase::Attack => {
                amp = amp - (p.ar as i32) * 8 * 4;
                if amp <= 0 {
                    amp = 0;
                    ph = EnvPhase::Decay;
                }
            },
            EnvPhase::Decay => {
                amp = amp + (p.dr as i32) * 8;
                if amp >= sl {
                    amp = sl;
                    ph = EnvPhase::Sustain;
                }
            },
            EnvPhase::Sustain => {},
            EnvPhase::Release => {
                amp = amp + (p.rr as i32) * 8 * 2;
                if amp >= ENV_MAX {
                    amp = ENV_MAX;
                    ph = EnvPhase::Off;
                }
            },
        }
        let clamped: i32 = if amp < 0 {
            0
        } else if amp > ENV_MAX {
            ENV_MAX
        } else {
            amp
        };
        let base: i32 = (ENV_MAX - clamped) / 4;
        let atten: i32 = if is_carrier {
            let t: i32 = (vol as i32) + (p.tl as i32) / 4;
            (if t > 63 { 63 } else { t }) * 16
        } else {
            (p.tl as i32) * 16
        };
        let level: i32 = if base - atten > 0 { base - atten } else { 0 };
        Operator { phase: op.phase, level, env_phase: ph, env_amp: amp }
    }

    /// The sine at phase `phase`: its bits 10-19 index a 1024-step wave.
    pub fn sin(phase: u32) -> (r: i32)
        ensures
            r == sine_at(((phase / 1024) % 1024) as int),
            -4095 <= r <= 4095,
    {
        let idx: usize = ((phase / 1024) % 1024) as usize;
        let quad: usize = idx / 256;
        let intra: usize = if quad == 0 {
            idx
        } else if quad == 1 {
            0x3FF - idx
        } else if quad == 2 {
            idx - 0x200
        } else {
            0x3FF - (idx - 0x200)
        };
        let i: usize = if intra / 4 > 64 { 64 } else { intra / 4 };
        let v: i32 = QUARTER_SINE[i] as i32;
        assert(QUARTER_SINE[i as int] <= 4095) by {
            assert(forall|j: int| 0 <= j < 65 ==> #[trigger] QUARTER_SINE[j] <= 4095);
        }
        if quad == 1 || quad == 3 {
            -v
        } else {
            v
        }
    }
}

/// The built-in instrument set (see [`default_patch_table`]).
pub fn default_patches() -> (r: [Patch; 16])
    ensures
        r@ == default_patch_table(),
{
    let r: [Patch; 16] = [
        Patch { mult: 1, tl: 24, fb: 0, ar: 15, dr: 7, sl: 3, rr: 10, kl: 0, am: 0, wf: 0 },
        Patch { mult: 1, tl: 16, fb: 2, ar: 15, dr: 6, sl: 5, rr: 8, kl: 1, am: 0, wf: 0 },
        Patch { mult: 1, tl: 8, fb: 5, ar: 15, dr: 8, sl: 5, rr: 8, kl: 0, am: 0, wf: 0 },
        Patch { mult: 1, tl: 12, fb: 0, ar: 15, dr: 7, sl: 5, rr: 8, kl: 1, am: 0, wf: 0 },
        Patch { mult: 1, tl: 8, fb: 0, ar: 15, dr: 5, sl: 3, rr: 8, kl: 1, am: 0, wf: 0 },
        Patch { mult: 1, tl: 16, fb: 3, ar: 15, dr: 7, sl: 5, rr: 8, kl: 1, am: 0, wf: 0 },
        Patch { mult: 2, tl: 16, fb: 3, ar: 15, dr: 8, sl: 5, rr: 8, kl: 1, am: 0, wf: 0 },
        Patch { mult: 1, tl: 24, fb: 0, ar: 15, dr: 7, sl: 3, rr: 10, kl: 0, am: 0, wf: 0 },
        Patch { mult: 1, tl: 12, fb: 1, ar: 15, dr: 5, sl: 4, rr: 8, kl: 1, am: 0, wf: 0 },
        Patch { mult: 1, tl: 8, fb: 4, ar: 15, dr: 8, sl: 5, rr: 8, kl: 0, am: 0, wf: 0 },
        Patch { mult: 1, tl: 16, fb: 0, ar: 15, dr: 5, sl: 3, rr: 8, kl: 1, am: 0, wf: 0 },
        Patch { mult: 1, tl: 8, fb: 3, ar: 15, dr: 7, sl: 5, rr: 8, kl: 1, am: 0, wf: 0 },
        Patch { mult: 1, tl: 16, fb: 0, ar: 15, dr: 5, sl: 3, rr: 8, kl: 1, am: 0, wf: 0 },
        Patch { mult: 1, tl: 16, fb: 0, ar: 15, dr: 5, sl: 3, rr: 8, kl: 1, am: 0, wf: 0 },
        Patch { mult: 1, tl: 16, fb: 0, ar: 15, dr: 5, sl: 3, rr: 8, kl: 1, am: 0, wf: 0 },
        Patch { mult: 0, tl: 0, fb: 0, ar: 0, dr: 0, sl: 0, rr: 0, kl: 0, am: 0, wf: 0 },
    ];
    assert(r@ =~= default_patch_table());
    r
}

/// The instrument described by the user-instrument bytes `b`.
pub fn patch_from_bytes(b: &[u8; 8]) -> (p: Patch)
    ensures
        p == patch_from_regs(b@),
        patch_ok(p),
{
    proof {
        crate::bits::lemma_u8_masks(b[0]);
        crate::bits::lemma_u8_masks(b[1]);
        crate::bits::lemma_u8_masks(b[3]);
        crate::bits::lemma_u8_masks(b[3] >> 4u8);
    }
    Patch {
        mult: b[0] & 0x0F,
        tl: ((b[0] >> 4) & 0x0F) | ((b[2] & 0x03) << 4),
        fb: b[1] & 0x07,
        ar: (b[2] >> 2) & 0x0F,
        dr: b[3] & 0x0F,
        sl: (b[3] >> 4) & 0x0F,
        rr: b[4] & 0x0F,
        kl: (b[4] >> 4) & 0x03,
        am: b[5] & 0x07,
        wf: b[7] & 0x03,
    }
}


/// `a / b` rounded toward zero (`b > 0`).
pub open spec fn tdiv(a: int, b: int) -> int {
    if a >= 0 {
        a / b
    } else {
        -((-a) / b)
    }
}

/// The sine at phase accumulator value `phase` (bits 10-19).
pub open spec fn sine_of_phase(phase: u32) -> int {
    sine_at(((phase / 1024) % 1024) as int)
}

/// Output (-1023..1023) of a channel with registers `c`, modulator `m`,
/// carrier `k` and instrument `p`: silent when keyed off with its
/// carrier's envelope finished; otherwise the carrier's sine, phase-shifted
/// by sixteen times the modulator's output (the modulator itself shifted by
/// its feedback), each scaled by its level over 4095.
pub open spec fn voice_out(c: ChanReg, m: Operator, k: Operator, p: Patch) -> int {
    if !c.key_on && k.env_phase == EnvPhase::Off {
        0
    } else {
        let fb: int = if p.fb != 0 { (m.level as int) / pow2((7 - p.fb) as nat) } else { 0 };
        let mod_out = tdiv(sine_of_phase(wrapping_add32(m.phase, (fb * 64) as u32)) * m.level, 4095);
        let car_phase = wrapping_add32(k.phase, (mod_out * 16) as u32);
        tdiv(sine_of_phase(car_phase) * k.level, 4095)
    }
}

/// Output of channel `c` of `o` (see [`voice_out`]).
pub open spec fn channel_out(o: Opll, c: int) -> int {
    voice_out(o.chan[c], o.ops[c][0], o.ops[c][1], o.patches[o.chan[c].instrument as int])
}

/// Sum of the outputs of the first `n` channels.
pub open spec fn mix_upto(o: Opll, n: int) -> int
    decreases n,
{
    if n <= 0 {
        0
    } else {
        mix_upto(o, n - 1) + channel_out(o, n - 1)
    }
}

/// `x / 4095` rounded toward zero.
fn div_4095(x: i32) -> (r: i32)
    requires
        x > i32::MIN,
    ensures
        r == tdiv(x as int, 4095),
{
    if x >= 0 {
        x / 4095
    } else {
        -((-x) / 4095)
    }
}

/// The modulator feedback for level `level` and feedback setting `fb`:
/// `level / 2^(7 - fb)`, or none when `fb` is 0.
fn feedback(level: i32, fb: u8) -> (r: i32)
    requires
        0 <= level <= 1023,
        fb <= 7,
    ensures
        r == (if fb != 0 { (level as int) / pow2((7 - fb) as nat) } else { 0 }),
        0 <= r <= 1023,
{
    if fb == 0 {
        return 0;
    }
    proof {
        reveal_with_fuel(pow2, 8);
    }
    let d: i32 = if fb == 1 {
        64
    } else if fb == 2 {
        32
    } else if fb == 3 {
        16
    } else if fb == 4 {
        8
    } else if fb == 5 {
        4
    } else if fb == 6 {
        2
    } else {
        1
    };
    assert(d == pow2((7 - fb) as nat));
    level / d
}

/// A sine value scaled by an operator level: `sine * level / 4095`,
/// rounded toward zero.
fn scaled(sine: i32, level: i32) -> (r: i32)
    requires
        -4095 <= sine <= 4095,
        0 <= level <= 1023,
    ensures
        r == tdiv((sine as int) * (level as int), 4095),
        -1023 <= r <= 1023,
{
    assert(-4095 * 1023 <= sine * level <= 4095 * 1023) by (nonlinear_arith)
        requires
            -4095 <= sine <= 4095,
            0 <= level <= 1023,
    ;
    div_4095(sine * level)
}

/// Output of one voice (see [`voice_out`]).
#[verifier::spinoff_prover]
#[verifier::rlimit(40)]
fn voice_output(c: ChanReg, m: Operator, k: Operator, p: Patch) -> (r: i32)
    requires
        op_ok(m),
        op_ok(k),
        patch_ok(p),
    ensures
        r == voice_out(c, m, k, p),
        -1023 <= r <= 1023,
{
    if !c.key_on && k.env_phase == EnvPhase::Off {
        return 0;
    }
    let fb: i32 = feedback(m.level, p.fb);
    let s1: i32 = Opll::sin(m.phase.wrapping_add((fb as u32) * 64));
    let mod_out: i32 = scaled(s1, m.level);
    let car_phase: u32 = k.phase.wrapping_add((mod_out * 16) as u32);
    let s2: i32 = Opll::sin(car_phase);
    scaled(s2, k.level)
}

impl Opll {
    /// Output of channel `ch` (see [`channel_out`]).
    pub fn channel_output(&self, ch: usize) -> (r: i32)
        requires
            self.wf(),
            ch < OPLL_CHANNELS,
        ensures
            r == channel_out(*self, ch as int),
            -1023 <= r <= 1023,
    {
        let c: ChanReg = self.chan[ch];
        let pair: [Operator; 2] = self.ops[ch];
        assert(chan_ok(self.chan[ch as int]));
        assert(op_ok(self.ops[ch as int][0]) && op_ok(self.ops[ch as int][1]));
        let p: Patch = self.patches[c.instrument as usize];
        assert(patch_ok(self.patches[c.instrument as int]));
        voice_output(c, pair[0], pair[1], p)
    }

    /// Sum of the six channel outputs (see [`mix_upto`]); the program scales
    /// it into a sample.
    pub fn mix_level(&self) -> (r: i32)
        requires
            self.wf(),
        ensures
            r == mix_upto(*self, 6),
            -6138 <= r <= 6138,
    {
        let mut sum: i32 = 0;
        let mut ch: usize = 0;
        while ch < OPLL_CHANNELS
            invariant
                ch <= 6,
                self.wf(),
                sum == mix_upto(*self, ch as int),
                -1023 * ch <= sum <= 1023 * ch,
            decreases 6 - ch,
        {
            let v: i32 = self.channel_output(ch);
            sum = sum + v;
            ch = ch + 1;
        }
        sum
    }
}

} // verus!

verus! {

/// No channel of `o` is keyed on, and every carrier's envelope is off.
pub open spec fn unkeyed(o: Opll) -> bool {
    forall|c: int| 0 <= c < 6 ==> !(#[trigger] o.chan[c]).key_on && o.ops[c][1].env_phase == EnvPhase::Off
}

/// An operator whose envelope is off stays off however long it is clocked.
pub proof fn lemma_off_stays_off(op: Operator, p: Patch, is_carrier: bool, vol: u8, inc: u32, n: nat)
    requires
        op.env_phase == EnvPhase::Off,
    ensures
        op_after(op, p, is_carrier, vol, inc, n).env_phase == EnvPhase::Off,
    decreases n,
{
    if n > 0 {
        lemma_off_stays_off(op, p, is_carrier, vol, inc, (n - 1) as nat);
    }
}

/// The mix of the first `n` channels of an unkeyed chip is 0.
proof fn lemma_unkeyed_mix(o: Opll, n: int)
    requires
        unkeyed(o),
        n <= 6,
    ensures
        mix_upto(o, n) == 0,
    decreases n,
{
    if n > 0 {
        lemma_unkeyed_mix(o, n - 1);
        let c = n - 1;
        assert(0 <= c < 6);
        assert(!(o.chan[c]).key_on && o.ops[c][1].env_phase == EnvPhase::Off);
        assert(channel_out(o, c) == 0);
    }
}

/// A chip that is never keyed on stays silent: it mixes to 0; selecting a
/// register keeps it unkeyed; a data write keeps it unkeyed unless it
/// writes bit 4 (key-on) to one of `$40-$45`; clocking (channels kept,
/// each carrier run through its envelope) keeps it unkeyed.
pub proof fn law_opll_unkeyed_stays_silent(before: Opll, after: Opll, v: u8, n: nat)
    requires
        unkeyed(before),
    ensures
        mix_upto(before, 6) == 0,
        before.addr_written(&after, v) ==> unkeyed(after),
        before.data_written(&after, v) && !(0x40 <= before.addr_latch <= 0x45 && v & 0x10 != 0) ==> unkeyed(after),
        (after.chan == before.chan && forall|c: int|
            0 <= c < 6 ==> #[trigger] after.ops[c][1] == op_after(
                before.ops[c][1],
                before.patches[before.chan[c].instrument as int],
                true,
                before.chan[c].volume,
                phase_inc(before.chan[c], 1),
                n,
            )) ==> unkeyed(after),
{
    lemma_unkeyed_mix(before, 6);
    if before.data_written(&after, v) && !(0x40 <= before.addr_latch <= 0x45 && v & 0x10 != 0) {
        assert forall|c: int| 0 <= c < 6 implies !(#[trigger] after.chan[c]).key_on && after.ops[c][1].env_phase
            == EnvPhase::Off by {
            assert(!before.chan[c].key_on && before.ops[c][1].env_phase == EnvPhase::Off);
            if before.addr_latch < 0x80 {
                assert(after.chan@[c] == after.chan[c]);
                assert(after.ops[c][1] == after.ops[c][1]);
            }
        }
    }
    if after.chan == before.chan && forall|c: int|
        0 <= c < 6 ==> #[trigger] after.ops[c][1] == op_after(
            before.ops[c][1],
            before.patches[before.chan[c].instrument as int],
            true,
            before.chan[c].volume,
            phase_inc(before.chan[c], 1),
            n,
        ) {
        assert forall|c: int| 0 <= c < 6 implies !(#[trigger] after.chan[c]).key_on && after.ops[c][1].env_phase
            == EnvPhase::Off by {
            assert(!before.chan[c].key_on && before.ops[c][1].env_phase == EnvPhase::Off);
            lemma_off_stays_off(
                before.ops[c][1],
                before.patches[before.chan[c].instrument as int],
                true,
                before.chan[c].volume,
                phase_inc(before.chan[c], 1),
                n,
            );
        }
    }
}

} // verus!

verus! {

/// A call on the chip: selecting a register, writing the data port, or
/// clocking it for `n` APU cycles.
pub enum OpllCall {
    WriteAddr(u8),
    WriteData(u8),
    Clock(u32),
}

/// Whether `after` is what `call` leaves `before` in, as far as the
/// channels and carriers are concerned (the contracts of `write_addr`,
/// `write_data` and `clock`).
pub open spec fn opll_call_post(before: Opll, after: Opll, call: OpllCall) -> bool {
    match call {
        OpllCall::WriteAddr(a) => before.addr_written(&after, a),
        OpllCall::WriteData(v) => before.data_written(&after, v),
        OpllCall::Clock(n) => after.chan == before.chan && forall|c: int|
            0 <= c < 6 ==> #[trigger] after.ops[c][1] == op_after(
                before.ops[c][1],
                before.patches[before.chan[c].instrument as int],
                true,
                before.chan[c].volume,
                phase_inc(before.chan[c], 1),
                n as nat,
            ),
    }
}

/// Whether `call` on `o` keys a channel on: a data write with bit 4 set
/// while the latch selects one of `$40-$45`.
pub open spec fn keys_on(o: Opll, call: OpllCall) -> bool {
    match call {
        OpllCall::WriteData(v) => 0x40 <= o.addr_latch <= 0x45 && v & 0x10 != 0,
        _ => false,
    }
}

/// A chip at power-on that no call ever keys on stays silent: after any
/// run of register selects, data writes and clocks none of which keys a
/// channel on, no channel is keyed, every carrier is off and the mix is 0.
pub proof fn law_opll_silent_over_calls(states: Seq<Opll>, calls: Seq<OpllCall>)
    requires
        states.len() == calls.len() + 1,
        states[0].power_on(),
        forall|i: int| 0 <= i < calls.len() ==> #[trigger] opll_call_post(states[i], states[i + 1], calls[i]),
        forall|i: int| 0 <= i < calls.len() ==> !#[trigger] keys_on(states[i], calls[i]),
    ensures
        unkeyed(states.last()),
        mix_upto(states.last(), 6) == 0,
    decreases calls.len(),
{
    if calls.len() == 0 {
        assert forall|c: int| 0 <= c < 6 implies !(#[trigger] states[0].chan[c]).key_on && states[0].ops[c][1].env_phase
            == EnvPhase::Off by {
            assert(states[0].ops[c][1] == states[0].ops[c][1]);
        }
    } else {
        let n = calls.len() - 1;
        law_opll_silent_over_calls(states.take(n + 1), calls.take(n));
        assert(states.take(n + 1).last() == states[n]);
        assert(opll_call_post(states[n], states[n + 1], calls[n]));
        assert(!keys_on(states[n], calls[n]));
        match calls[n] {
            OpllCall::WriteAddr(a) => {
                law_opll_unkeyed_stays_silent(states[n], states[n + 1], a, 0);
            },
            OpllCall::WriteData(v) => {
                law_opll_unkeyed_stays_silent(states[n], states[n + 1], v, 0);
            },
            OpllCall::Clock(k) => {
                law_opll_unkeyed_stays_silent(states[n], states[n + 1], 0, k as nat);
            },
        }
    }
    law_opll_unkeyed_stays_silent(states.last(), states.last(), 0, 0);
}

} // verus!

verus! {

/// Each envelope clock moves the attenuation in its stage's direction:
/// attack lowers it (louder), reaching 0 and passing to decay; decay
/// raises it towards the sustain level; sustain holds it; release raises
/// it towards silence, where the operator turns off; an operator that is
/// off stays silent.
pub proof fn law_opll_envelope_direction(op: Operator, p: Patch, is_carrier: bool, vol: u8)
    requires
        op_ok(op),
        patch_ok(p),
    ensures
        op.env_phase == EnvPhase::Attack ==> env_clocked(op, p, is_carrier, vol).env_amp <= op.env_amp,
        op.env_phase == EnvPhase::Attack && env_clocked(op, p, is_carrier, vol).env_amp == 0 ==> env_clocked(
            op,
            p,
            is_carrier,
            vol,
        ).env_phase == EnvPhase::Decay,
        op.env_phase == EnvPhase::Decay && op.env_amp <= (p.sl as int) * 128 ==> op.env_amp <= env_clocked(
            op,
            p,
            is_carrier,
            vol,
        ).env_amp <= (p.sl as int) * 128,
        op.env_phase == EnvPhase::Sustain ==> env_clocked(op, p, is_carrier, vol).env_amp == op.env_amp,
        op.env_phase == EnvPhase::Release ==> env_clocked(op, p, is_carrier, vol).env_amp >= op.env_amp,
        op.env_phase == EnvPhase::Release && env_clocked(op, p, is_carrier, vol).env_phase != EnvPhase::Release
            ==> env_clocked(op, p, is_carrier, vol).env_phase == EnvPhase::Off && env_clocked(
            op,
            p,
            is_carrier,
            vol,
        ).env_amp == ENV_MAX,
        op.env_phase == EnvPhase::Off ==> env_clocked(op, p, is_carrier, vol).env_phase == EnvPhase::Off
            && env_clocked(op, p, is_carrier, vol).env_amp == ENV_MAX,
{
}

} // verus!
