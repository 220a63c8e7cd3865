//! VRC7 — iNES mapper 85: Konami's VRC7 with its YM2413 (OPLL) FM audio.
//!
//! Three switchable 8 KB PRG banks and a fixed last one, eight 1 KB CHR
//! banks, horizontal/vertical mirroring, 8 KB PRG-RAM, a CPU-clocked IRQ
//! counter and the on-chip [`Opll`]. Registers are decoded by
//! `addr & $F03D`:
//!
//! | Address       | Function                                      |
//! |---------------|-----------------------------------------------|
//! | `$8000`       | 8 KB PRG bank at `$8000-$9FFF`                |
//! | `$8008`       | 8 KB PRG bank at `$A000-$BFFF`                |
//! | `$9000`       | 8 KB PRG bank at `$C000-$DFFF`                |
//! | `$9010`       | OPLL address latch                            |
//! | `$9030`       | OPLL data write                               |
//! | `$B000`       | Mirroring (bit 0: 0 vertical, 1 horizontal)   |
//! | `$C000-$C00C` | CHR banks 0-3 (step 4)                        |
//! | `$D000-$D00C` | CHR banks 4-7 (step 4)                        |
//! | `$E000`       | IRQ latch (low byte, then high byte)          |
//! | `$E008`       | IRQ control                                   |
//! | `$E010`       | IRQ acknowledge                               |
//!
//! See: https://www.nesdev.org/wiki/VRC7

use vstd::prelude::*;

use super::opll::Opll;
use super::{
    bank_byte, bank_count, bank_index, byte_or_zero, clone_bytes, copy_prefix, count_banks, get_or_zero,
    initial_chr, make_chr, overlay_prefix, read_bank, set_if_in, store_if_in, zeroed, MapperState, Mirroring,
};

verus! {

pub const VRC7_PRG_8K_SIZE: usize = 8192;
pub const VRC7_CHR_1K_SIZE: usize = 1024;
pub const VRC7_PRG_RAM_SIZE: usize = 8192;

/// VRC7 cartridge state.
pub struct Vrc7 {
    pub prg_rom: Vec<u8>,
    pub chr: Vec<u8>,
    pub chr_is_ram: bool,
    pub prg_ram: Vec<u8>,
    pub has_battery: bool,
    /// 8 KB PRG banks for `$8000`, `$A000` and `$C000`.
    pub prg_banks: [u8; 3],
    pub chr_banks: [u8; 8],
    pub mirror_horizontal: bool,
    pub irq_latch: u16,
    pub irq_counter: u16,
    /// The next `$E000` write loads the high byte of the IRQ latch.
    pub irq_latch_high: bool,
    pub irq_enable: bool,
    pub irq_pending: bool,
    pub opll: Opll,
}

/// Register address of CPU address `addr`.
pub open spec fn vrc7_decode(addr: u16) -> u16 {
    addr & 0xF03D
}

/// `(counter, pending)` after `n` CPU cycles: a zero counter reloads from
/// the latch (raising the IRQ when enabled), any other counts down.
pub open spec fn vrc7_irq_after(counter: u16, latch: u16, enable: bool, pending: bool, n: nat) -> (u16, bool)
    decreases n,
{
    if n == 0 {
        (counter, pending)
    } else {
        let (c, p) = vrc7_irq_after(counter, latch, enable, pending, (n - 1) as nat);
        if c == 0 {
            (latch, p || enable)
        } else {
            ((c - 1) as u16, p)
        }
    }
}

/// Index of the CHR bank register written at `reg`, if it is one.
pub open spec fn chr_reg_index(reg: u16) -> int {
    if reg == 0xC000 {
        0
    } else if reg == 0xC004 {
        1
    } else if reg == 0xC008 {
        2
    } else if reg == 0xC00C {
        3
    } else if reg == 0xD000 {
        4
    } else if reg == 0xD004 {
        5
    } else if reg == 0xD008 {
        6
    } else if reg == 0xD00C {
        7
    } else {
        -1
    }
}

/// Index of the PRG bank register written at `reg`, if it is one.
pub open spec fn prg_reg_index(reg: u16) -> int {
    if reg == 0x8000 {
        0
    } else if reg == 0x8008 {
        1
    } else if reg == 0x9000 {
        2
    } else {
        -1
    }
}

impl Vrc7 {
    /// The OPLL is well formed.
    pub open spec fn wf(&self) -> bool {
        self.opll.wf()
    }

    /// The byte the CPU sees at `addr` (`$6000-$FFFF`).
    pub open spec fn prg_byte(&self, addr: u16) -> u8 {
        if addr < 0x8000 {
            byte_or_zero(self.prg_ram@, (addr as int) - 0x6000)
        } else {
            let local = (addr as int) - 0x8000;
            let slot = local / 8192;
            let count = bank_count(self.prg_rom@.len() as int, 8192);
            let bank = if slot < 3 { (self.prg_banks[slot] as int) % count } else { count - 1 };
            bank_byte(self.prg_rom@, 8192, bank % count, local % 8192)
        }
    }

    /// Index into CHR of PPU address `addr`.
    pub open spec fn spec_chr_index(&self, addr: u16) -> int {
        bank_index(self.chr@.len() as int, 1024, self.chr_banks[(addr as int) / 1024] as int, (addr as int) % 1024)
    }

    /// The byte the PPU sees at `addr` (`$0000-$1FFF`).
    pub open spec fn chr_byte(&self, addr: u16) -> u8 {
        byte_or_zero(self.chr@, self.spec_chr_index(addr))
    }

    /// `post` is the board after a write of `value` to register `reg`.
    pub open spec fn register_write_post(&self, post: &Self, reg: u16, value: u8) -> bool {
        &&& post.prg_rom == self.prg_rom
        &&& post.chr == self.chr
        &&& post.chr_is_ram == self.chr_is_ram
        &&& post.prg_ram == self.prg_ram
        &&& post.has_battery == self.has_battery
        &&& post.prg_banks@ == (if prg_reg_index(reg) >= 0 {
            self.prg_banks@.update(prg_reg_index(reg), value & 0x3F)
        } else {
            self.prg_banks@
        })
        &&& post.chr_banks@ == (if chr_reg_index(reg) >= 0 {
            self.chr_banks@.update(chr_reg_index(reg), value)
        } else {
            self.chr_banks@
        })
        &&& post.mirror_horizontal == (if reg == 0xB000 { value & 1 != 0 } else { self.mirror_horizontal })
        &&& (if reg == 0x9010 {
            self.opll.addr_written(&post.opll, value)
        } else if reg == 0x9030 {
            self.opll.data_written(&post.opll, value)
        } else {
            post.opll == self.opll
        })
        &&& post.irq_latch == (if reg == 0xE000 {
            if !self.irq_latch_high {
                (self.irq_latch & 0xFF00) | (value as u16)
            } else {
                (self.irq_latch & 0x00FF) | ((value as u16) << 8u16)
            }
        } else {
            self.irq_latch
        })
        &&& post.irq_latch_high == (if reg == 0xE000 { !self.irq_latch_high } else { self.irq_latch_high })
        &&& post.irq_enable == (if reg == 0xE008 { value & 0x03 != 0 } else { self.irq_enable })
        &&& post.irq_counter == (if reg == 0xE008 && value & 0x03 != 0 { self.irq_latch } else { self.irq_counter })
        &&& post.irq_pending == (if (reg == 0xE008 && value & 0x02 != 0) || reg == 0xE010 {
            false
        } else {
            self.irq_pending
        })
    }

    /// Whether `self` is the board as built from PRG `prg`, CHR `chr`
    /// (empty for CHR-RAM), header mirroring `mirroring` and battery flag
    /// `has_battery`: its power-on state.
    pub open spec fn fresh(&self, prg: Seq<u8>, chr: Seq<u8>, mirroring: Mirroring, has_battery: bool) -> bool {
        &&& self.wf()
        &&& self.prg_rom@ == prg
        &&& self.chr@ == initial_chr(chr)
        &&& self.chr_is_ram == (chr.len() == 0)
        &&& self.prg_ram@ == Seq::new(VRC7_PRG_RAM_SIZE as nat, |i: int| 0u8)
        &&& self.has_battery == has_battery
        &&& self.prg_banks@ == Seq::new(3, |i: int| 0u8)
        &&& self.chr_banks@ == Seq::new(8, |i: int| 0u8)
        &&& self.mirror_horizontal == (mirroring == Mirroring::Horizontal)
        &&& self.irq_latch == 0 && self.irq_counter == 0 && !self.irq_latch_high && !self.irq_enable && !self.irq_pending
        &&& self.opll.power_on()
    }

    /// A VRC7 with all banks 0, zeroed PRG-RAM, the IRQ idle and a silent
    /// OPLL; mirroring horizontal exactly when the header says so.
    pub fn new(prg_rom: Vec<u8>, chr_rom: Vec<u8>, mirroring: Mirroring, has_battery: bool) -> (m: Self)
        ensures
            m.wf(),
            m.opll.power_on(),
            m.prg_rom@ == prg_rom@,
            m.chr@ == initial_chr(chr_rom@),
            m.chr_is_ram == (chr_rom@.len() == 0),
            m.prg_ram@ == Seq::new(VRC7_PRG_RAM_SIZE as nat, |i: int| 0u8),
            m.has_battery == has_battery,
            m.prg_banks@ == Seq::new(3, |i: int| 0u8),
            m.chr_banks@ == Seq::new(8, |i: int| 0u8),
            m.mirror_horizontal == (mirroring == Mirroring::Horizontal),
            m.irq_latch == 0 && m.irq_counter == 0 && !m.irq_latch_high && !m.irq_enable && !m.irq_pending,
            m.fresh(prg_rom@, chr_rom@, mirroring, has_battery),
    {
        let (chr, chr_is_ram) = make_chr(chr_rom);
        let m = Vrc7 {
            prg_rom,
            chr,
            chr_is_ram,
            prg_ram: zeroed(VRC7_PRG_RAM_SIZE),
            has_battery,
            prg_banks: [0u8; 3],
            chr_banks: [0u8; 8],
            mirror_horizontal: match mirroring {
                Mirroring::Horizontal => true,
                _ => false,
            },
            irq_latch: 0,
            irq_counter: 0,
            irq_latch_high: false,
            irq_enable: false,
            irq_pending: false,
            opll: Opll::new(),
        };
        assert(m.prg_banks@ =~= Seq::new(3, |i: int| 0u8));
        assert(m.chr_banks@ =~= Seq::new(8, |i: int| 0u8));
        m
    }

    /// Number of 8 KB PRG banks (at least 1).
    pub fn prg_8k_count(&self) -> (c: usize)
        ensures
            c == bank_count(self.prg_rom@.len() as int, 8192),
            c >= 1,
    {
        count_banks(self.prg_rom.len(), VRC7_PRG_8K_SIZE)
    }

    /// Number of 1 KB CHR banks (at least 1).
    pub fn chr_1k_count(&self) -> (c: usize)
        ensures
            c == bank_count(self.chr@.len() as int, 1024),
            c >= 1,
    {
        count_banks(self.chr.len(), VRC7_CHR_1K_SIZE)
    }

    /// PRG-ROM byte `offset` of 8 KB bank `bank` (modulo the bank count).
    pub fn prg_read_bank(&self, bank: usize, offset: usize) -> (b: u8)
        ensures
            b == bank_byte(self.prg_rom@, 8192, (bank as int) % bank_count(self.prg_rom@.len() as int, 8192), offset as int),
    {
        let count: usize = self.prg_8k_count();
        read_bank(&self.prg_rom, VRC7_PRG_8K_SIZE, bank % count, offset)
    }

    /// Register address of `addr` (see [`vrc7_decode`]).
    pub fn decode(addr: u16) -> (r: u16)
        ensures
            r == vrc7_decode(addr),
    {
        addr & 0xF03D
    }

    /// Read a byte from the CPU side: PRG-RAM at `$6000-$7FFF`, the three
    /// switchable banks from `$8000`, the last bank at `$E000`.
    pub fn read_prg(&self, addr: u16) -> (b: u8)
        requires
            addr >= 0x6000,
        ensures
            b == self.prg_byte(addr),
    {
        if addr < 0x8000 {
            let a: usize = addr as usize - 0x6000;
            let idx: usize = a & (VRC7_PRG_RAM_SIZE - 1);
            proof {
                crate::bits::lemma_usize_masks(a);
            }
            return get_or_zero(&self.prg_ram, idx);
        }
        let local: usize = (addr - 0x8000) as usize;
        let slot: usize = local / VRC7_PRG_8K_SIZE;
        let offset: usize = local & (VRC7_PRG_8K_SIZE - 1);
        proof {
            crate::bits::lemma_usize_masks(local);
        }
        if slot < 3 {
            let bank: usize = (self.prg_banks[slot] as usize) % self.prg_8k_count();
            self.prg_read_bank(bank, offset)
        } else {
            let last: usize = self.prg_8k_count() - 1;
            self.prg_read_bank(last, offset)
        }
    }

    /// The contract of [`Vrc7::write_prg`] as a predicate on the state it leaves `before` in.
    pub open spec fn write_prg_post(&self, before: Vrc7, addr: u16, value: u8) -> bool {
        &&& (self.wf())
        &&& (0x6000 <= addr < 0x8000 ==> self.prg_ram@ == store_if_in(before.prg_ram@, (addr as int) - 0x6000, value) && *self == (Vrc7 { prg_ram: self.prg_ram, ..before }))
        &&& (!(0x6000 <= addr < 0x8000) ==> before.register_write_post(self, vrc7_decode(addr), value))
    }

    /// Write a byte from the CPU side: PRG-RAM at `$6000-$7FFF`, else the
    /// register at [`vrc7_decode`]`(addr)` (unknown registers are ignored).
    pub fn write_prg(&mut self, addr: u16, value: u8)
        requires
            old(self).wf(),
        ensures
            final(self).wf(),
            0x6000 <= addr < 0x8000 ==> final(self).prg_ram@ == store_if_in(old(self).prg_ram@, (addr as int) - 0x6000, value)
                && *final(self) == (Vrc7 { prg_ram: final(self).prg_ram, ..*old(self) }),
            !(0x6000 <= addr < 0x8000) ==> old(self).register_write_post(&*final(self), vrc7_decode(addr), value),
            final(self).write_prg_post(*old(self), addr, value),
    {
        if 0x6000 <= addr && addr < 0x8000 {
            let a: usize = addr as usize - 0x6000;
            let idx: usize = a & (VRC7_PRG_RAM_SIZE - 1);
            proof {
                crate::bits::lemma_usize_masks(a);
            }
            set_if_in(&mut self.prg_ram, idx, value);
            return;
        }
        let reg: u16 = Self::decode(addr);
        if reg == 0x8000 {
            self.prg_banks[0] = value & 0x3F;
        } else if reg == 0x8008 {
            self.prg_banks[1] = value & 0x3F;
        } else if reg == 0x9000 {
            self.prg_banks[2] = value & 0x3F;
        } else if reg == 0x9010 {
            self.opll.write_addr(value);
        } else if reg == 0x9030 {
            self.opll.write_data(value);
        } else if reg == 0xB000 {
            self.mirror_horizontal = (value & 0x01) != 0;
        } else if reg == 0xC000 {
            self.chr_banks[0] = value;
        } else if reg == 0xC004 {
            self.chr_banks[1] = value;
        } else if reg == 0xC008 {
            self.chr_banks[2] = value;
        } else if reg == 0xC00C {
            self.chr_banks[3] = value;
        } else if reg == 0xD000 {
            self.chr_banks[4] = value;
        } else if reg == 0xD004 {
            self.chr_banks[5] = value;
        } else if reg == 0xD008 {
            self.chr_banks[6] = value;
        } else if reg == 0xD00C {
            self.chr_banks[7] = value;
        } else if reg == 0xE000 {
            if !self.irq_latch_high {
                self.irq_latch = (self.irq_latch & 0xFF00) | (value as u16);
                self.irq_latch_high = true;
            } else {
                self.irq_latch = (self.irq_latch & 0x00FF) | ((value as u16) << 8);
                self.irq_latch_high = false;
            }
        } else if reg == 0xE008 {
            if value & 0x02 != 0 {
                self.irq_enable = true;
                self.irq_pending = false;
                self.irq_counter = self.irq_latch;
            } else if value & 0x01 != 0 {
                self.irq_enable = true;
                self.irq_counter = self.irq_latch;
            } else {
                self.irq_enable = false;
            }
        } else if reg == 0xE010 {
            self.irq_pending = false;
        }
        proof {
            assert(value & 0x03 != 0 <==> (value & 0x02 != 0 || value & 0x01 != 0)) by (bit_vector);
        }
    }

    /// Index into CHR of PPU address `addr`; past the end reports the length.
    pub fn chr_index(&self, addr: u16) -> (idx: usize)
        requires
            addr < 0x2000,
        ensures
            self.spec_chr_index(addr) < self.chr@.len() ==> idx == self.spec_chr_index(addr),
            self.spec_chr_index(addr) >= self.chr@.len() ==> idx == self.chr@.len(),
    {
        let a: usize = addr as usize;
        let slot: usize = a / VRC7_CHR_1K_SIZE;
        let offset: usize = a & (VRC7_CHR_1K_SIZE - 1);
        proof {
            crate::bits::lemma_usize_masks(a);
        }
        super::bank_offset_of(self.chr.len(), VRC7_CHR_1K_SIZE, self.chr_banks[slot] as usize, offset)
    }

    /// Read a byte from the PPU side through the eight 1 KB CHR banks.
    pub fn read_chr(&self, addr: u16) -> (b: u8)
        requires
            addr < 0x2000,
        ensures
            b == self.chr_byte(addr),
    {
        let idx: usize = self.chr_index(addr);
        get_or_zero(&self.chr, idx)
    }

    /// The contract of [`Vrc7::write_chr`] as a predicate on the state it leaves `before` in.
    pub open spec fn write_chr_post(&self, before: Vrc7, addr: u16, value: u8) -> bool {
        &&& (self.chr@ == (if before.chr_is_ram { store_if_in(before.chr@, before.spec_chr_index(addr), value) } else { before.chr@ }))
        &&& (*self == (Vrc7 { chr: self.chr, ..before }))
    }

    /// Write a byte to the PPU side; only CHR-RAM takes it.
    pub fn write_chr(&mut self, addr: u16, value: u8)
        requires
            addr < 0x2000,
        ensures
            final(self).chr@ == (if old(self).chr_is_ram {
                store_if_in(old(self).chr@, old(self).spec_chr_index(addr), value)
            } else {
                old(self).chr@
            }),
            *final(self) == (Vrc7 { chr: final(self).chr, ..*old(self) }),
            final(self).write_chr_post(*old(self), addr, value),
    {
        if !self.chr_is_ram {
            return;
        }
        let idx: usize = self.chr_index(addr);
        set_if_in(&mut self.chr, idx, value);
    }

    /// Current mirroring: horizontal or vertical.
    pub fn mirror_mode(&self) -> (m: Mirroring)
        ensures
            m == (if self.mirror_horizontal { Mirroring::Horizontal } else { Mirroring::Vertical }),
    {
        if self.mirror_horizontal {
            Mirroring::Horizontal
        } else {
            Mirroring::Vertical
        }
    }

    /// The contract of [`Vrc7::has_battery`] as a predicate.
    pub open spec fn has_battery_post(&self, b: bool) -> bool {
        &&& (b == self.has_battery)
    }

    pub fn has_battery(&self) -> (b: bool)
        ensures
            b == self.has_battery,
            self.has_battery_post(b),
    {
        self.has_battery
    }

    /// The contract of [`Vrc7::battery_sram`] as a predicate.
    pub open spec fn battery_sram_post(&self, r: Option<Vec<u8>>) -> bool {
        &&& (self.has_battery ==> (r matches Some(v) && v@ == self.prg_ram@))
        &&& (!self.has_battery ==> r is None)
    }

    /// A copy of PRG-RAM when battery-backed, else `None`.
    pub fn battery_sram(&self) -> (r: Option<Vec<u8>>)
        ensures
            self.has_battery ==> (r matches Some(v) && v@ == self.prg_ram@),
            !self.has_battery ==> r is None,
            self.battery_sram_post(r),
    {
        if self.has_battery {
            Some(clone_bytes(&self.prg_ram))
        } else {
            None
        }
    }

    /// The contract of [`Vrc7::load_battery_sram`] as a predicate on the state it leaves `before` in.
    pub open spec fn load_battery_sram_post(&self, before: Vrc7, data: &[u8]) -> bool {
        &&& (self.prg_ram@ == (if before.has_battery { overlay_prefix(before.prg_ram@, data@) } else { before.prg_ram@ }))
        &&& (*self == (Vrc7 { prg_ram: self.prg_ram, ..before }))
    }

    /// Load battery-backed PRG-RAM from `data` (as many bytes as fit);
    /// nothing happens without a battery.
    pub fn load_battery_sram(&mut self, data: &[u8])
        ensures
            final(self).prg_ram@ == (if old(self).has_battery {
                overlay_prefix(old(self).prg_ram@, data@)
            } else {
                old(self).prg_ram@
            }),
            *final(self) == (Vrc7 { prg_ram: final(self).prg_ram, ..*old(self) }),
            final(self).load_battery_sram_post(*old(self), data),
    {
        if !self.has_battery {
            return;
        }
        copy_prefix(&mut self.prg_ram, data);
    }

    /// The contract of [`Vrc7::irq_pending`] as a predicate.
    pub open spec fn irq_pending_post(&self, b: bool) -> bool {
        &&& (b == self.irq_pending)
    }

    pub fn irq_pending(&self) -> (b: bool)
        ensures
            b == self.irq_pending,
            self.irq_pending_post(b),
    {
        self.irq_pending
    }

    /// The contract of [`Vrc7::clock_cpu`] as a predicate on the state it leaves `before` in.
    pub open spec fn clock_cpu_post(&self, before: Vrc7, cpu_cycles: u32) -> bool {
        &&& (self.wf())
        &&& ((self.irq_counter, self.irq_pending) == vrc7_irq_after(before.irq_counter, before.irq_latch, before.irq_enable, before.irq_pending, cpu_cycles as nat,))
        &&& (*self == (Vrc7 { irq_counter: self.irq_counter, irq_pending: self.irq_pending, opll: self.opll, ..before }))
    }

    /// Clock the IRQ counter by `cpu_cycles` CPU cycles (a zero counter
    /// reloads from the latch, raising the IRQ when enabled; any other
    /// counts down) and the OPLL by half as many clocks.
    pub fn clock_cpu(&mut self, cpu_cycles: u32)
        requires
            old(self).wf(),
        ensures
            final(self).wf(),
            (final(self).irq_counter, final(self).irq_pending) == vrc7_irq_after(
                old(self).irq_counter,
                old(self).irq_latch,
                old(self).irq_enable,
                old(self).irq_pending,
                cpu_cycles as nat,
            ),
            *final(self) == (Vrc7 {
                irq_counter: final(self).irq_counter,
                irq_pending: final(self).irq_pending,
                opll: final(self).opll,
                ..*old(self)
            }),
            final(self).clock_cpu_post(*old(self), cpu_cycles),
    {
        let mut i: u32 = 0;
        while i < cpu_cycles
            invariant
                i <= cpu_cycles,
                (self.irq_counter, self.irq_pending) == vrc7_irq_after(
                    old(self).irq_counter,
                    old(self).irq_latch,
                    old(self).irq_enable,
                    old(self).irq_pending,
                    i as nat,
                ),
                *self == (Vrc7 { irq_counter: self.irq_counter, irq_pending: self.irq_pending, ..*old(self) }),
            decreases cpu_cycles - i,
        {
            if self.irq_counter == 0 {
                self.irq_counter = self.irq_latch;
                if self.irq_enable {
                    self.irq_pending = true;
                }
            } else {
                self.irq_counter = self.irq_counter - 1;
            }
            i = i + 1;
        }
        self.opll.clock(cpu_cycles / 2);
    }

    /// The mixed OPLL output (see [`Opll::mix_level`]).
    pub fn audio_level(&self) -> (r: i32)
        requires
            self.wf(),
        ensures
            r == crate::mappers::opll::mix_upto(self.opll, 6),
    {
        self.opll.mix_level()
    }
}

/// Writing the latch twice through `$E000` loads its low byte, then its
/// high byte.
pub proof fn law_vrc7_latch_two_writes(latch: u16, lo: u8, hi: u8)
    ensures
        ((((latch & 0xFF00) | (lo as u16)) & 0x00FF) | ((hi as u16) << 8u16)) == (lo as u16) | ((hi as u16) << 8u16),
{
    assert(((((latch & 0xFF00) | (lo as u16)) & 0x00FF) | ((hi as u16) << 8u16)) == (lo as u16) | ((hi as u16)
        << 8u16)) by (bit_vector);
}

impl Vrc7 {
    /// Whether `o` holds the same state as `self`, byte for byte.
    pub open spec fn same_state(&self, o: &Vrc7) -> bool {
        &&& o.prg_rom@ == self.prg_rom@
        &&& o.chr@ == self.chr@
        &&& o.chr_is_ram == self.chr_is_ram
        &&& o.prg_ram@ == self.prg_ram@
        &&& o.has_battery == self.has_battery
        &&& o.prg_banks == self.prg_banks
        &&& o.chr_banks == self.chr_banks
        &&& o.mirror_horizontal == self.mirror_horizontal
        &&& o.irq_latch == self.irq_latch
        &&& o.irq_counter == self.irq_counter
        &&& o.irq_latch_high == self.irq_latch_high
        &&& o.irq_enable == self.irq_enable
        &&& o.irq_pending == self.irq_pending
        &&& o.opll.regs == self.opll.regs
        &&& o.opll.addr_latch == self.opll.addr_latch
        &&& o.opll.chan == self.opll.chan
        &&& o.opll.ops == self.opll.ops
        &&& o.opll.patches == self.opll.patches
        &&& o.opll.user_inst_buf == self.opll.user_inst_buf
    }

    /// The contract of [`Vrc7::save_state`] as a predicate.
    pub open spec fn save_state_post(&self, s: MapperState) -> bool {
        &&& (s matches MapperState::Vrc7(m) && self.same_state(&m))
    }

    /// Capture the mapper's whole state as a snapshot.
    pub fn save_state(&self) -> (s: MapperState)
        ensures
            s matches MapperState::Vrc7(m) && self.same_state(&m),
            self.save_state_post(s),
    {
        MapperState::Vrc7(Vrc7 {
            prg_rom: clone_bytes(&self.prg_rom),
            chr: clone_bytes(&self.chr),
            chr_is_ram: self.chr_is_ram,
            prg_ram: clone_bytes(&self.prg_ram),
            has_battery: self.has_battery,
            prg_banks: self.prg_banks,
            chr_banks: self.chr_banks,
            mirror_horizontal: self.mirror_horizontal,
            irq_latch: self.irq_latch,
            irq_counter: self.irq_counter,
            irq_latch_high: self.irq_latch_high,
            irq_enable: self.irq_enable,
            irq_pending: self.irq_pending,
            opll: Opll {
                regs: self.opll.regs,
                addr_latch: self.opll.addr_latch,
                chan: self.opll.chan,
                ops: self.opll.ops,
                patches: self.opll.patches,
                user_inst_buf: self.opll.user_inst_buf,
            },
        })
    }

    /// Restore the mapper's state from a snapshot of the same board type.
    pub fn restore_state(&mut self, state: MapperState)
        requires
            state is Vrc7,
        ensures
            state matches MapperState::Vrc7(m) && *final(self) == m,
    {
        match state {
            MapperState::Vrc7(m) => {
                *self = m;
            },
            _ => {},
        }
    }
}

} // verus!
