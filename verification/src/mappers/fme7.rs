//! FME-7 — mapper 69 (Sunsoft FME-7 / 5B without the audio).
//!
//! A command/data latch pair drives sixteen internal registers:
//!
//! | Cmd | Function                                      |
//! |-----|-----------------------------------------------|
//! | 0-7 | CHR bank 0-7 (1 KB each)                      |
//! | 8-11| PRG bank for `$8000/$A000/$C000/$E000` (8 KB) |
//! | 12  | Mirroring (bit 0: 0 = vertical, 1 = horizontal)|
//! | 13  | PRG-RAM enable (bit 7), write protect (bit 6) |
//! | 14  | IRQ latch (low byte, then high byte)          |
//! | 15  | IRQ control (bit 1 = enable + acknowledge, bit 0 = enable) |
//!
//! The IRQ is a 16-bit down-counter clocked once per CPU cycle: at zero it
//! reloads from the latch and, when enabled, asserts the IRQ.
//!
//! See: https://www.nesdev.org/wiki/FME-7

use vstd::prelude::*;
use super::{Mirroring, initial_chr, bank_byte, bank_count, bank_index, store_if_in, make_chr, get_or_zero,
    set_if_in, read_bank, count_banks, zeroed, byte_or_zero, overlay_prefix, clone_bytes, copy_prefix, MapperState};

verus! {

/// PRG-ROM bank size (8 KB).
pub const FME7_PRG_BANK_SIZE: usize = 8192;
/// CHR bank size (1 KB).
pub const FME7_CHR_1K_SIZE: usize = 1024;
/// PRG-RAM size (8 KB at `$6000-$7FFF`).
pub const FME7_PRG_RAM_SIZE: usize = 8192;

/// FME-7 cartridge state.
pub struct Fme7 {
    pub prg_rom: Vec<u8>,
    /// CHR data — ROM when `chr_is_ram` is false, RAM when true.
    pub chr: Vec<u8>,
    pub chr_is_ram: bool,
    /// 8 KB PRG-RAM at `$6000-$7FFF`.
    pub prg_ram: Vec<u8>,
    pub has_battery: bool,
    /// Command register (low 4 bits select the target of `$8001`).
    pub command: u8,
    /// PRG bank registers (commands 8-11), 6 bits each.
    pub prg_banks: [u8; 4],
    /// CHR bank registers (commands 0-7).
    pub chr_banks: [u8; 8],
    /// Mirroring: false = vertical, true = horizontal.
    pub mirror_horizontal: bool,
    /// PRG-RAM enable (command 13 bit 7).
    pub prg_ram_enable: bool,
    /// PRG-RAM write protect (command 13 bit 6).
    pub prg_ram_write_protect: bool,
    /// 16-bit IRQ reload value.
    pub irq_latch: u16,
    /// Running 16-bit IRQ counter.
    pub irq_counter: u16,
    /// Whether the next command-14 write is the high byte.
    pub irq_latch_high: bool,
    /// IRQ enable.
    pub irq_enable: bool,
    /// IRQ asserted; cleared by command 15 with bit 1.
    pub irq_pending: bool,
}

/// `(counter, pending)` after `n` CPU cycles of the IRQ timer.
pub open spec fn fme7_irq_after(counter: u16, latch: u16, enable: bool, pending: bool, n: nat) -> (u16, bool)
    decreases n,
{
    if n == 0 {
        (counter, pending)
    } else {
        let (c, p) = fme7_irq_after(counter, latch, enable, pending, (n - 1) as nat);
        if c == 0 {
            (latch, p || enable)
        } else {
            ((c - 1) as u16, p)
        }
    }
}

impl Fme7 {
    /// The byte the CPU sees at `addr` (`$6000-$FFFF`).
    pub open spec fn prg_byte(&self, addr: u16) -> u8 {
        let local = (addr as int) - 0x8000;
        if 0x6000 <= addr < 0x8000 {
            if self.prg_ram_enable {
                byte_or_zero(self.prg_ram@, (addr as int) - 0x6000)
            } else {
                0
            }
        } else {
            bank_byte(
                self.prg_rom@,
                8192,
                (self.prg_banks[local / 8192] as int) % bank_count(self.prg_rom@.len() as int, 8192),
                local % 8192,
            )
        }
    }

    /// Index into CHR of PPU address `addr`.
    pub open spec fn spec_chr_index(&self, addr: u16) -> int {
        bank_index(self.chr@.len() as int, 1024, self.chr_banks[(addr as int) / 1024] as int, (addr as int) % 1024)
    }

    /// The byte the PPU sees at `addr` (`$0000-$1FFF`).
    pub open spec fn chr_byte(&self, addr: u16) -> u8 {
        byte_or_zero(self.chr@, self.spec_chr_index(addr))
    }

    /// The memories and fixed flags are unchanged between `self` and `post`.
    pub open spec fn same_data(&self, post: &Self) -> bool {
        &&& post.prg_rom == self.prg_rom
        &&& post.chr == self.chr
        &&& post.chr_is_ram == self.chr_is_ram
        &&& post.prg_ram == self.prg_ram
        &&& post.has_battery == self.has_battery
    }

    /// State after writing `value` to the data register under `self.command`.
    pub open spec fn data_write_post(&self, post: &Self, value: u8) -> bool {
        let c = self.command & 0x0F;
        &&& self.same_data(post)
        &&& post.command == self.command
        &&& post.chr_banks@ == (if c <= 7 { self.chr_banks@.update(c as int, value) } else { self.chr_banks@ })
        &&& post.prg_banks@ == (if 8 <= c <= 11 {
            self.prg_banks@.update(c - 8, value & 0x3F)
        } else {
            self.prg_banks@
        })
        &&& post.mirror_horizontal == (if c == 12 { value & 1 != 0 } else { self.mirror_horizontal })
        &&& post.prg_ram_enable == (if c == 13 { value & 0x80 != 0 } else { self.prg_ram_enable })
        &&& post.prg_ram_write_protect == (if c == 13 { value & 0x40 != 0 } else { self.prg_ram_write_protect })
        &&& post.irq_latch == (if c == 14 {
            if !self.irq_latch_high {
                (self.irq_latch & 0xFF00) | (value as u16)
            } else {
                (self.irq_latch & 0x00FF) | ((value as u16) << 8u16)
            }
        } else {
            self.irq_latch
        })
        &&& post.irq_latch_high == (if c == 14 { !self.irq_latch_high } else { self.irq_latch_high })
        &&& post.irq_enable == (if c == 15 { value & 0x02 != 0 || value & 0x01 != 0 } else { self.irq_enable })
        &&& post.irq_pending == (if c == 15 && value & 0x02 != 0 { false } else { self.irq_pending })
        &&& post.irq_counter == (if c == 15 && (value & 0x02 != 0 || value & 0x01 != 0) {
            self.irq_latch
        } else {
            self.irq_counter
        })
    }

    /// Every register is unchanged between `self` and `post`.
    pub open spec fn same_regs(&self, post: &Self) -> bool {
        &&& post.command == self.command
        &&& post.prg_banks == self.prg_banks
        &&& post.chr_banks == self.chr_banks
        &&& post.mirror_horizontal == self.mirror_horizontal
        &&& post.prg_ram_enable == self.prg_ram_enable
        &&& post.prg_ram_write_protect == self.prg_ram_write_protect
        &&& post.irq_latch == self.irq_latch
        &&& post.irq_counter == self.irq_counter
        &&& post.irq_latch_high == self.irq_latch_high
        &&& post.irq_enable == self.irq_enable
        &&& post.irq_pending == self.irq_pending
    }

    /// Whether `self` is the board as built from PRG `prg`, CHR `chr`
    /// (empty for CHR-RAM), header mirroring `mirroring` and battery flag
    /// `has_battery`: its power-on state.
    pub open spec fn fresh(&self, prg: Seq<u8>, chr: Seq<u8>, mirroring: Mirroring, has_battery: bool) -> bool {
        &&& self.prg_rom@ == prg
        &&& self.chr@ == initial_chr(chr)
        &&& self.chr_is_ram == (chr.len() == 0)
        &&& self.prg_ram@ == Seq::new(FME7_PRG_RAM_SIZE as nat, |i: int| 0u8)
        &&& self.has_battery == has_battery
        &&& self.command == 0
        &&& self.prg_banks@ == Seq::new(4, |i: int| 0u8)
        &&& self.chr_banks@ == Seq::new(8, |i: int| 0u8)
        &&& self.mirror_horizontal == (mirroring == Mirroring::Horizontal)
        &&& !self.prg_ram_enable && !self.prg_ram_write_protect
        &&& self.irq_latch == 0 && self.irq_counter == 0
        &&& !self.irq_latch_high && !self.irq_enable && !self.irq_pending
    }

    /// Construct an FME-7: all registers 0, PRG-RAM disabled, mirroring
    /// horizontal exactly when the header says horizontal (else vertical).
    pub fn new(prg_rom: Vec<u8>, chr_rom: Vec<u8>, mirroring: Mirroring, has_battery: bool) -> (m: Self)
        ensures
            m.prg_rom@ == prg_rom@,
            m.chr@ == initial_chr(chr_rom@),
            m.chr_is_ram == (chr_rom@.len() == 0),
            m.prg_ram@ == Seq::new(FME7_PRG_RAM_SIZE as nat, |i: int| 0u8),
            m.has_battery == has_battery,
            m.command == 0,
            m.prg_banks@ == Seq::new(4, |i: int| 0u8),
            m.chr_banks@ == Seq::new(8, |i: int| 0u8),
            m.mirror_horizontal == (mirroring == Mirroring::Horizontal),
            !m.prg_ram_enable && !m.prg_ram_write_protect,
            m.irq_latch == 0 && m.irq_counter == 0,
            !m.irq_latch_high && !m.irq_enable && !m.irq_pending,
            m.fresh(prg_rom@, chr_rom@, mirroring, has_battery),
    {
        let (chr, chr_is_ram) = make_chr(chr_rom);
        let m = Fme7 {
            prg_rom,
            chr,
            chr_is_ram,
            prg_ram: zeroed(FME7_PRG_RAM_SIZE),
            has_battery,
            command: 0,
            prg_banks: [0u8; 4],
            chr_banks: [0u8; 8],
            mirror_horizontal: match mirroring {
                Mirroring::Horizontal => true,
                _ => false,
            },
            prg_ram_enable: false,
            prg_ram_write_protect: false,
            irq_latch: 0,
            irq_counter: 0,
            irq_latch_high: false,
            irq_enable: false,
            irq_pending: false,
        };
        assert(m.prg_banks@ =~= Seq::new(4, |i: int| 0u8));
        assert(m.chr_banks@ =~= Seq::new(8, |i: int| 0u8));
        m
    }

    /// Number of 8 KB PRG banks (at least 1).
    pub fn prg_bank_count(&self) -> (c: usize)
        ensures
            c == bank_count(self.prg_rom@.len() as int, 8192),
            c >= 1,
    {
        count_banks(self.prg_rom.len(), FME7_PRG_BANK_SIZE)
    }

    /// Number of 1 KB CHR banks (at least 1).
    pub fn chr_1k_count(&self) -> (c: usize)
        ensures
            c == bank_count(self.chr@.len() as int, 1024),
            c >= 1,
    {
        count_banks(self.chr.len(), FME7_CHR_1K_SIZE)
    }

    /// Read a PRG-ROM byte from an 8 KB bank and offset.
    pub fn prg_read_bank(&self, bank: usize, offset: usize) -> (b: u8)
        ensures
            b == bank_byte(self.prg_rom@, 8192, bank as int, offset as int),
    {
        read_bank(&self.prg_rom, FME7_PRG_BANK_SIZE, bank, offset)
    }

    /// Write the data register (`$8001`): the register chosen by the
    /// command's low 4 bits takes `value`.
    pub fn write_data(&mut self, value: u8)
        ensures
            old(self).data_write_post(&*final(self), value),
    {
        let c: u8 = self.command & 0x0F;
        proof {
            crate::bits::lemma_u8_masks(self.command);
        }
        if c <= 7 {
            self.chr_banks[c as usize] = value;
        } else if c <= 11 {
            self.prg_banks[(c - 8) as usize] = value & 0x3F;
        } else if c == 12 {
            self.mirror_horizontal = (value & 0x01) != 0;
        } else if c == 13 {
            self.prg_ram_enable = (value & 0x80) != 0;
            self.prg_ram_write_protect = (value & 0x40) != 0;
        } else if c == 14 {
            if !self.irq_latch_high {
                self.irq_latch = (self.irq_latch & 0xFF00) | (value as u16);
                self.irq_latch_high = true;
            } else {
                self.irq_latch = (self.irq_latch & 0x00FF) | ((value as u16) << 8u16);
                self.irq_latch_high = false;
            }
        } else {
            if value & 0x02 != 0 {
                self.irq_enable = true;
                self.irq_pending = false;
                self.irq_counter = self.irq_latch;
            } else if value & 0x01 != 0 {
                self.irq_enable = true;
                self.irq_counter = self.irq_latch;
            } else {
                self.irq_enable = false;
            }
        }
    }

    /// Read a byte from the CPU side: PRG-RAM (when enabled) at
    /// `$6000-$7FFF`, four switchable 8 KB banks at `$8000-$FFFF`.
    pub fn read_prg(&self, addr: u16) -> (b: u8)
        requires
            addr >= 0x6000,
        ensures
            b == self.prg_byte(addr),
    {
        if addr < 0x8000 {
            if self.prg_ram_enable {
                let a: usize = addr as usize - 0x6000;
                let idx: usize = a & (FME7_PRG_RAM_SIZE - 1);
                proof {
                    crate::bits::lemma_usize_masks(a);
                }
                return get_or_zero(&self.prg_ram, idx);
            }
            return 0;
        }
        let local: usize = (addr - 0x8000) as usize;
        let slot: usize = local / FME7_PRG_BANK_SIZE;
        let offset: usize = local & (FME7_PRG_BANK_SIZE - 1);
        proof {
            crate::bits::lemma_usize_masks(local);
        }
        let bank: usize = (self.prg_banks[slot] as usize) % self.prg_bank_count();
        self.prg_read_bank(bank, offset)
    }

    /// The contract of [`Fme7::write_prg`] as a predicate on the state it leaves `before` in.
    pub open spec fn write_prg_post(&self, before: Fme7, addr: u16, value: u8) -> bool {
        &&& (addr < 0x8000 ==> self.prg_ram@ == (if before.prg_ram_enable && !before.prg_ram_write_protect { store_if_in(before.prg_ram@, (addr as int) - 0x6000, value) } else { before.prg_ram@ }) && self.prg_rom == before.prg_rom && self.chr == before.chr && self.chr_is_ram == before.chr_is_ram && self.has_battery == before.has_battery && before.same_regs(self))
        &&& (addr == 0x8000 ==> before.same_data(self) && *self == (Fme7 { command: value, ..before }))
        &&& (addr == 0x8001 ==> before.data_write_post(self, value))
        &&& (addr > 0x8001 ==> *self == before)
    }

    /// Write a byte from the CPU side: PRG-RAM (when enabled and not
    /// write-protected), the command register at `$8000`, the data
    /// register at `$8001`; other addresses are ignored.
    pub fn write_prg(&mut self, addr: u16, value: u8)
        requires
            addr >= 0x6000,
        ensures
            addr < 0x8000 ==> final(self).prg_ram@ == (if old(self).prg_ram_enable && !old(
                self).prg_ram_write_protect {
                store_if_in(old(self).prg_ram@, (addr as int) - 0x6000, value)
            } else {
                old(self).prg_ram@
            }) && final(self).prg_rom == old(self).prg_rom && final(self).chr == old(self).chr
                && final(self).chr_is_ram == old(self).chr_is_ram && final(self).has_battery == old(
                self).has_battery && old(self).same_regs(&*final(self)),
            addr == 0x8000 ==> old(self).same_data(&*final(self)) && *final(self) == (Fme7 {
                command: value,
                ..*old(self)
            }),
            addr == 0x8001 ==> old(self).data_write_post(&*final(self), value),
            addr > 0x8001 ==> *final(self) == *old(self),
            final(self).write_prg_post(*old(self), addr, value),
    {
        if addr < 0x8000 {
            if self.prg_ram_enable && !self.prg_ram_write_protect {
                let a: usize = addr as usize - 0x6000;
                let idx: usize = a & (FME7_PRG_RAM_SIZE - 1);
                proof {
                    crate::bits::lemma_usize_masks(a);
                }
                set_if_in(&mut self.prg_ram, idx, value);
            }
            return;
        }
        if addr == 0x8000 {
            self.command = value;
        } else if addr == 0x8001 {
            self.write_data(value);
        }
    }

    /// Index into CHR of PPU address `addr`; past the end reports the length.
    pub fn chr_index(&self, addr: u16) -> (idx: usize)
        requires
            addr < 0x2000,
        ensures
            self.spec_chr_index(addr) < self.chr@.len() ==> idx == self.spec_chr_index(addr),
            self.spec_chr_index(addr) >= self.chr@.len() ==> idx == self.chr@.len(),
    {
        let a: usize = addr as usize;
        let slot: usize = a / FME7_CHR_1K_SIZE;
        let offset: usize = a & (FME7_CHR_1K_SIZE - 1);
        proof {
            crate::bits::lemma_usize_masks(a);
        }
        super::bank_offset_of(self.chr.len(), FME7_CHR_1K_SIZE, self.chr_banks[slot] as usize, offset)
    }

    /// Read a byte from the PPU side through the eight 1 KB CHR banks.
    pub fn read_chr(&self, addr: u16) -> (b: u8)
        requires
            addr < 0x2000,
        ensures
            b == self.chr_byte(addr),
    {
        let idx: usize = self.chr_index(addr);
        get_or_zero(&self.chr, idx)
    }

    /// The contract of [`Fme7::write_chr`] as a predicate on the state it leaves `before` in.
    pub open spec fn write_chr_post(&self, before: Fme7, addr: u16, value: u8) -> bool {
        &&& (self.chr@ == (if before.chr_is_ram { store_if_in(before.chr@, before.spec_chr_index(addr), value) } else { before.chr@ }))
        &&& (self.prg_rom == before.prg_rom)
        &&& (self.chr_is_ram == before.chr_is_ram)
        &&& (self.prg_ram == before.prg_ram)
        &&& (self.has_battery == before.has_battery)
        &&& (before.same_regs(self))
    }

    /// Write a byte to the PPU side; only CHR-RAM takes it.
    pub fn write_chr(&mut self, addr: u16, value: u8)
        requires
            addr < 0x2000,
        ensures
            final(self).chr@ == (if old(self).chr_is_ram {
                store_if_in(old(self).chr@, old(self).spec_chr_index(addr), value)
            } else {
                old(self).chr@
            }),
            final(self).prg_rom == old(self).prg_rom,
            final(self).chr_is_ram == old(self).chr_is_ram,
            final(self).prg_ram == old(self).prg_ram,
            final(self).has_battery == old(self).has_battery,
            old(self).same_regs(&*final(self)),
            final(self).write_chr_post(*old(self), addr, value),
    {
        if !self.chr_is_ram {
            return;
        }
        let idx: usize = self.chr_index(addr);
        set_if_in(&mut self.chr, idx, value);
    }

    /// Current mirroring: horizontal or vertical.
    pub fn mirror_mode(&self) -> (m: Mirroring)
        ensures
            m == (if self.mirror_horizontal { Mirroring::Horizontal } else { Mirroring::Vertical }),
    {
        if self.mirror_horizontal {
            Mirroring::Horizontal
        } else {
            Mirroring::Vertical
        }
    }

    /// The contract of [`Fme7::has_battery`] as a predicate.
    pub open spec fn has_battery_post(&self, b: bool) -> bool {
        &&& (b == self.has_battery)
    }

    /// Whether the cartridge has battery-backed PRG-RAM.
    pub fn has_battery(&self) -> (b: bool)
        ensures
            b == self.has_battery,
            self.has_battery_post(b),
    {
        self.has_battery
    }

    /// The contract of [`Fme7::battery_sram`] as a predicate.
    pub open spec fn battery_sram_post(&self, r: Option<Vec<u8>>) -> bool {
        &&& (self.has_battery ==> (r matches Some(v) && v@ == self.prg_ram@))
        &&& (!self.has_battery ==> r is None)
    }

    /// A copy of PRG-RAM when battery-backed, else `None`.
    pub fn battery_sram(&self) -> (r: Option<Vec<u8>>)
        ensures
            self.has_battery ==> (r matches Some(v) && v@ == self.prg_ram@),
            !self.has_battery ==> r is None,
            self.battery_sram_post(r),
    {
        if self.has_battery {
            Some(clone_bytes(&self.prg_ram))
        } else {
            None
        }
    }

    /// The contract of [`Fme7::load_battery_sram`] as a predicate on the state it leaves `before` in.
    pub open spec fn load_battery_sram_post(&self, before: Fme7, data: &[u8]) -> bool {
        &&& (self.prg_ram@ == (if before.has_battery { overlay_prefix(before.prg_ram@, data@) } else { before.prg_ram@ }))
        &&& (self.prg_rom == before.prg_rom)
        &&& (self.chr == before.chr)
        &&& (self.chr_is_ram == before.chr_is_ram)
        &&& (self.has_battery == before.has_battery)
        &&& (before.same_regs(self))
    }

    /// Load battery-backed PRG-RAM from `data` (as many bytes as fit);
    /// nothing happens without a battery.
    pub fn load_battery_sram(&mut self, data: &[u8])
        ensures
            final(self).prg_ram@ == (if old(self).has_battery {
                overlay_prefix(old(self).prg_ram@, data@)
            } else {
                old(self).prg_ram@
            }),
            final(self).prg_rom == old(self).prg_rom,
            final(self).chr == old(self).chr,
            final(self).chr_is_ram == old(self).chr_is_ram,
            final(self).has_battery == old(self).has_battery,
            old(self).same_regs(&*final(self)),
            final(self).load_battery_sram_post(*old(self), data),
    {
        if !self.has_battery {
            return;
        }
        copy_prefix(&mut self.prg_ram, data);
    }

    /// The contract of [`Fme7::irq_pending`] as a predicate.
    pub open spec fn irq_pending_post(&self, b: bool) -> bool {
        &&& (b == self.irq_pending)
    }

    /// Whether the IRQ line is asserted.
    pub fn irq_pending(&self) -> (b: bool)
        ensures
            b == self.irq_pending,
            self.irq_pending_post(b),
    {
        self.irq_pending
    }

    /// The contract of [`Fme7::clock_cpu`] as a predicate on the state it leaves `before` in.
    pub open spec fn clock_cpu_post(&self, before: Fme7, cpu_cycles: u32) -> bool {
        &&& ((self.irq_counter, self.irq_pending) == fme7_irq_after(before.irq_counter, before.irq_latch, before.irq_enable, before.irq_pending, cpu_cycles as nat,))
        &&& (*self == (Fme7 { irq_counter: self.irq_counter, irq_pending: self.irq_pending, ..before }))
    }

    /// Clock the IRQ timer by `cpu_cycles` CPU cycles. Each cycle a zero
    /// counter reloads from the latch (asserting the IRQ when enabled), any
    /// other value decrements.
    pub fn clock_cpu(&mut self, cpu_cycles: u32)
        ensures
            (final(self).irq_counter, final(self).irq_pending) == fme7_irq_after(
                old(self).irq_counter,
                old(self).irq_latch,
                old(self).irq_enable,
                old(self).irq_pending,
                cpu_cycles as nat,
            ),
            *final(self) == (Fme7 {
                irq_counter: final(self).irq_counter,
                irq_pending: final(self).irq_pending,
                ..*old(self)
            }),
            final(self).clock_cpu_post(*old(self), cpu_cycles),
    {
        let mut i: u32 = 0;
        while i < cpu_cycles
            invariant
                i <= cpu_cycles,
                (self.irq_counter, self.irq_pending) == fme7_irq_after(
                    old(self).irq_counter,
                    old(self).irq_latch,
                    old(self).irq_enable,
                    old(self).irq_pending,
                    i as nat,
                ),
                *self == (Fme7 { irq_counter: self.irq_counter, irq_pending: self.irq_pending, ..*old(self) }),
            decreases cpu_cycles - i,
        {
            if self.irq_counter == 0 {
                self.irq_counter = self.irq_latch;
                if self.irq_enable {
                    self.irq_pending = true;
                }
            } else {
                self.irq_counter = self.irq_counter - 1;
            }
            i = i + 1;
        }
    }
}

/// The IRQ timer has period `latch + 1`: one cycle from zero reloads the
/// latch (asserting an enabled IRQ); from a freshly reloaded counter it
/// takes `latch` cycles to reach zero and one more to fire again.
pub proof fn law_fme7_irq_period(latch: u16, enable: bool, pending: bool)
    ensures
        fme7_irq_after(0, latch, enable, pending, 1) == (latch, pending || enable),
        fme7_irq_after(latch, latch, enable, pending, (latch as nat) + 1) == (latch, pending || enable),
        fme7_irq_after(latch, latch, enable, pending, latch as nat) == (0u16, pending),
{
    assert(fme7_irq_after(0, latch, enable, pending, 0) == (0u16, pending));
    lemma_fme7_countdown(latch, latch, enable, pending, latch as nat);
    assert(fme7_irq_after(latch, latch, enable, pending, (latch as nat) + 1) == (latch, pending || enable));
}

/// Counting down `n` cycles from `c >= n` without reaching zero before the
/// last step leaves `c - n` and the IRQ untouched.
pub proof fn lemma_fme7_countdown(c: u16, latch: u16, enable: bool, pending: bool, n: nat)
    requires
        n <= c,
    ensures
        fme7_irq_after(c, latch, enable, pending, n) == ((c - n) as u16, pending),
    decreases n,
{
    if n > 0 {
        lemma_fme7_countdown(c, latch, enable, pending, (n - 1) as nat);
    }
}


impl Fme7 {
    /// Whether `o` holds the same state as `self`, byte for byte.
    pub open spec fn same_state(&self, o: &Fme7) -> bool {
        &&& o.prg_rom@ == self.prg_rom@
        &&& o.chr@ == self.chr@
        &&& o.chr_is_ram == self.chr_is_ram
        &&& o.prg_ram@ == self.prg_ram@
        &&& o.has_battery == self.has_battery
        &&& o.command == self.command
        &&& o.prg_banks == self.prg_banks
        &&& o.chr_banks == self.chr_banks
        &&& o.mirror_horizontal == self.mirror_horizontal
        &&& o.prg_ram_enable == self.prg_ram_enable
        &&& o.prg_ram_write_protect == self.prg_ram_write_protect
        &&& o.irq_latch == self.irq_latch
        &&& o.irq_counter == self.irq_counter
        &&& o.irq_latch_high == self.irq_latch_high
        &&& o.irq_enable == self.irq_enable
        &&& o.irq_pending == self.irq_pending
    }

    /// The contract of [`Fme7::save_state`] as a predicate.
    pub open spec fn save_state_post(&self, s: MapperState) -> bool {
        &&& (s matches MapperState::Fme7(m) && self.same_state(&m))
    }

    /// Capture the mapper's whole state as a snapshot.
    pub fn save_state(&self) -> (s: MapperState)
        ensures
            s matches MapperState::Fme7(m) && self.same_state(&m),
            self.save_state_post(s),
    {
        MapperState::Fme7(Fme7 {
            prg_rom: clone_bytes(&self.prg_rom),
            chr: clone_bytes(&self.chr),
            chr_is_ram: self.chr_is_ram,
            prg_ram: clone_bytes(&self.prg_ram),
            has_battery: self.has_battery,
            command: self.command,
            prg_banks: self.prg_banks,
            chr_banks: self.chr_banks,
            mirror_horizontal: self.mirror_horizontal,
            prg_ram_enable: self.prg_ram_enable,
            prg_ram_write_protect: self.prg_ram_write_protect,
            irq_latch: self.irq_latch,
            irq_counter: self.irq_counter,
            irq_latch_high: self.irq_latch_high,
            irq_enable: self.irq_enable,
            irq_pending: self.irq_pending,
        })
    }

    /// Restore the mapper's state from a snapshot of the same board type.
    pub fn restore_state(&mut self, state: MapperState)
        requires
            state is Fme7,
        ensures
            state matches MapperState::Fme7(m) && *final(self) == m,
    {
        match state {
            MapperState::Fme7(m) => {
                *self = m;
            },
            _ => {},
        }
    }
}

} // verus!
