//! MMC3 — mapper 4.
//!
//! PRG is four 8 KB slots: R6 and R7 are switchable, the last bank is fixed
//! at `$E000`, and the second-to-last is fixed at `$C000` or `$8000`
//! depending on the PRG mode bit. CHR is eight 1 KB slots filled from R0/R1
//! (2 KB each) and R2-R5 (1 KB each), with a mode bit swapping the two
//! halves. 8 KB PRG-RAM at `$6000-$7FFF` is gated by `$A001`. The IRQ
//! counter is clocked once per scanline (PPU A12 rise).
//!
//! | Address       | Bit 0 | Function                          |
//! |---------------|-------|-----------------------------------|
//! | `$8000-$9FFF` | 0 / 1 | Bank select / bank data           |
//! | `$A000-$BFFF` | 0 / 1 | Mirroring / PRG-RAM enable+protect |
//! | `$C000-$DFFF` | 0 / 1 | IRQ latch / IRQ reload            |
//! | `$E000-$FFFF` | 0 / 1 | IRQ disable+ack / IRQ enable      |
//!
//! See: https://www.nesdev.org/wiki/MMC3

use vstd::prelude::*;
use super::{Mirroring, initial_chr, bank_byte, bank_count, bank_index, store_if_in, make_chr, get_or_zero,
    set_if_in, read_bank, count_banks, zeroed, byte_or_zero, MapperState, clone_bytes};

verus! {

/// PRG-ROM bank size (8 KB).
pub const MMC3_PRG_BANK_SIZE: usize = 8 * 1024;
/// CHR bank size (1 KB).
pub const MMC3_CHR_1K_SIZE: usize = 1024;
/// PRG-RAM size (8 KB).
pub const MMC3_PRG_RAM_SIZE: usize = 8 * 1024;

/// MMC3 cartridge state.
pub struct Mmc3 {
    pub prg_rom: Vec<u8>,
    /// CHR data — ROM when `chr_is_ram` is false, RAM when true.
    pub chr: Vec<u8>,
    pub chr_is_ram: bool,
    /// 8 KB PRG-RAM at `$6000-$7FFF`.
    pub prg_ram: Vec<u8>,
    pub has_battery: bool,
    /// `$8000`: bits 0-2 = target register, bit 6 = PRG mode, bit 7 = CHR mode.
    pub bank_select: u8,
    /// Bank registers R0-R7.
    pub bank_values: [u8; 8],
    /// Current mirroring (`$A000`).
    pub mirroring: Mirroring,
    /// PRG-RAM enable (`$A001` bit 7).
    pub prg_ram_enable: bool,
    /// PRG-RAM write protect (`$A001` bit 6).
    pub prg_ram_write_protect: bool,
    /// IRQ reload value (`$C000`).
    pub irq_latch: u8,
    /// Running IRQ counter.
    pub irq_counter: u8,
    /// Forces a reload on the next clock (`$C001`).
    pub irq_reload_flag: bool,
    /// IRQ enable (`$E001` sets, `$E000` clears).
    pub irq_enable: bool,
    /// IRQ asserted; stays set until `$E000`.
    pub irq_pending: bool,
}

impl Mmc3 {
    /// PRG mode (bit 6 of `$8000`).
    pub open spec fn spec_prg_mode(&self) -> u8 {
        (self.bank_select >> 6) & 1
    }

    /// CHR mode (bit 7 of `$8000`).
    pub open spec fn spec_chr_mode(&self) -> u8 {
        (self.bank_select >> 7) & 1
    }

    /// 1 KB CHR bank number for 1 KB slot `slot` (0-7).
    pub open spec fn spec_chr_bank_for_slot(&self, slot: int) -> int {
        let r = self.bank_values;
        let s = if self.spec_chr_mode() == 0 { slot } else { (slot + 4) % 8 };
        if s == 0 {
            (r[0] & 0xFE) as int
        } else if s == 1 {
            (r[0] & 0xFE) as int + 1
        } else if s == 2 {
            (r[1] & 0xFE) as int
        } else if s == 3 {
            (r[1] & 0xFE) as int + 1
        } else if 4 <= s <= 7 {
            r[s - 2] as int
        } else {
            0
        }
    }

    /// Index into CHR of PPU address `addr` (`$0000-$1FFF`).
    pub open spec fn spec_chr_index(&self, addr: u16) -> int {
        let slot = (addr as int) / 1024;
        bank_index(self.chr@.len() as int, 1024, self.spec_chr_bank_for_slot(slot), (addr as int) % 1024)
    }

    /// The 8 KB PRG bank shown in slot `slot` (0-3) of `$8000-$FFFF`.
    pub open spec fn spec_prg_slot_bank(&self, slot: int) -> int {
        let count = bank_count(self.prg_rom@.len() as int, MMC3_PRG_BANK_SIZE as int);
        let last = count - 1;
        let second_last = if count >= 2 { count - 2 } else { 0 };
        if slot == 0 {
            if self.spec_prg_mode() == 0 { (self.bank_values[6] as int) % count } else { second_last }
        } else if slot == 1 {
            (self.bank_values[7] as int) % count
        } else if slot == 2 {
            if self.spec_prg_mode() == 0 { second_last } else { (self.bank_values[6] as int) % count }
        } else {
            last
        }
    }

    /// The byte the CPU sees at `addr` (`$6000-$FFFF`).
    pub open spec fn prg_byte(&self, addr: u16) -> u8 {
        let local = (addr as int) - 0x8000;
        if 0x6000 <= addr < 0x8000 {
            if self.prg_ram_enable {
                byte_or_zero(self.prg_ram@, (addr as int) - 0x6000)
            } else {
                0
            }
        } else {
            bank_byte(self.prg_rom@, MMC3_PRG_BANK_SIZE as int, self.spec_prg_slot_bank(local / 8192),
                local % 8192)
        }
    }

    /// The byte the PPU sees at `addr`.
    pub open spec fn chr_byte(&self, addr: u16) -> u8 {
        byte_or_zero(self.chr@, self.spec_chr_index(addr))
    }

    /// Every register except those named is unchanged between `self` and `post`.
    pub open spec fn same_regs(&self, post: &Self) -> bool {
        &&& post.bank_select == self.bank_select
        &&& post.bank_values == self.bank_values
        &&& post.mirroring == self.mirroring
        &&& post.prg_ram_enable == self.prg_ram_enable
        &&& post.prg_ram_write_protect == self.prg_ram_write_protect
        &&& post.irq_latch == self.irq_latch
        &&& post.irq_counter == self.irq_counter
        &&& post.irq_reload_flag == self.irq_reload_flag
        &&& post.irq_enable == self.irq_enable
        &&& post.irq_pending == self.irq_pending
    }

    /// The memories and fixed flags are unchanged between `self` and `post`.
    pub open spec fn same_data(&self, post: &Self) -> bool {
        &&& post.prg_rom == self.prg_rom
        &&& post.chr == self.chr
        &&& post.chr_is_ram == self.chr_is_ram
        &&& post.prg_ram == self.prg_ram
        &&& post.has_battery == self.has_battery
    }

    /// State after a CPU write of `value` at `addr` in `$8000-$FFFF`.
    pub open spec fn register_write_post(&self, post: &Self, addr: u16, value: u8) -> bool {
        let even = addr % 2 == 0;
        &&& self.same_data(post)
        &&& if addr <= 0x9FFF {
            if even {
                post.bank_select == value && post.bank_values == self.bank_values
            } else {
                post.bank_select == self.bank_select && post.bank_values@ == self.bank_values@.update(
                    (self.bank_select & 0x07) as int, value)
            }
        } else {
            post.bank_select == self.bank_select && post.bank_values == self.bank_values
        }
        &&& post.mirroring == (if 0xA000 <= addr <= 0xBFFF && even {
            if value & 1 == 0 { Mirroring::Vertical } else { Mirroring::Horizontal }
        } else {
            self.mirroring
        })
        &&& post.prg_ram_enable == (if 0xA000 <= addr <= 0xBFFF && !even { value & 0x80 != 0 } else {
            self.prg_ram_enable
        })
        &&& post.prg_ram_write_protect == (if 0xA000 <= addr <= 0xBFFF && !even { value & 0x40 != 0 } else {
            self.prg_ram_write_protect
        })
        &&& post.irq_latch == (if 0xC000 <= addr <= 0xDFFF && even { value } else { self.irq_latch })
        &&& post.irq_reload_flag == (if 0xC000 <= addr <= 0xDFFF && !even { true } else {
            self.irq_reload_flag
        })
        &&& post.irq_counter == self.irq_counter
        &&& post.irq_enable == (if addr >= 0xE000 { !even } else { self.irq_enable })
        &&& post.irq_pending == (if addr >= 0xE000 && even { false } else { self.irq_pending })
    }

    /// Whether `self` is the board as built from PRG `prg`, CHR `chr`
    /// (empty for CHR-RAM), header mirroring `mirroring` and battery flag
    /// `has_battery`: its power-on state.
    pub open spec fn fresh(&self, prg: Seq<u8>, chr: Seq<u8>, mirroring: Mirroring, has_battery: bool) -> bool {
        &&& self.prg_rom@ == prg
        &&& self.chr@ == initial_chr(chr)
        &&& self.chr_is_ram == (chr.len() == 0)
        &&& self.prg_ram@ == Seq::new(MMC3_PRG_RAM_SIZE as nat, |i: int| 0u8)
        &&& self.has_battery == has_battery
        &&& self.bank_select == 0
        &&& self.bank_values@ == Seq::new(8, |i: int| 0u8)
        &&& self.mirroring == mirroring
        &&& !self.prg_ram_enable
        &&& !self.prg_ram_write_protect
        &&& self.irq_latch == 0
        &&& self.irq_counter == 0
        &&& !self.irq_reload_flag
        &&& !self.irq_enable
        &&& !self.irq_pending
    }

    /// Construct an MMC3 mapper: all bank registers 0, PRG-RAM disabled,
    /// mirroring from the header, IRQ idle.
    pub fn new(prg_rom: Vec<u8>, chr_rom: Vec<u8>, mirroring: Mirroring, has_battery: bool) -> (m: Self)
        ensures
            m.prg_rom@ == prg_rom@,
            m.chr@ == initial_chr(chr_rom@),
            m.chr_is_ram == (chr_rom@.len() == 0),
            m.prg_ram@ == Seq::new(MMC3_PRG_RAM_SIZE as nat, |i: int| 0u8),
            m.has_battery == has_battery,
            m.bank_select == 0,
            m.bank_values@ == Seq::new(8, |i: int| 0u8),
            m.mirroring == mirroring,
            !m.prg_ram_enable,
            !m.prg_ram_write_protect,
            m.irq_latch == 0,
            m.irq_counter == 0,
            !m.irq_reload_flag,
            !m.irq_enable,
            !m.irq_pending,
            m.fresh(prg_rom@, chr_rom@, mirroring, has_battery),
    {
        let (chr, chr_is_ram) = make_chr(chr_rom);
        let m = Mmc3 {
            prg_rom,
            chr,
            chr_is_ram,
            prg_ram: zeroed(MMC3_PRG_RAM_SIZE),
            has_battery,
            bank_select: 0,
            bank_values: [0u8; 8],
            mirroring,
            prg_ram_enable: false,
            prg_ram_write_protect: false,
            irq_latch: 0,
            irq_counter: 0,
            irq_reload_flag: false,
            irq_enable: false,
            irq_pending: false,
        };
        assert(m.bank_values@ =~= Seq::new(8, |i: int| 0u8));
        m
    }

    /// Number of 8 KB PRG banks (at least 1).
    pub fn prg_bank_count(&self) -> (c: usize)
        ensures
            c == bank_count(self.prg_rom@.len() as int, MMC3_PRG_BANK_SIZE as int),
    {
        count_banks(self.prg_rom.len(), MMC3_PRG_BANK_SIZE)
    }

    /// Number of 1 KB CHR banks (at least 1).
    pub fn chr_1k_count(&self) -> (c: usize)
        ensures
            c == bank_count(self.chr@.len() as int, MMC3_CHR_1K_SIZE as int),
    {
        count_banks(self.chr.len(), MMC3_CHR_1K_SIZE)
    }

    /// PRG mode (bit 6 of `$8000`): 0 = R6 at `$8000`, 1 = R6 at `$C000`.
    pub fn prg_mode(&self) -> (m: u8)
        ensures
            m == self.spec_prg_mode(),
    {
        (self.bank_select >> 6) & 1
    }

    /// CHR mode (bit 7 of `$8000`): 0 = R0/R1 at `$0000`, 1 = at `$1000`.
    pub fn chr_mode(&self) -> (m: u8)
        ensures
            m == self.spec_chr_mode(),
    {
        (self.bank_select >> 7) & 1
    }

    /// Read a PRG-ROM byte from a given 8 KB bank and offset.
    pub fn prg_read_bank(&self, bank: usize, offset: usize) -> (b: u8)
        ensures
            b == bank_byte(self.prg_rom@, MMC3_PRG_BANK_SIZE as int, bank as int, offset as int),
    {
        read_bank(&self.prg_rom, MMC3_PRG_BANK_SIZE, bank, offset)
    }

    /// The 1 KB CHR bank shown in 1 KB slot `slot` (0-7).
    pub fn chr_bank_for_slot(&self, slot: usize) -> (b: usize)
        requires
            slot < 8,
        ensures
            b == self.spec_chr_bank_for_slot(slot as int),
    {
        let r = &self.bank_values;
        let s: usize = if self.chr_mode() == 0 { slot } else { (slot + 4) % 8 };
        if s == 0 {
            (r[0] & 0xFE) as usize
        } else if s == 1 {
            (r[0] & 0xFE) as usize + 1
        } else if s == 2 {
            (r[1] & 0xFE) as usize
        } else if s == 3 {
            (r[1] & 0xFE) as usize + 1
        } else {
            r[s - 2] as usize
        }
    }

    /// Index into CHR of PPU address `addr` (`$0000-$1FFF`).
    pub fn chr_index(&self, addr: u16) -> (idx: usize)
        requires
            addr < 0x2000,
        ensures
            self.spec_chr_index(addr) < self.chr@.len() ==> idx == self.spec_chr_index(addr),
            self.spec_chr_index(addr) >= self.chr@.len() ==> idx == self.chr@.len(),
    {
        let a: usize = addr as usize;
        let slot: usize = a / MMC3_CHR_1K_SIZE;
        let offset: usize = a & (MMC3_CHR_1K_SIZE - 1);
        proof {
            crate::bits::lemma_usize_masks(a);
        }
        let bank: usize = self.chr_bank_for_slot(slot);
        super::bank_offset_of(self.chr.len(), MMC3_CHR_1K_SIZE, bank, offset)
    }

    /// Read a byte from the CPU-side PRG space (`$6000-$FFFF`).
    pub fn read_prg(&self, addr: u16) -> (b: u8)
        requires
            addr >= 0x6000,
        ensures
            b == self.prg_byte(addr),
    {
        if 0x6000 <= addr && addr < 0x8000 {
            if self.prg_ram_enable {
                let idx: usize = (addr as usize - 0x6000) & (MMC3_PRG_RAM_SIZE - 1);
                let a: usize = addr as usize - 0x6000;
                proof {
                    crate::bits::lemma_usize_masks(a);
                }
                return get_or_zero(&self.prg_ram, idx);
            }
            return 0;
        }
        let local: usize = (addr - 0x8000) as usize;
        let slot: usize = local / MMC3_PRG_BANK_SIZE;
        let offset: usize = local & (MMC3_PRG_BANK_SIZE - 1);
        proof {
            crate::bits::lemma_usize_masks(local);
        }
        let count: usize = self.prg_bank_count();
        let last: usize = count - 1;
        let second_last: usize = if count >= 2 { count - 2 } else { 0 };
        let mode: u8 = self.prg_mode();
        let bank: usize = if slot == 0 {
            if mode == 0 { (self.bank_values[6] as usize) % count } else { second_last }
        } else if slot == 1 {
            (self.bank_values[7] as usize) % count
        } else if slot == 2 {
            if mode == 0 { second_last } else { (self.bank_values[6] as usize) % count }
        } else {
            last
        };
        self.prg_read_bank(bank, offset)
    }

    /// The contract of [`Mmc3::write_prg`] as a predicate on the state it leaves `before` in.
    pub open spec fn write_prg_post(&self, before: Mmc3, addr: u16, value: u8) -> bool {
        &&& (addr < 0x8000 ==> { &&& self.prg_ram@ == (if before.prg_ram_enable && !before.prg_ram_write_protect { store_if_in(before.prg_ram@, (addr as int) - 0x6000, value) } else { before.prg_ram@ }) &&& self.prg_rom == before.prg_rom &&& self.chr == before.chr &&& self.chr_is_ram == before.chr_is_ram &&& self.has_battery == before.has_battery &&& before.same_regs(self) })
        &&& (addr >= 0x8000 ==> before.register_write_post(self, addr, value))
    }

    /// Write to the CPU-side PRG space: PRG-RAM at `$6000-$7FFF` (when
    /// enabled and not write-protected), the registers at `$8000-$FFFF`.
    pub fn write_prg(&mut self, addr: u16, value: u8)
        requires
            addr >= 0x6000,
        ensures
            addr < 0x8000 ==> {
                &&& final(self).prg_ram@ == (if old(self).prg_ram_enable && !old(self).prg_ram_write_protect {
                    store_if_in(old(self).prg_ram@, (addr as int) - 0x6000, value)
                } else {
                    old(self).prg_ram@
                })
                &&& final(self).prg_rom == old(self).prg_rom
                &&& final(self).chr == old(self).chr
                &&& final(self).chr_is_ram == old(self).chr_is_ram
                &&& final(self).has_battery == old(self).has_battery
                &&& old(self).same_regs(&*final(self))
            },
            addr >= 0x8000 ==> old(self).register_write_post(&*final(self), addr, value),
            final(self).write_prg_post(*old(self), addr, value),
    {
        if 0x6000 <= addr && addr < 0x8000 {
            if self.prg_ram_enable && !self.prg_ram_write_protect {
                let idx: usize = (addr as usize - 0x6000) & (MMC3_PRG_RAM_SIZE - 1);
                let a: usize = addr as usize - 0x6000;
                proof {
                    crate::bits::lemma_usize_masks(a);
                }
                set_if_in(&mut self.prg_ram, idx, value);
            }
            return;
        }
        let even: bool = addr & 1 == 0;
        assert(even == (addr % 2 == 0)) by (bit_vector)
            requires even == (addr & 1 == 0);
        if addr <= 0x9FFF {
            if even {
                self.bank_select = value;
            } else {
                let sel: u8 = self.bank_select;
                let reg: usize = (sel & 0x07) as usize;
                assert(sel & 0x07 < 8) by (bit_vector);
                self.bank_values[reg] = value;
            }
        } else if addr <= 0xBFFF {
            if even {
                self.mirroring = if value & 1 == 0 { Mirroring::Vertical } else { Mirroring::Horizontal };
            } else {
                self.prg_ram_enable = (value & 0x80) != 0;
                self.prg_ram_write_protect = (value & 0x40) != 0;
            }
        } else if addr <= 0xDFFF {
            if even {
                self.irq_latch = value;
            } else {
                self.irq_reload_flag = true;
            }
        } else {
            if even {
                self.irq_enable = false;
                self.irq_pending = false;
            } else {
                self.irq_enable = true;
            }
        }
    }

    /// Read a byte from the PPU-side CHR space.
    pub fn read_chr(&self, addr: u16) -> (b: u8)
        requires
            addr < 0x2000,
        ensures
            b == self.chr_byte(addr),
    {
        let idx: usize = self.chr_index(addr);
        get_or_zero(&self.chr, idx)
    }

    /// The contract of [`Mmc3::write_chr`] as a predicate on the state it leaves `before` in.
    pub open spec fn write_chr_post(&self, before: Mmc3, addr: u16, value: u8) -> bool {
        &&& (self.chr@ == (if before.chr_is_ram { store_if_in(before.chr@, before.spec_chr_index(addr), value) } else { before.chr@ }))
        &&& (self.prg_rom == before.prg_rom)
        &&& (self.chr_is_ram == before.chr_is_ram)
        &&& (self.prg_ram == before.prg_ram)
        &&& (self.has_battery == before.has_battery)
        &&& (before.same_regs(self))
    }

    /// Write a byte to the PPU-side CHR space; only CHR-RAM takes it.
    pub fn write_chr(&mut self, addr: u16, value: u8)
        requires
            addr < 0x2000,
        ensures
            final(self).chr@ == (if old(self).chr_is_ram {
                store_if_in(old(self).chr@, old(self).spec_chr_index(addr), value)
            } else {
                old(self).chr@
            }),
            final(self).prg_rom == old(self).prg_rom,
            final(self).chr_is_ram == old(self).chr_is_ram,
            final(self).prg_ram == old(self).prg_ram,
            final(self).has_battery == old(self).has_battery,
            old(self).same_regs(&*final(self)),
            final(self).write_chr_post(*old(self), addr, value),
    {
        if !self.chr_is_ram {
            return;
        }
        let idx: usize = self.chr_index(addr);
        set_if_in(&mut self.chr, idx, value);
    }

    /// Current mirroring.
    pub fn mirror_mode(&self) -> (m: Mirroring)
        ensures
            m == self.mirroring,
    {
        self.mirroring
    }

    /// The contract of [`Mmc3::has_battery`] as a predicate.
    pub open spec fn has_battery_post(&self, b: bool) -> bool {
        &&& (b == self.has_battery)
    }

    /// Whether the cartridge has battery-backed PRG-RAM.
    pub fn has_battery(&self) -> (b: bool)
        ensures
            b == self.has_battery,
            self.has_battery_post(b),
    {
        self.has_battery
    }

    /// The contract of [`Mmc3::irq_pending`] as a predicate.
    pub open spec fn irq_pending_post(&self, b: bool) -> bool {
        &&& (b == self.irq_pending)
    }

    /// Whether the IRQ line is asserted.
    pub fn irq_pending(&self) -> (b: bool)
        ensures
            b == self.irq_pending,
            self.irq_pending_post(b),
    {
        self.irq_pending
    }

    /// The contract of [`Mmc3::clock_irq`] as a predicate on the state it leaves `before` in.
    pub open spec fn clock_irq_post(&self, before: Mmc3) -> bool {
        &&& (before.same_data(self))
        &&& (self.bank_select == before.bank_select)
        &&& (self.bank_values == before.bank_values)
        &&& (self.mirroring == before.mirroring)
        &&& (self.prg_ram_enable == before.prg_ram_enable)
        &&& (self.prg_ram_write_protect == before.prg_ram_write_protect)
        &&& (self.irq_latch == before.irq_latch)
        &&& (self.irq_enable == before.irq_enable)
        &&& (self.irq_reload_flag == false)
        &&& (self.irq_counter == (if before.irq_reload_flag || before.irq_counter == 0 { before.irq_latch } else { (before.irq_counter - 1) as u8 }))
        &&& (self.irq_pending == (before.irq_pending || (!before.irq_reload_flag && before.irq_counter == 0 && before.irq_enable)))
    }

    /// Clock the IRQ counter by one A12 rising edge: a pending reload loads
    /// the latch; otherwise a zero counter reloads and asserts the IRQ (when
    /// enabled); otherwise the counter decrements.
    pub fn clock_irq(&mut self)
        ensures
            old(self).same_data(&*final(self)),
            final(self).bank_select == old(self).bank_select,
            final(self).bank_values == old(self).bank_values,
            final(self).mirroring == old(self).mirroring,
            final(self).prg_ram_enable == old(self).prg_ram_enable,
            final(self).prg_ram_write_protect == old(self).prg_ram_write_protect,
            final(self).irq_latch == old(self).irq_latch,
            final(self).irq_enable == old(self).irq_enable,
            final(self).irq_reload_flag == false,
            final(self).irq_counter == (if old(self).irq_reload_flag || old(self).irq_counter == 0 {
                old(self).irq_latch
            } else {
                (old(self).irq_counter - 1) as u8
            }),
            final(self).irq_pending == (old(self).irq_pending || (!old(self).irq_reload_flag && old(
                self).irq_counter == 0 && old(self).irq_enable)),
            final(self).clock_irq_post(*old(self)),
    {
        if self.irq_reload_flag {
            self.irq_counter = self.irq_latch;
            self.irq_reload_flag = false;
        } else if self.irq_counter == 0 {
            self.irq_counter = self.irq_latch;
            if self.irq_enable {
                self.irq_pending = true;
            }
        } else {
            self.irq_counter = self.irq_counter - 1;
        }
    }
}

/// Once asserted, the IRQ stays asserted across counter clocks: only a
/// `$E000` write clears it.
pub proof fn law_mmc3_irq_level_held(m: Mmc3, post: Mmc3)
    requires
        m.irq_pending,
        post.irq_pending == (m.irq_pending || (!m.irq_reload_flag && m.irq_counter == 0 && m.irq_enable)),
    ensures
        post.irq_pending,
{
}

/// `$C000-$FFFF` at `$E000`: the last PRG bank is always visible there,
/// whatever the PRG mode and registers.
pub proof fn law_mmc3_last_bank_fixed(m: Mmc3, addr: u16)
    requires
        addr >= 0xE000,
    ensures
        m.prg_byte(addr) == bank_byte(m.prg_rom@, MMC3_PRG_BANK_SIZE as int, bank_count(
            m.prg_rom@.len() as int, MMC3_PRG_BANK_SIZE as int) - 1, (addr as int) - 0xE000),
{
}


impl Mmc3 {
    /// Whether `o` holds the same state as `self`, byte for byte.
    pub open spec fn same_state(&self, o: &Mmc3) -> bool {
        &&& o.prg_rom@ == self.prg_rom@
        &&& o.chr@ == self.chr@
        &&& o.chr_is_ram == self.chr_is_ram
        &&& o.prg_ram@ == self.prg_ram@
        &&& o.has_battery == self.has_battery
        &&& o.bank_select == self.bank_select
        &&& o.bank_values == self.bank_values
        &&& o.mirroring == self.mirroring
        &&& o.prg_ram_enable == self.prg_ram_enable
        &&& o.prg_ram_write_protect == self.prg_ram_write_protect
        &&& o.irq_latch == self.irq_latch
        &&& o.irq_counter == self.irq_counter
        &&& o.irq_reload_flag == self.irq_reload_flag
        &&& o.irq_enable == self.irq_enable
        &&& o.irq_pending == self.irq_pending
    }

    /// The contract of [`Mmc3::save_state`] as a predicate.
    pub open spec fn save_state_post(&self, s: MapperState) -> bool {
        &&& (s matches MapperState::Mmc3(m) && self.same_state(&m))
    }

    /// Capture the mapper's whole state as a snapshot.
    pub fn save_state(&self) -> (s: MapperState)
        ensures
            s matches MapperState::Mmc3(m) && self.same_state(&m),
            self.save_state_post(s),
    {
        MapperState::Mmc3(Mmc3 {
            prg_rom: clone_bytes(&self.prg_rom),
            chr: clone_bytes(&self.chr),
            chr_is_ram: self.chr_is_ram,
            prg_ram: clone_bytes(&self.prg_ram),
            has_battery: self.has_battery,
            bank_select: self.bank_select,
            bank_values: self.bank_values,
            mirroring: self.mirroring,
            prg_ram_enable: self.prg_ram_enable,
            prg_ram_write_protect: self.prg_ram_write_protect,
            irq_latch: self.irq_latch,
            irq_counter: self.irq_counter,
            irq_reload_flag: self.irq_reload_flag,
            irq_enable: self.irq_enable,
            irq_pending: self.irq_pending,
        })
    }

    /// Restore the mapper's state from a snapshot of the same board type.
    pub fn restore_state(&mut self, state: MapperState)
        requires
            state is Mmc3,
        ensures
            state matches MapperState::Mmc3(m) && *final(self) == m,
    {
        match state {
            MapperState::Mmc3(m) => {
                *self = m;
            },
            _ => {},
        }
    }
}

} // verus!
