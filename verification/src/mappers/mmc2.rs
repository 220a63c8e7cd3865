//! MMC2 — mapper 9 (*Punch-Out!!*).
//!
//! An 8 KB switchable PRG bank at `$8000-$9FFF` (register `$A000`) and the
//! last 24 KB fixed at `$A000-$FFFF`. CHR is two 4 KB slots, each with two
//! bank registers and a latch choosing between them: PPU reads of
//! `$0FD8-$0FDF` / `$0FE8-$0FEF` select bank 0 / bank 1 for the left slot,
//! `$1FD8-$1FDF` / `$1FE8-$1FEF` do the same for the right slot. 1 KB of
//! PRG-RAM is mirrored across `$6000-$7FFF`.
//!
//! See: https://www.nesdev.org/wiki/MMC2

use vstd::prelude::*;
use super::{Mirroring, initial_chr, bank_byte, bank_count, bank_index, store_if_in, make_chr, get_or_zero,
    set_if_in, read_bank, write_bank, count_banks, zeroed, copy_prefix, clone_bytes, overlay_prefix, byte_or_zero, MapperState};

verus! {

/// PRG-ROM bank size (8 KB).
pub const MMC2_PRG_BANK_SIZE: usize = 8 * 1024;
/// CHR bank size (4 KB).
pub const MMC2_CHR_4K_SIZE: usize = 4 * 1024;
/// PRG-RAM size (1 KB, mirrored across the 8 KB window).
pub const MMC2_PRG_RAM_SIZE: usize = 1024;

/// MMC2 cartridge state.
pub struct Mmc2 {
    pub prg_rom: Vec<u8>,
    /// CHR data — ROM when `chr_is_ram` is false, RAM when true.
    pub chr: Vec<u8>,
    pub chr_is_ram: bool,
    /// 1 KB PRG-RAM (mirrored across `$6000-$7FFF`).
    pub prg_ram: Vec<u8>,
    pub has_battery: bool,
    /// PRG bank register (8 KB bank at `$8000-$9FFF`).
    pub prg_bank: u8,
    /// Four 4 KB CHR bank registers (R0-R3).
    pub chr_banks: [u8; 4],
    /// Latch for the left slot: 0 → R0, 1 → R1.
    pub latch_left: u8,
    /// Latch for the right slot: 0 → R2, 1 → R3.
    pub latch_right: u8,
    /// Fixed mirroring from the iNES header.
    pub mirroring: Mirroring,
}

/// Latch state after a PPU read at `addr`: `(left, right)`.
pub open spec fn mmc2_latches_after(left: u8, right: u8, addr: u16) -> (u8, u8) {
    if 0x0FD8 <= addr <= 0x0FDF {
        (0, right)
    } else if 0x0FE8 <= addr <= 0x0FEF {
        (1, right)
    } else if 0x1FD8 <= addr <= 0x1FDF {
        (left, 0)
    } else if 0x1FE8 <= addr <= 0x1FEF {
        (left, 1)
    } else {
        (left, right)
    }
}

impl Mmc2 {
    /// The active bank register for the left slot.
    pub open spec fn spec_left_bank(&self) -> u8 {
        if self.latch_left == 0 { self.chr_banks[0] } else { self.chr_banks[1] }
    }

    /// The active bank register for the right slot.
    pub open spec fn spec_right_bank(&self) -> u8 {
        if self.latch_right == 0 { self.chr_banks[2] } else { self.chr_banks[3] }
    }

    /// The byte the CPU sees at `addr` (`$6000-$FFFF`).
    pub open spec fn prg_byte(&self, addr: u16) -> u8 {
        let size = MMC2_PRG_BANK_SIZE as int;
        let local = (addr as int) - 0x8000;
        if 0x6000 <= addr < 0x8000 {
            byte_or_zero(self.prg_ram@, ((addr as int) - 0x6000) % (MMC2_PRG_RAM_SIZE as int))
        } else if local < size {
            bank_byte(self.prg_rom@, size, self.prg_bank as int, local)
        } else {
            let count = bank_count(self.prg_rom@.len() as int, size);
            let base = if count >= 3 { count - 3 } else { 0 };
            bank_byte(self.prg_rom@, size, base + (local - size) / size, (local - size) % size)
        }
    }

    /// Index into CHR of PPU address `addr` through the active slot bank.
    pub open spec fn chr_index(&self, addr: u16) -> int {
        let bank = if (addr as int) < (MMC2_CHR_4K_SIZE as int) { self.spec_left_bank() } else {
            self.spec_right_bank()
        };
        bank_index(self.chr@.len() as int, MMC2_CHR_4K_SIZE as int, bank as int, (addr as int) % (
        MMC2_CHR_4K_SIZE as int))
    }

    /// The byte the PPU sees at `addr`.
    pub open spec fn chr_byte(&self, addr: u16) -> u8 {
        byte_or_zero(self.chr@, self.chr_index(addr))
    }

    /// Whether `self` is the board as built from PRG `prg`, CHR `chr`
    /// (empty for CHR-RAM), header mirroring `mirroring` and battery flag
    /// `has_battery`: its power-on state.
    pub open spec fn fresh(&self, prg: Seq<u8>, chr: Seq<u8>, mirroring: Mirroring, has_battery: bool) -> bool {
        &&& self.prg_rom@ == prg
        &&& self.chr@ == initial_chr(chr)
        &&& self.chr_is_ram == (chr.len() == 0)
        &&& self.prg_ram@ == Seq::new(MMC2_PRG_RAM_SIZE as nat, |i: int| 0u8)
        &&& self.has_battery == has_battery
        &&& self.prg_bank == 0
        &&& self.chr_banks@ == seq![0u8, 0u8, 0u8, 0u8]
        &&& self.latch_left == 0
        &&& self.latch_right == 0
        &&& self.mirroring == mirroring
    }

    /// Construct an MMC2 mapper; both latches start at 0 (R0 / R2 active).
    pub fn new(prg_rom: Vec<u8>, chr_rom: Vec<u8>, mirroring: Mirroring, has_battery: bool) -> (m: Self)
        ensures
            m.prg_rom@ == prg_rom@,
            m.chr@ == initial_chr(chr_rom@),
            m.chr_is_ram == (chr_rom@.len() == 0),
            m.prg_ram@ == Seq::new(MMC2_PRG_RAM_SIZE as nat, |i: int| 0u8),
            m.has_battery == has_battery,
            m.prg_bank == 0,
            m.chr_banks@ == seq![0u8, 0u8, 0u8, 0u8],
            m.latch_left == 0,
            m.latch_right == 0,
            m.mirroring == mirroring,
            m.fresh(prg_rom@, chr_rom@, mirroring, has_battery),
    {
        let (chr, chr_is_ram) = make_chr(chr_rom);
        Mmc2 {
            prg_rom,
            chr,
            chr_is_ram,
            prg_ram: zeroed(MMC2_PRG_RAM_SIZE),
            has_battery,
            prg_bank: 0,
            chr_banks: [0u8; 4],
            latch_left: 0,
            latch_right: 0,
            mirroring,
        }
    }

    /// Number of 8 KB PRG banks (at least 1).
    pub fn prg_bank_count(&self) -> (c: usize)
        ensures
            c == bank_count(self.prg_rom@.len() as int, MMC2_PRG_BANK_SIZE as int),
    {
        count_banks(self.prg_rom.len(), MMC2_PRG_BANK_SIZE)
    }

    /// Number of 4 KB CHR banks (at least 1).
    pub fn chr_bank_count(&self) -> (c: usize)
        ensures
            c == bank_count(self.chr@.len() as int, MMC2_CHR_4K_SIZE as int),
    {
        count_banks(self.chr.len(), MMC2_CHR_4K_SIZE)
    }

    /// Read a PRG-ROM byte from a given 8 KB bank and offset.
    pub fn prg_read_bank(&self, bank: usize, offset: usize) -> (b: u8)
        ensures
            b == bank_byte(self.prg_rom@, MMC2_PRG_BANK_SIZE as int, bank as int, offset as int),
    {
        read_bank(&self.prg_rom, MMC2_PRG_BANK_SIZE, bank, offset)
    }

    /// The active 4 KB CHR bank register for the left slot.
    pub fn left_bank(&self) -> (b: u8)
        ensures
            b == self.spec_left_bank(),
    {
        if self.latch_left == 0 {
            self.chr_banks[0]
        } else {
            self.chr_banks[1]
        }
    }

    /// The active 4 KB CHR bank register for the right slot.
    pub fn right_bank(&self) -> (b: u8)
        ensures
            b == self.spec_right_bank(),
    {
        if self.latch_right == 0 {
            self.chr_banks[2]
        } else {
            self.chr_banks[3]
        }
    }

    /// Update the CHR latches for a PPU read at `addr`.
    pub fn update_latches(&mut self, addr: u16)
        ensures
            (final(self).latch_left, final(self).latch_right) == mmc2_latches_after(old(self).latch_left,
                old(self).latch_right, addr),
            final(self).prg_rom == old(self).prg_rom,
            final(self).chr == old(self).chr,
            final(self).chr_is_ram == old(self).chr_is_ram,
            final(self).prg_ram == old(self).prg_ram,
            final(self).has_battery == old(self).has_battery,
            final(self).prg_bank == old(self).prg_bank,
            final(self).chr_banks == old(self).chr_banks,
            final(self).mirroring == old(self).mirroring,
    {
        if 0x0FD8 <= addr && addr <= 0x0FDF {
            self.latch_left = 0;
        } else if 0x0FE8 <= addr && addr <= 0x0FEF {
            self.latch_left = 1;
        } else if 0x1FD8 <= addr && addr <= 0x1FDF {
            self.latch_right = 0;
        } else if 0x1FE8 <= addr && addr <= 0x1FEF {
            self.latch_right = 1;
        }
    }

    /// Tick the CHR latches for a PPU read from `addr`; returns whether a
    /// latch changed.
    pub fn tick_latch(&mut self, addr: u16) -> (changed: bool)
        ensures
            (final(self).latch_left, final(self).latch_right) == mmc2_latches_after(old(self).latch_left,
                old(self).latch_right, addr),
            changed == (final(self).latch_left != old(self).latch_left || final(self).latch_right != old(
                self).latch_right),
            final(self).prg_rom == old(self).prg_rom,
            final(self).chr == old(self).chr,
            final(self).chr_is_ram == old(self).chr_is_ram,
            final(self).prg_ram == old(self).prg_ram,
            final(self).has_battery == old(self).has_battery,
            final(self).prg_bank == old(self).prg_bank,
            final(self).chr_banks == old(self).chr_banks,
            final(self).mirroring == old(self).mirroring,
    {
        let prev_left: u8 = self.latch_left;
        let prev_right: u8 = self.latch_right;
        self.update_latches(addr);
        prev_left != self.latch_left || prev_right != self.latch_right
    }

    /// Read a byte from the CPU-side PRG space (`$6000-$FFFF`).
    pub fn read_prg(&self, addr: u16) -> (b: u8)
        requires
            addr >= 0x6000,
        ensures
            b == self.prg_byte(addr),
    {
        if 0x6000 <= addr && addr < 0x8000 {
            let a: usize = addr as usize - 0x6000;
            let idx: usize = a & (MMC2_PRG_RAM_SIZE - 1);
            proof {
                crate::bits::lemma_usize_masks(a);
            }
            return get_or_zero(&self.prg_ram, idx);
        }
        let local: usize = (addr - 0x8000) as usize;
        let count: usize = self.prg_bank_count();
        if local < MMC2_PRG_BANK_SIZE {
            return self.prg_read_bank(self.prg_bank as usize, local);
        }
        let fixed_offset: usize = local - MMC2_PRG_BANK_SIZE;
        let fixed_bank_base: usize = if count >= 3 { count - 3 } else { 0 };
        let bank: usize = fixed_bank_base + (fixed_offset / MMC2_PRG_BANK_SIZE);
        let offset: usize = fixed_offset & (MMC2_PRG_BANK_SIZE - 1);
        proof {
            crate::bits::lemma_usize_masks(fixed_offset);
        }
        self.prg_read_bank(bank, offset)
    }

    /// The contract of [`Mmc2::write_prg`] as a predicate on the state it leaves `before` in.
    pub open spec fn write_prg_post(&self, before: Mmc2, addr: u16, value: u8) -> bool {
        &&& (self.prg_ram@ == (if addr < 0x8000 { store_if_in(before.prg_ram@, ((addr as int) - 0x6000) % (MMC2_PRG_RAM_SIZE as int), value) } else { before.prg_ram@ }))
        &&& (self.prg_bank == (if addr == 0xA000 { value & 0x0F } else { before.prg_bank }))
        &&& (self.chr_banks[0] == (if addr == 0xB000 { value & 0x3F } else { before.chr_banks[0] }))
        &&& (self.chr_banks[1] == (if addr == 0xB001 { value & 0x3F } else { before.chr_banks[1] }))
        &&& (self.chr_banks[2] == (if addr == 0xB002 { value & 0x3F } else { before.chr_banks[2] }))
        &&& (self.chr_banks[3] == (if addr == 0xB003 { value & 0x3F } else { before.chr_banks[3] }))
        &&& (self.prg_rom == before.prg_rom)
        &&& (self.chr == before.chr)
        &&& (self.chr_is_ram == before.chr_is_ram)
        &&& (self.has_battery == before.has_battery)
        &&& (self.latch_left == before.latch_left)
        &&& (self.latch_right == before.latch_right)
        &&& (self.mirroring == before.mirroring)
    }

    /// Write to the CPU-side PRG space: PRG-RAM at `$6000-$7FFF`; the PRG
    /// bank register at `$A000` (low 4 bits); CHR registers at
    /// `$B000-$B003` (low 6 bits). Other addresses are ignored.
    pub fn write_prg(&mut self, addr: u16, value: u8)
        requires
            addr >= 0x6000,
        ensures
            final(self).prg_ram@ == (if addr < 0x8000 {
                store_if_in(old(self).prg_ram@, ((addr as int) - 0x6000) % (MMC2_PRG_RAM_SIZE as int), value)
            } else {
                old(self).prg_ram@
            }),
            final(self).prg_bank == (if addr == 0xA000 { value & 0x0F } else { old(self).prg_bank }),
            final(self).chr_banks[0] == (if addr == 0xB000 { value & 0x3F } else { old(self).chr_banks[0] }),
            final(self).chr_banks[1] == (if addr == 0xB001 { value & 0x3F } else { old(self).chr_banks[1] }),
            final(self).chr_banks[2] == (if addr == 0xB002 { value & 0x3F } else { old(self).chr_banks[2] }),
            final(self).chr_banks[3] == (if addr == 0xB003 { value & 0x3F } else { old(self).chr_banks[3] }),
            final(self).prg_rom == old(self).prg_rom,
            final(self).chr == old(self).chr,
            final(self).chr_is_ram == old(self).chr_is_ram,
            final(self).has_battery == old(self).has_battery,
            final(self).latch_left == old(self).latch_left,
            final(self).latch_right == old(self).latch_right,
            final(self).mirroring == old(self).mirroring,
            final(self).write_prg_post(*old(self), addr, value),
    {
        if 0x6000 <= addr && addr < 0x8000 {
            let a: usize = addr as usize - 0x6000;
            let idx: usize = a & (MMC2_PRG_RAM_SIZE - 1);
            proof {
                crate::bits::lemma_usize_masks(a);
            }
            set_if_in(&mut self.prg_ram, idx, value);
            return;
        }
        if addr == 0xA000 {
            self.prg_bank = value & 0x0F;
        } else if addr == 0xB000 {
            self.chr_banks[0] = value & 0x3F;
        } else if addr == 0xB001 {
            self.chr_banks[1] = value & 0x3F;
        } else if addr == 0xB002 {
            self.chr_banks[2] = value & 0x3F;
        } else if addr == 0xB003 {
            self.chr_banks[3] = value & 0x3F;
        }
    }

    /// Read a byte from the PPU-side CHR space through the active bank of
    /// its slot (no latch side effect).
    pub fn read_chr(&self, addr: u16) -> (b: u8)
        ensures
            b == self.chr_byte(addr),
    {
        let bank: u8 = if (addr as usize) < MMC2_CHR_4K_SIZE { self.left_bank() } else { self.right_bank() };
        let a: usize = addr as usize;
        let offset: usize = a & (MMC2_CHR_4K_SIZE - 1);
        proof {
            crate::bits::lemma_usize_masks(a);
        }
        read_bank(&self.chr, MMC2_CHR_4K_SIZE, bank as usize, offset)
    }

    /// The contract of [`Mmc2::read_chr_latched`] as a predicate on the state it leaves `before` in.
    pub open spec fn read_chr_latched_post(&self, before: Mmc2, addr: u16, b: u8) -> bool {
        &&& ((self.latch_left, self.latch_right) == mmc2_latches_after(before.latch_left, before.latch_right, addr))
        &&& (b == self.chr_byte(addr))
        &&& (self.prg_rom == before.prg_rom)
        &&& (self.chr == before.chr)
        &&& (self.chr_is_ram == before.chr_is_ram)
        &&& (self.prg_ram == before.prg_ram)
        &&& (self.has_battery == before.has_battery)
        &&& (self.prg_bank == before.prg_bank)
        &&& (self.chr_banks == before.chr_banks)
        &&& (self.mirroring == before.mirroring)
    }

    /// Read CHR with the latch side effect: update the latches for `addr`,
    /// then read through the now-active bank.
    pub fn read_chr_latched(&mut self, addr: u16) -> (b: u8)
        ensures
            (final(self).latch_left, final(self).latch_right) == mmc2_latches_after(old(self).latch_left,
                old(self).latch_right, addr),
            b == final(self).chr_byte(addr),
            final(self).prg_rom == old(self).prg_rom,
            final(self).chr == old(self).chr,
            final(self).chr_is_ram == old(self).chr_is_ram,
            final(self).prg_ram == old(self).prg_ram,
            final(self).has_battery == old(self).has_battery,
            final(self).prg_bank == old(self).prg_bank,
            final(self).chr_banks == old(self).chr_banks,
            final(self).mirroring == old(self).mirroring,
            final(self).read_chr_latched_post(*old(self), addr, b),
    {
        self.update_latches(addr);
        self.read_chr(addr)
    }

    /// The contract of [`Mmc2::write_chr`] as a predicate on the state it leaves `before` in.
    pub open spec fn write_chr_post(&self, before: Mmc2, addr: u16, value: u8) -> bool {
        &&& (self.chr@ == (if before.chr_is_ram { store_if_in(before.chr@, before.chr_index(addr), value) } else { before.chr@ }))
        &&& (self.prg_rom == before.prg_rom)
        &&& (self.chr_is_ram == before.chr_is_ram)
        &&& (self.prg_ram == before.prg_ram)
        &&& (self.has_battery == before.has_battery)
        &&& (self.prg_bank == before.prg_bank)
        &&& (self.chr_banks == before.chr_banks)
        &&& (self.latch_left == before.latch_left)
        &&& (self.latch_right == before.latch_right)
        &&& (self.mirroring == before.mirroring)
    }

    /// Write a byte to the PPU-side CHR space; only CHR-RAM takes it.
    pub fn write_chr(&mut self, addr: u16, value: u8)
        ensures
            final(self).chr@ == (if old(self).chr_is_ram {
                store_if_in(old(self).chr@, old(self).chr_index(addr), value)
            } else {
                old(self).chr@
            }),
            final(self).prg_rom == old(self).prg_rom,
            final(self).chr_is_ram == old(self).chr_is_ram,
            final(self).prg_ram == old(self).prg_ram,
            final(self).has_battery == old(self).has_battery,
            final(self).prg_bank == old(self).prg_bank,
            final(self).chr_banks == old(self).chr_banks,
            final(self).latch_left == old(self).latch_left,
            final(self).latch_right == old(self).latch_right,
            final(self).mirroring == old(self).mirroring,
            final(self).write_chr_post(*old(self), addr, value),
    {
        if !self.chr_is_ram {
            return;
        }
        let bank: u8 = if (addr as usize) < MMC2_CHR_4K_SIZE { self.left_bank() } else { self.right_bank() };
        let a: usize = addr as usize;
        let offset: usize = a & (MMC2_CHR_4K_SIZE - 1);
        proof {
            crate::bits::lemma_usize_masks(a);
        }
        write_bank(&mut self.chr, MMC2_CHR_4K_SIZE, bank as usize, offset, value);
    }

    /// Nametable mirroring fixed by the cartridge.
    pub fn mirror_mode(&self) -> (m: Mirroring)
        ensures
            m == self.mirroring,
    {
        self.mirroring
    }

    /// The contract of [`Mmc2::has_battery`] as a predicate.
    pub open spec fn has_battery_post(&self, b: bool) -> bool {
        &&& (b == self.has_battery)
    }

    /// Whether the cartridge has battery-backed PRG-RAM.
    pub fn has_battery(&self) -> (b: bool)
        ensures
            b == self.has_battery,
            self.has_battery_post(b),
    {
        self.has_battery
    }

    /// The contract of [`Mmc2::battery_sram`] as a predicate.
    pub open spec fn battery_sram_post(&self, r: Option<Vec<u8>>) -> bool {
        &&& (self.has_battery ==> r is Some && r->0@ == self.prg_ram@)
        &&& (!self.has_battery ==> r is None)
    }

    /// A copy of the PRG-RAM when it is battery-backed, else `None`.
    pub fn battery_sram(&self) -> (r: Option<Vec<u8>>)
        ensures
            self.has_battery ==> r is Some && r->0@ == self.prg_ram@,
            !self.has_battery ==> r is None,
            self.battery_sram_post(r),
    {
        if self.has_battery {
            Some(clone_bytes(&self.prg_ram))
        } else {
            None
        }
    }

    /// The contract of [`Mmc2::load_battery_sram`] as a predicate on the state it leaves `before` in.
    pub open spec fn load_battery_sram_post(&self, before: Mmc2, data: &[u8]) -> bool {
        &&& (self.prg_ram@ == (if before.has_battery { overlay_prefix(before.prg_ram@, data@) } else { before.prg_ram@ }))
        &&& (self.prg_rom == before.prg_rom)
        &&& (self.chr == before.chr)
        &&& (self.chr_is_ram == before.chr_is_ram)
        &&& (self.has_battery == before.has_battery)
        &&& (self.prg_bank == before.prg_bank)
        &&& (self.chr_banks == before.chr_banks)
        &&& (self.latch_left == before.latch_left)
        &&& (self.latch_right == before.latch_right)
        &&& (self.mirroring == before.mirroring)
    }

    /// Load battery-backed PRG-RAM from saved bytes (as many as fit); no-op
    /// without a battery.
    pub fn load_battery_sram(&mut self, data: &[u8])
        ensures
            final(self).prg_ram@ == (if old(self).has_battery {
                overlay_prefix(old(self).prg_ram@, data@)
            } else {
                old(self).prg_ram@
            }),
            final(self).prg_rom == old(self).prg_rom,
            final(self).chr == old(self).chr,
            final(self).chr_is_ram == old(self).chr_is_ram,
            final(self).has_battery == old(self).has_battery,
            final(self).prg_bank == old(self).prg_bank,
            final(self).chr_banks == old(self).chr_banks,
            final(self).latch_left == old(self).latch_left,
            final(self).latch_right == old(self).latch_right,
            final(self).mirroring == old(self).mirroring,
            final(self).load_battery_sram_post(*old(self), data),
    {
        if !self.has_battery {
            return;
        }
        copy_prefix(&mut self.prg_ram, data);
    }
}

/// A read in `$0FE8-$0FEF` followed by one in `$0FD8-$0FDF` returns the
/// left slot to R0, and vice versa: the latch always shows the last
/// trigger seen.
pub proof fn law_mmc2_latch_last_trigger_wins(left: u8, right: u8, a1: u16, a2: u16)
    requires
        0x0FD8 <= a2 <= 0x0FDF || 0x0FE8 <= a2 <= 0x0FEF,
    ensures
        mmc2_latches_after(mmc2_latches_after(left, right, a1).0, mmc2_latches_after(left, right, a1).1,
            a2).0 == (if a2 <= 0x0FDF { 0u8 } else { 1u8 }),
{
}

/// Battery save and load round-trip: loading what `battery_sram` returned
/// restores the same PRG-RAM.
pub proof fn law_mmc2_battery_round_trip(ram: Seq<u8>, saved: Seq<u8>)
    requires
        saved == ram,
    ensures
        overlay_prefix(ram, saved) == ram,
{
    assert(overlay_prefix(ram, saved) =~= ram);
}


impl Mmc2 {
    /// Whether `o` holds the same state as `self`, byte for byte.
    pub open spec fn same_state(&self, o: &Mmc2) -> bool {
        &&& o.prg_rom@ == self.prg_rom@
        &&& o.chr@ == self.chr@
        &&& o.chr_is_ram == self.chr_is_ram
        &&& o.prg_ram@ == self.prg_ram@
        &&& o.has_battery == self.has_battery
        &&& o.prg_bank == self.prg_bank
        &&& o.chr_banks == self.chr_banks
        &&& o.latch_left == self.latch_left
        &&& o.latch_right == self.latch_right
        &&& o.mirroring == self.mirroring
    }

    /// The contract of [`Mmc2::save_state`] as a predicate.
    pub open spec fn save_state_post(&self, s: MapperState) -> bool {
        &&& (s matches MapperState::Mmc2(m) && self.same_state(&m))
    }

    /// Capture the mapper's whole state as a snapshot.
    pub fn save_state(&self) -> (s: MapperState)
        ensures
            s matches MapperState::Mmc2(m) && self.same_state(&m),
            self.save_state_post(s),
    {
        MapperState::Mmc2(Mmc2 {
            prg_rom: clone_bytes(&self.prg_rom),
            chr: clone_bytes(&self.chr),
            chr_is_ram: self.chr_is_ram,
            prg_ram: clone_bytes(&self.prg_ram),
            has_battery: self.has_battery,
            prg_bank: self.prg_bank,
            chr_banks: self.chr_banks,
            latch_left: self.latch_left,
            latch_right: self.latch_right,
            mirroring: self.mirroring,
        })
    }

    /// Restore the mapper's state from a snapshot of the same board type.
    pub fn restore_state(&mut self, state: MapperState)
        requires
            state is Mmc2,
        ensures
            state matches MapperState::Mmc2(m) && *final(self) == m,
    {
        match state {
            MapperState::Mmc2(m) => {
                *self = m;
            },
            _ => {},
        }
    }
}

} // verus!
