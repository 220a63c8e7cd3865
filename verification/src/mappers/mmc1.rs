//! MMC1 — mapper 1.
//!
//! A serial 5-bit shift register loads four internal registers: control
//! (mirroring, PRG mode, CHR mode), CHR bank 0, CHR bank 1 and PRG bank.
//! Each write to `$8000-$FFFF` shifts bit 0 of the value in (first write →
//! bit 0, fifth → bit 4); the fifth write commits the 5-bit value to the
//! register chosen by address bits 13-14 and clears the shift register. A
//! write with bit 7 set resets the shift register and forces PRG mode 3.
//! 8 KB of PRG-RAM sits at `$6000-$7FFF` (optionally battery-backed).
//!
//! See: https://www.nesdev.org/wiki/MMC1

use vstd::prelude::*;
use super::{Mirroring, initial_chr, bank_byte, bank_count, bank_index, store_if_in, make_chr, get_or_zero,
    set_if_in, read_bank, write_bank, count_banks, zeroed, copy_prefix, MapperState, clone_bytes};

verus! {

/// PRG-ROM bank size (16 KB).
pub const MMC1_PRG_BANK_SIZE: usize = 16 * 1024;
/// CHR bank size in 4 KB mode.
pub const MMC1_CHR_4K_SIZE: usize = 4 * 1024;
/// PRG-RAM size (8 KB at `$6000-$7FFF`).
pub const MMC1_PRG_RAM_SIZE: usize = 8 * 1024;
/// Control-register PRG-mode bits for mode 3 (fix last bank at `$C000`).
pub const MMC1_CONTROL_PRG_MODE_3: u8 = 0b01100;

/// Control-register mirroring bits for a header mirroring mode.
pub open spec fn mmc1_mirroring_bits(m: Mirroring) -> u8 {
    match m {
        Mirroring::SingleScreen(n) => if n == 0 { 0b00u8 } else { 0b01u8 },
        Mirroring::Vertical => 0b10u8,
        _ => 0b11u8,
    }
}

/// MMC1 cartridge state.
pub struct Mmc1 {
    pub prg_rom: Vec<u8>,
    /// CHR data — ROM when `chr_is_ram` is false, RAM when true.
    pub chr: Vec<u8>,
    pub chr_is_ram: bool,
    /// 8 KB PRG-RAM at `$6000-$7FFF`.
    pub prg_ram: Vec<u8>,
    pub has_battery: bool,
    /// 5-bit serial shift register accumulator.
    pub shift_reg: u8,
    /// Number of bits written to the shift register since the last reset.
    pub shift_count: u8,
    /// Register 0 (`$8000`): mirroring + PRG/CHR mode.
    pub control: u8,
    /// Register 1 (`$A000`): CHR bank 0.
    pub chr_bank_0: u8,
    /// Register 2 (`$C000`): CHR bank 1.
    pub chr_bank_1: u8,
    /// Register 3 (`$E000`): PRG bank.
    pub prg_bank: u8,
}

impl Mmc1 {
    /// Well-formedness: fewer than five bits are pending in the shift register.
    pub open spec fn wf(&self) -> bool {
        self.shift_count < 5
    }

    /// PRG mode: bits 2-3 of the control register.
    pub open spec fn spec_prg_mode(&self) -> u8 {
        (self.control >> 2) & 0b11
    }

    /// CHR mode: bit 4 of the control register (0 = 8 KB, 1 = 4 KB).
    pub open spec fn spec_chr_mode(&self) -> u8 {
        (self.control >> 4) & 1
    }

    /// The byte the CPU sees at `addr` (`$6000-$FFFF`).
    pub open spec fn prg_byte(&self, addr: u16) -> u8 {
        let size = MMC1_PRG_BANK_SIZE as int;
        let local = (addr as int) - 0x8000;
        let offset = local % size;
        if 0x6000 <= addr < 0x8000 {
            byte_or_zero_ram(self.prg_ram@, (addr as int) - 0x6000)
        } else if self.spec_prg_mode() <= 1 {
            bank_byte(self.prg_rom@, size, (self.prg_bank & 0x0E) as int, local)
        } else if self.spec_prg_mode() == 2 {
            if local < size {
                bank_byte(self.prg_rom@, size, 0, offset)
            } else {
                bank_byte(self.prg_rom@, size, (self.prg_bank & 0x0F) as int, offset)
            }
        } else {
            if local < size {
                bank_byte(self.prg_rom@, size, (self.prg_bank & 0x0F) as int, offset)
            } else {
                bank_byte(self.prg_rom@, size, bank_count(self.prg_rom@.len() as int, size) - 1, offset)
            }
        }
    }

    /// Index into CHR of PPU address `addr` (`$0000-$1FFF`) under the
    /// current CHR mode and bank registers.
    pub open spec fn chr_index(&self, addr: u16) -> int {
        let size = MMC1_CHR_4K_SIZE as int;
        let len = self.chr@.len() as int;
        if self.spec_chr_mode() == 0 {
            bank_index(len, size, (self.chr_bank_0 & 0x1E) as int, (addr as int) % 0x2000)
        } else if (addr as int) < size {
            bank_index(len, size, (self.chr_bank_0 & 0x1F) as int, addr as int)
        } else {
            bank_index(len, size, (self.chr_bank_1 & 0x1F) as int, (addr as int) - size)
        }
    }

    /// The byte the PPU sees at `addr`.
    pub open spec fn chr_byte(&self, addr: u16) -> u8 {
        super::byte_or_zero(self.chr@, self.chr_index(addr))
    }

    /// CHR contents after a PPU write of `value` at `addr`.
    pub open spec fn chr_after_write(&self, addr: u16, value: u8) -> Seq<u8> {
        if self.chr_is_ram {
            store_if_in(self.chr@, self.chr_index(addr), value)
        } else {
            self.chr@
        }
    }

    /// The shift register with bit 0 of `value` shifted in at bit 4.
    pub open spec fn shifted(&self, value: u8) -> u8 {
        (self.shift_reg >> 1) | ((value & 1) << 4)
    }

    /// Register state after a serial-port write of `value` at `addr`
    /// (`$8000-$FFFF`); everything else is unchanged.
    pub open spec fn serial_post(&self, post: &Self, addr: u16, value: u8) -> bool {
        &&& post.prg_rom == self.prg_rom
        &&& post.chr == self.chr
        &&& post.chr_is_ram == self.chr_is_ram
        &&& post.prg_ram == self.prg_ram
        &&& post.has_battery == self.has_battery
        &&& if value & 0x80 != 0 {
            &&& post.shift_reg == 0
            &&& post.shift_count == 0
            &&& post.control == (self.control & 0b10011) | MMC1_CONTROL_PRG_MODE_3
            &&& post.chr_bank_0 == self.chr_bank_0
            &&& post.chr_bank_1 == self.chr_bank_1
            &&& post.prg_bank == self.prg_bank
        } else if self.shift_count + 1 == 5 {
            let reg = (addr >> 13) & 0b11;
            let v = self.shifted(value);
            &&& post.shift_reg == 0
            &&& post.shift_count == 0
            &&& post.control == (if reg == 0 { v } else { self.control })
            &&& post.chr_bank_0 == (if reg == 1 { v } else { self.chr_bank_0 })
            &&& post.chr_bank_1 == (if reg == 2 { v } else { self.chr_bank_1 })
            &&& post.prg_bank == (if reg == 3 { v } else { self.prg_bank })
        } else {
            &&& post.shift_reg == self.shifted(value)
            &&& post.shift_count == self.shift_count + 1
            &&& post.control == self.control
            &&& post.chr_bank_0 == self.chr_bank_0
            &&& post.chr_bank_1 == self.chr_bank_1
            &&& post.prg_bank == self.prg_bank
        }
    }

    /// Whether `self` is the board as built from PRG `prg`, CHR `chr`
    /// (empty for CHR-RAM), header mirroring `mirroring` and battery flag
    /// `has_battery`: its power-on state.
    pub open spec fn fresh(&self, prg: Seq<u8>, chr: Seq<u8>, mirroring: Mirroring, has_battery: bool) -> bool {
        &&& self.wf()
        &&& self.prg_rom@ == prg
        &&& self.chr@ == initial_chr(chr)
        &&& self.chr_is_ram == (chr.len() == 0)
        &&& self.prg_ram@ == Seq::new(MMC1_PRG_RAM_SIZE as nat, |i: int| 0u8)
        &&& self.has_battery == has_battery
        &&& self.shift_reg == 0
        &&& self.shift_count == 0
        &&& self.control == MMC1_CONTROL_PRG_MODE_3 | mmc1_mirroring_bits(mirroring)
        &&& self.chr_bank_0 == 0
        &&& self.chr_bank_1 == 0
        &&& self.prg_bank == 0
    }

    /// Construct an MMC1 mapper. The control register starts in PRG mode 3,
    /// CHR mode 0, with the mirroring bits taken from the header.
    pub fn new(prg_rom: Vec<u8>, chr_rom: Vec<u8>, mirroring: Mirroring, has_battery: bool) -> (m: Self)
        ensures
            m.wf(),
            m.prg_rom@ == prg_rom@,
            m.chr@ == initial_chr(chr_rom@),
            m.chr_is_ram == (chr_rom@.len() == 0),
            m.prg_ram@ == Seq::new(MMC1_PRG_RAM_SIZE as nat, |i: int| 0u8),
            m.has_battery == has_battery,
            m.shift_reg == 0,
            m.shift_count == 0,
            m.control == MMC1_CONTROL_PRG_MODE_3 | mmc1_mirroring_bits(mirroring),
            m.chr_bank_0 == 0,
            m.chr_bank_1 == 0,
            m.prg_bank == 0,
            m.fresh(prg_rom@, chr_rom@, mirroring, has_battery),
    {
        let (chr, chr_is_ram) = make_chr(chr_rom);
        let mirr_bits: u8 = match mirroring {
            Mirroring::SingleScreen(n) => if n == 0 { 0b00 } else { 0b01 },
            Mirroring::Vertical => 0b10,
            Mirroring::Horizontal | Mirroring::FourScreen => 0b11,
        };
        let control: u8 = MMC1_CONTROL_PRG_MODE_3 | mirr_bits;
        Mmc1 {
            prg_rom,
            chr,
            chr_is_ram,
            prg_ram: zeroed(MMC1_PRG_RAM_SIZE),
            has_battery,
            shift_reg: 0,
            shift_count: 0,
            control,
            chr_bank_0: 0,
            chr_bank_1: 0,
            prg_bank: 0,
        }
    }

    /// Number of 16 KB PRG banks (at least 1).
    pub fn prg_bank_count(&self) -> (c: usize)
        ensures
            c == bank_count(self.prg_rom@.len() as int, MMC1_PRG_BANK_SIZE as int),
    {
        count_banks(self.prg_rom.len(), MMC1_PRG_BANK_SIZE)
    }

    /// Number of 4 KB CHR banks (at least 1).
    pub fn chr_bank_count(&self) -> (c: usize)
        ensures
            c == bank_count(self.chr@.len() as int, MMC1_CHR_4K_SIZE as int),
    {
        count_banks(self.chr.len(), MMC1_CHR_4K_SIZE)
    }

    /// PRG bank mode (bits 2-3 of the control register).
    pub fn prg_mode(&self) -> (m: u8)
        ensures
            m == self.spec_prg_mode(),
    {
        (self.control >> 2) & 0b11
    }

    /// CHR bank mode (bit 4 of the control register): 0 = 8 KB, 1 = 4 KB.
    pub fn chr_mode(&self) -> (m: u8)
        ensures
            m == self.spec_chr_mode(),
    {
        (self.control >> 4) & 1
    }

    /// Read a PRG-ROM byte from a given 16 KB bank and offset.
    pub fn prg_read_bank(&self, bank: usize, offset: usize) -> (b: u8)
        ensures
            b == bank_byte(self.prg_rom@, MMC1_PRG_BANK_SIZE as int, bank as int, offset as int),
    {
        read_bank(&self.prg_rom, MMC1_PRG_BANK_SIZE, bank, offset)
    }

    /// Serial-port write: shift in bit 0 of `value`, committing the
    /// register on the fifth bit; bit 7 set resets instead.
    pub fn serial_write(&mut self, addr: u16, value: u8)
        requires
            old(self).wf(),
        ensures
            final(self).wf(),
            old(self).serial_post(&*final(self), addr, value),
    {
        if value & 0x80 != 0 {
            self.shift_reg = 0;
            self.shift_count = 0;
            self.control = (self.control & 0b10011) | MMC1_CONTROL_PRG_MODE_3;
            return;
        }
        self.shift_reg = (self.shift_reg >> 1) | ((value & 1) << 4);
        self.shift_count = self.shift_count + 1;
        if self.shift_count == 5 {
            let reg: u8 = ((addr >> 13) & 0b11) as u8;
            assert(reg as u16 == (addr >> 13) & 0b11) by (bit_vector)
                requires reg == ((addr >> 13) & 0b11) as u8;
            if reg == 0 {
                self.control = self.shift_reg;
            } else if reg == 1 {
                self.chr_bank_0 = self.shift_reg;
            } else if reg == 2 {
                self.chr_bank_1 = self.shift_reg;
            } else {
                assert(reg == 3) by (bit_vector)
                    requires reg as u16 == (addr >> 13) & 0b11, reg != 0, reg != 1, reg != 2;
                self.prg_bank = self.shift_reg;
            }
            self.shift_reg = 0;
            self.shift_count = 0;
        }
    }

    /// Read a byte from the CPU-side PRG space (`$6000-$FFFF`).
    pub fn read_prg(&self, addr: u16) -> (b: u8)
        requires
            addr >= 0x6000,
        ensures
            b == self.prg_byte(addr),
    {
        if 0x6000 <= addr && addr < 0x8000 {
            return ram_read(&self.prg_ram, addr);
        }
        let local: usize = (addr - 0x8000) as usize;
        let in_low: bool = local < MMC1_PRG_BANK_SIZE;
        let offset: usize = local & (MMC1_PRG_BANK_SIZE - 1);
        proof {
            crate::bits::lemma_usize_masks(local);
        }
        let mode: u8 = self.prg_mode();
        if mode <= 1 {
            let bank: usize = (self.prg_bank & 0x0E) as usize;
            self.prg_read_bank(bank, local)
        } else if mode == 2 {
            if in_low {
                self.prg_read_bank(0, offset)
            } else {
                self.prg_read_bank((self.prg_bank & 0x0F) as usize, offset)
            }
        } else {
            if in_low {
                self.prg_read_bank((self.prg_bank & 0x0F) as usize, offset)
            } else {
                let last: usize = self.prg_bank_count() - 1;
                self.prg_read_bank(last, offset)
            }
        }
    }

    /// The contract of [`Mmc1::write_prg`] as a predicate on the state it leaves `before` in.
    pub open spec fn write_prg_post(&self, before: Mmc1, addr: u16, value: u8) -> bool {
        &&& (self.wf())
        &&& (addr < 0x8000 ==> self.prg_ram@ == store_if_in(before.prg_ram@, (addr as int) - 0x6000, value) && self.shift_reg == before.shift_reg && self.shift_count == before.shift_count && self.control == before.control && self.chr_bank_0 == before.chr_bank_0 && self.chr_bank_1 == before.chr_bank_1 && self.prg_bank == before.prg_bank && self.prg_rom == before.prg_rom && self.chr == before.chr && self.chr_is_ram == before.chr_is_ram && self.has_battery == before.has_battery)
        &&& (addr >= 0x8000 ==> before.serial_post(self, addr, value))
    }

    /// Write to the CPU-side PRG space: PRG-RAM at `$6000-$7FFF`, the serial
    /// port at `$8000-$FFFF`.
    pub fn write_prg(&mut self, addr: u16, value: u8)
        requires
            old(self).wf(),
            addr >= 0x6000,
        ensures
            final(self).wf(),
            addr < 0x8000 ==> final(self).prg_ram@ == store_if_in(old(self).prg_ram@, (addr as int) - 0x6000,
                value) && final(self).shift_reg == old(self).shift_reg && final(self).shift_count == old(
                self).shift_count && final(self).control == old(self).control && final(self).chr_bank_0
                == old(self).chr_bank_0 && final(self).chr_bank_1 == old(self).chr_bank_1 && final(
                self).prg_bank == old(self).prg_bank && final(self).prg_rom == old(self).prg_rom && final(
                self).chr == old(self).chr && final(self).chr_is_ram == old(self).chr_is_ram && final(
                self).has_battery == old(self).has_battery,
            addr >= 0x8000 ==> old(self).serial_post(&*final(self), addr, value),
            final(self).write_prg_post(*old(self), addr, value),
    {
        if 0x6000 <= addr && addr < 0x8000 {
            ram_write(&mut self.prg_ram, addr, value);
            return;
        }
        self.serial_write(addr, value);
    }

    /// Read a byte from the PPU-side CHR space.
    pub fn read_chr(&self, addr: u16) -> (b: u8)
        requires
            addr < 0x2000,
        ensures
            b == self.chr_byte(addr),
    {
        let a: usize = addr as usize;
        if self.chr_mode() == 0 {
            let off: usize = a & 0x1FFF;
            proof {
                crate::bits::lemma_usize_masks(a);
            }
            read_bank(&self.chr, MMC1_CHR_4K_SIZE, (self.chr_bank_0 & 0x1E) as usize, off)
        } else if a < MMC1_CHR_4K_SIZE {
            read_bank(&self.chr, MMC1_CHR_4K_SIZE, (self.chr_bank_0 & 0x1F) as usize, a)
        } else {
            read_bank(&self.chr, MMC1_CHR_4K_SIZE, (self.chr_bank_1 & 0x1F) as usize, a - MMC1_CHR_4K_SIZE)
        }
    }

    /// The contract of [`Mmc1::write_chr`] as a predicate on the state it leaves `before` in.
    pub open spec fn write_chr_post(&self, before: Mmc1, addr: u16, value: u8) -> bool {
        &&& (self.chr@ == before.chr_after_write(addr, value))
        &&& (self.prg_rom == before.prg_rom)
        &&& (self.chr_is_ram == before.chr_is_ram)
        &&& (self.prg_ram == before.prg_ram)
        &&& (self.has_battery == before.has_battery)
        &&& (self.shift_reg == before.shift_reg)
        &&& (self.shift_count == before.shift_count)
        &&& (self.control == before.control)
        &&& (self.chr_bank_0 == before.chr_bank_0)
        &&& (self.chr_bank_1 == before.chr_bank_1)
        &&& (self.prg_bank == before.prg_bank)
    }

    /// Write a byte to the PPU-side CHR space; only CHR-RAM takes it.
    pub fn write_chr(&mut self, addr: u16, value: u8)
        requires
            addr < 0x2000,
        ensures
            final(self).chr@ == old(self).chr_after_write(addr, value),
            final(self).prg_rom == old(self).prg_rom,
            final(self).chr_is_ram == old(self).chr_is_ram,
            final(self).prg_ram == old(self).prg_ram,
            final(self).has_battery == old(self).has_battery,
            final(self).shift_reg == old(self).shift_reg,
            final(self).shift_count == old(self).shift_count,
            final(self).control == old(self).control,
            final(self).chr_bank_0 == old(self).chr_bank_0,
            final(self).chr_bank_1 == old(self).chr_bank_1,
            final(self).prg_bank == old(self).prg_bank,
            final(self).write_chr_post(*old(self), addr, value),
    {
        if !self.chr_is_ram {
            return;
        }
        let a: usize = addr as usize;
        if self.chr_mode() == 0 {
            let off: usize = a & 0x1FFF;
            proof {
                crate::bits::lemma_usize_masks(a);
            }
            write_bank(&mut self.chr, MMC1_CHR_4K_SIZE, (self.chr_bank_0 & 0x1E) as usize, off, value);
        } else if a < MMC1_CHR_4K_SIZE {
            write_bank(&mut self.chr, MMC1_CHR_4K_SIZE, (self.chr_bank_0 & 0x1F) as usize, a, value);
        } else {
            write_bank(&mut self.chr, MMC1_CHR_4K_SIZE, (self.chr_bank_1 & 0x1F) as usize, a - MMC1_CHR_4K_SIZE,
                value);
        }
    }

    /// Mirroring from control bits 0-1: one-screen A, one-screen B,
    /// vertical, horizontal.
    pub fn mirror_mode(&self) -> (m: Mirroring)
        ensures
            m == (if self.control & 0b11 == 0 {
                Mirroring::SingleScreen(0)
            } else if self.control & 0b11 == 1 {
                Mirroring::SingleScreen(1)
            } else if self.control & 0b11 == 2 {
                Mirroring::Vertical
            } else {
                Mirroring::Horizontal
            }),
    {
        let bits: u8 = self.control & 0b11;
        if bits == 0 {
            Mirroring::SingleScreen(0)
        } else if bits == 1 {
            Mirroring::SingleScreen(1)
        } else if bits == 2 {
            Mirroring::Vertical
        } else {
            Mirroring::Horizontal
        }
    }

    /// The contract of [`Mmc1::has_battery`] as a predicate.
    pub open spec fn has_battery_post(&self, b: bool) -> bool {
        &&& (b == self.has_battery)
    }

    /// Whether the cartridge has battery-backed PRG-RAM.
    pub fn has_battery(&self) -> (b: bool)
        ensures
            b == self.has_battery,
            self.has_battery_post(b),
    {
        self.has_battery
    }

    /// The contract of [`Mmc1::battery_sram`] as a predicate.
    pub open spec fn battery_sram_post(&self, r: Option<Vec<u8>>) -> bool {
        &&& (self.has_battery ==> r is Some && r->0@ == self.prg_ram@)
        &&& (!self.has_battery ==> r is None)
    }

    /// A copy of the PRG-RAM when it is battery-backed, else `None`.
    pub fn battery_sram(&self) -> (r: Option<Vec<u8>>)
        ensures
            self.has_battery ==> r is Some && r->0@ == self.prg_ram@,
            !self.has_battery ==> r is None,
            self.battery_sram_post(r),
    {
        if self.has_battery {
            Some(super::clone_bytes(&self.prg_ram))
        } else {
            None
        }
    }

    /// The contract of [`Mmc1::load_battery_sram`] as a predicate on the state it leaves `before` in.
    pub open spec fn load_battery_sram_post(&self, before: Mmc1, data: &[u8]) -> bool {
        &&& (self.prg_ram@ == (if before.has_battery { super::overlay_prefix(before.prg_ram@, data@) } else { before.prg_ram@ }))
        &&& (self.prg_rom == before.prg_rom)
        &&& (self.chr == before.chr)
        &&& (self.chr_is_ram == before.chr_is_ram)
        &&& (self.has_battery == before.has_battery)
        &&& (self.shift_reg == before.shift_reg)
        &&& (self.shift_count == before.shift_count)
        &&& (self.control == before.control)
        &&& (self.chr_bank_0 == before.chr_bank_0)
        &&& (self.chr_bank_1 == before.chr_bank_1)
        &&& (self.prg_bank == before.prg_bank)
    }

    /// Load battery-backed PRG-RAM from saved bytes (as many as fit); no-op
    /// without a battery.
    pub fn load_battery_sram(&mut self, data: &[u8])
        ensures
            final(self).prg_ram@ == (if old(self).has_battery {
                super::overlay_prefix(old(self).prg_ram@, data@)
            } else {
                old(self).prg_ram@
            }),
            final(self).prg_rom == old(self).prg_rom,
            final(self).chr == old(self).chr,
            final(self).chr_is_ram == old(self).chr_is_ram,
            final(self).has_battery == old(self).has_battery,
            final(self).shift_reg == old(self).shift_reg,
            final(self).shift_count == old(self).shift_count,
            final(self).control == old(self).control,
            final(self).chr_bank_0 == old(self).chr_bank_0,
            final(self).chr_bank_1 == old(self).chr_bank_1,
            final(self).prg_bank == old(self).prg_bank,
            final(self).load_battery_sram_post(*old(self), data),
    {
        if !self.has_battery {
            return;
        }
        copy_prefix(&mut self.prg_ram, data);
    }
}

/// Byte of an 8 KB PRG-RAM window at offset `off` (taken modulo 8 KB).
pub open spec fn byte_or_zero_ram(ram: Seq<u8>, off: int) -> u8 {
    super::byte_or_zero(ram, off % (MMC1_PRG_RAM_SIZE as int))
}

/// Read the 8 KB PRG-RAM at CPU address `addr` in `$6000-$7FFF`.
fn ram_read(ram: &Vec<u8>, addr: u16) -> (b: u8)
    requires
        0x6000 <= addr < 0x8000,
    ensures
        b == byte_or_zero_ram(ram@, (addr as int) - 0x6000),
{
    let idx: usize = (addr as usize - 0x6000) & (MMC1_PRG_RAM_SIZE - 1);
    let a: usize = addr as usize - 0x6000;
    proof {
        crate::bits::lemma_usize_masks(a);
    }
    get_or_zero(ram, idx)
}

/// Write the 8 KB PRG-RAM at CPU address `addr` in `$6000-$7FFF`.
fn ram_write(ram: &mut Vec<u8>, addr: u16, value: u8)
    requires
        0x6000 <= addr < 0x8000,
    ensures
        final(ram)@ == store_if_in(old(ram)@, (addr as int) - 0x6000, value),
{
    let idx: usize = (addr as usize) - 0x6000;
    set_if_in(ram, idx, value);
}

/// Five serial writes of the bits of `v` (low bit first) to a register
/// address load exactly `v` (5 bits) into that register.
pub proof fn law_mmc1_five_writes_commit(m0: Mmc1, m1: Mmc1, m2: Mmc1, m3: Mmc1, m4: Mmc1, m5: Mmc1,
    addr: u16, v: u8)
    requires
        m0.shift_count == 0,
        m0.shift_reg == 0,
        v < 32,
        m0.serial_post(&m1, addr, (v >> 0u8) & 1),
        m1.serial_post(&m2, addr, (v >> 1u8) & 1),
        m2.serial_post(&m3, addr, (v >> 2u8) & 1),
        m3.serial_post(&m4, addr, (v >> 3u8) & 1),
        m4.serial_post(&m5, addr, (v >> 4u8) & 1),
    ensures
        m5.shift_count == 0,
        m5.shift_reg == 0,
        (addr >> 13) & 0b11 == 0 ==> m5.control == v,
        (addr >> 13) & 0b11 == 1 ==> m5.chr_bank_0 == v,
        (addr >> 13) & 0b11 == 2 ==> m5.chr_bank_1 == v,
        (addr >> 13) & 0b11 == 3 ==> m5.prg_bank == v,
{
    assert(((v >> 0u8) & 1) & 0x80 == 0 && ((v >> 1u8) & 1) & 0x80 == 0 && ((v >> 2u8) & 1) & 0x80 == 0
        && ((v >> 3u8) & 1) & 0x80 == 0 && ((v >> 4u8) & 1) & 0x80 == 0) by (bit_vector);
    let s1 = (0u8 >> 1u8) | ((((v >> 0u8) & 1) & 1) << 4u8);
    let s2 = (s1 >> 1u8) | ((((v >> 1u8) & 1) & 1) << 4u8);
    let s3 = (s2 >> 1u8) | ((((v >> 2u8) & 1) & 1) << 4u8);
    let s4 = (s3 >> 1u8) | ((((v >> 3u8) & 1) & 1) << 4u8);
    let s5 = (s4 >> 1u8) | ((((v >> 4u8) & 1) & 1) << 4u8);
    assert(s5 == v) by (bit_vector)
        requires
            v < 32,
            s1 == (0u8 >> 1u8) | ((((v >> 0u8) & 1) & 1) << 4u8),
            s2 == (s1 >> 1u8) | ((((v >> 1u8) & 1) & 1) << 4u8),
            s3 == (s2 >> 1u8) | ((((v >> 2u8) & 1) & 1) << 4u8),
            s4 == (s3 >> 1u8) | ((((v >> 3u8) & 1) & 1) << 4u8),
            s5 == (s4 >> 1u8) | ((((v >> 4u8) & 1) & 1) << 4u8);
    assert(m1.shift_reg == s1);
    assert(m2.shift_reg == s2);
    assert(m3.shift_reg == s3);
    assert(m4.shift_reg == s4);
}


impl Mmc1 {
    /// Whether `o` holds the same state as `self`, byte for byte.
    pub open spec fn same_state(&self, o: &Mmc1) -> bool {
        &&& o.prg_rom@ == self.prg_rom@
        &&& o.chr@ == self.chr@
        &&& o.chr_is_ram == self.chr_is_ram
        &&& o.prg_ram@ == self.prg_ram@
        &&& o.has_battery == self.has_battery
        &&& o.shift_reg == self.shift_reg
        &&& o.shift_count == self.shift_count
        &&& o.control == self.control
        &&& o.chr_bank_0 == self.chr_bank_0
        &&& o.chr_bank_1 == self.chr_bank_1
        &&& o.prg_bank == self.prg_bank
    }

    /// The contract of [`Mmc1::save_state`] as a predicate.
    pub open spec fn save_state_post(&self, s: MapperState) -> bool {
        &&& (s matches MapperState::Mmc1(m) && self.same_state(&m))
    }

    /// Capture the mapper's whole state as a snapshot.
    pub fn save_state(&self) -> (s: MapperState)
        ensures
            s matches MapperState::Mmc1(m) && self.same_state(&m),
            self.save_state_post(s),
    {
        MapperState::Mmc1(Mmc1 {
            prg_rom: clone_bytes(&self.prg_rom),
            chr: clone_bytes(&self.chr),
            chr_is_ram: self.chr_is_ram,
            prg_ram: clone_bytes(&self.prg_ram),
            has_battery: self.has_battery,
            shift_reg: self.shift_reg,
            shift_count: self.shift_count,
            control: self.control,
            chr_bank_0: self.chr_bank_0,
            chr_bank_1: self.chr_bank_1,
            prg_bank: self.prg_bank,
        })
    }

    /// Restore the mapper's state from a snapshot of the same board type.
    pub fn restore_state(&mut self, state: MapperState)
        requires
            state is Mmc1,
        ensures
            state matches MapperState::Mmc1(m) && *final(self) == m,
    {
        match state {
            MapperState::Mmc1(m) => {
                *self = m;
            },
            _ => {},
        }
    }
}

} // verus!
