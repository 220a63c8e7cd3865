//! CNROM — mapper 3.
//!
//! No PRG banking (PRG-ROM is mapped linearly across `$8000-$FFFF`, 16 KB
//! carts mirrored), but CHR is switched in 8 KB banks: any write to
//! `$8000-$FFFF` latches the CHR bank register, reduced modulo the CHR bank
//! count when read. No PRG-RAM, no IRQ.
//!
//! See: https://www.nesdev.org/wiki/CNROM

use vstd::prelude::*;
use super::{Mirroring, initial_chr, bank_byte, bank_count, bank_index, store_if_in, make_chr, get_or_zero,
    set_if_in, count_banks, read_bank, write_bank, MapperState, clone_bytes};

verus! {

/// CHR bank size (8 KB).
pub const CNROM_CHR_BANK_SIZE: usize = 8 * 1024;

/// CNROM cartridge state.
pub struct Cnrom {
    pub prg_rom: Vec<u8>,
    /// CHR data — ROM when `chr_is_ram` is false, RAM when true.
    pub chr: Vec<u8>,
    pub chr_is_ram: bool,
    pub mirroring: Mirroring,
    pub has_battery: bool,
    /// Currently selected 8 KB CHR bank.
    pub chr_bank: u8,
}

impl Cnrom {
    /// The byte the CPU sees at `addr`: 0 below `$8000`, otherwise PRG-ROM
    /// taken modulo its size.
    pub open spec fn prg_byte(&self, addr: u16) -> u8 {
        if addr < 0x8000 || self.prg_rom@.len() == 0 {
            0
        } else {
            self.prg_rom@[(addr - 0x8000) % (self.prg_rom@.len() as int)]
        }
    }

    /// Index into CHR of PPU address `addr` through the selected bank.
    pub open spec fn chr_index(&self, addr: u16) -> int {
        bank_index(self.chr@.len() as int, CNROM_CHR_BANK_SIZE as int, self.chr_bank as int,
            (addr as int) % (CNROM_CHR_BANK_SIZE as int))
    }

    /// The byte the PPU sees at `addr`: the low 13 bits of `addr` within the
    /// selected 8 KB bank.
    pub open spec fn chr_byte(&self, addr: u16) -> u8 {
        bank_byte(self.chr@, CNROM_CHR_BANK_SIZE as int, self.chr_bank as int,
            (addr as int) % (CNROM_CHR_BANK_SIZE as int))
    }

    /// CHR contents after a PPU write of `value` at `addr`.
    pub open spec fn chr_after_write(&self, addr: u16, value: u8) -> Seq<u8> {
        if self.chr_is_ram {
            store_if_in(self.chr@, self.chr_index(addr), value)
        } else {
            self.chr@
        }
    }

    /// Whether `self` is the board as built from PRG `prg`, CHR `chr`
    /// (empty for CHR-RAM), header mirroring `mirroring` and battery flag
    /// `has_battery`: its power-on state.
    pub open spec fn fresh(&self, prg: Seq<u8>, chr: Seq<u8>, mirroring: Mirroring, has_battery: bool) -> bool {
        &&& self.prg_rom@ == prg
        &&& self.chr@ == initial_chr(chr)
        &&& self.chr_is_ram == (chr.len() == 0)
        &&& self.mirroring == mirroring
        &&& self.has_battery == has_battery
        &&& self.chr_bank == 0
    }

    /// Construct a CNROM mapper; an empty `chr_rom` gives 8 KB of CHR-RAM.
    pub fn new(prg_rom: Vec<u8>, chr_rom: Vec<u8>, mirroring: Mirroring, has_battery: bool) -> (m: Self)
        ensures
            m.prg_rom@ == prg_rom@,
            m.chr@ == initial_chr(chr_rom@),
            m.chr_is_ram == (chr_rom@.len() == 0),
            m.mirroring == mirroring,
            m.has_battery == has_battery,
            m.chr_bank == 0,
            m.fresh(prg_rom@, chr_rom@, mirroring, has_battery),
    {
        let (chr, chr_is_ram) = make_chr(chr_rom);
        Cnrom { prg_rom, chr, chr_is_ram, mirroring, has_battery, chr_bank: 0 }
    }

    /// Number of 8 KB CHR banks (at least 1).
    pub fn chr_bank_count(&self) -> (c: usize)
        ensures
            c == bank_count(self.chr@.len() as int, CNROM_CHR_BANK_SIZE as int),
    {
        count_banks(self.chr.len(), CNROM_CHR_BANK_SIZE)
    }

    /// Index into PRG-ROM for a CPU address in `$8000-$FFFF`.
    pub fn prg_index(&self, addr: u16) -> (idx: usize)
        requires
            addr >= 0x8000,
        ensures
            self.prg_rom@.len() == 0 ==> idx == 0,
            self.prg_rom@.len() > 0 ==> idx == (addr - 0x8000) % (self.prg_rom@.len() as int),
    {
        let local: usize = (addr - 0x8000) as usize;
        let bank_size: usize = self.prg_rom.len();
        if bank_size == 0 {
            return 0;
        }
        local % bank_size
    }

    /// Read a byte from the CPU-side PRG space.
    pub fn read_prg(&self, addr: u16) -> (b: u8)
        ensures
            b == self.prg_byte(addr),
    {
        if addr < 0x8000 {
            return 0x00;
        }
        let idx: usize = self.prg_index(addr);
        get_or_zero(&self.prg_rom, idx)
    }

    /// The contract of [`Cnrom::write_prg`] as a predicate on the state it leaves `before` in.
    pub open spec fn write_prg_post(&self, before: Cnrom, addr: u16, value: u8) -> bool {
        &&& (self.chr_bank == (if addr < 0x8000 { before.chr_bank } else { value }))
        &&& (self.prg_rom == before.prg_rom)
        &&& (self.chr == before.chr)
        &&& (self.chr_is_ram == before.chr_is_ram)
        &&& (self.mirroring == before.mirroring)
        &&& (self.has_battery == before.has_battery)
    }

    /// Write to the CPU-side PRG space: any write at `$8000-$FFFF` latches
    /// the CHR bank register; writes below `$8000` are ignored.
    pub fn write_prg(&mut self, addr: u16, value: u8)
        ensures
            final(self).chr_bank == (if addr < 0x8000 { old(self).chr_bank } else { value }),
            final(self).prg_rom == old(self).prg_rom,
            final(self).chr == old(self).chr,
            final(self).chr_is_ram == old(self).chr_is_ram,
            final(self).mirroring == old(self).mirroring,
            final(self).has_battery == old(self).has_battery,
            final(self).write_prg_post(*old(self), addr, value),
    {
        if addr < 0x8000 {
            return;
        }
        self.chr_bank = value;
    }

    /// Read a byte from the PPU-side CHR space through the selected bank.
    pub fn read_chr(&self, addr: u16) -> (b: u8)
        ensures
            b == self.chr_byte(addr),
    {
        let a: usize = addr as usize;
        let off: usize = a & (CNROM_CHR_BANK_SIZE - 1);
        proof {
            crate::bits::lemma_usize_masks(a);
        }
        read_bank(&self.chr, CNROM_CHR_BANK_SIZE, self.chr_bank as usize, off)
    }

    /// The contract of [`Cnrom::write_chr`] as a predicate on the state it leaves `before` in.
    pub open spec fn write_chr_post(&self, before: Cnrom, addr: u16, value: u8) -> bool {
        &&& (self.chr@ == before.chr_after_write(addr, value))
        &&& (self.prg_rom == before.prg_rom)
        &&& (self.chr_is_ram == before.chr_is_ram)
        &&& (self.mirroring == before.mirroring)
        &&& (self.has_battery == before.has_battery)
        &&& (self.chr_bank == before.chr_bank)
    }

    /// Write a byte to the PPU-side CHR space; only CHR-RAM takes it.
    pub fn write_chr(&mut self, addr: u16, value: u8)
        ensures
            final(self).chr@ == old(self).chr_after_write(addr, value),
            final(self).prg_rom == old(self).prg_rom,
            final(self).chr_is_ram == old(self).chr_is_ram,
            final(self).mirroring == old(self).mirroring,
            final(self).has_battery == old(self).has_battery,
            final(self).chr_bank == old(self).chr_bank,
            final(self).write_chr_post(*old(self), addr, value),
    {
        if !self.chr_is_ram {
            return;
        }
        let a: usize = addr as usize;
        let off: usize = a & (CNROM_CHR_BANK_SIZE - 1);
        proof {
            crate::bits::lemma_usize_masks(a);
        }
        write_bank(&mut self.chr, CNROM_CHR_BANK_SIZE, self.chr_bank as usize, off, value);
    }

    /// Nametable mirroring fixed by the cartridge.
    pub fn mirror_mode(&self) -> (m: Mirroring)
        ensures
            m == self.mirroring,
    {
        self.mirroring
    }

    /// The contract of [`Cnrom::has_battery`] as a predicate.
    pub open spec fn has_battery_post(&self, b: bool) -> bool {
        &&& (b == self.has_battery)
    }

    /// Whether the cartridge has battery-backed PRG-RAM.
    pub fn has_battery(&self) -> (b: bool)
        ensures
            b == self.has_battery,
            self.has_battery_post(b),
    {
        self.has_battery
    }
}

/// CHR-RAM keeps what the PPU writes, read back through the same bank.
pub proof fn law_cnrom_chr_ram_read_after_write(m: Cnrom, post: Cnrom, addr: u16, value: u8)
    requires
        m.chr_is_ram,
        m.chr@.len() == CNROM_CHR_BANK_SIZE,
        post.chr_bank == m.chr_bank,
        post.chr@ == m.chr_after_write(addr, value),
    ensures
        post.chr_byte(addr) == value,
{
    assert(bank_count(m.chr@.len() as int, CNROM_CHR_BANK_SIZE as int) == 1);
}


impl Cnrom {
    /// Whether `o` holds the same state as `self`, byte for byte.
    pub open spec fn same_state(&self, o: &Cnrom) -> bool {
        &&& o.prg_rom@ == self.prg_rom@
        &&& o.chr@ == self.chr@
        &&& o.chr_is_ram == self.chr_is_ram
        &&& o.mirroring == self.mirroring
        &&& o.has_battery == self.has_battery
        &&& o.chr_bank == self.chr_bank
    }

    /// The contract of [`Cnrom::save_state`] as a predicate.
    pub open spec fn save_state_post(&self, s: MapperState) -> bool {
        &&& (s matches MapperState::Cnrom(m) && self.same_state(&m))
    }

    /// Capture the mapper's whole state as a snapshot.
    pub fn save_state(&self) -> (s: MapperState)
        ensures
            s matches MapperState::Cnrom(m) && self.same_state(&m),
            self.save_state_post(s),
    {
        MapperState::Cnrom(Cnrom {
            prg_rom: clone_bytes(&self.prg_rom),
            chr: clone_bytes(&self.chr),
            chr_is_ram: self.chr_is_ram,
            mirroring: self.mirroring,
            has_battery: self.has_battery,
            chr_bank: self.chr_bank,
        })
    }

    /// Restore the mapper's state from a snapshot of the same board type.
    pub fn restore_state(&mut self, state: MapperState)
        requires
            state is Cnrom,
        ensures
            state matches MapperState::Cnrom(m) && *final(self) == m,
    {
        match state {
            MapperState::Cnrom(m) => {
                *self = m;
            },
            _ => {},
        }
    }
}

} // verus!
