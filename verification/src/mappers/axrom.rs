//! AxROM — mapper 7.
//!
//! The whole `$8000-$FFFF` range is one selectable 32 KB PRG bank (bits
//! 0-2 of the register); bit 4 selects which nametable page is shown at
//! all four slots (single-screen mirroring). CHR is one 8 KB window of ROM
//! or RAM. No PRG-RAM, no IRQ.
//!
//! See: https://www.nesdev.org/wiki/AxROM

use vstd::prelude::*;
use super::{Mirroring, initial_chr, bank_byte, bank_count, store_if_in, make_chr, get_or_zero, set_if_in,
    read_bank, count_banks, MapperState, clone_bytes};

verus! {

/// PRG-ROM bank size (32 KB).
pub const AXROM_PRG_BANK_SIZE: usize = 32 * 1024;

/// AxROM cartridge state.
pub struct Axrom {
    pub prg_rom: Vec<u8>,
    /// CHR data — ROM when `chr_is_ram` is false, RAM when true.
    pub chr: Vec<u8>,
    pub chr_is_ram: bool,
    pub has_battery: bool,
    /// Currently selected 32 KB PRG bank (bits 0-2 of the register).
    pub prg_bank: u8,
    /// Current single-screen nametable page (bit 4 of the register): 0 or 1.
    pub mirror_nt: u8,
}

impl Axrom {
    /// Well-formedness: CHR-RAM is never empty.
    pub open spec fn wf(&self) -> bool {
        self.chr_is_ram ==> self.chr@.len() > 0
    }

    /// The byte the CPU sees at `addr`: 0 below `$8000`, otherwise the
    /// selected 32 KB bank.
    pub open spec fn prg_byte(&self, addr: u16) -> u8 {
        if addr < 0x8000 {
            0
        } else {
            bank_byte(self.prg_rom@, AXROM_PRG_BANK_SIZE as int, self.prg_bank as int, (addr as int) - 0x8000)
        }
    }

    /// The byte the PPU sees at `addr`: CHR taken modulo its size.
    pub open spec fn chr_byte(&self, addr: u16) -> u8 {
        if self.chr@.len() == 0 {
            0
        } else {
            self.chr@[(addr as int) % (self.chr@.len() as int)]
        }
    }

    /// CHR contents after a PPU write of `value` at `addr`.
    pub open spec fn chr_after_write(&self, addr: u16, value: u8) -> Seq<u8> {
        if self.chr_is_ram {
            store_if_in(self.chr@, (addr as int) % (self.chr@.len() as int), value)
        } else {
            self.chr@
        }
    }

    /// Whether `self` is the board as built from PRG `prg`, CHR `chr`
    /// (empty for CHR-RAM), header mirroring `mirroring` and battery flag
    /// `has_battery`: its power-on state.
    pub open spec fn fresh(&self, prg: Seq<u8>, chr: Seq<u8>, mirroring: Mirroring, has_battery: bool) -> bool {
        &&& self.wf()
        &&& self.prg_rom@ == prg
        &&& self.chr@ == initial_chr(chr)
        &&& self.chr_is_ram == (chr.len() == 0)
        &&& self.has_battery == has_battery
        &&& self.prg_bank == 0
        &&& self.mirror_nt == 0
    }

    /// Construct an AxROM mapper. The header mirroring is not used: AxROM
    /// powers on showing nametable page 0 everywhere.
    pub fn new(prg_rom: Vec<u8>, chr_rom: Vec<u8>, _mirroring: Mirroring, has_battery: bool) -> (m: Self)
        ensures
            m.wf(),
            m.prg_rom@ == prg_rom@,
            m.chr@ == initial_chr(chr_rom@),
            m.chr_is_ram == (chr_rom@.len() == 0),
            m.has_battery == has_battery,
            m.prg_bank == 0,
            m.mirror_nt == 0,
            m.fresh(prg_rom@, chr_rom@, _mirroring, has_battery),
    {
        let (chr, chr_is_ram) = make_chr(chr_rom);
        Axrom { prg_rom, chr, chr_is_ram, has_battery, prg_bank: 0, mirror_nt: 0 }
    }

    /// Number of 32 KB PRG banks (at least 1).
    pub fn prg_bank_count(&self) -> (c: usize)
        ensures
            c == bank_count(self.prg_rom@.len() as int, AXROM_PRG_BANK_SIZE as int),
    {
        count_banks(self.prg_rom.len(), AXROM_PRG_BANK_SIZE)
    }

    /// Read a byte from the CPU-side PRG space.
    pub fn read_prg(&self, addr: u16) -> (b: u8)
        ensures
            b == self.prg_byte(addr),
    {
        if addr < 0x8000 {
            return 0x00;
        }
        let local: usize = (addr - 0x8000) as usize;
        read_bank(&self.prg_rom, AXROM_PRG_BANK_SIZE, self.prg_bank as usize, local)
    }

    /// The contract of [`Axrom::write_prg`] as a predicate on the state it leaves `before` in.
    pub open spec fn write_prg_post(&self, before: Axrom, addr: u16, value: u8) -> bool {
        &&& (addr < 0x8000 ==> self.prg_bank == before.prg_bank && self.mirror_nt == before.mirror_nt)
        &&& (addr >= 0x8000 ==> self.prg_bank == value & 0x07 && self.mirror_nt == (value >> 4) & 1)
        &&& (self.prg_rom == before.prg_rom)
        &&& (self.chr == before.chr)
        &&& (self.chr_is_ram == before.chr_is_ram)
        &&& (self.has_battery == before.has_battery)
    }

    /// Write to the CPU-side PRG space: a write at `$8000-$FFFF` sets the
    /// PRG bank from bits 0-2 and the nametable page from bit 4.
    pub fn write_prg(&mut self, addr: u16, value: u8)
        ensures
            addr < 0x8000 ==> final(self).prg_bank == old(self).prg_bank && final(self).mirror_nt
                == old(self).mirror_nt,
            addr >= 0x8000 ==> final(self).prg_bank == value & 0x07 && final(self).mirror_nt == (value
                >> 4) & 1,
            final(self).prg_rom == old(self).prg_rom,
            final(self).chr == old(self).chr,
            final(self).chr_is_ram == old(self).chr_is_ram,
            final(self).has_battery == old(self).has_battery,
            final(self).write_prg_post(*old(self), addr, value),
    {
        if addr < 0x8000 {
            return;
        }
        self.mirror_nt = (value >> 4) & 1;
        self.prg_bank = value & 0x07;
    }

    /// Read a byte from the PPU-side CHR space.
    pub fn read_chr(&self, addr: u16) -> (b: u8)
        ensures
            b == self.chr_byte(addr),
    {
        let len: usize = self.chr.len();
        let n: usize = if len == 0 { 1 } else { len };
        get_or_zero(&self.chr, (addr as usize) % n)
    }

    /// The contract of [`Axrom::write_chr`] as a predicate on the state it leaves `before` in.
    pub open spec fn write_chr_post(&self, before: Axrom, addr: u16, value: u8) -> bool {
        &&& (self.wf())
        &&& (self.chr@ == before.chr_after_write(addr, value))
        &&& (self.prg_rom == before.prg_rom)
        &&& (self.chr_is_ram == before.chr_is_ram)
        &&& (self.has_battery == before.has_battery)
        &&& (self.prg_bank == before.prg_bank)
        &&& (self.mirror_nt == before.mirror_nt)
    }

    /// Write a byte to the PPU-side CHR space; only CHR-RAM takes it.
    pub fn write_chr(&mut self, addr: u16, value: u8)
        requires
            old(self).wf(),
        ensures
            final(self).wf(),
            final(self).chr@ == old(self).chr_after_write(addr, value),
            final(self).prg_rom == old(self).prg_rom,
            final(self).chr_is_ram == old(self).chr_is_ram,
            final(self).has_battery == old(self).has_battery,
            final(self).prg_bank == old(self).prg_bank,
            final(self).mirror_nt == old(self).mirror_nt,
            final(self).write_chr_post(*old(self), addr, value),
    {
        if self.chr_is_ram {
            let idx: usize = (addr as usize) % self.chr.len();
            set_if_in(&mut self.chr, idx, value);
        }
    }

    /// Single-screen mirroring on the page selected by bit 4.
    pub fn mirror_mode(&self) -> (m: Mirroring)
        ensures
            m == Mirroring::SingleScreen(self.mirror_nt),
    {
        Mirroring::SingleScreen(self.mirror_nt)
    }

    /// The contract of [`Axrom::has_battery`] as a predicate.
    pub open spec fn has_battery_post(&self, b: bool) -> bool {
        &&& (b == self.has_battery)
    }

    /// Whether the cartridge has battery-backed PRG-RAM.
    pub fn has_battery(&self) -> (b: bool)
        ensures
            b == self.has_battery,
            self.has_battery_post(b),
    {
        self.has_battery
    }
}


impl Axrom {
    /// Whether `o` holds the same state as `self`, byte for byte.
    pub open spec fn same_state(&self, o: &Axrom) -> bool {
        &&& o.prg_rom@ == self.prg_rom@
        &&& o.chr@ == self.chr@
        &&& o.chr_is_ram == self.chr_is_ram
        &&& o.has_battery == self.has_battery
        &&& o.prg_bank == self.prg_bank
        &&& o.mirror_nt == self.mirror_nt
    }

    /// The contract of [`Axrom::save_state`] as a predicate.
    pub open spec fn save_state_post(&self, s: MapperState) -> bool {
        &&& (s matches MapperState::Axrom(m) && self.same_state(&m))
    }

    /// Capture the mapper's whole state as a snapshot.
    pub fn save_state(&self) -> (s: MapperState)
        ensures
            s matches MapperState::Axrom(m) && self.same_state(&m),
            self.save_state_post(s),
    {
        MapperState::Axrom(Axrom {
            prg_rom: clone_bytes(&self.prg_rom),
            chr: clone_bytes(&self.chr),
            chr_is_ram: self.chr_is_ram,
            has_battery: self.has_battery,
            prg_bank: self.prg_bank,
            mirror_nt: self.mirror_nt,
        })
    }

    /// Restore the mapper's state from a snapshot of the same board type.
    pub fn restore_state(&mut self, state: MapperState)
        requires
            state is Axrom,
        ensures
            state matches MapperState::Axrom(m) && *final(self) == m,
    {
        match state {
            MapperState::Axrom(m) => {
                *self = m;
            },
            _ => {},
        }
    }
}

} // verus!
