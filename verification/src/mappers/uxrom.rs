//! UxROM — mapper 2.
//!
//! `$8000-$BFFF` is a switchable 16 KB PRG-ROM bank; `$C000-$FFFF` is fixed
//! to the last 16 KB bank. The bank register is written anywhere in
//! `$8000-$FFFF` and reduced modulo the bank count when read. CHR is a
//! single 8 KB window of ROM or RAM. No PRG-RAM, no IRQ, fixed mirroring.
//!
//! See: https://www.nesdev.org/wiki/UxROM

use vstd::prelude::*;
use super::{Mirroring, initial_chr, bank_byte, bank_count, store_if_in, make_chr, get_or_zero, set_if_in,
    read_bank, count_banks, MapperState, clone_bytes};

verus! {

/// PRG-ROM bank size (16 KB).
pub const UXROM_PRG_BANK_SIZE: usize = 16 * 1024;
/// CHR window size (8 KB).
pub const UXROM_CHR_SIZE: usize = 8 * 1024;

/// UxROM cartridge state.
pub struct Uxrom {
    pub prg_rom: Vec<u8>,
    /// CHR data — ROM when `chr_is_ram` is false, RAM when true.
    pub chr: Vec<u8>,
    pub chr_is_ram: bool,
    pub mirroring: Mirroring,
    pub has_battery: bool,
    /// Currently selected 16 KB PRG bank at `$8000-$BFFF`.
    pub bank: u8,
}

impl Uxrom {
    /// Well-formedness: CHR-RAM is never empty.
    pub open spec fn wf(&self) -> bool {
        self.chr_is_ram ==> self.chr@.len() > 0
    }

    /// The byte the CPU sees at `addr`: 0 below `$8000`; the selected bank
    /// at `$8000-$BFFF`; the last bank at `$C000-$FFFF`.
    pub open spec fn prg_byte(&self, addr: u16) -> u8 {
        let size = UXROM_PRG_BANK_SIZE as int;
        if addr < 0x8000 {
            0
        } else if (addr as int) - 0x8000 < size {
            bank_byte(self.prg_rom@, size, self.bank as int, (addr as int) - 0x8000)
        } else {
            bank_byte(self.prg_rom@, size, bank_count(self.prg_rom@.len() as int, size) - 1,
                (addr as int) - 0xC000)
        }
    }

    /// The byte the PPU sees at `addr`: CHR taken modulo its size.
    pub open spec fn chr_byte(&self, addr: u16) -> u8 {
        if self.chr@.len() == 0 {
            0
        } else {
            self.chr@[(addr as int) % (self.chr@.len() as int)]
        }
    }

    /// CHR contents after a PPU write of `value` at `addr`.
    pub open spec fn chr_after_write(&self, addr: u16, value: u8) -> Seq<u8> {
        if self.chr_is_ram {
            store_if_in(self.chr@, (addr as int) % (self.chr@.len() as int), value)
        } else {
            self.chr@
        }
    }

    /// Whether `self` is the board as built from PRG `prg`, CHR `chr`
    /// (empty for CHR-RAM), header mirroring `mirroring` and battery flag
    /// `has_battery`: its power-on state.
    pub open spec fn fresh(&self, prg: Seq<u8>, chr: Seq<u8>, mirroring: Mirroring, has_battery: bool) -> bool {
        &&& self.wf()
        &&& self.prg_rom@ == prg
        &&& self.chr@ == initial_chr(chr)
        &&& self.chr_is_ram == (chr.len() == 0)
        &&& self.mirroring == mirroring
        &&& self.has_battery == has_battery
        &&& self.bank == 0
    }

    /// Construct a UxROM mapper; an empty `chr_rom` gives 8 KB of CHR-RAM.
    pub fn new(prg_rom: Vec<u8>, chr_rom: Vec<u8>, mirroring: Mirroring, has_battery: bool) -> (m: Self)
        ensures
            m.wf(),
            m.prg_rom@ == prg_rom@,
            m.chr@ == initial_chr(chr_rom@),
            m.chr_is_ram == (chr_rom@.len() == 0),
            m.mirroring == mirroring,
            m.has_battery == has_battery,
            m.bank == 0,
            m.fresh(prg_rom@, chr_rom@, mirroring, has_battery),
    {
        let (chr, chr_is_ram) = make_chr(chr_rom);
        Uxrom { prg_rom, chr, chr_is_ram, mirroring, has_battery, bank: 0 }
    }

    /// Number of 16 KB PRG banks (at least 1).
    pub fn prg_bank_count(&self) -> (c: usize)
        ensures
            c == bank_count(self.prg_rom@.len() as int, UXROM_PRG_BANK_SIZE as int),
    {
        count_banks(self.prg_rom.len(), UXROM_PRG_BANK_SIZE)
    }

    /// Read a byte from the CPU-side PRG space.
    pub fn read_prg(&self, addr: u16) -> (b: u8)
        ensures
            b == self.prg_byte(addr),
    {
        if addr < 0x8000 {
            return 0x00;
        }
        let local: usize = (addr - 0x8000) as usize;
        let offset: usize = local & (UXROM_PRG_BANK_SIZE - 1);
        let count: usize = self.prg_bank_count();
        if local < UXROM_PRG_BANK_SIZE {
            proof {
                crate::bits::lemma_usize_masks(local);
            }
            read_bank(&self.prg_rom, UXROM_PRG_BANK_SIZE, self.bank as usize, offset)
        } else {
            proof {
                crate::bits::lemma_usize_masks(local);
            }
            let last: usize = count - 1;
            read_bank(&self.prg_rom, UXROM_PRG_BANK_SIZE, last, offset)
        }
    }

    /// The contract of [`Uxrom::write_prg`] as a predicate on the state it leaves `before` in.
    pub open spec fn write_prg_post(&self, before: Uxrom, addr: u16, value: u8) -> bool {
        &&& (self.bank == (if addr < 0x8000 { before.bank } else { value }))
        &&& (self.prg_rom == before.prg_rom)
        &&& (self.chr == before.chr)
        &&& (self.chr_is_ram == before.chr_is_ram)
        &&& (self.mirroring == before.mirroring)
        &&& (self.has_battery == before.has_battery)
    }

    /// Write to the CPU-side PRG space: any write at `$8000-$FFFF` latches
    /// the bank register; writes below `$8000` are ignored.
    pub fn write_prg(&mut self, addr: u16, value: u8)
        ensures
            final(self).bank == (if addr < 0x8000 { old(self).bank } else { value }),
            final(self).prg_rom == old(self).prg_rom,
            final(self).chr == old(self).chr,
            final(self).chr_is_ram == old(self).chr_is_ram,
            final(self).mirroring == old(self).mirroring,
            final(self).has_battery == old(self).has_battery,
            final(self).write_prg_post(*old(self), addr, value),
    {
        if addr < 0x8000 {
            return;
        }
        self.bank = value;
    }

    /// Read a byte from the PPU-side CHR space.
    pub fn read_chr(&self, addr: u16) -> (b: u8)
        ensures
            b == self.chr_byte(addr),
    {
        let len: usize = self.chr.len();
        let n: usize = if len == 0 { 1 } else { len };
        get_or_zero(&self.chr, (addr as usize) % n)
    }

    /// The contract of [`Uxrom::write_chr`] as a predicate on the state it leaves `before` in.
    pub open spec fn write_chr_post(&self, before: Uxrom, addr: u16, value: u8) -> bool {
        &&& (self.wf())
        &&& (self.chr@ == before.chr_after_write(addr, value))
        &&& (self.prg_rom == before.prg_rom)
        &&& (self.chr_is_ram == before.chr_is_ram)
        &&& (self.mirroring == before.mirroring)
        &&& (self.has_battery == before.has_battery)
        &&& (self.bank == before.bank)
    }

    /// Write a byte to the PPU-side CHR space; only CHR-RAM takes it.
    pub fn write_chr(&mut self, addr: u16, value: u8)
        requires
            old(self).wf(),
        ensures
            final(self).wf(),
            final(self).chr@ == old(self).chr_after_write(addr, value),
            final(self).prg_rom == old(self).prg_rom,
            final(self).chr_is_ram == old(self).chr_is_ram,
            final(self).mirroring == old(self).mirroring,
            final(self).has_battery == old(self).has_battery,
            final(self).bank == old(self).bank,
            final(self).write_chr_post(*old(self), addr, value),
    {
        if self.chr_is_ram {
            let idx: usize = (addr as usize) % self.chr.len();
            set_if_in(&mut self.chr, idx, value);
        }
    }

    /// Nametable mirroring fixed by the cartridge.
    pub fn mirror_mode(&self) -> (m: Mirroring)
        ensures
            m == self.mirroring,
    {
        self.mirroring
    }

    /// The contract of [`Uxrom::has_battery`] as a predicate.
    pub open spec fn has_battery_post(&self, b: bool) -> bool {
        &&& (b == self.has_battery)
    }

    /// Whether the cartridge has battery-backed PRG-RAM.
    pub fn has_battery(&self) -> (b: bool)
        ensures
            b == self.has_battery,
            self.has_battery_post(b),
    {
        self.has_battery
    }
}

/// `$C000-$FFFF` always shows the last bank, whatever was written to the
/// bank register.
pub proof fn law_uxrom_fixed_last_bank(m: Uxrom, post: Uxrom, waddr: u16, value: u8, addr: u16)
    requires
        addr >= 0xC000,
        post.prg_rom == m.prg_rom,
    ensures
        post.prg_byte(addr) == m.prg_byte(addr),
{
}


impl Uxrom {
    /// Whether `o` holds the same state as `self`, byte for byte.
    pub open spec fn same_state(&self, o: &Uxrom) -> bool {
        &&& o.prg_rom@ == self.prg_rom@
        &&& o.chr@ == self.chr@
        &&& o.chr_is_ram == self.chr_is_ram
        &&& o.mirroring == self.mirroring
        &&& o.has_battery == self.has_battery
        &&& o.bank == self.bank
    }

    /// The contract of [`Uxrom::save_state`] as a predicate.
    pub open spec fn save_state_post(&self, s: MapperState) -> bool {
        &&& (s matches MapperState::Uxrom(m) && self.same_state(&m))
    }

    /// Capture the mapper's whole state as a snapshot.
    pub fn save_state(&self) -> (s: MapperState)
        ensures
            s matches MapperState::Uxrom(m) && self.same_state(&m),
            self.save_state_post(s),
    {
        MapperState::Uxrom(Uxrom {
            prg_rom: clone_bytes(&self.prg_rom),
            chr: clone_bytes(&self.chr),
            chr_is_ram: self.chr_is_ram,
            mirroring: self.mirroring,
            has_battery: self.has_battery,
            bank: self.bank,
        })
    }

    /// Restore the mapper's state from a snapshot of the same board type.
    pub fn restore_state(&mut self, state: MapperState)
        requires
            state is Uxrom,
        ensures
            state matches MapperState::Uxrom(m) && *final(self) == m,
    {
        match state {
            MapperState::Uxrom(m) => {
                *self = m;
            },
            _ => {},
        }
    }
}

} // verus!
