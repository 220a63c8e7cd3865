//! NROM — mapper 0.
//!
//! The simplest NES board: no bank switching, no extra registers, no IRQ.
//! PRG-ROM is either 16 KB (mirrored into both halves of `$8000-$FFFF`) or
//! 32 KB (mapped linearly). CHR is 8 KB of ROM, or RAM when the cartridge
//! has no CHR-ROM. `$6000-$7FFF` has no PRG-RAM: reads give 0, writes are
//! ignored.
//!
//! See: https://www.nesdev.org/wiki/NROM

use vstd::prelude::*;
use super::{Mirroring, initial_chr, byte_or_zero, store_if_in, make_chr, get_or_zero, set_if_in, MapperState, clone_bytes};

verus! {

/// NROM cartridge state.
pub struct Nrom {
    pub prg_rom: Vec<u8>,
    /// CHR data — ROM when `chr_is_ram` is false, RAM when true.
    pub chr: Vec<u8>,
    pub chr_is_ram: bool,
    pub mirroring: Mirroring,
    pub has_battery: bool,
}

impl Nrom {
    /// Well-formedness: CHR-RAM is never empty.
    pub open spec fn wf(&self) -> bool {
        self.chr_is_ram ==> self.chr@.len() > 0
    }

    /// The byte the CPU sees at `addr`: 0 below `$8000`, otherwise PRG-ROM
    /// taken modulo its size.
    pub open spec fn prg_byte(&self, addr: u16) -> u8 {
        if addr < 0x8000 || self.prg_rom@.len() == 0 {
            0
        } else {
            self.prg_rom@[(addr - 0x8000) % (self.prg_rom@.len() as int)]
        }
    }

    /// The byte the PPU sees at `addr`: CHR taken modulo its size.
    pub open spec fn chr_byte(&self, addr: u16) -> u8 {
        if self.chr@.len() == 0 {
            0
        } else {
            self.chr@[(addr as int) % (self.chr@.len() as int)]
        }
    }

    /// CHR contents after a PPU write of `value` at `addr`.
    pub open spec fn chr_after_write(&self, addr: u16, value: u8) -> Seq<u8> {
        if self.chr_is_ram {
            store_if_in(self.chr@, (addr as int) % (self.chr@.len() as int), value)
        } else {
            self.chr@
        }
    }

    /// Whether `self` is the board as built from PRG `prg`, CHR `chr`
    /// (empty for CHR-RAM), header mirroring `mirroring` and battery flag
    /// `has_battery`: its power-on state.
    pub open spec fn fresh(&self, prg: Seq<u8>, chr: Seq<u8>, mirroring: Mirroring, has_battery: bool) -> bool {
        &&& self.wf()
        &&& self.prg_rom@ == prg
        &&& self.chr@ == initial_chr(chr)
        &&& self.chr_is_ram == (chr.len() == 0)
        &&& self.mirroring == mirroring
        &&& self.has_battery == has_battery
    }

    /// Construct an NROM mapper from the parsed PRG/CHR data. An empty
    /// `chr_rom` (iNES `chr_rom_banks == 0`) gives 8 KB of CHR-RAM.
    pub fn new(prg_rom: Vec<u8>, chr_rom: Vec<u8>, mirroring: Mirroring, has_battery: bool) -> (m: Self)
        ensures
            m.wf(),
            m.prg_rom@ == prg_rom@,
            m.chr@ == initial_chr(chr_rom@),
            m.chr_is_ram == (chr_rom@.len() == 0),
            m.mirroring == mirroring,
            m.has_battery == has_battery,
            m.fresh(prg_rom@, chr_rom@, mirroring, has_battery),
    {
        let (chr, chr_is_ram) = make_chr(chr_rom);
        Nrom { prg_rom, chr, chr_is_ram, mirroring, has_battery }
    }

    /// Index into PRG-ROM for a CPU address in `$8000-$FFFF`: the offset
    /// from `$8000` modulo the PRG size (16 KB carts mirror at `$C000`).
    pub fn prg_index(&self, addr: u16) -> (idx: usize)
        requires
            addr >= 0x8000,
        ensures
            self.prg_rom@.len() == 0 ==> idx == 0,
            self.prg_rom@.len() > 0 ==> idx == (addr - 0x8000) % (self.prg_rom@.len() as int),
    {
        let local: usize = (addr - 0x8000) as usize;
        let bank_size: usize = self.prg_rom.len();
        if bank_size == 0 {
            return 0;
        }
        local % bank_size
    }

    /// Read a byte from the CPU-side PRG space.
    pub fn read_prg(&self, addr: u16) -> (b: u8)
        ensures
            b == self.prg_byte(addr),
    {
        if addr < 0x8000 {
            return 0x00;
        }
        let idx: usize = self.prg_index(addr);
        get_or_zero(&self.prg_rom, idx)
    }

    /// The contract of [`Nrom::write_prg`] as a predicate on the state it leaves `before` in.
    pub open spec fn write_prg_post(&self, before: Nrom, addr: u16, value: u8) -> bool {
        &&& (*self == before)
    }

    /// Write to the CPU-side PRG space: NROM has no registers and no
    /// PRG-RAM, so nothing changes.
    pub fn write_prg(&mut self, addr: u16, value: u8)
        ensures
            *final(self) == *old(self),
            final(self).write_prg_post(*old(self), addr, value),
    {
    }

    /// Read a byte from the PPU-side CHR space.
    pub fn read_chr(&self, addr: u16) -> (b: u8)
        ensures
            b == self.chr_byte(addr),
    {
        let len: usize = self.chr.len();
        let n: usize = if len == 0 { 1 } else { len };
        let idx: usize = (addr as usize) % n;
        get_or_zero(&self.chr, idx)
    }

    /// The contract of [`Nrom::write_chr`] as a predicate on the state it leaves `before` in.
    pub open spec fn write_chr_post(&self, before: Nrom, addr: u16, value: u8) -> bool {
        &&& (self.wf())
        &&& (self.chr@ == before.chr_after_write(addr, value))
        &&& (self.prg_rom == before.prg_rom)
        &&& (self.chr_is_ram == before.chr_is_ram)
        &&& (self.mirroring == before.mirroring)
        &&& (self.has_battery == before.has_battery)
    }

    /// Write a byte to the PPU-side CHR space; only CHR-RAM takes it.
    pub fn write_chr(&mut self, addr: u16, value: u8)
        requires
            old(self).wf(),
        ensures
            final(self).wf(),
            final(self).chr@ == old(self).chr_after_write(addr, value),
            final(self).prg_rom == old(self).prg_rom,
            final(self).chr_is_ram == old(self).chr_is_ram,
            final(self).mirroring == old(self).mirroring,
            final(self).has_battery == old(self).has_battery,
            final(self).write_chr_post(*old(self), addr, value),
    {
        if self.chr_is_ram {
            let idx: usize = (addr as usize) % self.chr.len();
            set_if_in(&mut self.chr, idx, value);
        }
    }

    /// Nametable mirroring advertised by the cartridge header.
    pub fn mirror_mode(&self) -> (m: Mirroring)
        ensures
            m == self.mirroring,
    {
        self.mirroring
    }

    /// The contract of [`Nrom::has_battery`] as a predicate.
    pub open spec fn has_battery_post(&self, b: bool) -> bool {
        &&& (b == self.has_battery)
    }

    /// Whether the cartridge has battery-backed PRG-RAM.
    pub fn has_battery(&self) -> (b: bool)
        ensures
            b == self.has_battery,
            self.has_battery_post(b),
    {
        self.has_battery
    }
}

/// CHR-RAM keeps what the PPU writes: a read at the written address gives
/// the written byte back.
pub proof fn law_nrom_chr_ram_read_after_write(m: Nrom, post: Nrom, addr: u16, value: u8)
    requires
        m.wf(),
        m.chr_is_ram,
        post.chr@ == m.chr_after_write(addr, value),
    ensures
        post.chr_byte(addr) == value,
{
}

/// CHR-ROM ignores PPU writes.
pub proof fn law_nrom_chr_rom_write_ignored(m: Nrom, post: Nrom, addr: u16, value: u8)
    requires
        !m.chr_is_ram,
        post.chr@ == m.chr_after_write(addr, value),
    ensures
        post.chr_byte(addr) == m.chr_byte(addr),
{
}


impl Nrom {
    /// Whether `o` holds the same state as `self`, byte for byte.
    pub open spec fn same_state(&self, o: &Nrom) -> bool {
        &&& o.prg_rom@ == self.prg_rom@
        &&& o.chr@ == self.chr@
        &&& o.chr_is_ram == self.chr_is_ram
        &&& o.mirroring == self.mirroring
        &&& o.has_battery == self.has_battery
    }

    /// The contract of [`Nrom::save_state`] as a predicate.
    pub open spec fn save_state_post(&self, s: MapperState) -> bool {
        &&& (s matches MapperState::Nrom(m) && self.same_state(&m))
    }

    /// Capture the mapper's whole state as a snapshot.
    pub fn save_state(&self) -> (s: MapperState)
        ensures
            s matches MapperState::Nrom(m) && self.same_state(&m),
            self.save_state_post(s),
    {
        MapperState::Nrom(Nrom {
            prg_rom: clone_bytes(&self.prg_rom),
            chr: clone_bytes(&self.chr),
            chr_is_ram: self.chr_is_ram,
            mirroring: self.mirroring,
            has_battery: self.has_battery,
        })
    }

    /// Restore the mapper's state from a snapshot of the same board type.
    pub fn restore_state(&mut self, state: MapperState)
        requires
            state is Nrom,
        ensures
            state matches MapperState::Nrom(m) && *final(self) == m,
    {
        match state {
            MapperState::Nrom(m) => {
                *self = m;
            },
            _ => {},
        }
    }
}

} // verus!
