//! Cartridge mappers: PRG/CHR routing and bank switching for each board.
//!
//! See: https://www.nesdev.org/wiki/Mapper

pub mod nrom;
pub mod uxrom;
pub mod cnrom;
pub mod axrom;
pub mod mmc1;
pub mod mmc2;
pub mod mmc3;
pub mod mmc5;
pub mod fme7;
pub mod vrc6;
pub mod fds_audio;
pub mod fds;
pub mod namco163;
pub mod opll;
pub mod vrc7;
pub mod ym2149;

use vstd::prelude::*;

verus! {

/// Nametable mirroring mode configured by the cartridge.
///
/// See: https://www.nesdev.org/wiki/Mirroring
#[derive(Debug, Clone, Copy, PartialEq, Eq, Structural)]
pub enum Mirroring {
    /// Horizontal mirroring — NT0/NT1 share the top half, NT2/NT3 the bottom.
    Horizontal,
    /// Vertical mirroring — NT0/NT2 share the left half, NT1/NT3 the right.
    Vertical,
    /// Four-screen VRAM — all four nametables are independently addressable.
    FourScreen,
    /// Single-screen mirroring — one nametable (0-3) is visible at all four slots.
    SingleScreen(u8),
}

/// Size of the CHR-RAM buffer allocated when a cartridge has no CHR-ROM.
pub const CHR_RAM_DEFAULT_SIZE: usize = 8192;

/// The CHR buffer a board starts with: the CHR-ROM as given, or 8 KB of
/// zeroed CHR-RAM when the cartridge has none.
pub open spec fn initial_chr(chr_rom: Seq<u8>) -> Seq<u8> {
    if chr_rom.len() == 0 {
        Seq::new(CHR_RAM_DEFAULT_SIZE as nat, |i: int| 0u8)
    } else {
        chr_rom
    }
}

/// Byte `idx` of `data`, or 0 when `idx` lies outside it.
pub open spec fn byte_or_zero(data: Seq<u8>, idx: int) -> u8 {
    if 0 <= idx < data.len() {
        data[idx]
    } else {
        0
    }
}

/// `data` with byte `idx` replaced by `value`; unchanged when `idx` lies outside it.
pub open spec fn store_if_in(data: Seq<u8>, idx: int, value: u8) -> Seq<u8> {
    if 0 <= idx < data.len() {
        data.update(idx, value)
    } else {
        data
    }
}

/// Build the CHR buffer for a new board: CHR-ROM when one is given, else 8 KB
/// of zeroed CHR-RAM. Returns the buffer and whether it is RAM.
pub fn make_chr(chr_rom: Vec<u8>) -> (res: (Vec<u8>, bool))
    ensures
        res.0@ == initial_chr(chr_rom@),
        res.1 == (chr_rom@.len() == 0),
{
    if chr_rom.len() == 0 {
        let v: Vec<u8> = zeroed(CHR_RAM_DEFAULT_SIZE);
        (v, true)
    } else {
        (chr_rom, false)
    }
}

/// A zero-filled byte buffer of length `n`.
pub fn zeroed(n: usize) -> (v: Vec<u8>)
    ensures
        v@ == Seq::new(n as nat, |i: int| 0u8),
{
    let mut v: Vec<u8> = Vec::with_capacity(n);
    let mut i: usize = 0;
    while i < n
        invariant
            i <= n,
            v@ == Seq::new(i as nat, |j: int| 0u8),
        decreases n - i,
    {
        v.push(0u8);
        i = i + 1;
        assert(v@ =~= Seq::new(i as nat, |j: int| 0u8));
    }
    v
}

/// Read byte `idx` of `data`, or 0 when out of range.
pub fn get_or_zero(data: &Vec<u8>, idx: usize) -> (b: u8)
    ensures
        b == byte_or_zero(data@, idx as int),
{
    if idx < data.len() {
        data[idx]
    } else {
        0
    }
}

/// Store `value` at byte `idx` of `data` when `idx` is in range.
pub fn set_if_in(data: &mut Vec<u8>, idx: usize, value: u8)
    ensures
        final(data)@ == store_if_in(old(data)@, idx as int, value),
{
    if idx < data.len() {
        data.set(idx, value);
    }
}

/// Number of whole banks of `size` bytes in `len` bytes, at least 1.
pub open spec fn bank_count(len: int, size: int) -> int {
    if len / size >= 1 {
        len / size
    } else {
        1
    }
}

/// Byte `offset` of bank `bank` (taken modulo the bank count) of `data`,
/// where banks are `size` bytes long; 0 when that lies outside `data`.
pub open spec fn bank_byte(data: Seq<u8>, size: int, bank: int, offset: int) -> u8 {
    byte_or_zero(data, (bank % bank_count(data.len() as int, size)) * size + offset)
}

/// Index of byte `offset` of bank `bank` (modulo the bank count).
pub open spec fn bank_index(len: int, size: int, bank: int, offset: int) -> int {
    (bank % bank_count(len, size)) * size + offset
}

proof fn lemma_bank_base_bound(len: int, size: int, bank: int)
    requires
        size > 0,
        bank >= 0,
        len >= 0,
    ensures
        0 <= bank % bank_count(len, size) < bank_count(len, size),
        0 <= (bank % bank_count(len, size)) * size <= len || (bank % bank_count(len, size)) * size == 0,
{
    let c = bank_count(len, size);
    assert(c >= 1);
    let r = bank % c;
    assert(0 <= r < c) by (nonlinear_arith)
        requires c >= 1, bank >= 0, r == bank % c;
    if len / size >= 1 {
        assert(c * size <= len) by (nonlinear_arith)
            requires c == len / size, size > 0, len >= 0;
        assert(0 <= r * size <= c * size) by (nonlinear_arith)
            requires 0 <= r < c, size > 0;
    } else {
        assert(r == 0);
        assert(r * size == 0) by (nonlinear_arith)
            requires r == 0;
    }
}

/// Number of whole `size`-byte banks in `len` bytes, at least 1.
pub fn count_banks(len: usize, size: usize) -> (c: usize)
    requires
        size > 0,
    ensures
        c == bank_count(len as int, size as int),
        c >= 1,
{
    let c: usize = len / size;
    if c >= 1 {
        c
    } else {
        1
    }
}

/// Start of bank `bank` (modulo the bank count) in a buffer of `len` bytes
/// split into `size`-byte banks; never past the end of the buffer.
fn bank_base(len: usize, size: usize, bank: usize) -> (base: usize)
    requires
        size > 0,
    ensures
        base == bank_index(len as int, size as int, bank as int, 0),
        base <= len || base == 0,
{
    proof {
        lemma_bank_base_bound(len as int, size as int, bank as int);
    }
    let c: usize = count_banks(len, size);
    let r: usize = bank % c;
    r * size
}

/// Index of byte `offset` of bank `bank` in a `len`-byte buffer of
/// `size`-byte banks; any index at or past the end is reported as `len`.
pub fn bank_offset_of(len: usize, size: usize, bank: usize, offset: usize) -> (idx: usize)
    requires
        size > 0,
    ensures
        bank_index(len as int, size as int, bank as int, offset as int) < len ==> idx == bank_index(
            len as int, size as int, bank as int, offset as int),
        bank_index(len as int, size as int, bank as int, offset as int) >= len ==> idx == len,
{
    let base: usize = bank_base(len, size, bank);
    if base > len || offset >= len - base {
        len
    } else {
        base + offset
    }
}

/// Read byte `offset` of bank `bank` of `data` (banks of `size` bytes);
/// 0 when that lies past the end of `data`.
pub fn read_bank(data: &Vec<u8>, size: usize, bank: usize, offset: usize) -> (b: u8)
    requires
        size > 0,
    ensures
        b == bank_byte(data@, size as int, bank as int, offset as int),
{
    let len: usize = data.len();
    let base: usize = bank_base(len, size, bank);
    if base > len || offset >= len - base {
        0
    } else {
        data[base + offset]
    }
}

/// Store `value` at byte `offset` of bank `bank` of `data` (banks of
/// `size` bytes); nothing changes when that lies past the end of `data`.
pub fn write_bank(data: &mut Vec<u8>, size: usize, bank: usize, offset: usize, value: u8)
    requires
        size > 0,
    ensures
        final(data)@ == store_if_in(old(data)@, bank_index(old(data)@.len() as int, size as int,
            bank as int, offset as int), value),
{
    let len: usize = data.len();
    let base: usize = bank_base(len, size, bank);
    if base > len || offset >= len - base {
        return;
    }
    data.set(base + offset, value);
}

/// `dst` with its first bytes replaced by those of `src` (as many as fit).
pub open spec fn overlay_prefix(dst: Seq<u8>, src: Seq<u8>) -> Seq<u8> {
    Seq::new(dst.len(), |i: int| if i < src.len() { src[i] } else { dst[i] })
}

/// A byte-for-byte copy of `data`.
pub fn clone_bytes(data: &Vec<u8>) -> (r: Vec<u8>)
    ensures
        r@ == data@,
{
    let mut r: Vec<u8> = Vec::with_capacity(data.len());
    let mut i: usize = 0;
    while i < data.len()
        invariant
            i <= data@.len(),
            r@ == data@.subrange(0, i as int),
        decreases data@.len() - i,
    {
        r.push(data[i]);
        i = i + 1;
        assert(r@ =~= data@.subrange(0, i as int));
    }
    assert(r@ =~= data@);
    r
}

/// Copy the first bytes of `src` over `dst`, as many as fit in both.
pub fn copy_prefix(dst: &mut Vec<u8>, src: &[u8])
    ensures
        final(dst)@ == overlay_prefix(old(dst)@, src@),
{
    let n: usize = if dst.len() < src.len() { dst.len() } else { src.len() };
    let mut i: usize = 0;
    while i < n
        invariant
            n <= dst@.len(),
            n <= src@.len(),
            i <= n,
            dst@.len() == old(dst)@.len(),
            forall|k: int| 0 <= k < i ==> dst@[k] == src@[k],
            forall|k: int| i <= k < dst@.len() ==> dst@[k] == old(dst)@[k],
        decreases n - i,
    {
        dst.set(i, src[i]);
        i = i + 1;
    }
    assert(dst@ =~= overlay_prefix(old(dst)@, src@));
}


/// A snapshot of one cartridge mapper's complete state, tagged by board.
pub enum MapperState {
    /// Mapper 0 — NROM.
    Nrom(nrom::Nrom),
    /// Mapper 1 — MMC1.
    Mmc1(mmc1::Mmc1),
    /// Mapper 2 — UxROM.
    Uxrom(uxrom::Uxrom),
    /// Mapper 3 — CNROM.
    Cnrom(cnrom::Cnrom),
    /// Mapper 4 — MMC3.
    Mmc3(mmc3::Mmc3),
    /// Mapper 7 — AxROM.
    Axrom(axrom::Axrom),
    /// Mapper 5 — MMC5.
    Mmc5(mmc5::Mmc5),
    /// Mapper 9 — MMC2.
    Mmc2(mmc2::Mmc2),
    /// Mappers 24 / 26 — VRC6.
    Vrc6(vrc6::Vrc6),
    /// Mapper 69 — FME-7.
    Fme7(fme7::Fme7),
    /// Mapper 20 — Famicom Disk System.
    Fds(fds::Fds),
    /// Mapper 19 — Namco 163.
    Namco163(namco163::Namco163),
    /// Mapper 85 — VRC7.
    Vrc7(vrc7::Vrc7),
}

/// Why a cartridge could not be set up.
#[derive(Debug, Clone, Copy, PartialEq, Eq, Structural)]
pub enum CartridgeError {
    /// The iNES header names a mapper number this emulator does not implement.
    UnsupportedMapper(u16),
}

/// The mapper numbers `from_ines` builds a board for.
pub open spec fn supported_mapper(n: u16) -> bool {
    n == 0 || n == 1 || n == 2 || n == 3 || n == 4 || n == 5 || n == 7 || n == 9 || n == 24 || n == 26
        || n == 69 || n == 85 || n == 19
}

/// Construct the mapper for iNES mapper number `mapper_number`, freshly
/// initialised from the cartridge contents; any other number is refused.
pub fn from_ines(mapper_number: u16, prg_rom: Vec<u8>, chr_rom: Vec<u8>, mirroring: Mirroring, has_battery: bool) -> (r: Result<MapperState, CartridgeError>)
    ensures
        !supported_mapper(mapper_number) <==> r == Err::<MapperState, CartridgeError>(
            CartridgeError::UnsupportedMapper(mapper_number)),
        mapper_number == 0 ==> (r matches Ok(MapperState::Nrom(m)) && m.fresh(prg_rom@, chr_rom@, mirroring, has_battery)),
        mapper_number == 1 ==> (r matches Ok(MapperState::Mmc1(m)) && m.fresh(prg_rom@, chr_rom@, mirroring, has_battery)),
        mapper_number == 2 ==> (r matches Ok(MapperState::Uxrom(m)) && m.fresh(prg_rom@, chr_rom@, mirroring, has_battery)),
        mapper_number == 3 ==> (r matches Ok(MapperState::Cnrom(m)) && m.fresh(prg_rom@, chr_rom@, mirroring, has_battery)),
        mapper_number == 4 ==> (r matches Ok(MapperState::Mmc3(m)) && m.fresh(prg_rom@, chr_rom@, mirroring, has_battery)),
        mapper_number == 5 ==> (r matches Ok(MapperState::Mmc5(m)) && m.fresh(prg_rom@, chr_rom@, mirroring, has_battery)),
        mapper_number == 7 ==> (r matches Ok(MapperState::Axrom(m)) && m.fresh(prg_rom@, chr_rom@, mirroring, has_battery)),
        mapper_number == 9 ==> (r matches Ok(MapperState::Mmc2(m)) && m.fresh(prg_rom@, chr_rom@, mirroring, has_battery)),
        mapper_number == 24 ==> (r matches Ok(MapperState::Vrc6(m)) && m.fresh(prg_rom@, chr_rom@, mirroring, has_battery, false)),
        mapper_number == 26 ==> (r matches Ok(MapperState::Vrc6(m)) && m.fresh(prg_rom@, chr_rom@, mirroring, has_battery, true)),
        mapper_number == 69 ==> (r matches Ok(MapperState::Fme7(m)) && m.fresh(prg_rom@, chr_rom@, mirroring, has_battery)),
        mapper_number == 85 ==> (r matches Ok(MapperState::Vrc7(m)) && m.fresh(prg_rom@, chr_rom@, mirroring, has_battery)),
        mapper_number == 19 ==> (r matches Ok(MapperState::Namco163(m)) && m.fresh(prg_rom@, chr_rom@, mirroring, has_battery)),
{
    if mapper_number == 0 {
        Ok(MapperState::Nrom(nrom::Nrom::new(prg_rom, chr_rom, mirroring, has_battery)))
    } else if mapper_number == 1 {
        Ok(MapperState::Mmc1(mmc1::Mmc1::new(prg_rom, chr_rom, mirroring, has_battery)))
    } else if mapper_number == 2 {
        Ok(MapperState::Uxrom(uxrom::Uxrom::new(prg_rom, chr_rom, mirroring, has_battery)))
    } else if mapper_number == 3 {
        Ok(MapperState::Cnrom(cnrom::Cnrom::new(prg_rom, chr_rom, mirroring, has_battery)))
    } else if mapper_number == 4 {
        Ok(MapperState::Mmc3(mmc3::Mmc3::new(prg_rom, chr_rom, mirroring, has_battery)))
    } else if mapper_number == 7 {
        Ok(MapperState::Axrom(axrom::Axrom::new(prg_rom, chr_rom, mirroring, has_battery)))
    } else if mapper_number == 5 {
        Ok(MapperState::Mmc5(mmc5::Mmc5::new(prg_rom, chr_rom, mirroring, has_battery)))
    } else if mapper_number == 9 {
        Ok(MapperState::Mmc2(mmc2::Mmc2::new(prg_rom, chr_rom, mirroring, has_battery)))
    } else if mapper_number == 24 {
        Ok(MapperState::Vrc6(vrc6::Vrc6::new(prg_rom, chr_rom, mirroring, has_battery, false)))
    } else if mapper_number == 26 {
        Ok(MapperState::Vrc6(vrc6::Vrc6::new(prg_rom, chr_rom, mirroring, has_battery, true)))
    } else if mapper_number == 69 {
        Ok(MapperState::Fme7(fme7::Fme7::new(prg_rom, chr_rom, mirroring, has_battery)))
    } else if mapper_number == 85 {
        Ok(MapperState::Vrc7(vrc7::Vrc7::new(prg_rom, chr_rom, mirroring, has_battery)))
    } else if mapper_number == 19 {
        Ok(MapperState::Namco163(namco163::Namco163::new(prg_rom, chr_rom, mirroring, has_battery)))
    } else {
        Err(CartridgeError::UnsupportedMapper(mapper_number))
    }
}

} // verus!

verus! {

impl MapperState {
    /// The byte the CPU sees at `addr` (`$6000-$FFFF`) on this board.
    pub open spec fn prg_byte(&self, addr: u16) -> u8 {
        match self {
            MapperState::Nrom(m) => m.prg_byte(addr),
            MapperState::Mmc1(m) => m.prg_byte(addr),
            MapperState::Uxrom(m) => m.prg_byte(addr),
            MapperState::Cnrom(m) => m.prg_byte(addr),
            MapperState::Mmc3(m) => m.prg_byte(addr),
            MapperState::Axrom(m) => m.prg_byte(addr),
            MapperState::Mmc5(m) => m.prg_byte(addr),
            MapperState::Mmc2(m) => m.prg_byte(addr),
            MapperState::Vrc6(m) => m.prg_byte(addr),
            MapperState::Fme7(m) => m.prg_byte(addr),
            MapperState::Fds(m) => m.prg_byte(addr),
            MapperState::Namco163(m) => m.prg_byte(addr),
            MapperState::Vrc7(m) => m.prg_byte(addr),
        }
    }

    /// The byte the PPU sees at pattern address `addr` (`$0000-$1FFF`).
    pub open spec fn chr_byte(&self, addr: u16) -> u8 {
        match self {
            MapperState::Nrom(m) => m.chr_byte(addr),
            MapperState::Mmc1(m) => m.chr_byte(addr),
            MapperState::Uxrom(m) => m.chr_byte(addr),
            MapperState::Cnrom(m) => m.chr_byte(addr),
            MapperState::Mmc3(m) => m.chr_byte(addr),
            MapperState::Axrom(m) => m.chr_byte(addr),
            MapperState::Mmc5(m) => m.chr_byte(addr),
            MapperState::Mmc2(m) => m.chr_byte(addr),
            MapperState::Vrc6(m) => m.chr_byte(addr),
            MapperState::Fme7(m) => m.chr_byte(addr),
            MapperState::Fds(m) => m.chr_ram@[(addr % 8192) as int],
            MapperState::Namco163(m) => m.chr_byte(addr),
            MapperState::Vrc7(m) => m.chr_byte(addr),
        }
    }

    /// The nametable mirroring this board selects.
    pub open spec fn mirroring(&self) -> Mirroring {
        match self {
            MapperState::Nrom(m) => m.mirroring,
            MapperState::Mmc1(m) => if m.control & 0b11 == 0 {
                Mirroring::SingleScreen(0)
            } else if m.control & 0b11 == 1 {
                Mirroring::SingleScreen(1)
            } else if m.control & 0b11 == 2 {
                Mirroring::Vertical
            } else {
                Mirroring::Horizontal
            },
            MapperState::Uxrom(m) => m.mirroring,
            MapperState::Cnrom(m) => m.mirroring,
            MapperState::Mmc3(m) => m.mirroring,
            MapperState::Axrom(m) => Mirroring::SingleScreen(m.mirror_nt),
            MapperState::Mmc5(m) => mmc5::mmc5_decode(m.nt_mirroring),
            MapperState::Mmc2(m) => m.mirroring,
            MapperState::Vrc6(m) => if m.mirror_horizontal { Mirroring::Horizontal } else { Mirroring::Vertical },
            MapperState::Fme7(m) => if m.mirror_horizontal { Mirroring::Horizontal } else { Mirroring::Vertical },
            MapperState::Fds(m) => if m.mirror_horizontal { Mirroring::Horizontal } else { Mirroring::Vertical },
            MapperState::Namco163(m) => m.mirror,
            MapperState::Vrc7(m) => if m.mirror_horizontal { Mirroring::Horizontal } else { Mirroring::Vertical },
        }
    }

    /// Side-effect-free CPU read of `addr` (`$6000-$FFFF`) on whichever
    /// board this is.
    pub fn read_prg(&self, addr: u16) -> (b: u8)
        requires
            addr >= 0x6000,
        ensures
            b == self.prg_byte(addr),
    {
        match self {
            MapperState::Nrom(m) => m.read_prg(addr),
            MapperState::Mmc1(m) => m.read_prg(addr),
            MapperState::Uxrom(m) => m.read_prg(addr),
            MapperState::Cnrom(m) => m.read_prg(addr),
            MapperState::Mmc3(m) => m.read_prg(addr),
            MapperState::Axrom(m) => m.read_prg(addr),
            MapperState::Mmc5(m) => m.read_prg(addr),
            MapperState::Mmc2(m) => m.read_prg(addr),
            MapperState::Vrc6(m) => m.read_prg(addr),
            MapperState::Fme7(m) => m.read_prg(addr),
            MapperState::Fds(m) => m.read_prg(addr),
            MapperState::Namco163(m) => m.read_prg(addr),
            MapperState::Vrc7(m) => m.read_prg(addr),
        }
    }

    /// PPU read of pattern address `addr` (`$0000-$1FFF`) on whichever
    /// board this is.
    pub fn read_chr(&self, addr: u16) -> (b: u8)
        requires
            addr < 0x2000,
        ensures
            b == self.chr_byte(addr),
    {
        match self {
            MapperState::Nrom(m) => m.read_chr(addr),
            MapperState::Mmc1(m) => m.read_chr(addr),
            MapperState::Uxrom(m) => m.read_chr(addr),
            MapperState::Cnrom(m) => m.read_chr(addr),
            MapperState::Mmc3(m) => m.read_chr(addr),
            MapperState::Axrom(m) => m.read_chr(addr),
            MapperState::Mmc5(m) => m.read_chr(addr),
            MapperState::Mmc2(m) => m.read_chr(addr),
            MapperState::Vrc6(m) => m.read_chr(addr),
            MapperState::Fme7(m) => m.read_chr(addr),
            MapperState::Fds(m) => m.read_chr(addr),
            MapperState::Namco163(m) => m.read_chr(addr),
            MapperState::Vrc7(m) => m.read_chr(addr),
        }
    }

    /// The nametable mirroring of whichever board this is.
    pub fn mirror_mode(&self) -> (r: Mirroring)
        ensures
            r == self.mirroring(),
    {
        match self {
            MapperState::Nrom(m) => m.mirror_mode(),
            MapperState::Mmc1(m) => m.mirror_mode(),
            MapperState::Uxrom(m) => m.mirror_mode(),
            MapperState::Cnrom(m) => m.mirror_mode(),
            MapperState::Mmc3(m) => m.mirror_mode(),
            MapperState::Axrom(m) => m.mirror_mode(),
            MapperState::Mmc5(m) => m.mirror_mode(),
            MapperState::Mmc2(m) => m.mirror_mode(),
            MapperState::Vrc6(m) => m.mirror_mode(),
            MapperState::Fme7(m) => m.mirror_mode(),
            MapperState::Fds(m) => m.mirror_mode(),
            MapperState::Namco163(m) => m.mirror_mode(),
            MapperState::Vrc7(m) => m.mirror_mode(),
        }
    }
}

} // verus!

verus! {

impl MapperState {
    /// The boards' own validity: each board that has a well-formedness
    /// predicate satisfies it.
    pub open spec fn wf(&self) -> bool {
        match self {
            MapperState::Nrom(m) => m.wf(),
            MapperState::Mmc1(m) => m.wf(),
            MapperState::Uxrom(m) => m.wf(),
            MapperState::Axrom(m) => m.wf(),
            MapperState::Namco163(m) => m.wf(),
            MapperState::Vrc7(m) => m.wf(),
            _ => true,
        }
    }

    /// CPU write to `addr` on whichever board this is (`$6000-$FFFF`, and the
    /// registers below `$6000` of the boards that have them); the board's own contract says what it does.
    pub fn write_prg(&mut self, addr: u16, value: u8)
        requires
            old(self).wf(),
            (match *old(self) {
                MapperState::Mmc1(_) | MapperState::Mmc3(_) | MapperState::Mmc2(_) | MapperState::Vrc6(_) | MapperState::Fme7(
                    _,
                ) => addr >= 0x6000,
                _ => true,
            }),
        ensures
            final(self).wf(),
            (match *old(self) {
            MapperState::Nrom(a) => *final(self) matches MapperState::Nrom(m) && m.write_prg_post(a, addr, value),
            MapperState::Mmc1(a) => *final(self) matches MapperState::Mmc1(m) && m.write_prg_post(a, addr, value),
            MapperState::Uxrom(a) => *final(self) matches MapperState::Uxrom(m) && m.write_prg_post(a, addr, value),
            MapperState::Cnrom(a) => *final(self) matches MapperState::Cnrom(m) && m.write_prg_post(a, addr, value),
            MapperState::Mmc3(a) => *final(self) matches MapperState::Mmc3(m) && m.write_prg_post(a, addr, value),
            MapperState::Axrom(a) => *final(self) matches MapperState::Axrom(m) && m.write_prg_post(a, addr, value),
            MapperState::Mmc5(a) => *final(self) matches MapperState::Mmc5(m) && m.write_prg_post(a, addr, value),
            MapperState::Mmc2(a) => *final(self) matches MapperState::Mmc2(m) && m.write_prg_post(a, addr, value),
            MapperState::Vrc6(a) => *final(self) matches MapperState::Vrc6(m) && m.write_prg_post(a, addr, value),
            MapperState::Fme7(a) => *final(self) matches MapperState::Fme7(m) && m.write_prg_post(a, addr, value),
            MapperState::Fds(a) => *final(self) matches MapperState::Fds(m) && m.write_prg_post(a, addr, value),
            MapperState::Namco163(a) => *final(self) matches MapperState::Namco163(m) && m.write_prg_post(a, addr, value),
            MapperState::Vrc7(a) => *final(self) matches MapperState::Vrc7(m) && m.write_prg_post(a, addr, value),
            }),
    {
        match self {
            MapperState::Nrom(m) => m.write_prg(addr, value),
            MapperState::Mmc1(m) => m.write_prg(addr, value),
            MapperState::Uxrom(m) => m.write_prg(addr, value),
            MapperState::Cnrom(m) => m.write_prg(addr, value),
            MapperState::Mmc3(m) => m.write_prg(addr, value),
            MapperState::Axrom(m) => m.write_prg(addr, value),
            MapperState::Mmc5(m) => m.write_prg(addr, value),
            MapperState::Mmc2(m) => m.write_prg(addr, value),
            MapperState::Vrc6(m) => m.write_prg(addr, value),
            MapperState::Fme7(m) => m.write_prg(addr, value),
            MapperState::Fds(m) => m.write_prg(addr, value),
            MapperState::Namco163(m) => m.write_prg(addr, value),
            MapperState::Vrc7(m) => m.write_prg(addr, value),
        }
    }

    /// PPU write to pattern address `addr` on whichever board this is.
    pub fn write_chr(&mut self, addr: u16, value: u8)
        requires
            old(self).wf(),
            addr < 0x2000,
        ensures
            final(self).wf(),
            (match *old(self) {
            MapperState::Nrom(a) => *final(self) matches MapperState::Nrom(m) && m.write_chr_post(a, addr, value),
            MapperState::Mmc1(a) => *final(self) matches MapperState::Mmc1(m) && m.write_chr_post(a, addr, value),
            MapperState::Uxrom(a) => *final(self) matches MapperState::Uxrom(m) && m.write_chr_post(a, addr, value),
            MapperState::Cnrom(a) => *final(self) matches MapperState::Cnrom(m) && m.write_chr_post(a, addr, value),
            MapperState::Mmc3(a) => *final(self) matches MapperState::Mmc3(m) && m.write_chr_post(a, addr, value),
            MapperState::Axrom(a) => *final(self) matches MapperState::Axrom(m) && m.write_chr_post(a, addr, value),
            MapperState::Mmc5(a) => *final(self) matches MapperState::Mmc5(m) && m.write_chr_post(a, addr, value),
            MapperState::Mmc2(a) => *final(self) matches MapperState::Mmc2(m) && m.write_chr_post(a, addr, value),
            MapperState::Vrc6(a) => *final(self) matches MapperState::Vrc6(m) && m.write_chr_post(a, addr, value),
            MapperState::Fme7(a) => *final(self) matches MapperState::Fme7(m) && m.write_chr_post(a, addr, value),
            MapperState::Fds(a) => *final(self) matches MapperState::Fds(m) && m.write_chr_post(a, addr, value),
            MapperState::Namco163(a) => *final(self) matches MapperState::Namco163(m) && m.write_chr_post(a, addr, value),
            MapperState::Vrc7(a) => *final(self) matches MapperState::Vrc7(m) && m.write_chr_post(a, addr, value),
            }),
    {
        match self {
            MapperState::Nrom(m) => m.write_chr(addr, value),
            MapperState::Mmc1(m) => m.write_chr(addr, value),
            MapperState::Uxrom(m) => m.write_chr(addr, value),
            MapperState::Cnrom(m) => m.write_chr(addr, value),
            MapperState::Mmc3(m) => m.write_chr(addr, value),
            MapperState::Axrom(m) => m.write_chr(addr, value),
            MapperState::Mmc5(m) => m.write_chr(addr, value),
            MapperState::Mmc2(m) => m.write_chr(addr, value),
            MapperState::Vrc6(m) => m.write_chr(addr, value),
            MapperState::Fme7(m) => m.write_chr(addr, value),
            MapperState::Fds(m) => m.write_chr(addr, value),
            MapperState::Namco163(m) => m.write_chr(addr, value),
            MapperState::Vrc7(m) => m.write_chr(addr, value),
        }
    }

    /// CPU read with side effects: the FDS disk and audio registers; any other board reads as [`MapperState::read_prg`].
    pub fn read_prg_mut(&mut self, addr: u16) -> (b: u8)
        requires
            old(self).wf(),
            !(*old(self) is Fds) ==> addr >= 0x6000,
        ensures
            final(self).wf(),
            (match *old(self) {
            MapperState::Nrom(a) => b == old(self).prg_byte(addr) && *final(self) == *old(self),
            MapperState::Mmc1(a) => b == old(self).prg_byte(addr) && *final(self) == *old(self),
            MapperState::Uxrom(a) => b == old(self).prg_byte(addr) && *final(self) == *old(self),
            MapperState::Cnrom(a) => b == old(self).prg_byte(addr) && *final(self) == *old(self),
            MapperState::Mmc3(a) => b == old(self).prg_byte(addr) && *final(self) == *old(self),
            MapperState::Axrom(a) => b == old(self).prg_byte(addr) && *final(self) == *old(self),
            MapperState::Mmc5(a) => b == old(self).prg_byte(addr) && *final(self) == *old(self),
            MapperState::Mmc2(a) => b == old(self).prg_byte(addr) && *final(self) == *old(self),
            MapperState::Vrc6(a) => b == old(self).prg_byte(addr) && *final(self) == *old(self),
            MapperState::Fme7(a) => b == old(self).prg_byte(addr) && *final(self) == *old(self),
            MapperState::Fds(a) => *final(self) matches MapperState::Fds(m) && m.read_prg_mut_post(a, addr, b),
            MapperState::Namco163(a) => b == old(self).prg_byte(addr) && *final(self) == *old(self),
            MapperState::Vrc7(a) => b == old(self).prg_byte(addr) && *final(self) == *old(self),
            }),
    {
        match self {
            MapperState::Nrom(m) => m.read_prg(addr),
            MapperState::Mmc1(m) => m.read_prg(addr),
            MapperState::Uxrom(m) => m.read_prg(addr),
            MapperState::Cnrom(m) => m.read_prg(addr),
            MapperState::Mmc3(m) => m.read_prg(addr),
            MapperState::Axrom(m) => m.read_prg(addr),
            MapperState::Mmc5(m) => m.read_prg(addr),
            MapperState::Mmc2(m) => m.read_prg(addr),
            MapperState::Vrc6(m) => m.read_prg(addr),
            MapperState::Fme7(m) => m.read_prg(addr),
            MapperState::Fds(m) => m.read_prg_mut(addr),
            MapperState::Namco163(m) => m.read_prg(addr),
            MapperState::Vrc7(m) => m.read_prg(addr),
        }
    }

    /// PPU read that switches the MMC2 latches on their trigger tiles; any other board reads as [`MapperState::read_chr`].
    pub fn read_chr_latched(&mut self, addr: u16) -> (b: u8)
        requires
            old(self).wf(),
            addr < 0x2000,
        ensures
            final(self).wf(),
            (match *old(self) {
            MapperState::Nrom(a) => b == old(self).chr_byte(addr) && *final(self) == *old(self),
            MapperState::Mmc1(a) => b == old(self).chr_byte(addr) && *final(self) == *old(self),
            MapperState::Uxrom(a) => b == old(self).chr_byte(addr) && *final(self) == *old(self),
            MapperState::Cnrom(a) => b == old(self).chr_byte(addr) && *final(self) == *old(self),
            MapperState::Mmc3(a) => b == old(self).chr_byte(addr) && *final(self) == *old(self),
            MapperState::Axrom(a) => b == old(self).chr_byte(addr) && *final(self) == *old(self),
            MapperState::Mmc5(a) => b == old(self).chr_byte(addr) && *final(self) == *old(self),
            MapperState::Mmc2(a) => *final(self) matches MapperState::Mmc2(m) && m.read_chr_latched_post(a, addr, b),
            MapperState::Vrc6(a) => b == old(self).chr_byte(addr) && *final(self) == *old(self),
            MapperState::Fme7(a) => b == old(self).chr_byte(addr) && *final(self) == *old(self),
            MapperState::Fds(a) => b == old(self).chr_byte(addr) && *final(self) == *old(self),
            MapperState::Namco163(a) => b == old(self).chr_byte(addr) && *final(self) == *old(self),
            MapperState::Vrc7(a) => b == old(self).chr_byte(addr) && *final(self) == *old(self),
            }),
    {
        match self {
            MapperState::Nrom(m) => m.read_chr(addr),
            MapperState::Mmc1(m) => m.read_chr(addr),
            MapperState::Uxrom(m) => m.read_chr(addr),
            MapperState::Cnrom(m) => m.read_chr(addr),
            MapperState::Mmc3(m) => m.read_chr(addr),
            MapperState::Axrom(m) => m.read_chr(addr),
            MapperState::Mmc5(m) => m.read_chr(addr),
            MapperState::Mmc2(m) => m.read_chr_latched(addr),
            MapperState::Vrc6(m) => m.read_chr(addr),
            MapperState::Fme7(m) => m.read_chr(addr),
            MapperState::Fds(m) => m.read_chr(addr),
            MapperState::Namco163(m) => m.read_chr(addr),
            MapperState::Vrc7(m) => m.read_chr(addr),
        }
    }

    /// Clock the scanline IRQ counter (MMC3, MMC5); other boards ignore it.
    pub fn clock_irq(&mut self)
        requires
            old(self).wf(),
        ensures
            final(self).wf(),
            (match *old(self) {
            MapperState::Nrom(a) => *final(self) == *old(self),
            MapperState::Mmc1(a) => *final(self) == *old(self),
            MapperState::Uxrom(a) => *final(self) == *old(self),
            MapperState::Cnrom(a) => *final(self) == *old(self),
            MapperState::Mmc3(a) => *final(self) matches MapperState::Mmc3(m) && m.clock_irq_post(a),
            MapperState::Axrom(a) => *final(self) == *old(self),
            MapperState::Mmc5(a) => *final(self) matches MapperState::Mmc5(m) && m.clock_irq_post(a),
            MapperState::Mmc2(a) => *final(self) == *old(self),
            MapperState::Vrc6(a) => *final(self) == *old(self),
            MapperState::Fme7(a) => *final(self) == *old(self),
            MapperState::Fds(a) => *final(self) == *old(self),
            MapperState::Namco163(a) => *final(self) == *old(self),
            MapperState::Vrc7(a) => *final(self) == *old(self),
            }),
    {
        match self {
            MapperState::Nrom(m) => {},
            MapperState::Mmc1(m) => {},
            MapperState::Uxrom(m) => {},
            MapperState::Cnrom(m) => {},
            MapperState::Mmc3(m) => m.clock_irq(),
            MapperState::Axrom(m) => {},
            MapperState::Mmc5(m) => m.clock_irq(),
            MapperState::Mmc2(m) => {},
            MapperState::Vrc6(m) => {},
            MapperState::Fme7(m) => {},
            MapperState::Fds(m) => {},
            MapperState::Namco163(m) => {},
            MapperState::Vrc7(m) => {},
        }
    }

    /// Reset the per-frame scanline counter (MMC5); other boards ignore it.
    pub fn reset_scanline_counter(&mut self)
        requires
            old(self).wf(),
        ensures
            final(self).wf(),
            (match *old(self) {
            MapperState::Nrom(a) => *final(self) == *old(self),
            MapperState::Mmc1(a) => *final(self) == *old(self),
            MapperState::Uxrom(a) => *final(self) == *old(self),
            MapperState::Cnrom(a) => *final(self) == *old(self),
            MapperState::Mmc3(a) => *final(self) == *old(self),
            MapperState::Axrom(a) => *final(self) == *old(self),
            MapperState::Mmc5(a) => *final(self) matches MapperState::Mmc5(m) && m.reset_scanline_counter_post(a),
            MapperState::Mmc2(a) => *final(self) == *old(self),
            MapperState::Vrc6(a) => *final(self) == *old(self),
            MapperState::Fme7(a) => *final(self) == *old(self),
            MapperState::Fds(a) => *final(self) == *old(self),
            MapperState::Namco163(a) => *final(self) == *old(self),
            MapperState::Vrc7(a) => *final(self) == *old(self),
            }),
    {
        match self {
            MapperState::Nrom(m) => {},
            MapperState::Mmc1(m) => {},
            MapperState::Uxrom(m) => {},
            MapperState::Cnrom(m) => {},
            MapperState::Mmc3(m) => {},
            MapperState::Axrom(m) => {},
            MapperState::Mmc5(m) => m.reset_scanline_counter(),
            MapperState::Mmc2(m) => {},
            MapperState::Vrc6(m) => {},
            MapperState::Fme7(m) => {},
            MapperState::Fds(m) => {},
            MapperState::Namco163(m) => {},
            MapperState::Vrc7(m) => {},
        }
    }

    /// Advance the CPU-clocked logic (IRQ timers, expansion audio) by `cpu_cycles`; boards without any ignore it.
    pub fn clock_cpu(&mut self, cpu_cycles: u32)
        requires
            old(self).wf(),
        ensures
            final(self).wf(),
            (match *old(self) {
            MapperState::Nrom(a) => *final(self) == *old(self),
            MapperState::Mmc1(a) => *final(self) == *old(self),
            MapperState::Uxrom(a) => *final(self) == *old(self),
            MapperState::Cnrom(a) => *final(self) == *old(self),
            MapperState::Mmc3(a) => *final(self) == *old(self),
            MapperState::Axrom(a) => *final(self) == *old(self),
            MapperState::Mmc5(a) => *final(self) == *old(self),
            MapperState::Mmc2(a) => *final(self) == *old(self),
            MapperState::Vrc6(a) => *final(self) matches MapperState::Vrc6(m) && m.clock_cpu_post(a, cpu_cycles),
            MapperState::Fme7(a) => *final(self) matches MapperState::Fme7(m) && m.clock_cpu_post(a, cpu_cycles),
            MapperState::Fds(a) => *final(self) matches MapperState::Fds(m) && m.clock_cpu_post(a, cpu_cycles),
            MapperState::Namco163(a) => *final(self) matches MapperState::Namco163(m) && m.clock_cpu_post(a, cpu_cycles),
            MapperState::Vrc7(a) => *final(self) matches MapperState::Vrc7(m) && m.clock_cpu_post(a, cpu_cycles),
            }),
    {
        match self {
            MapperState::Nrom(m) => {},
            MapperState::Mmc1(m) => {},
            MapperState::Uxrom(m) => {},
            MapperState::Cnrom(m) => {},
            MapperState::Mmc3(m) => {},
            MapperState::Axrom(m) => {},
            MapperState::Mmc5(m) => {},
            MapperState::Mmc2(m) => {},
            MapperState::Vrc6(m) => m.clock_cpu(cpu_cycles),
            MapperState::Fme7(m) => m.clock_cpu(cpu_cycles),
            MapperState::Fds(m) => m.clock_cpu(cpu_cycles),
            MapperState::Namco163(m) => m.clock_cpu(cpu_cycles),
            MapperState::Vrc7(m) => m.clock_cpu(cpu_cycles),
        }
    }

    /// Load battery-backed PRG-RAM from `data` on boards that keep it; others ignore it.
    pub fn load_battery_sram(&mut self, data: &[u8])
        requires
            old(self).wf(),
        ensures
            final(self).wf(),
            (match *old(self) {
            MapperState::Nrom(a) => *final(self) == *old(self),
            MapperState::Mmc1(a) => *final(self) matches MapperState::Mmc1(m) && m.load_battery_sram_post(a, data),
            MapperState::Uxrom(a) => *final(self) == *old(self),
            MapperState::Cnrom(a) => *final(self) == *old(self),
            MapperState::Mmc3(a) => *final(self) == *old(self),
            MapperState::Axrom(a) => *final(self) == *old(self),
            MapperState::Mmc5(a) => *final(self) matches MapperState::Mmc5(m) && m.load_battery_sram_post(a, data),
            MapperState::Mmc2(a) => *final(self) matches MapperState::Mmc2(m) && m.load_battery_sram_post(a, data),
            MapperState::Vrc6(a) => *final(self) matches MapperState::Vrc6(m) && m.load_battery_sram_post(a, data),
            MapperState::Fme7(a) => *final(self) matches MapperState::Fme7(m) && m.load_battery_sram_post(a, data),
            MapperState::Fds(a) => *final(self) == *old(self),
            MapperState::Namco163(a) => *final(self) matches MapperState::Namco163(m) && m.load_battery_sram_post(a, data),
            MapperState::Vrc7(a) => *final(self) matches MapperState::Vrc7(m) && m.load_battery_sram_post(a, data),
            }),
    {
        match self {
            MapperState::Nrom(m) => {},
            MapperState::Mmc1(m) => m.load_battery_sram(data),
            MapperState::Uxrom(m) => {},
            MapperState::Cnrom(m) => {},
            MapperState::Mmc3(m) => {},
            MapperState::Axrom(m) => {},
            MapperState::Mmc5(m) => m.load_battery_sram(data),
            MapperState::Mmc2(m) => m.load_battery_sram(data),
            MapperState::Vrc6(m) => m.load_battery_sram(data),
            MapperState::Fme7(m) => m.load_battery_sram(data),
            MapperState::Fds(m) => {},
            MapperState::Namco163(m) => m.load_battery_sram(data),
            MapperState::Vrc7(m) => m.load_battery_sram(data),
        }
    }

    /// Whether the board asserts its IRQ line (never, on boards without one).
    pub fn irq_pending(&self) -> (b: bool)
        ensures
            (match *self {
            MapperState::Nrom(a) => b == false,
            MapperState::Mmc1(a) => b == false,
            MapperState::Uxrom(a) => b == false,
            MapperState::Cnrom(a) => b == false,
            MapperState::Mmc3(a) => a.irq_pending_post(b),
            MapperState::Axrom(a) => b == false,
            MapperState::Mmc5(a) => a.irq_pending_post(b),
            MapperState::Mmc2(a) => b == false,
            MapperState::Vrc6(a) => a.irq_pending_post(b),
            MapperState::Fme7(a) => a.irq_pending_post(b),
            MapperState::Fds(a) => a.irq_pending_post(b),
            MapperState::Namco163(a) => a.irq_pending_post(b),
            MapperState::Vrc7(a) => a.irq_pending_post(b),
            }),
    {
        match self {
            MapperState::Nrom(m) => false,
            MapperState::Mmc1(m) => false,
            MapperState::Uxrom(m) => false,
            MapperState::Cnrom(m) => false,
            MapperState::Mmc3(m) => m.irq_pending(),
            MapperState::Axrom(m) => false,
            MapperState::Mmc5(m) => m.irq_pending(),
            MapperState::Mmc2(m) => false,
            MapperState::Vrc6(m) => m.irq_pending(),
            MapperState::Fme7(m) => m.irq_pending(),
            MapperState::Fds(m) => m.irq_pending(),
            MapperState::Namco163(m) => m.irq_pending(),
            MapperState::Vrc7(m) => m.irq_pending(),
        }
    }

    /// Whether the board keeps battery-backed PRG-RAM (never, for the FDS).
    pub fn has_battery(&self) -> (b: bool)
        ensures
            (match *self {
            MapperState::Nrom(a) => a.has_battery_post(b),
            MapperState::Mmc1(a) => a.has_battery_post(b),
            MapperState::Uxrom(a) => a.has_battery_post(b),
            MapperState::Cnrom(a) => a.has_battery_post(b),
            MapperState::Mmc3(a) => a.has_battery_post(b),
            MapperState::Axrom(a) => a.has_battery_post(b),
            MapperState::Mmc5(a) => a.has_battery_post(b),
            MapperState::Mmc2(a) => a.has_battery_post(b),
            MapperState::Vrc6(a) => a.has_battery_post(b),
            MapperState::Fme7(a) => a.has_battery_post(b),
            MapperState::Fds(a) => b == false,
            MapperState::Namco163(a) => a.has_battery_post(b),
            MapperState::Vrc7(a) => a.has_battery_post(b),
            }),
    {
        match self {
            MapperState::Nrom(m) => m.has_battery(),
            MapperState::Mmc1(m) => m.has_battery(),
            MapperState::Uxrom(m) => m.has_battery(),
            MapperState::Cnrom(m) => m.has_battery(),
            MapperState::Mmc3(m) => m.has_battery(),
            MapperState::Axrom(m) => m.has_battery(),
            MapperState::Mmc5(m) => m.has_battery(),
            MapperState::Mmc2(m) => m.has_battery(),
            MapperState::Vrc6(m) => m.has_battery(),
            MapperState::Fme7(m) => m.has_battery(),
            MapperState::Fds(m) => false,
            MapperState::Namco163(m) => m.has_battery(),
            MapperState::Vrc7(m) => m.has_battery(),
        }
    }

    /// The battery-backed PRG-RAM contents, on boards that keep them.
    pub fn battery_sram(&self) -> (r: Option<Vec<u8>>)
        ensures
            (match *self {
            MapperState::Nrom(a) => r is None,
            MapperState::Mmc1(a) => a.battery_sram_post(r),
            MapperState::Uxrom(a) => r is None,
            MapperState::Cnrom(a) => r is None,
            MapperState::Mmc3(a) => r is None,
            MapperState::Axrom(a) => r is None,
            MapperState::Mmc5(a) => a.battery_sram_post(r),
            MapperState::Mmc2(a) => a.battery_sram_post(r),
            MapperState::Vrc6(a) => a.battery_sram_post(r),
            MapperState::Fme7(a) => a.battery_sram_post(r),
            MapperState::Fds(a) => r is None,
            MapperState::Namco163(a) => a.battery_sram_post(r),
            MapperState::Vrc7(a) => a.battery_sram_post(r),
            }),
    {
        match self {
            MapperState::Nrom(m) => None,
            MapperState::Mmc1(m) => m.battery_sram(),
            MapperState::Uxrom(m) => None,
            MapperState::Cnrom(m) => None,
            MapperState::Mmc3(m) => None,
            MapperState::Axrom(m) => None,
            MapperState::Mmc5(m) => m.battery_sram(),
            MapperState::Mmc2(m) => m.battery_sram(),
            MapperState::Vrc6(m) => m.battery_sram(),
            MapperState::Fme7(m) => m.battery_sram(),
            MapperState::Fds(m) => None,
            MapperState::Namco163(m) => m.battery_sram(),
            MapperState::Vrc7(m) => m.battery_sram(),
        }
    }

    /// A snapshot of the board.
    pub fn save_state(&self) -> (s: MapperState)
        ensures
            (match *self {
            MapperState::Nrom(a) => a.save_state_post(s),
            MapperState::Mmc1(a) => a.save_state_post(s),
            MapperState::Uxrom(a) => a.save_state_post(s),
            MapperState::Cnrom(a) => a.save_state_post(s),
            MapperState::Mmc3(a) => a.save_state_post(s),
            MapperState::Axrom(a) => a.save_state_post(s),
            MapperState::Mmc5(a) => a.save_state_post(s),
            MapperState::Mmc2(a) => a.save_state_post(s),
            MapperState::Vrc6(a) => a.save_state_post(s),
            MapperState::Fme7(a) => a.save_state_post(s),
            MapperState::Fds(a) => a.save_state_post(s),
            MapperState::Namco163(a) => a.save_state_post(s),
            MapperState::Vrc7(a) => a.save_state_post(s),
            }),
    {
        match self {
            MapperState::Nrom(m) => m.save_state(),
            MapperState::Mmc1(m) => m.save_state(),
            MapperState::Uxrom(m) => m.save_state(),
            MapperState::Cnrom(m) => m.save_state(),
            MapperState::Mmc3(m) => m.save_state(),
            MapperState::Axrom(m) => m.save_state(),
            MapperState::Mmc5(m) => m.save_state(),
            MapperState::Mmc2(m) => m.save_state(),
            MapperState::Vrc6(m) => m.save_state(),
            MapperState::Fme7(m) => m.save_state(),
            MapperState::Fds(m) => m.save_state(),
            MapperState::Namco163(m) => m.save_state(),
            MapperState::Vrc7(m) => m.save_state(),
        }
    }

    /// Restore the board from a snapshot of the same kind of board.
    pub fn restore_state(&mut self, state: MapperState)
        requires
            (match (*old(self), state) {
                (MapperState::Nrom(_), MapperState::Nrom(_)) => true,
                (MapperState::Mmc1(_), MapperState::Mmc1(_)) => true,
                (MapperState::Uxrom(_), MapperState::Uxrom(_)) => true,
                (MapperState::Cnrom(_), MapperState::Cnrom(_)) => true,
                (MapperState::Mmc3(_), MapperState::Mmc3(_)) => true,
                (MapperState::Axrom(_), MapperState::Axrom(_)) => true,
                (MapperState::Mmc5(_), MapperState::Mmc5(_)) => true,
                (MapperState::Mmc2(_), MapperState::Mmc2(_)) => true,
                (MapperState::Vrc6(_), MapperState::Vrc6(_)) => true,
                (MapperState::Fme7(_), MapperState::Fme7(_)) => true,
                (MapperState::Fds(_), MapperState::Fds(_)) => true,
                (MapperState::Namco163(_), MapperState::Namco163(_)) => true,
                (MapperState::Vrc7(_), MapperState::Vrc7(_)) => true,
                _ => false,
            }),
        ensures
            *final(self) == state,
    {
        *self = state;
    }
}

} // verus!
