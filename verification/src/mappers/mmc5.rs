//! MMC5 — mapper 5.
//!
//! PRG in 8 KB mode: three switchable 8 KB slots at `$8000-$DFFF`
//! (`$5114-$5116`, bit 7 selects PRG-RAM instead of ROM) and the last ROM
//! bank fixed at `$E000`. 64 KB PRG-RAM is banked into `$6000-$7FFF` via
//! `$5113`; writes need `$5102 == 0b10` and `$5103 == 0b01`. CHR is eight
//! 1 KB banks (`$5120-$5127`, upper bit in `$5130`). `$5105` maps each
//! nametable slot; `$5205`/`$5206` form a hardware 8×8 multiplier; `$5203`
//! / `$5204` drive a scanline IRQ.
//!
//! See: https://www.nesdev.org/wiki/MMC5

use vstd::prelude::*;
use super::{Mirroring, initial_chr, bank_byte, bank_count, bank_index, store_if_in, make_chr, get_or_zero,
    set_if_in, read_bank, write_bank, count_banks, zeroed, copy_prefix, clone_bytes, overlay_prefix, byte_or_zero, MapperState};

verus! {

/// PRG 8 KB bank size.
pub const MMC5_PRG_BANK_SIZE: usize = 8 * 1024;
/// CHR 1 KB bank size.
pub const MMC5_CHR_1K_SIZE: usize = 1024;
/// PRG-RAM size (64 KB).
pub const MMC5_PRG_RAM_SIZE: usize = 64 * 1024;
/// PRG-RAM window size at `$6000-$7FFF` (8 KB).
pub const MMC5_PRG_RAM_WINDOW: usize = 8 * 1024;

/// `$5105` value encoding a header mirroring mode (2 bits per nametable slot).
pub open spec fn mmc5_nt_bits(m: Mirroring) -> u8 {
    match m {
        Mirroring::Horizontal => 0x44u8,
        Mirroring::Vertical => 0x50u8,
        Mirroring::FourScreen => 0xE4u8,
        Mirroring::SingleScreen(n) => {
            let b = n & 3;
            b | (b << 2u8) | (b << 4u8) | (b << 6u8)
        },
    }
}

/// The standard mirroring closest to a `$5105` value.
pub open spec fn mmc5_decode(nt: u8) -> Mirroring {
    let s0 = nt & 0x03;
    let s1 = (nt >> 2u8) & 0x03;
    let s2 = (nt >> 4u8) & 0x03;
    let s3 = (nt >> 6u8) & 0x03;
    if s0 == s1 && s1 == s2 && s2 == s3 {
        Mirroring::SingleScreen(s0)
    } else if s0 == 0 && s1 == 1 && s2 == 0 && s3 == 1 {
        Mirroring::Horizontal
    } else if s0 == 0 && s1 == 0 && s2 == 1 && s3 == 1 {
        Mirroring::Vertical
    } else if s0 == 0 && s1 == 1 && s2 == 2 && s3 == 3 {
        Mirroring::FourScreen
    } else {
        Mirroring::Horizontal
    }
}

/// MMC5 cartridge state.
pub struct Mmc5 {
    pub prg_rom: Vec<u8>,
    /// CHR data — ROM when `chr_is_ram` is false, RAM when true.
    pub chr: Vec<u8>,
    pub chr_is_ram: bool,
    /// 64 KB PRG-RAM.
    pub prg_ram: Vec<u8>,
    pub has_battery: bool,
    /// `$5100` PRG mode (stored; 8 KB mode is what is implemented).
    pub prg_mode: u8,
    /// `$5101` CHR mode (stored; 1 KB mode is what is implemented).
    pub chr_mode: u8,
    /// `$5102` PRG-RAM protect 1.
    pub prg_ram_protect1: u8,
    /// `$5103` PRG-RAM protect 2.
    pub prg_ram_protect2: u8,
    /// `$5105` nametable mapping (2 bits per slot).
    pub nt_mirroring: u8,
    /// `$5106` fill-mode tile.
    pub fill_tile: u8,
    /// `$5107` fill-mode attribute.
    pub fill_attr: u8,
    /// `$5113` PRG-RAM bank for `$6000-$7FFF`.
    pub prg_ram_bank: u8,
    /// `$5114-$5117` PRG bank registers (bit 7 = RAM).
    pub prg_banks: [u8; 4],
    /// `$5120-$5127` CHR bank registers.
    pub chr_banks: [u8; 8],
    /// `$5128-$512B` extra CHR bank registers.
    pub chr_banks_ex: [u8; 4],
    /// `$5130` CHR bank upper bit.
    pub chr_upper: u8,
    /// `$5200` split control.
    pub split_control: u8,
    /// `$5201` split Y scroll.
    pub split_y_scroll: u8,
    /// `$5202` split bank.
    pub split_bank: u8,
    /// `$5203` IRQ scanline.
    pub irq_scanline: u8,
    /// `$5204` IRQ control (bit 7 = enable).
    pub irq_control: u8,
    /// Scanline counter, incremented by `clock_irq`.
    pub scanline_counter: u8,
    /// IRQ asserted.
    pub irq_pending: bool,
    /// Set once the scanline counter passes 240.
    pub in_vblank: bool,
    /// `$5205` multiplier operand A.
    pub mult_a: u8,
    /// `$5206` multiplier operand B.
    pub mult_b: u8,
}

impl Mmc5 {
    /// Whether PRG-RAM writes are allowed (`$5102 == 0b10` and `$5103 == 0b01`).
    pub open spec fn spec_writes_allowed(&self) -> bool {
        self.prg_ram_protect1 == 0b10 && self.prg_ram_protect2 == 0b01
    }

    /// The 16-bit multiplier product.
    pub open spec fn spec_product(&self) -> u16 {
        ((self.mult_a as int) * (self.mult_b as int)) as u16
    }

    /// PRG-RAM index of `$6000-$7FFF` address `addr` through `$5113`.
    pub open spec fn ram_window_index(&self, addr: u16) -> int {
        ((self.prg_ram_bank as int) % 8) * 8192 + ((addr as int) - 0x6000)
    }

    /// PRG-RAM index of an address in a RAM-mapped 8 KB slot with register `reg`.
    pub open spec fn ram_slot_index(reg: u8, offset: int) -> int {
        (((reg & 0x7F) as int) % 8) * 8192 + offset
    }

    /// The byte the CPU sees at `addr`.
    pub open spec fn prg_byte(&self, addr: u16) -> u8 {
        let local = (addr as int) - 0x8000;
        let slot = local / 8192;
        let offset = local % 8192;
        if addr == 0x5205 {
            (self.spec_product() & 0xFF) as u8
        } else if addr == 0x5206 {
            ((self.spec_product() >> 8u16) & 0xFF) as u8
        } else if addr == 0x5204 {
            (self.irq_control & 0x80) | (if self.in_vblank { 0x40u8 } else { 0u8 })
        } else if 0x6000 <= addr < 0x8000 {
            byte_or_zero(self.prg_ram@, self.ram_window_index(addr))
        } else if slot == 3 {
            bank_byte(self.prg_rom@, 8192, bank_count(self.prg_rom@.len() as int, 8192) - 1, offset)
        } else if self.prg_banks[slot] & 0x80 != 0 {
            byte_or_zero(self.prg_ram@, Self::ram_slot_index(self.prg_banks[slot], offset))
        } else {
            bank_byte(self.prg_rom@, 8192, self.prg_banks[slot] as int, offset)
        }
    }

    /// The 1 KB CHR bank for slot `slot`: the register with the `$5130` bit on top.
    pub open spec fn chr_bank_of(&self, slot: int) -> int {
        (self.chr_upper as int) * 256 + (self.chr_banks[slot] as int)
    }

    /// Index into CHR of PPU address `addr` (`$0000-$1FFF`).
    pub open spec fn chr_index(&self, addr: u16) -> int {
        bank_index(self.chr@.len() as int, 1024, self.chr_bank_of((addr as int) / 1024), (addr as int) % 1024)
    }

    /// The byte the PPU sees at `addr`.
    pub open spec fn chr_byte(&self, addr: u16) -> u8 {
        byte_or_zero(self.chr@, self.chr_index(addr))
    }

    /// `v` replaced by `value` when `addr == at`.
    pub open spec fn upd(v: u8, addr: u16, at: u16, value: u8) -> u8 {
        if addr == at { value } else { v }
    }

    /// Register state after a CPU write of `value` at `addr`; the CHR, ROM
    /// and battery flag never change, and the PRG-RAM changes as
    /// `prg_ram_after_write` says.
    pub open spec fn write_post(&self, post: &Self, addr: u16, value: u8) -> bool {
        &&& post.prg_rom == self.prg_rom
        &&& post.chr == self.chr
        &&& post.chr_is_ram == self.chr_is_ram
        &&& post.has_battery == self.has_battery
        &&& post.prg_ram@ == self.prg_ram_after_write(addr, value)
        &&& post.mult_a == Self::upd(self.mult_a, addr, 0x5205, value)
        &&& post.mult_b == Self::upd(self.mult_b, addr, 0x5206, value)
        &&& post.irq_control == Self::upd(self.irq_control, addr, 0x5204, value & 0x80)
        &&& post.irq_pending == (if addr == 0x5204 && value & 0x80 == 0 { false } else { self.irq_pending })
        &&& post.irq_scanline == Self::upd(self.irq_scanline, addr, 0x5203, value)
        &&& post.split_control == Self::upd(self.split_control, addr, 0x5200, value)
        &&& post.split_y_scroll == Self::upd(self.split_y_scroll, addr, 0x5201, value)
        &&& post.split_bank == Self::upd(self.split_bank, addr, 0x5202, value)
        &&& post.prg_mode == Self::upd(self.prg_mode, addr, 0x5100, value & 0x03)
        &&& post.chr_mode == Self::upd(self.chr_mode, addr, 0x5101, value & 0x03)
        &&& post.prg_ram_protect1 == Self::upd(self.prg_ram_protect1, addr, 0x5102, value & 0x03)
        &&& post.prg_ram_protect2 == Self::upd(self.prg_ram_protect2, addr, 0x5103, value & 0x03)
        &&& post.nt_mirroring == Self::upd(self.nt_mirroring, addr, 0x5105, value)
        &&& post.fill_tile == Self::upd(self.fill_tile, addr, 0x5106, value)
        &&& post.fill_attr == Self::upd(self.fill_attr, addr, 0x5107, value)
        &&& post.prg_ram_bank == Self::upd(self.prg_ram_bank, addr, 0x5113, value)
        &&& forall|i: int| 0 <= i < 4 ==> post.prg_banks[i] == Self::upd(self.prg_banks[i], addr, (0x5114
            + i) as u16, value)
        &&& forall|i: int| 0 <= i < 8 ==> post.chr_banks[i] == Self::upd(self.chr_banks[i], addr, (0x5120
            + i) as u16, value)
        &&& forall|i: int| 0 <= i < 4 ==> post.chr_banks_ex[i] == Self::upd(self.chr_banks_ex[i], addr,
            (0x5128 + i) as u16, value)
        &&& post.chr_upper == Self::upd(self.chr_upper, addr, 0x5130, value & 0x01)
        &&& post.scanline_counter == self.scanline_counter
        &&& post.in_vblank == self.in_vblank
    }

    /// PRG-RAM after a CPU write of `value` at `addr`: stored through the
    /// `$5113` window at `$6000-$7FFF`, or through a RAM-mapped slot at
    /// `$8000-$DFFF`, and only when the protect registers allow it.
    pub open spec fn prg_ram_after_write(&self, addr: u16, value: u8) -> Seq<u8> {
        let local = (addr as int) - 0x8000;
        let slot = local / 8192;
        if 0x6000 <= addr < 0x8000 && self.spec_writes_allowed() {
            store_if_in(self.prg_ram@, self.ram_window_index(addr), value)
        } else if 0x8000 <= addr < 0xE000 && self.spec_writes_allowed() && self.prg_banks[slot] & 0x80 != 0 {
            store_if_in(self.prg_ram@, Self::ram_slot_index(self.prg_banks[slot], local % 8192), value)
        } else {
            self.prg_ram@
        }
    }

    /// Whether `self` is the board as built from PRG `prg`, CHR `chr`
    /// (empty for CHR-RAM), header mirroring `mirroring` and battery flag
    /// `has_battery`: its power-on state.
    pub open spec fn fresh(&self, prg: Seq<u8>, chr: Seq<u8>, mirroring: Mirroring, has_battery: bool) -> bool {
        &&& self.prg_rom@ == prg
        &&& self.chr@ == initial_chr(chr)
        &&& self.chr_is_ram == (chr.len() == 0)
        &&& self.prg_ram@ == Seq::new(MMC5_PRG_RAM_SIZE as nat, |i: int| 0u8)
        &&& self.has_battery == has_battery
        &&& self.prg_mode == 3
        &&& self.chr_mode == 3
        &&& self.nt_mirroring == mmc5_nt_bits(mirroring)
        &&& self.prg_ram_protect1 == 0 && self.prg_ram_protect2 == 0
        &&& self.fill_tile == 0 && self.fill_attr == 0 && self.prg_ram_bank == 0 && self.chr_upper == 0
        &&& self.prg_banks@ == Seq::new(4, |i: int| 0u8)
        &&& self.chr_banks@ == Seq::new(8, |i: int| 0u8)
        &&& self.chr_banks_ex@ == Seq::new(4, |i: int| 0u8)
        &&& self.split_control == 0 && self.split_y_scroll == 0 && self.split_bank == 0
        &&& self.irq_scanline == 0 && self.irq_control == 0 && self.scanline_counter == 0
        &&& !self.irq_pending && !self.in_vblank
        &&& self.mult_a == 0 && self.mult_b == 0
    }

    /// Construct an MMC5 mapper: 8 KB PRG mode, 1 KB CHR mode, `$5105`
    /// encoding the header mirroring, all bank registers 0.
    pub fn new(prg_rom: Vec<u8>, chr_rom: Vec<u8>, mirroring: Mirroring, has_battery: bool) -> (m: Self)
        ensures
            m.prg_rom@ == prg_rom@,
            m.chr@ == initial_chr(chr_rom@),
            m.chr_is_ram == (chr_rom@.len() == 0),
            m.prg_ram@ == Seq::new(MMC5_PRG_RAM_SIZE as nat, |i: int| 0u8),
            m.has_battery == has_battery,
            m.prg_mode == 3,
            m.chr_mode == 3,
            m.nt_mirroring == mmc5_nt_bits(mirroring),
            m.prg_ram_protect1 == 0 && m.prg_ram_protect2 == 0,
            m.fill_tile == 0 && m.fill_attr == 0 && m.prg_ram_bank == 0 && m.chr_upper == 0,
            m.prg_banks@ == Seq::new(4, |i: int| 0u8),
            m.chr_banks@ == Seq::new(8, |i: int| 0u8),
            m.chr_banks_ex@ == Seq::new(4, |i: int| 0u8),
            m.split_control == 0 && m.split_y_scroll == 0 && m.split_bank == 0,
            m.irq_scanline == 0 && m.irq_control == 0 && m.scanline_counter == 0,
            !m.irq_pending && !m.in_vblank,
            m.mult_a == 0 && m.mult_b == 0,
            m.fresh(prg_rom@, chr_rom@, mirroring, has_battery),
    {
        let (chr, chr_is_ram) = make_chr(chr_rom);
        let nt_mirroring: u8 = match mirroring {
            Mirroring::Horizontal => 0x44,
            Mirroring::Vertical => 0x50,
            Mirroring::FourScreen => 0xE4,
            Mirroring::SingleScreen(n) => {
                let bits: u8 = n & 3;
                bits | (bits << 2u8) | (bits << 4u8) | (bits << 6u8)
            },
        };
        let m = Mmc5 {
            prg_rom,
            chr,
            chr_is_ram,
            prg_ram: zeroed(MMC5_PRG_RAM_SIZE),
            has_battery,
            prg_mode: 3,
            chr_mode: 3,
            prg_ram_protect1: 0,
            prg_ram_protect2: 0,
            nt_mirroring,
            fill_tile: 0,
            fill_attr: 0,
            prg_ram_bank: 0,
            prg_banks: [0u8; 4],
            chr_banks: [0u8; 8],
            chr_banks_ex: [0u8; 4],
            chr_upper: 0,
            split_control: 0,
            split_y_scroll: 0,
            split_bank: 0,
            irq_scanline: 0,
            irq_control: 0,
            scanline_counter: 0,
            irq_pending: false,
            in_vblank: false,
            mult_a: 0,
            mult_b: 0,
        };
        assert(m.prg_banks@ =~= Seq::new(4, |i: int| 0u8));
        assert(m.chr_banks@ =~= Seq::new(8, |i: int| 0u8));
        assert(m.chr_banks_ex@ =~= Seq::new(4, |i: int| 0u8));
        m
    }

    /// Number of 8 KB PRG-ROM banks (at least 1).
    pub fn prg_bank_count(&self) -> (c: usize)
        ensures
            c == bank_count(self.prg_rom@.len() as int, MMC5_PRG_BANK_SIZE as int),
    {
        count_banks(self.prg_rom.len(), MMC5_PRG_BANK_SIZE)
    }

    /// Number of 1 KB CHR banks (at least 1).
    pub fn chr_1k_count(&self) -> (c: usize)
        ensures
            c == bank_count(self.chr@.len() as int, MMC5_CHR_1K_SIZE as int),
    {
        count_banks(self.chr.len(), MMC5_CHR_1K_SIZE)
    }

    /// Read a PRG-ROM byte from a given 8 KB bank and offset.
    pub fn prg_read_bank(&self, bank: usize, offset: usize) -> (b: u8)
        ensures
            b == bank_byte(self.prg_rom@, MMC5_PRG_BANK_SIZE as int, bank as int, offset as int),
    {
        read_bank(&self.prg_rom, MMC5_PRG_BANK_SIZE, bank, offset)
    }

    /// The standard mirroring mode closest to the `$5105` mapping.
    pub fn decode_mirroring(&self) -> (m: Mirroring)
        ensures
            m == mmc5_decode(self.nt_mirroring),
    {
        let nt: u8 = self.nt_mirroring;
        let s0: u8 = nt & 0x03;
        let s1: u8 = (nt >> 2u8) & 0x03;
        let s2: u8 = (nt >> 4u8) & 0x03;
        let s3: u8 = (nt >> 6u8) & 0x03;
        if s0 == s1 && s1 == s2 && s2 == s3 {
            return Mirroring::SingleScreen(s0);
        }
        if s0 == 0 && s1 == 1 && s2 == 0 && s3 == 1 {
            return Mirroring::Horizontal;
        }
        if s0 == 0 && s1 == 0 && s2 == 1 && s3 == 1 {
            return Mirroring::Vertical;
        }
        if s0 == 0 && s1 == 1 && s2 == 2 && s3 == 3 {
            return Mirroring::FourScreen;
        }
        Mirroring::Horizontal
    }

    /// The 16-bit multiplier product (`$5205` low byte, `$5206` high byte).
    pub fn product(&self) -> (p: u16)
        ensures
            p == self.spec_product(),
            p as int == (self.mult_a as int) * (self.mult_b as int),
    {
        assert((self.mult_a as int) * (self.mult_b as int) <= 255 * 255) by (nonlinear_arith)
            requires self.mult_a <= 255, self.mult_b <= 255;
        (self.mult_a as u16) * (self.mult_b as u16)
    }

    /// Whether PRG-RAM writes are allowed.
    pub fn prg_ram_writes_allowed(&self) -> (b: bool)
        ensures
            b == self.spec_writes_allowed(),
    {
        self.prg_ram_protect1 == 0b10 && self.prg_ram_protect2 == 0b01
    }

    /// Read a byte from the CPU side: the multiplier at `$5205`/`$5206`,
    /// IRQ status at `$5204`, PRG-RAM at `$6000-$7FFF`, banks above.
    pub fn read_prg(&self, addr: u16) -> (b: u8)
        requires
            addr >= 0x6000 || addr == 0x5204 || addr == 0x5205 || addr == 0x5206,
        ensures
            b == self.prg_byte(addr),
    {
        if addr == 0x5205 {
            return (self.product() & 0xFF) as u8;
        }
        if addr == 0x5206 {
            return ((self.product() >> 8u16) & 0xFF) as u8;
        }
        if addr == 0x5204 {
            let mut status: u8 = self.irq_control & 0x80;
            if self.in_vblank {
                status = status | 0x40;
            }
            let ghost c = self.irq_control;
            assert(c & 0x80 == (c & 0x80) | 0u8) by (bit_vector);
            return status;
        }
        if 0x6000 <= addr && addr < 0x8000 {
            let bank: usize = (self.prg_ram_bank as usize) % (MMC5_PRG_RAM_SIZE / MMC5_PRG_RAM_WINDOW);
            let a: usize = addr as usize - 0x6000;
            let off: usize = a & (MMC5_PRG_RAM_WINDOW - 1);
            proof {
                crate::bits::lemma_usize_masks(a);
            }
            let idx: usize = bank * MMC5_PRG_RAM_WINDOW + off;
            return get_or_zero(&self.prg_ram, idx);
        }
        let local: usize = (addr - 0x8000) as usize;
        let slot: usize = local / MMC5_PRG_BANK_SIZE;
        let offset: usize = local & (MMC5_PRG_BANK_SIZE - 1);
        proof {
            crate::bits::lemma_usize_masks(local);
        }
        if slot == 3 {
            let last: usize = self.prg_bank_count() - 1;
            return self.prg_read_bank(last, offset);
        }
        let reg: u8 = self.prg_banks[slot];
        if reg & 0x80 != 0 {
            let ram_bank: usize = ((reg & 0x7F) as usize) % (MMC5_PRG_RAM_SIZE / MMC5_PRG_BANK_SIZE);
            let idx: usize = ram_bank * MMC5_PRG_BANK_SIZE + offset;
            return get_or_zero(&self.prg_ram, idx);
        }
        self.prg_read_bank(reg as usize, offset)
    }

    /// The contract of [`Mmc5::write_prg`] as a predicate on the state it leaves `before` in.
    pub open spec fn write_prg_post(&self, before: Mmc5, addr: u16, value: u8) -> bool {
        &&& (before.write_post(self, addr, value))
    }

    /// Write a byte from the CPU side: the registers at `$5100-$5206`,
    /// PRG-RAM at `$6000-$7FFF` and in RAM-mapped slots at `$8000-$DFFF`
    /// (when the protect registers allow it).
    pub fn write_prg(&mut self, addr: u16, value: u8)
        ensures
            old(self).write_post(&*final(self), addr, value),
            final(self).write_prg_post(*old(self), addr, value),
    {
        if addr == 0x5205 {
            self.mult_a = value;
            return;
        }
        if addr == 0x5206 {
            self.mult_b = value;
            return;
        }
        if addr == 0x5204 {
            self.irq_control = value & 0x80;
            if value & 0x80 == 0 {
                self.irq_pending = false;
            }
            return;
        }
        if addr == 0x5203 {
            self.irq_scanline = value;
            return;
        }
        if addr == 0x5200 {
            self.split_control = value;
            return;
        }
        if addr == 0x5201 {
            self.split_y_scroll = value;
            return;
        }
        if addr == 0x5202 {
            self.split_bank = value;
            return;
        }
        if addr == 0x5100 {
            self.prg_mode = value & 0x03;
            return;
        } else if addr == 0x5101 {
            self.chr_mode = value & 0x03;
            return;
        } else if addr == 0x5102 {
            self.prg_ram_protect1 = value & 0x03;
            return;
        } else if addr == 0x5103 {
            self.prg_ram_protect2 = value & 0x03;
            return;
        } else if addr == 0x5104 {
            // Extended nametable mode: accepted but not modelled.
            return;
        } else if addr == 0x5105 {
            self.nt_mirroring = value;
            return;
        } else if addr == 0x5106 {
            self.fill_tile = value;
            return;
        } else if addr == 0x5107 {
            self.fill_attr = value;
            return;
        } else if addr == 0x5113 {
            self.prg_ram_bank = value;
            return;
        } else if 0x5114 <= addr && addr <= 0x5117 {
            self.prg_banks[(addr - 0x5114) as usize] = value;
            return;
        } else if 0x5120 <= addr && addr <= 0x5127 {
            self.chr_banks[(addr - 0x5120) as usize] = value;
            return;
        } else if 0x5128 <= addr && addr <= 0x512B {
            self.chr_banks_ex[(addr - 0x5128) as usize] = value;
            return;
        } else if addr == 0x5130 {
            self.chr_upper = value & 0x01;
            return;
        }
        if 0x6000 <= addr && addr < 0x8000 && self.prg_ram_writes_allowed() {
            let bank: usize = (self.prg_ram_bank as usize) % (MMC5_PRG_RAM_SIZE / MMC5_PRG_RAM_WINDOW);
            let a: usize = addr as usize - 0x6000;
            let off: usize = a & (MMC5_PRG_RAM_WINDOW - 1);
            proof {
                crate::bits::lemma_usize_masks(a);
            }
            let idx: usize = bank * MMC5_PRG_RAM_WINDOW + off;
            set_if_in(&mut self.prg_ram, idx, value);
            return;
        }
        if 0x8000 <= addr && addr < 0xE000 && self.prg_ram_writes_allowed() {
            let local: usize = (addr - 0x8000) as usize;
            let slot: usize = local / MMC5_PRG_BANK_SIZE;
            let offset: usize = local & (MMC5_PRG_BANK_SIZE - 1);
            proof {
                crate::bits::lemma_usize_masks(local);
            }
            let reg: u8 = self.prg_banks[slot];
            if reg & 0x80 != 0 {
                let ram_bank: usize = ((reg & 0x7F) as usize) % (MMC5_PRG_RAM_SIZE / MMC5_PRG_BANK_SIZE);
                let idx: usize = ram_bank * MMC5_PRG_BANK_SIZE + offset;
                set_if_in(&mut self.prg_ram, idx, value);
            }
        }
    }

    /// Read a byte from the PPU-side CHR space through the 1 KB banks.
    pub fn read_chr(&self, addr: u16) -> (b: u8)
        requires
            addr < 0x2000,
        ensures
            b == self.chr_byte(addr),
    {
        let a: usize = addr as usize;
        let slot: usize = a / MMC5_CHR_1K_SIZE;
        let offset: usize = a & (MMC5_CHR_1K_SIZE - 1);
        proof {
            crate::bits::lemma_usize_masks(a);
        }
        let bank: usize = (self.chr_upper as usize) * 256 + (self.chr_banks[slot] as usize);
        read_bank(&self.chr, MMC5_CHR_1K_SIZE, bank, offset)
    }

    /// The contract of [`Mmc5::write_chr`] as a predicate on the state it leaves `before` in.
    pub open spec fn write_chr_post(&self, before: Mmc5, addr: u16, value: u8) -> bool {
        &&& (self.chr@ == (if before.chr_is_ram { store_if_in(before.chr@, before.chr_index(addr), value) } else { before.chr@ }))
        &&& (self.chr_banks == before.chr_banks)
        &&& (self.chr_upper == before.chr_upper)
        &&& (self.chr_is_ram == before.chr_is_ram)
        &&& (self.prg_rom == before.prg_rom)
        &&& (self.prg_ram == before.prg_ram)
    }

    /// Write a byte to the PPU-side CHR space; only CHR-RAM takes it.
    pub fn write_chr(&mut self, addr: u16, value: u8)
        requires
            addr < 0x2000,
        ensures
            final(self).chr@ == (if old(self).chr_is_ram {
                store_if_in(old(self).chr@, old(self).chr_index(addr), value)
            } else {
                old(self).chr@
            }),
            final(self).chr_banks == old(self).chr_banks,
            final(self).chr_upper == old(self).chr_upper,
            final(self).chr_is_ram == old(self).chr_is_ram,
            final(self).prg_rom == old(self).prg_rom,
            final(self).prg_ram == old(self).prg_ram,
            final(self).write_chr_post(*old(self), addr, value),
    {
        if !self.chr_is_ram {
            return;
        }
        let a: usize = addr as usize;
        let slot: usize = a / MMC5_CHR_1K_SIZE;
        let offset: usize = a & (MMC5_CHR_1K_SIZE - 1);
        proof {
            crate::bits::lemma_usize_masks(a);
        }
        let bank: usize = (self.chr_upper as usize) * 256 + (self.chr_banks[slot] as usize);
        write_bank(&mut self.chr, MMC5_CHR_1K_SIZE, bank, offset, value);
    }

    /// The mirroring closest to the `$5105` mapping.
    pub fn mirror_mode(&self) -> (m: Mirroring)
        ensures
            m == mmc5_decode(self.nt_mirroring),
    {
        self.decode_mirroring()
    }

    /// The contract of [`Mmc5::has_battery`] as a predicate.
    pub open spec fn has_battery_post(&self, b: bool) -> bool {
        &&& (b == self.has_battery)
    }

    /// Whether the cartridge has battery-backed PRG-RAM.
    pub fn has_battery(&self) -> (b: bool)
        ensures
            b == self.has_battery,
            self.has_battery_post(b),
    {
        self.has_battery
    }

    /// The contract of [`Mmc5::battery_sram`] as a predicate.
    pub open spec fn battery_sram_post(&self, r: Option<Vec<u8>>) -> bool {
        &&& (self.has_battery ==> r is Some && r->0@ == self.prg_ram@)
        &&& (!self.has_battery ==> r is None)
    }

    /// A copy of the PRG-RAM when it is battery-backed, else `None`.
    pub fn battery_sram(&self) -> (r: Option<Vec<u8>>)
        ensures
            self.has_battery ==> r is Some && r->0@ == self.prg_ram@,
            !self.has_battery ==> r is None,
            self.battery_sram_post(r),
    {
        if self.has_battery {
            Some(clone_bytes(&self.prg_ram))
        } else {
            None
        }
    }

    /// The contract of [`Mmc5::load_battery_sram`] as a predicate on the state it leaves `before` in.
    pub open spec fn load_battery_sram_post(&self, before: Mmc5, data: &[u8]) -> bool {
        &&& (self.prg_ram@ == (if before.has_battery { overlay_prefix(before.prg_ram@, data@) } else { before.prg_ram@ }))
        &&& (self.has_battery == before.has_battery)
        &&& (self.prg_rom == before.prg_rom)
        &&& (self.chr == before.chr)
    }

    /// Load battery-backed PRG-RAM (as many bytes as fit); no-op without a battery.
    pub fn load_battery_sram(&mut self, data: &[u8])
        ensures
            final(self).prg_ram@ == (if old(self).has_battery {
                overlay_prefix(old(self).prg_ram@, data@)
            } else {
                old(self).prg_ram@
            }),
            final(self).has_battery == old(self).has_battery,
            final(self).prg_rom == old(self).prg_rom,
            final(self).chr == old(self).chr,
            final(self).load_battery_sram_post(*old(self), data),
    {
        if !self.has_battery {
            return;
        }
        copy_prefix(&mut self.prg_ram, data);
    }

    /// The contract of [`Mmc5::irq_pending`] as a predicate.
    pub open spec fn irq_pending_post(&self, b: bool) -> bool {
        &&& (b == self.irq_pending)
    }

    /// Whether the IRQ line is asserted.
    pub fn irq_pending(&self) -> (b: bool)
        ensures
            b == self.irq_pending,
            self.irq_pending_post(b),
    {
        self.irq_pending
    }

    /// The contract of [`Mmc5::clock_irq`] as a predicate on the state it leaves `before` in.
    pub open spec fn clock_irq_post(&self, before: Mmc5) -> bool {
        &&& (self.scanline_counter == (if before.scanline_counter == 255 { 0u8 } else { (before.scanline_counter + 1) as u8 }))
        &&& (self.in_vblank == (before.in_vblank || self.scanline_counter >= 240))
        &&& (self.irq_pending == (before.irq_pending || (self.scanline_counter == before.irq_scanline && before.irq_control & 0x80 != 0)))
        &&& (self.irq_scanline == before.irq_scanline)
        &&& (self.irq_control == before.irq_control)
        &&& (self.prg_banks == before.prg_banks)
        &&& (self.chr_banks == before.chr_banks)
        &&& (self.prg_ram == before.prg_ram)
        &&& (self.chr == before.chr)
        &&& (self.prg_rom == before.prg_rom)
    }

    /// Clock the scanline counter once: it increments (wrapping); at 240 or
    /// more VBlank is flagged; on reaching `$5203` with the IRQ enabled the
    /// IRQ is asserted.
    pub fn clock_irq(&mut self)
        ensures
            final(self).scanline_counter == (if old(self).scanline_counter == 255 { 0u8 } else {
                (old(self).scanline_counter + 1) as u8
            }),
            final(self).in_vblank == (old(self).in_vblank || final(self).scanline_counter >= 240),
            final(self).irq_pending == (old(self).irq_pending || (final(self).scanline_counter == old(
                self).irq_scanline && old(self).irq_control & 0x80 != 0)),
            final(self).irq_scanline == old(self).irq_scanline,
            final(self).irq_control == old(self).irq_control,
            final(self).prg_banks == old(self).prg_banks,
            final(self).chr_banks == old(self).chr_banks,
            final(self).prg_ram == old(self).prg_ram,
            final(self).chr == old(self).chr,
            final(self).prg_rom == old(self).prg_rom,
            final(self).clock_irq_post(*old(self)),
    {
        self.scanline_counter = if self.scanline_counter == 255 { 0 } else { self.scanline_counter + 1 };
        if self.scanline_counter >= 240 {
            self.in_vblank = true;
        }
        if self.scanline_counter == self.irq_scanline && (self.irq_control & 0x80) != 0 {
            self.irq_pending = true;
        }
    }

    /// The contract of [`Mmc5::reset_scanline_counter`] as a predicate on the state it leaves `before` in.
    pub open spec fn reset_scanline_counter_post(&self, before: Mmc5) -> bool {
        &&& (self.scanline_counter == 0)
        &&& (!self.in_vblank)
        &&& (self.irq_pending == before.irq_pending)
        &&& (self.irq_scanline == before.irq_scanline)
        &&& (self.irq_control == before.irq_control)
        &&& (self.prg_banks == before.prg_banks)
        &&& (self.chr_banks == before.chr_banks)
        &&& (self.prg_ram == before.prg_ram)
        &&& (self.chr == before.chr)
        &&& (self.prg_rom == before.prg_rom)
    }

    /// Reset the per-frame scanline counter and the VBlank flag.
    pub fn reset_scanline_counter(&mut self)
        ensures
            final(self).scanline_counter == 0,
            !final(self).in_vblank,
            final(self).irq_pending == old(self).irq_pending,
            final(self).irq_scanline == old(self).irq_scanline,
            final(self).irq_control == old(self).irq_control,
            final(self).prg_banks == old(self).prg_banks,
            final(self).chr_banks == old(self).chr_banks,
            final(self).prg_ram == old(self).prg_ram,
            final(self).chr == old(self).chr,
            final(self).prg_rom == old(self).prg_rom,
            final(self).reset_scanline_counter_post(*old(self)),
    {
        self.scanline_counter = 0;
        self.in_vblank = false;
    }

    /// The split-screen registers `(control, y_scroll, bank)`.
    pub fn split_config(&self) -> (r: (u8, u8, u8))
        ensures
            r == (self.split_control, self.split_y_scroll, self.split_bank),
    {
        (self.split_control, self.split_y_scroll, self.split_bank)
    }
}

/// The multiplier reads back the product of the two operands written.
pub proof fn law_mmc5_multiplier(m: Mmc5)
    ensures
        (m.prg_byte(0x5206) as int) * 256 + (m.prg_byte(0x5205) as int) == (m.mult_a as int) * (m.mult_b as int),
{
    let p = m.spec_product();
    assert((m.mult_a as int) * (m.mult_b as int) <= 255 * 255) by (nonlinear_arith)
        requires m.mult_a <= 255, m.mult_b <= 255;
    assert(p as int == (m.mult_a as int) * (m.mult_b as int));
    let hi: u16 = (p >> 8u16) & 0xFF;
    let lo: u16 = p & 0xFF;
    assert(hi < 256 && lo < 256 && hi as int * 256 + lo as int == p as int) by (bit_vector)
        requires hi == (p >> 8u16) & 0xFF, lo == p & 0xFF;
    assert(m.prg_byte(0x5206) == hi as u8);
    assert(m.prg_byte(0x5205) == lo as u8);
}

/// Decoding the `$5105` value built from a standard mirroring mode gives
/// that mode back.
pub proof fn law_mmc5_mirroring_round_trip(m: Mirroring)
    requires
        m matches Mirroring::SingleScreen(n) ==> n < 4,
    ensures
        mmc5_decode(mmc5_nt_bits(m)) == m,
{
    match m {
        Mirroring::SingleScreen(n) => {
            let b = n & 3;
            let v = b | (b << 2u8) | (b << 4u8) | (b << 6u8);
            assert(v & 0x03 == n && (v >> 2u8) & 0x03 == n && (v >> 4u8) & 0x03 == n && (v >> 6u8) & 0x03 == n)
                by (bit_vector)
                requires n < 4, b == n & 3, v == b | (b << 2u8) | (b << 4u8) | (b << 6u8);
        },
        Mirroring::Horizontal => {
            assert(0x44u8 & 0x03 == 0 && (0x44u8 >> 2u8) & 0x03 == 1 && (0x44u8 >> 4u8) & 0x03 == 0 && (0x44u8
                >> 6u8) & 0x03 == 1) by (bit_vector);
        },
        Mirroring::Vertical => {
            assert(0x50u8 & 0x03 == 0 && (0x50u8 >> 2u8) & 0x03 == 0 && (0x50u8 >> 4u8) & 0x03 == 1 && (0x50u8
                >> 6u8) & 0x03 == 1) by (bit_vector);
        },
        Mirroring::FourScreen => {
            assert(0xE4u8 & 0x03 == 0 && (0xE4u8 >> 2u8) & 0x03 == 1 && (0xE4u8 >> 4u8) & 0x03 == 2 && (0xE4u8
                >> 6u8) & 0x03 == 3) by (bit_vector);
        },
    }
}


impl Mmc5 {
    /// Whether `o` holds the same state as `self`, byte for byte.
    pub open spec fn same_state(&self, o: &Mmc5) -> bool {
        &&& o.prg_rom@ == self.prg_rom@
        &&& o.chr@ == self.chr@
        &&& o.chr_is_ram == self.chr_is_ram
        &&& o.prg_ram@ == self.prg_ram@
        &&& o.has_battery == self.has_battery
        &&& o.prg_mode == self.prg_mode
        &&& o.chr_mode == self.chr_mode
        &&& o.prg_ram_protect1 == self.prg_ram_protect1
        &&& o.prg_ram_protect2 == self.prg_ram_protect2
        &&& o.nt_mirroring == self.nt_mirroring
        &&& o.fill_tile == self.fill_tile
        &&& o.fill_attr == self.fill_attr
        &&& o.prg_ram_bank == self.prg_ram_bank
        &&& o.prg_banks == self.prg_banks
        &&& o.chr_banks == self.chr_banks
        &&& o.chr_banks_ex == self.chr_banks_ex
        &&& o.chr_upper == self.chr_upper
        &&& o.split_control == self.split_control
        &&& o.split_y_scroll == self.split_y_scroll
        &&& o.split_bank == self.split_bank
        &&& o.irq_scanline == self.irq_scanline
        &&& o.irq_control == self.irq_control
        &&& o.scanline_counter == self.scanline_counter
        &&& o.irq_pending == self.irq_pending
        &&& o.in_vblank == self.in_vblank
        &&& o.mult_a == self.mult_a
        &&& o.mult_b == self.mult_b
    }

    /// The contract of [`Mmc5::save_state`] as a predicate.
    pub open spec fn save_state_post(&self, s: MapperState) -> bool {
        &&& (s matches MapperState::Mmc5(m) && self.same_state(&m))
    }

    /// Capture the mapper's whole state as a snapshot.
    pub fn save_state(&self) -> (s: MapperState)
        ensures
            s matches MapperState::Mmc5(m) && self.same_state(&m),
            self.save_state_post(s),
    {
        MapperState::Mmc5(Mmc5 {
            prg_rom: clone_bytes(&self.prg_rom),
            chr: clone_bytes(&self.chr),
            chr_is_ram: self.chr_is_ram,
            prg_ram: clone_bytes(&self.prg_ram),
            has_battery: self.has_battery,
            prg_mode: self.prg_mode,
            chr_mode: self.chr_mode,
            prg_ram_protect1: self.prg_ram_protect1,
            prg_ram_protect2: self.prg_ram_protect2,
            nt_mirroring: self.nt_mirroring,
            fill_tile: self.fill_tile,
            fill_attr: self.fill_attr,
            prg_ram_bank: self.prg_ram_bank,
            prg_banks: self.prg_banks,
            chr_banks: self.chr_banks,
            chr_banks_ex: self.chr_banks_ex,
            chr_upper: self.chr_upper,
            split_control: self.split_control,
            split_y_scroll: self.split_y_scroll,
            split_bank: self.split_bank,
            irq_scanline: self.irq_scanline,
            irq_control: self.irq_control,
            scanline_counter: self.scanline_counter,
            irq_pending: self.irq_pending,
            in_vblank: self.in_vblank,
            mult_a: self.mult_a,
            mult_b: self.mult_b,
        })
    }

    /// Restore the mapper's state from a snapshot of the same board type.
    pub fn restore_state(&mut self, state: MapperState)
        requires
            state is Mmc5,
        ensures
            state matches MapperState::Mmc5(m) && *final(self) == m,
    {
        match state {
            MapperState::Mmc5(m) => {
                *self = m;
            },
            _ => {},
        }
    }
}

} // verus!
