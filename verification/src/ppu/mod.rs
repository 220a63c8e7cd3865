//! Picture Processing Unit (PPU) — register interface, memory and timing.
//!
//! The register file (`$2000-$2007` and `$4014` OAMDMA), nametable VRAM,
//! OAM, palette RAM, the scanline/cycle stepper with its scroll updates,
//! and (in [`render`]) the background and sprite pixel pipeline.
//!
//! | Range         | Device                                       |
//! |---------------|----------------------------------------------|
//! | `$0000-$1FFF` | Pattern tables (CHR, on the cartridge)       |
//! | `$2000-$2FFF` | Nametables (4 × 1 KB, mirrored)              |
//! | `$3000-$3EFF` | Mirror of `$2000-$2EFF`                      |
//! | `$3F00-$3FFF` | Palette RAM (32 bytes, internally mirrored)  |
//!
//! See: https://www.nesdev.org/wiki/PPU_registers
//! See: https://www.nesdev.org/wiki/PPU_memory_map

pub mod pixel;
pub mod render;

use vstd::prelude::*;
use crate::mappers::Mirroring;
use crate::region::Region;
use self::pixel::{RenderState, idle_render};

verus! {

/// Visible screen width in pixels.
pub const SCREEN_WIDTH: usize = 256;
/// Visible screen height in pixels (240 scanlines).
pub const SCREEN_HEIGHT: usize = 240;
/// Total framebuffer pixel count.
pub const FRAMEBUFFER_SIZE: usize = 61440;

/// Size of nametable VRAM (4 KB, enough for four-screen mirroring).
pub const VRAM_SIZE: usize = 4096;
/// Size of OAM (64 sprites × 4 bytes).
pub const OAM_SIZE: usize = 256;
/// Size of palette RAM.
pub const PALETTE_SIZE: usize = 32;

/// PPUCTRL bit: generate NMI on VBlank.
pub const CTRL_NMI: u8 = 0b1000_0000;
/// PPUCTRL bit: 8×16 sprites.
pub const CTRL_SPRITE_SIZE_16: u8 = 0b0010_0000;
/// PPUCTRL bit: background pattern table at `$1000`.
pub const CTRL_BG_PATTERN_1000: u8 = 0b0001_0000;
/// PPUCTRL bit: 8×8 sprite pattern table at `$1000`.
pub const CTRL_SPRITE_PATTERN_1000: u8 = 0b0000_1000;
/// PPUCTRL bit: VRAM address increment by 32 instead of 1.
pub const CTRL_INCREMENT_32: u8 = 0b0000_0100;
/// PPUCTRL bits 0-1: base nametable.
pub const CTRL_BASE_NT_MASK: u8 = 0b0000_0011;
/// PPUMASK bit: show background.
pub const MASK_SHOW_BG: u8 = 0b0000_1000;
/// PPUMASK bit: show background in the leftmost 8 pixels.
pub const MASK_SHOW_BG_LEFT: u8 = 0b0000_0010;
/// PPUMASK bit: show sprites.
pub const MASK_SHOW_SPRITES: u8 = 0b0001_0000;
/// PPUMASK bit: show sprites in the leftmost 8 pixels.
pub const MASK_SHOW_SPRITES_LEFT: u8 = 0b0000_0100;

/// PPUSTATUS bit: VBlank.
pub const STATUS_VBLANK: u8 = 0b1000_0000;
/// PPUSTATUS bit: sprite 0 hit.
pub const STATUS_SPRITE_ZERO: u8 = 0b0100_0000;
/// PPUSTATUS bit: sprite overflow.
pub const STATUS_OVERFLOW: u8 = 0b0010_0000;
/// Mask of the status flag bits (7-5).
pub const STATUS_FLAG_MASK: u8 = 0b1110_0000;
/// Mask of the open-bus bits in a PPUSTATUS read (4-0).
pub const STATUS_OPEN_BUS_MASK: u8 = 0b0001_1111;

/// Scanlines in an NTSC frame.
pub const SCANLINES_PER_FRAME: u16 = 262;
/// PPU cycles per scanline.
pub const CYCLES_PER_SCANLINE: u16 = 341;
/// Scanline on which VBlank begins.
pub const SCANLINE_VBLANK_START: u16 = 241;
/// The prerender scanline.
pub const SCANLINE_PRERENDER: u16 = 261;
/// Cycle at which VBlank is set or cleared.
pub const VBLANK_NMI_CYCLE: u16 = 1;
/// Cycle of the vertical scroll increment.
pub const VERT_SCROLL_INC_CYCLE: u16 = 256;
/// Cycle of the horizontal `t→v` copy.
pub const H_COPY_CYCLE: u16 = 257;
/// First prerender cycle of the vertical `t→v` copy.
pub const V_COPY_CYCLE_START: u16 = 280;
/// Last prerender cycle of the vertical `t→v` copy.
pub const V_COPY_CYCLE_END: u16 = 304;
/// Step between horizontal scroll increments.
pub const H_SCROLL_INC_STEP: u16 = 8;
/// Last cycle with a horizontal scroll increment.
pub const H_SCROLL_INC_LAST: u16 = 248;
/// Most sprites drawn on one scanline.
pub const MAX_SPRITES_PER_SCANLINE: usize = 8;

/// Nametable-select bits (10-11) of `t` / `v`.
pub const NT_SELECT_MASK: u16 = 0b0000_1100_0000_0000;
/// Coarse-X bits (0-4) of `t` / `v`.
pub const COARSE_X_MASK: u16 = 0b0000_0000_0001_1111;
/// Coarse-Y bits (5-9) of `t` / `v`.
pub const COARSE_Y_MASK: u16 = 0b0000_0011_1110_0000;
/// Fine-Y bits (12-14) of `t` / `v`.
pub const FINE_Y_MASK: u16 = 0b0111_0000_0000_0000;
/// Horizontal nametable bit.
pub const NT_H_BIT: u16 = 0b0000_0100_0000_0000;
/// Vertical nametable bit.
pub const NT_V_BIT: u16 = 0b0000_1000_0000_0000;

/// The Picture Processing Unit.
///
/// Owns nametable VRAM, OAM, palette RAM and the output framebuffer. CHR
/// pattern data belongs to the cartridge and is handed in for rendering.
pub struct Ppu {
    /// PPUCTRL (`$2000`).
    pub ppuctrl: u8,
    /// PPUMASK (`$2001`).
    pub ppumask: u8,
    /// OAMADDR (`$2003`).
    pub oamaddr: u8,
    /// PPUSTATUS (`$2002`) flag bits.
    pub ppustatus: u8,
    /// Current VRAM address `v`.
    pub v: u16,
    /// Temporary VRAM address `t`.
    pub t: u16,
    /// Fine X scroll (3 bits).
    pub fine_x: u8,
    /// Shared PPUSCROLL/PPUADDR write latch `w`.
    pub w: bool,
    /// PPUDATA read buffer.
    pub ppudata_buffer: u8,
    /// Open-bus latch: the last byte written to any register.
    pub open_bus: u8,
    /// Nametable VRAM.
    pub vram: [u8; 4096],
    /// Object Attribute Memory.
    pub oam: [u8; 256],
    /// Palette RAM.
    pub palette: [u8; 32],
    /// Output framebuffer, 256×240 ARGB pixels.
    pub framebuffer: Vec<u32>,
    /// Background pattern value (0-3) per pixel of the last rendered row.
    pub bg_pattern: Vec<u8>,
    /// Current scanline (0..=261).
    pub scanline: u16,
    /// Current cycle within the scanline (0..=340).
    pub cycle: u16,
    /// Latched NMI request, cleared by [`Ppu::take_nmi_request`].
    pub nmi_request: bool,
    /// Nametable mirroring mode.
    pub mirroring: Mirroring,
    /// TV region; selects the colour palette.
    pub region: Region,
    /// Use the old, inaccurate NTSC palette (debug toggle).
    pub use_inaccurate_palette: bool,
    /// State of the cycle-accurate (per-pixel) renderer.
    pub render: RenderState,
}

/// Nametable slot (0-3) that `nt` maps to under `m`.
pub open spec fn phys_nametable(m: Mirroring, nt: int) -> int {
    match m {
        Mirroring::Horizontal => nt / 2,
        Mirroring::Vertical => nt % 2,
        Mirroring::FourScreen => nt,
        Mirroring::SingleScreen(n) => (n % 4) as int,
    }
}

/// VRAM index of nametable address `addr` (`$3000-$3EFF` mirrors `$2000-$2EFF`).
pub open spec fn nametable_index(m: Mirroring, addr: u16) -> int {
    let local = ((addr & 0x2FFF) as int) - 0x2000;
    phys_nametable(m, local / 1024) * 1024 + local % 1024
}

/// Palette RAM index of palette address `addr`: 32-byte mirroring, and
/// `$10/$14/$18/$1C` share the entries of `$00/$04/$08/$0C`.
pub open spec fn palette_index(addr: u16) -> int {
    let a = (addr & 0x1F) as int;
    if a == 0x10 || a == 0x14 || a == 0x18 || a == 0x1C {
        a - 0x10
    } else {
        a
    }
}

/// `t` after a PPUCTRL write of `value`: bits 10-11 take the base nametable.
pub open spec fn t_after_ctrl(t: u16, value: u8) -> u16 {
    (t & !NT_SELECT_MASK) | (((value as u16) & 0b11) << 10u16)
}

/// `(t, fine_x, w)` after a PPUSCROLL write of `value`.
pub open spec fn scroll_write(t: u16, fine_x: u8, w: bool, value: u8) -> (u16, u8, bool) {
    if !w {
        ((t & 0b1111_1111_1110_0000) | ((value as u16) >> 3u16), value & 0b0000_0111, true)
    } else {
        (
            (t & 0b1000_1100_0001_1111) | (((value as u16) & 0b1111_1000) << 2u16) | (((value as u16)
                & 0b0000_0111) << 12u16),
            fine_x,
            false,
        )
    }
}

/// `(t, v, w)` after a PPUADDR write of `value`.
pub open spec fn addr_write(t: u16, v: u16, w: bool, value: u8) -> (u16, u16, bool) {
    if !w {
        ((t & 0b0000_0000_1111_1111) | (((value as u16) & 0b0011_1111) << 8u16), v, true)
    } else {
        let nt = (t & 0b1111_1111_0000_0000) | (value as u16);
        (nt, nt, false)
    }
}

/// `(fine_x, v)` after a horizontal scroll increment.
pub open spec fn h_increment(fine_x: u8, v: u16) -> (u8, u16) {
    if fine_x < 7 {
        ((fine_x + 1) as u8, v)
    } else if v & COARSE_X_MASK == 31 {
        (0u8, (v & !COARSE_X_MASK) ^ NT_H_BIT)
    } else {
        (0u8, (v & !COARSE_X_MASK) | (((v & COARSE_X_MASK) + 1) as u16))
    }
}

/// `v` after a vertical scroll increment.
pub open spec fn v_increment(v: u16) -> u16 {
    let fine_y = (v & FINE_Y_MASK) >> 12u16;
    if fine_y < 7 {
        (v & !FINE_Y_MASK) | (((fine_y + 1) as u16) << 12u16)
    } else {
        let v0 = v & !FINE_Y_MASK;
        let coarse_y = (v0 & COARSE_Y_MASK) >> 5u16;
        if coarse_y == 29 {
            (v0 & !COARSE_Y_MASK) ^ NT_V_BIT
        } else if coarse_y == 31 {
            v0 & !COARSE_Y_MASK
        } else {
            (v0 & !COARSE_Y_MASK) | (((coarse_y + 1) as u16) << 5u16)
        }
    }
}

/// `v` with its horizontal bits (coarse X, nametable) taken from `t`.
pub open spec fn copy_h(v: u16, t: u16) -> u16 {
    (v & !(COARSE_X_MASK | NT_SELECT_MASK)) | (t & (COARSE_X_MASK | NT_SELECT_MASK))
}

/// `v` with its vertical bits (coarse Y, nametable, fine Y) taken from `t`.
pub open spec fn copy_v(v: u16, t: u16) -> u16 {
    (v & !(COARSE_Y_MASK | NT_SELECT_MASK | FINE_Y_MASK)) | (t & (COARSE_Y_MASK | NT_SELECT_MASK
        | FINE_Y_MASK))
}

/// `(scanline, cycle)` one PPU cycle after `(sl, cyc)`.
pub open spec fn next_position(sl: u16, cyc: u16) -> (u16, u16) {
    if cyc + 1 >= CYCLES_PER_SCANLINE {
        (if sl + 1 >= SCANLINES_PER_FRAME { 0u16 } else { (sl + 1) as u16 }, 0u16)
    } else {
        (sl, (cyc + 1) as u16)
    }
}

/// Whether the scroll registers are driven on `(sl, cyc)` with mask `mask`.
pub open spec fn rendering_enabled(mask: u8) -> bool {
    mask & (MASK_SHOW_BG | MASK_SHOW_SPRITES) != 0
}

/// Whether `(sl, cyc)` has a horizontal scroll increment.
pub open spec fn h_inc_at(sl: u16, cyc: u16) -> bool {
    (sl < 240 || sl == SCANLINE_PRERENDER) && H_SCROLL_INC_STEP <= cyc <= H_SCROLL_INC_LAST && cyc
        % H_SCROLL_INC_STEP == 0
}

/// Whether `(sl, cyc)` has the vertical scroll increment.
pub open spec fn v_inc_at(sl: u16, cyc: u16) -> bool {
    (sl < 240 || sl == SCANLINE_PRERENDER) && cyc == VERT_SCROLL_INC_CYCLE
}

/// Whether `(sl, cyc)` copies the vertical bits of `t` into `v`.
pub open spec fn v_copy_at(sl: u16, cyc: u16) -> bool {
    sl == SCANLINE_PRERENDER && V_COPY_CYCLE_START <= cyc <= V_COPY_CYCLE_END
}

/// `(fine_x, v)` after the scroll updates of the cycle `(sl, cyc)`.
pub open spec fn scroll_after(mask: u8, sl: u16, cyc: u16, fine_x: u8, v: u16, t: u16) -> (u8, u16) {
    if !rendering_enabled(mask) {
        (fine_x, v)
    } else {
        let (f1, v1) = if h_inc_at(sl, cyc) {
            h_increment(fine_x, v)
        } else {
            (fine_x, v)
        };
        let v2 = if v_inc_at(sl, cyc) {
            v_increment(v1)
        } else {
            v1
        };
        let v3 = if cyc == H_COPY_CYCLE {
            copy_h(v2, t)
        } else {
            v2
        };
        let v4 = if v_copy_at(sl, cyc) {
            copy_v(v3, t)
        } else {
            v3
        };
        (f1, v4)
    }
}

impl Ppu {
    /// Lengths of the framebuffer and pattern buffer, and the stepper's range.
    pub open spec fn wf(&self) -> bool {
        &&& self.framebuffer@.len() == FRAMEBUFFER_SIZE
        &&& self.bg_pattern@.len() == FRAMEBUFFER_SIZE
        &&& self.scanline < SCANLINES_PER_FRAME
        &&& self.cycle < CYCLES_PER_SCANLINE
    }

    /// VRAM, palette, framebuffers and configuration are the same in `self` and `o`.
    pub open spec fn same_memory(&self, o: &Ppu) -> bool {
        &&& self.vram@ == o.vram@
        &&& self.palette@ == o.palette@
        &&& self.framebuffer@ == o.framebuffer@
        &&& self.bg_pattern@ == o.bg_pattern@
        &&& self.mirroring == o.mirroring
        &&& self.region == o.region
        &&& self.use_inaccurate_palette == o.use_inaccurate_palette
    }

    /// The stepper state (position and NMI latch) is the same in `self` and `o`.
    pub open spec fn same_timing(&self, o: &Ppu) -> bool {
        &&& self.scanline == o.scanline
        &&& self.cycle == o.cycle
        &&& self.nmi_request == o.nmi_request
    }

    /// The byte a nametable read of `addr` returns.
    pub open spec fn nametable_byte(&self, addr: u16) -> u8 {
        self.vram@[nametable_index(self.mirroring, addr)]
    }

    /// The byte a palette read of `addr` returns.
    pub open spec fn palette_byte(&self, addr: u16) -> u8 {
        self.palette@[palette_index(addr)]
    }

    /// Power-on state: registers, VRAM, OAM, palette and framebuffers
    /// zeroed, horizontal mirroring, NTSC, stepper at scanline 0 cycle 0.
    pub fn new() -> (p: Self)
        ensures
            p.wf(),
            p.ppuctrl == 0 && p.ppumask == 0 && p.oamaddr == 0 && p.ppustatus == 0,
            p.v == 0 && p.t == 0 && p.fine_x == 0 && !p.w,
            p.ppudata_buffer == 0 && p.open_bus == 0,
            forall|i: int| 0 <= i < 4096 ==> p.vram@[i] == 0,
            forall|i: int| 0 <= i < 256 ==> p.oam@[i] == 0,
            forall|i: int| 0 <= i < 32 ==> p.palette@[i] == 0,
            forall|i: int| 0 <= i < FRAMEBUFFER_SIZE ==> p.framebuffer@[i] == 0,
            forall|i: int| 0 <= i < FRAMEBUFFER_SIZE ==> p.bg_pattern@[i] == 0,
            p.scanline == 0 && p.cycle == 0 && !p.nmi_request,
            p.mirroring == Mirroring::Horizontal,
            p.region == Region::Ntsc,
            !p.use_inaccurate_palette,
            p.render@ == idle_render(),
    {
        let mut framebuffer: Vec<u32> = Vec::with_capacity(FRAMEBUFFER_SIZE);
        let mut bg_pattern: Vec<u8> = Vec::with_capacity(FRAMEBUFFER_SIZE);
        let mut i: usize = 0;
        while i < FRAMEBUFFER_SIZE
            invariant
                i <= FRAMEBUFFER_SIZE,
                framebuffer@.len() == i,
                bg_pattern@.len() == i,
                forall|k: int| 0 <= k < i ==> framebuffer@[k] == 0,
                forall|k: int| 0 <= k < i ==> bg_pattern@[k] == 0,
            decreases FRAMEBUFFER_SIZE - i,
        {
            framebuffer.push(0u32);
            bg_pattern.push(0u8);
            i = i + 1;
        }
        Ppu {
            ppuctrl: 0,
            ppumask: 0,
            oamaddr: 0,
            ppustatus: 0,
            v: 0,
            t: 0,
            fine_x: 0,
            w: false,
            ppudata_buffer: 0,
            open_bus: 0,
            vram: [0u8; 4096],
            oam: [0u8; 256],
            palette: [0u8; 32],
            framebuffer,
            bg_pattern,
            scanline: 0,
            cycle: 0,
            nmi_request: false,
            mirroring: Mirroring::Horizontal,
            region: Region::Ntsc,
            use_inaccurate_palette: false,
            render: RenderState::new(),
        }
    }

    /// Set the nametable mirroring mode.
    pub fn set_mirroring(&mut self, mirroring: Mirroring)
        ensures
            *final(self) == (Ppu { mirroring, ..*old(self) }),
    {
        self.mirroring = mirroring;
    }

    /// Read a register by index (`reg & 7` selects `$2000-$2007`).
    ///
    /// Write-only registers give the open-bus latch; PPUSTATUS and OAMDATA
    /// have their read side effects; PPUDATA gives the read buffer (the bus
    /// carries out the rest of a PPUDATA access).
    pub fn read_register(&mut self, reg: u16) -> (r: u8)
        ensures
            reg & 7 == 2 ==> r == (old(self).ppustatus & STATUS_FLAG_MASK) | (old(self).open_bus
                & STATUS_OPEN_BUS_MASK) && *final(self) == (Ppu {
                ppustatus: old(self).ppustatus & !STATUS_VBLANK,
                w: false,
                ..*old(self)
            }),
            reg & 7 == 4 ==> r == old(self).oam@[old(self).oamaddr as int] && *final(self) == (Ppu {
                oamaddr: (old(self).oamaddr + 1) as u8,
                ..*old(self)
            }) || (old(self).oamaddr == 255 && *final(self) == (Ppu { oamaddr: 0, ..*old(self) })
                && r == old(self).oam@[255]),
            reg & 7 == 7 ==> r == old(self).ppudata_buffer && *final(self) == *old(self),
            reg & 7 != 2 && reg & 7 != 4 && reg & 7 != 7 ==> r == old(self).open_bus && *final(self)
                == *old(self),
    {
        let r: u16 = reg & 0x07;
        if r == 2 {
            self.read_status()
        } else if r == 4 {
            self.read_oamdata()
        } else if r == 7 {
            self.ppudata_buffer
        } else {
            self.open_bus
        }
    }

    /// Write a register by index (`reg & 7` selects `$2000-$2007`); every
    /// write sets the open-bus latch.
    ///
    /// A PPUCTRL write also copies the base nametable into `t` and, when it
    /// sets the NMI bit during VBlank, latches an NMI request. PPUSTATUS and
    /// PPUDATA writes change nothing else (the bus handles PPUDATA).
    pub fn write_register(&mut self, reg: u16, value: u8)
        ensures
            final(self).open_bus == value,
            final(self).same_memory(old(self)),
            final(self).scanline == old(self).scanline,
            final(self).cycle == old(self).cycle,
            final(self).ppudata_buffer == old(self).ppudata_buffer,
            final(self).ppustatus == old(self).ppustatus,
            reg & 7 == 0 ==> final(self).ppuctrl == value && final(self).t == t_after_ctrl(
                old(self).t,
                value,
            ) && final(self).nmi_request == (old(self).nmi_request || (value & CTRL_NMI != 0
                && old(self).ppustatus & STATUS_VBLANK != 0)),
            reg & 7 != 0 ==> final(self).ppuctrl == old(self).ppuctrl && final(self).nmi_request
                == old(self).nmi_request,
            final(self).nmi_request == nmi_after_call(*old(self), PpuCall::WriteRegister(reg, value)),
            reg & 7 == 1 ==> final(self).ppumask == value,
            reg & 7 != 1 ==> final(self).ppumask == old(self).ppumask,
            reg & 7 == 3 ==> final(self).oamaddr == value,
            reg & 7 == 4 ==> final(self).oam@ == old(self).oam@.update(old(self).oamaddr as int, value)
                && final(self).oamaddr == (if old(self).oamaddr == 255 { 0u8 } else { (old(
                self).oamaddr + 1) as u8 }),
            reg & 7 != 3 && reg & 7 != 4 ==> final(self).oamaddr == old(self).oamaddr,
            reg & 7 != 4 ==> final(self).oam@ == old(self).oam@,
            reg & 7 == 5 ==> (final(self).t, final(self).fine_x, final(self).w) == scroll_write(
                old(self).t,
                old(self).fine_x,
                old(self).w,
                value,
            ) && final(self).v == old(self).v,
            reg & 7 == 6 ==> (final(self).t, final(self).v, final(self).w) == addr_write(
                old(self).t,
                old(self).v,
                old(self).w,
                value,
            ) && final(self).fine_x == old(self).fine_x,
            reg & 7 != 0 && reg & 7 != 5 && reg & 7 != 6 ==> final(self).t == old(self).t,
            reg & 7 != 5 && reg & 7 != 6 ==> final(self).v == old(self).v && final(self).w == old(
                self).w && final(self).fine_x == old(self).fine_x,
    {
        self.open_bus = value;
        let r: u16 = reg & 0x07;
        if r == 0 {
            self.ppuctrl = value;
            let nt: u16 = (value as u16) & 0b11;
            self.t = (self.t & !NT_SELECT_MASK) | (nt << 10u16);
            if (value & CTRL_NMI) != 0 && self.in_vblank() {
                self.nmi_request = true;
            }
        } else if r == 1 {
            self.ppumask = value;
        } else if r == 3 {
            self.oamaddr = value;
        } else if r == 4 {
            self.write_oamdata(value);
        } else if r == 5 {
            self.write_ppuscroll(value);
        } else if r == 6 {
            self.write_ppuaddr(value);
        }
    }

    /// Read PPUSTATUS: the flag bits over the open-bus low bits; clears
    /// VBlank and the write latch.
    pub fn read_status(&mut self) -> (r: u8)
        ensures
            r == (old(self).ppustatus & STATUS_FLAG_MASK) | (old(self).open_bus & STATUS_OPEN_BUS_MASK),
            *final(self) == (Ppu { ppustatus: old(self).ppustatus & !STATUS_VBLANK, w: false, ..*old(self) }),
    {
        let result: u8 = (self.ppustatus & STATUS_FLAG_MASK) | (self.open_bus & STATUS_OPEN_BUS_MASK);
        self.ppustatus = self.ppustatus & !STATUS_VBLANK;
        self.w = false;
        result
    }

    /// Read OAMDATA: OAM at OAMADDR, then OAMADDR advances (wrapping).
    pub fn read_oamdata(&mut self) -> (r: u8)
        ensures
            r == old(self).oam@[old(self).oamaddr as int],
            *final(self) == (Ppu {
                oamaddr: (if old(self).oamaddr == 255 { 0u8 } else { (old(self).oamaddr + 1) as u8 }),
                ..*old(self)
            }),
    {
        let value: u8 = self.oam[self.oamaddr as usize];
        self.oamaddr = self.oamaddr.wrapping_add(1);
        value
    }

    /// Write OAMDATA: OAM at OAMADDR takes `value`, then OAMADDR advances.
    pub fn write_oamdata(&mut self, value: u8)
        ensures
            final(self).oam@ == old(self).oam@.update(old(self).oamaddr as int, value),
            final(self).oamaddr == (if old(self).oamaddr == 255 { 0u8 } else { (old(self).oamaddr + 1) as u8 }),
            *final(self) == (Ppu { oam: final(self).oam, oamaddr: final(self).oamaddr, ..*old(self) }),
    {
        let a: usize = self.oamaddr as usize;
        self.oam[a] = value;
        self.oamaddr = self.oamaddr.wrapping_add(1);
    }

    /// Write PPUSCROLL: X on the first write (coarse X into `t`, fine X),
    /// Y on the second (coarse and fine Y into `t`).
    pub fn write_ppuscroll(&mut self, value: u8)
        ensures
            (final(self).t, final(self).fine_x, final(self).w) == scroll_write(old(self).t, old(self).fine_x, old(self).w, value),
            *final(self) == (Ppu { t: final(self).t, fine_x: final(self).fine_x, w: final(self).w, ..*old(self) }),
    {
        if !self.w {
            self.t = (self.t & 0b1111_1111_1110_0000) | ((value as u16) >> 3u16);
            self.fine_x = value & 0b0000_0111;
            self.w = true;
        } else {
            self.t = (self.t & 0b1000_1100_0001_1111) | (((value as u16) & 0b1111_1000) << 2u16)
                | (((value as u16) & 0b0000_0111) << 12u16);
            self.w = false;
        }
    }

    /// Write PPUADDR: the high six bits on the first write, the low byte on
    /// the second, which also copies `t` into `v`.
    pub fn write_ppuaddr(&mut self, value: u8)
        ensures
            (final(self).t, final(self).v, final(self).w) == addr_write(old(self).t, old(self).v, old(self).w, value),
            *final(self) == (Ppu { t: final(self).t, v: final(self).v, w: final(self).w, ..*old(self) }),
    {
        if !self.w {
            self.t = (self.t & 0b0000_0000_1111_1111) | (((value as u16) & 0b0011_1111) << 8u16);
            self.w = true;
        } else {
            self.t = (self.t & 0b1111_1111_0000_0000) | (value as u16);
            self.v = self.t;
            self.w = false;
        }
    }

    /// The current VRAM address `v`.
    pub fn vram_addr(&self) -> (r: u16)
        ensures
            r == self.v,
    {
        self.v
    }

    /// VRAM address increment per PPUDATA access: 32 when PPUCTRL bit 2 is
    /// set, else 1.
    pub fn vram_increment(&self) -> (r: u16)
        ensures
            r == (if self.ppuctrl & CTRL_INCREMENT_32 != 0 { 32u16 } else { 1u16 }),
    {
        if (self.ppuctrl & CTRL_INCREMENT_32) != 0 {
            32
        } else {
            1
        }
    }

    /// Advance `v` by the increment, wrapping within `$0000-$3FFF`.
    pub fn advance_vram_addr(&mut self)
        ensures
            final(self).v as int == (old(self).v as int + (if old(self).ppuctrl & CTRL_INCREMENT_32
                != 0 { 32int } else { 1int })) % 0x4000,
            *final(self) == (Ppu { v: final(self).v, ..*old(self) }),
    {
        let inc: u16 = self.vram_increment();
        let s: u16 = self.v.wrapping_add(inc);
        let old_v: u16 = self.v;
        assert((s & 0x3FFFu16) as int == (s as int) % 0x4000) by (bit_vector);
        assert((s as int) % 0x4000 == (old_v as int + inc as int) % 0x4000);
        self.v = s & 0x3FFF;
    }

    /// The PPUDATA read buffer.
    pub fn ppudata_buffer(&self) -> (r: u8)
        ensures
            r == self.ppudata_buffer,
    {
        self.ppudata_buffer
    }

    /// Set the PPUDATA read buffer.
    pub fn set_ppudata_buffer(&mut self, value: u8)
        ensures
            *final(self) == (Ppu { ppudata_buffer: value, ..*old(self) }),
    {
        self.ppudata_buffer = value;
    }

    /// Map a nametable address (`$2000-$3EFF`) to its VRAM index under the
    /// current mirroring. The address must have bit 13 set (`$2000-$3FFF`
    /// and its mirrors); below `$2000` the offset computation underflows.
    pub fn map_nametable(&self, addr: u16) -> (idx: usize)
        requires
            addr & 0x2000 == 0x2000,
        ensures
            idx as int == nametable_index(self.mirroring, addr),
            idx < 4096,
    {
        let a: u16 = addr & 0x2FFF;
        proof {
            crate::bits::lemma_u16_bit13(addr);
        }
        let local: usize = (a - 0x2000) as usize;
        let nt: usize = local / 1024;
        let offset: usize = local % 1024;
        let phys: usize = match self.mirroring {
            Mirroring::Horizontal => nt / 2,
            Mirroring::Vertical => nt % 2,
            Mirroring::FourScreen => nt,
            Mirroring::SingleScreen(n) => (n % 4) as usize,
        };
        phys * 1024 + offset
    }

    /// Map a palette address to its palette RAM index.
    pub fn map_palette(&self, addr: u16) -> (idx: usize)
        ensures
            idx as int == palette_index(addr),
            idx < 32,
    {
        let a16: u16 = addr & 0x1F;
        proof {
            crate::bits::lemma_u16_masks(addr);
        }
        let a: u8 = a16 as u8;
        if a == 0x10 || a == 0x14 || a == 0x18 || a == 0x1C {
            (a - 0x10) as usize
        } else {
            a as usize
        }
    }

    /// Read a nametable byte at `addr` (`$2000-$3EFF`, mirrored; bit 13 set).
    pub fn read_nametable(&self, addr: u16) -> (r: u8)
        requires
            addr & 0x2000 == 0x2000,
        ensures
            r == self.nametable_byte(addr),
    {
        let idx: usize = self.map_nametable(addr);
        self.vram[idx]
    }

    /// Write a nametable byte at `addr` (bit 13 set).
    pub fn write_nametable(&mut self, addr: u16, value: u8)
        requires
            addr & 0x2000 == 0x2000,
        ensures
            final(self).vram@ == old(self).vram@.update(nametable_index(old(self).mirroring, addr), value),
            *final(self) == (Ppu { vram: final(self).vram, ..*old(self) }),
    {
        let idx: usize = self.map_nametable(addr);
        self.vram[idx] = value;
    }

    /// Read a palette byte at `addr` (`$3F00-$3FFF`, mirrored).
    pub fn read_palette(&self, addr: u16) -> (r: u8)
        ensures
            r == self.palette_byte(addr),
    {
        let idx: usize = self.map_palette(addr);
        self.palette[idx]
    }

    /// Write a palette byte at `addr`.
    pub fn write_palette(&mut self, addr: u16, value: u8)
        ensures
            final(self).palette@ == old(self).palette@.update(palette_index(addr), value),
            *final(self) == (Ppu { palette: final(self).palette, ..*old(self) }),
    {
        let idx: usize = self.map_palette(addr);
        self.palette[idx] = value;
    }

    /// OAM DMA: copy 256 bytes into OAM; OAMADDR is left at 0.
    pub fn oam_dma(&mut self, data: &[u8; 256])
        ensures
            final(self).oam@ == data@,
            *final(self) == (Ppu { oam: final(self).oam, oamaddr: 0, ..*old(self) }),
    {
        self.oam = *data;
        self.oamaddr = 0;
    }

    /// Set or clear the VBlank flag.
    pub fn set_vblank(&mut self, on: bool)
        ensures
            *final(self) == (Ppu {
                ppustatus: if on { old(self).ppustatus | STATUS_VBLANK } else { old(self).ppustatus & !STATUS_VBLANK },
                ..*old(self)
            }),
    {
        if on {
            self.ppustatus = self.ppustatus | STATUS_VBLANK;
        } else {
            self.ppustatus = self.ppustatus & !STATUS_VBLANK;
        }
    }

    /// Set or clear the sprite 0 hit flag.
    pub fn set_sprite_zero_hit(&mut self, on: bool)
        ensures
            *final(self) == (Ppu {
                ppustatus: if on { old(self).ppustatus | STATUS_SPRITE_ZERO } else { old(self).ppustatus & !STATUS_SPRITE_ZERO },
                ..*old(self)
            }),
    {
        if on {
            self.ppustatus = self.ppustatus | STATUS_SPRITE_ZERO;
        } else {
            self.ppustatus = self.ppustatus & !STATUS_SPRITE_ZERO;
        }
    }

    /// Set or clear the sprite overflow flag.
    pub fn set_sprite_overflow(&mut self, on: bool)
        ensures
            *final(self) == (Ppu {
                ppustatus: if on { old(self).ppustatus | STATUS_OVERFLOW } else { old(self).ppustatus & !STATUS_OVERFLOW },
                ..*old(self)
            }),
    {
        if on {
            self.ppustatus = self.ppustatus | STATUS_OVERFLOW;
        } else {
            self.ppustatus = self.ppustatus & !STATUS_OVERFLOW;
        }
    }

    /// Whether VBlank NMI is enabled (PPUCTRL bit 7).
    pub fn nmi_enabled(&self) -> (r: bool)
        ensures
            r == (self.ppuctrl & CTRL_NMI != 0),
    {
        (self.ppuctrl & CTRL_NMI) != 0
    }

    /// Whether the VBlank flag is set.
    pub fn in_vblank(&self) -> (r: bool)
        ensures
            r == (self.ppustatus & STATUS_VBLANK != 0),
    {
        (self.ppustatus & STATUS_VBLANK) != 0
    }

    /// Whether the sprite 0 hit flag is set.
    pub fn sprite_zero_hit(&self) -> (r: bool)
        ensures
            r == (self.ppustatus & STATUS_SPRITE_ZERO != 0),
    {
        (self.ppustatus & STATUS_SPRITE_ZERO) != 0
    }

    /// Whether the sprite overflow flag is set.
    pub fn sprite_overflow(&self) -> (r: bool)
        ensures
            r == (self.ppustatus & STATUS_OVERFLOW != 0),
    {
        (self.ppustatus & STATUS_OVERFLOW) != 0
    }

    /// Current scanline (0..=261).
    pub fn scanline(&self) -> (r: u16)
        ensures
            r == self.scanline,
    {
        self.scanline
    }

    /// Current cycle within the scanline (0..=340).
    pub fn cycle(&self) -> (r: u16)
        ensures
            r == self.cycle,
    {
        self.cycle
    }

    /// Return the pending NMI request and clear it.
    pub fn take_nmi_request(&mut self) -> (r: bool)
        ensures
            r == old(self).nmi_request,
            *final(self) == (Ppu { nmi_request: false, ..*old(self) }),
            final(self).nmi_request == nmi_after_call(*old(self), PpuCall::TakeNmi),
    {
        let r: bool = self.nmi_request;
        self.nmi_request = false;
        r
    }

    /// Horizontal scroll increment: fine X, then coarse X with the
    /// horizontal nametable toggle on wrap.
    pub fn increment_h_scroll(&mut self)
        ensures
            (final(self).fine_x, final(self).v) == h_increment(old(self).fine_x, old(self).v),
            *final(self) == (Ppu { fine_x: final(self).fine_x, v: final(self).v, ..*old(self) }),
    {
        if self.fine_x < 7 {
            self.fine_x = self.fine_x + 1;
        } else {
            self.fine_x = 0;
            let v: u16 = self.v;
            let coarse_x: u16 = v & COARSE_X_MASK;
            proof {
                crate::bits::lemma_u16_masks(v);
            }
            if coarse_x == 31 {
                self.v = (self.v & !COARSE_X_MASK) ^ NT_H_BIT;
            } else {
                self.v = (self.v & !COARSE_X_MASK) | (coarse_x + 1);
            }
        }
    }

    /// Vertical scroll increment: fine Y, then coarse Y; past row 29 coarse
    /// Y wraps and the vertical nametable bit toggles, past 31 it just wraps.
    pub fn increment_v_scroll(&mut self)
        ensures
            final(self).v == v_increment(old(self).v),
            *final(self) == (Ppu { v: final(self).v, ..*old(self) }),
    {
        let v: u16 = self.v;
        let fine_y: u16 = (v & FINE_Y_MASK) >> 12u16;
        assert(fine_y <= 7) by (bit_vector) requires fine_y == (v & FINE_Y_MASK) >> 12u16;
        if fine_y < 7 {
            self.v = (v & !FINE_Y_MASK) | ((fine_y + 1) << 12u16);
        } else {
            let v0: u16 = v & !FINE_Y_MASK;
            let coarse_y: u16 = (v0 & COARSE_Y_MASK) >> 5u16;
            assert(coarse_y <= 31) by (bit_vector) requires coarse_y == (v0 & COARSE_Y_MASK) >> 5u16;
            if coarse_y == 29 {
                self.v = (v0 & !COARSE_Y_MASK) ^ NT_V_BIT;
            } else if coarse_y == 31 {
                self.v = v0 & !COARSE_Y_MASK;
            } else {
                self.v = (v0 & !COARSE_Y_MASK) | ((coarse_y + 1) << 5u16);
            }
        }
    }

    /// Copy the horizontal bits of `t` into `v`.
    pub fn copy_h_t_to_v(&mut self)
        ensures
            *final(self) == (Ppu { v: copy_h(old(self).v, old(self).t), ..*old(self) }),
    {
        let h_bits: u16 = self.t & (COARSE_X_MASK | NT_SELECT_MASK);
        self.v = (self.v & !(COARSE_X_MASK | NT_SELECT_MASK)) | h_bits;
    }

    /// Copy the vertical bits of `t` into `v`.
    pub fn copy_v_t_to_v(&mut self)
        ensures
            *final(self) == (Ppu { v: copy_v(old(self).v, old(self).t), ..*old(self) }),
    {
        let v_bits: u16 = self.t & (COARSE_Y_MASK | NT_SELECT_MASK | FINE_Y_MASK);
        self.v = (self.v & !(COARSE_Y_MASK | NT_SELECT_MASK | FINE_Y_MASK)) | v_bits;
    }

    /// Advance the PPU by one cycle; returns whether VBlank began with NMI
    /// enabled on this cycle.
    ///
    /// At scanline 241 cycle 1 VBlank is set (and an NMI latched when
    /// enabled); at the prerender scanline cycle 1 VBlank, sprite 0 hit and
    /// overflow are cleared. With rendering on, the scroll registers follow
    /// the hardware schedule (see [`scroll_after`]).
    pub fn step(&mut self) -> (nmi: bool)
        requires
            old(self).wf(),
        ensures
            final(self).wf(),
            (final(self).scanline, final(self).cycle) == next_position(old(self).scanline, old(self).cycle),
            nmi == (final(self).scanline == SCANLINE_VBLANK_START && final(self).cycle == VBLANK_NMI_CYCLE
                && old(self).ppuctrl & CTRL_NMI != 0),
            final(self).nmi_request == (old(self).nmi_request || nmi),
            final(self).nmi_request == nmi_after_call(*old(self), PpuCall::Step),
            final(self).ppustatus == (if final(self).scanline == SCANLINE_VBLANK_START && final(self).cycle
                == VBLANK_NMI_CYCLE {
                old(self).ppustatus | STATUS_VBLANK
            } else if final(self).scanline == SCANLINE_PRERENDER && final(self).cycle == VBLANK_NMI_CYCLE {
                old(self).ppustatus & !STATUS_VBLANK & !STATUS_OVERFLOW & !STATUS_SPRITE_ZERO
            } else {
                old(self).ppustatus
            }),
            (final(self).fine_x, final(self).v) == scroll_after(
                old(self).ppumask,
                final(self).scanline,
                final(self).cycle,
                old(self).fine_x,
                old(self).v,
                old(self).t,
            ),
            *final(self) == (Ppu {
                scanline: final(self).scanline,
                cycle: final(self).cycle,
                nmi_request: final(self).nmi_request,
                ppustatus: final(self).ppustatus,
                fine_x: final(self).fine_x,
                v: final(self).v,
                ..*old(self)
            }),
    {
        let mut nmi: bool = false;
        self.cycle = self.cycle + 1;
        if self.cycle >= CYCLES_PER_SCANLINE {
            self.cycle = 0;
            self.scanline = self.scanline + 1;
            if self.scanline >= SCANLINES_PER_FRAME {
                self.scanline = 0;
            }
        }
        if self.scanline == SCANLINE_VBLANK_START && self.cycle == VBLANK_NMI_CYCLE {
            self.set_vblank(true);
            if self.nmi_enabled() {
                self.nmi_request = true;
                nmi = true;
            }
        } else if self.scanline == SCANLINE_PRERENDER && self.cycle == VBLANK_NMI_CYCLE {
            self.set_vblank(false);
            self.set_sprite_overflow(false);
            self.set_sprite_zero_hit(false);
        }
        let rendering: bool = (self.ppumask & (MASK_SHOW_BG | MASK_SHOW_SPRITES)) != 0;
        if rendering {
            let does_scroll_inc: bool = self.scanline < 240 || self.scanline == SCANLINE_PRERENDER;
            if does_scroll_inc && self.cycle >= H_SCROLL_INC_STEP && self.cycle <= H_SCROLL_INC_LAST
                && (self.cycle % H_SCROLL_INC_STEP) == 0 {
                self.increment_h_scroll();
            }
            if does_scroll_inc && self.cycle == VERT_SCROLL_INC_CYCLE {
                self.increment_v_scroll();
            }
            if self.cycle == H_COPY_CYCLE {
                self.copy_h_t_to_v();
            }
            if self.scanline == SCANLINE_PRERENDER && self.cycle >= V_COPY_CYCLE_START && self.cycle
                <= V_COPY_CYCLE_END {
                self.copy_v_t_to_v();
            }
        }
        nmi
    }

    /// PPUCTRL.
    pub fn ppuctrl(&self) -> (r: u8)
        ensures
            r == self.ppuctrl,
    {
        self.ppuctrl
    }

    /// PPUMASK.
    pub fn ppumask(&self) -> (r: u8)
        ensures
            r == self.ppumask,
    {
        self.ppumask
    }

    /// PPUSTATUS flag byte (without open-bus fill).
    pub fn ppustatus(&self) -> (r: u8)
        ensures
            r == self.ppustatus,
    {
        self.ppustatus
    }

    /// OAMADDR.
    pub fn oamaddr(&self) -> (r: u8)
        ensures
            r == self.oamaddr,
    {
        self.oamaddr
    }

    /// The temporary VRAM address `t`.
    pub fn temp_vram_addr(&self) -> (r: u16)
        ensures
            r == self.t,
    {
        self.t
    }

    /// Fine X scroll.
    pub fn fine_x(&self) -> (r: u8)
        ensures
            r == self.fine_x,
    {
        self.fine_x
    }

    /// The shared write latch `w`.
    pub fn write_latch(&self) -> (r: bool)
        ensures
            r == self.w,
    {
        self.w
    }

    /// The OAM array.
    pub fn oam(&self) -> (r: &[u8; 256])
        ensures
            r@ == self.oam@,
    {
        &self.oam
    }

    /// The OAM array, mutably.
    pub fn oam_mut(&mut self) -> (r: &mut [u8; 256])
        ensures
            *r == old(self).oam,
            *final(self) == (Ppu { oam: *final(r), ..*old(self) }),
    {
        &mut self.oam
    }

    /// The palette RAM.
    pub fn palette(&self) -> (r: &[u8; 32])
        ensures
            r@ == self.palette@,
    {
        &self.palette
    }

    /// The nametable VRAM.
    pub fn vram(&self) -> (r: &[u8; 4096])
        ensures
            r@ == self.vram@,
    {
        &self.vram
    }

    /// The mirroring mode.
    pub fn mirroring(&self) -> (r: Mirroring)
        ensures
            r == self.mirroring,
    {
        self.mirroring
    }

    /// The framebuffer (256×240 ARGB).
    pub fn framebuffer(&self) -> (r: &[u32])
        ensures
            r@ == self.framebuffer@,
    {
        self.framebuffer.as_slice()
    }

    /// The framebuffer, mutably.
    pub fn framebuffer_mut(&mut self) -> (r: &mut [u32])
        ensures
            r@ == old(self).framebuffer@,
            final(r)@ == final(self).framebuffer@,
            *final(self) == (Ppu { framebuffer: final(self).framebuffer, ..*old(self) }),
    {
        self.framebuffer.as_mut_slice()
    }

    /// The per-pixel background pattern buffer.
    pub fn bg_pattern(&self) -> (r: &[u8])
        ensures
            r@ == self.bg_pattern@,
    {
        self.bg_pattern.as_slice()
    }

    /// Screen size `(width, height)` in pixels.
    pub fn screen_size() -> (r: (usize, usize))
        ensures
            r == (SCREEN_WIDTH, SCREEN_HEIGHT),
    {
        (SCREEN_WIDTH, SCREEN_HEIGHT)
    }
}

} // verus!

verus! {

/// Position of `(sl, cyc)` within a frame, counted in PPU cycles.
pub open spec fn frame_position(sl: u16, cyc: u16) -> int {
    sl * 341 + cyc
}

/// The stepper walks the frame one cycle at a time: each step moves the
/// position on by one, wrapping to scanline 0 cycle 0 after 262 × 341 = 89342 cycles.
pub proof fn law_step_advances_one_cycle(sl: u16, cyc: u16)
    requires
        sl < SCANLINES_PER_FRAME,
        cyc < CYCLES_PER_SCANLINE,
    ensures
        frame_position(next_position(sl, cyc).0, next_position(sl, cyc).1) == (frame_position(sl, cyc) + 1)
            % 89342int,
        next_position(sl, cyc).0 < SCANLINES_PER_FRAME,
        next_position(sl, cyc).1 < CYCLES_PER_SCANLINE,
{
}

/// Two PPUADDR writes, high byte then low byte, load `v` with the 14-bit
/// address `(hi & 0x3F) << 8 | lo` and leave the latch clear.
pub proof fn law_ppuaddr_two_writes(t: u16, v: u16, hi: u8, lo: u8)
    ensures
        ({
            let (t1, v1, w1) = addr_write(t, v, false, hi);
            let (t2, v2, w2) = addr_write(t1, v1, w1, lo);
            v2 == (((hi as u16) & 0x3F) << 8u16) | (lo as u16) && !w2 && v2 == t2
        }),
{
    let t1 = (t & 0b0000_0000_1111_1111) | (((hi as u16) & 0b0011_1111) << 8u16);
    assert(((t1 & 0b1111_1111_0000_0000) | (lo as u16)) == (((hi as u16) & 0x3F) << 8u16) | (lo as u16))
        by (bit_vector)
        requires t1 == (t & 0b0000_0000_1111_1111) | (((hi as u16) & 0b0011_1111) << 8u16);
}

/// Two PPUSCROLL writes, X then Y, place coarse X, coarse Y and fine Y in
/// `t` and fine X in its own register, keeping the nametable bits.
pub proof fn law_ppuscroll_two_writes(t: u16, fine_x: u8, x: u8, y: u8)
    ensures
        ({
            let (t1, f1, w1) = scroll_write(t, fine_x, false, x);
            let (t2, f2, w2) = scroll_write(t1, f1, w1, y);
            &&& f2 == x & 7
            &&& t2 & COARSE_X_MASK == (x >> 3u8) as u16
            &&& (t2 & COARSE_Y_MASK) >> 5u16 == (y >> 3u8) as u16
            &&& (t2 & FINE_Y_MASK) >> 12u16 == (y & 7) as u16
            &&& t2 & NT_SELECT_MASK == t & NT_SELECT_MASK
            &&& !w2
        }),
{
    let t1 = (t & 0b1111_1111_1110_0000) | ((x as u16) >> 3u16);
    let t2 = (t1 & 0b1000_1100_0001_1111) | (((y as u16) & 0b1111_1000) << 2u16) | (((y as u16) & 0b0000_0111)
        << 12u16);
    assert(t2 & COARSE_X_MASK == (x >> 3u8) as u16 && (t2 & COARSE_Y_MASK) >> 5u16 == (y >> 3u8) as u16 && (t2
        & FINE_Y_MASK) >> 12u16 == (y & 7) as u16 && t2 & NT_SELECT_MASK == t & NT_SELECT_MASK) by (bit_vector)
        requires
            t1 == (t & 0b1111_1111_1110_0000) | ((x as u16) >> 3u16),
            t2 == (t1 & 0b1000_1100_0001_1111) | (((y as u16) & 0b1111_1000) << 2u16) | (((y as u16)
                & 0b0000_0111) << 12u16),
    ;
}

/// Palette RAM mirroring: every 32 bytes repeat, and the sprite-palette
/// entries `$3F10/$3F14/$3F18/$3F1C` are the background ones at `$3F00/4/8/C`.
pub proof fn law_palette_mirroring(addr: u16, k: u16)
    requires
        k < 4,
        addr <= 0xFFDF,
    ensures
        palette_index((addr + 0x20) as u16) == palette_index(addr),
        palette_index((0x3F10 + 4 * k) as u16) == palette_index((0x3F00 + 4 * k) as u16),
        0 <= palette_index(addr) < 32,
{
    let a2 = (addr + 0x20) as u16;
    assert(a2 & 0x1F == addr & 0x1F) by (bit_vector) requires a2 == (addr + 0x20) as u16, addr <= 0xFFDF;
    crate::bits::lemma_u16_masks(addr);
    let p = (0x3F10 + 4 * k) as u16;
    let q = (0x3F00 + 4 * k) as u16;
    assert(p & 0x1F == 0x10 + 4 * k && q & 0x1F == 4 * k) by (bit_vector)
        requires p == (0x3F10 + 4 * k) as u16, q == (0x3F00 + 4 * k) as u16, k < 4;
}

/// Nametable mirroring: `$3000-$3EFF` mirrors `$2000-$2EFF`; horizontal
/// mirroring shares `$2000`/`$2400` and `$2800`/`$2C00`, vertical shares
/// `$2000`/`$2800` and `$2400`/`$2C00`, four-screen keeps all four apart.
pub proof fn law_nametable_mirroring(m: Mirroring, off: u16)
    requires
        off < 0x400,
    ensures
        nametable_index(m, (0x3000 + off) as u16) == nametable_index(m, (0x2000 + off) as u16),
        nametable_index(Mirroring::Horizontal, (0x2000 + off) as u16) == nametable_index(Mirroring::Horizontal, (0x2400 + off) as u16),
        nametable_index(Mirroring::Horizontal, (0x2800 + off) as u16) == nametable_index(Mirroring::Horizontal, (0x2C00 + off) as u16),
        nametable_index(Mirroring::Vertical, (0x2000 + off) as u16) == nametable_index(Mirroring::Vertical, (0x2800 + off) as u16),
        nametable_index(Mirroring::Vertical, (0x2400 + off) as u16) == nametable_index(Mirroring::Vertical, (0x2C00 + off) as u16),
        nametable_index(Mirroring::Horizontal, (0x2000 + off) as u16) != nametable_index(Mirroring::Horizontal, (0x2800 + off) as u16),
        nametable_index(Mirroring::Vertical, (0x2000 + off) as u16) != nametable_index(Mirroring::Vertical, (0x2400 + off) as u16),
        nametable_index(Mirroring::FourScreen, (0x2000 + off) as u16) != nametable_index(Mirroring::FourScreen, (0x2400 + off) as u16),
        nametable_index(Mirroring::FourScreen, (0x2000 + off) as u16) != nametable_index(Mirroring::FourScreen, (0x2800 + off) as u16),
        nametable_index(Mirroring::FourScreen, (0x2400 + off) as u16) != nametable_index(Mirroring::FourScreen, (0x2C00 + off) as u16),
{
    let a0 = (0x2000 + off) as u16;
    let a1 = (0x2400 + off) as u16;
    let a2 = (0x2800 + off) as u16;
    let a3 = (0x2C00 + off) as u16;
    let a4 = (0x3000 + off) as u16;
    assert(a0 & 0x2FFF == a0 && a1 & 0x2FFF == a1 && a2 & 0x2FFF == a2 && a3 & 0x2FFF == a3 && a4 & 0x2FFF == a0)
        by (bit_vector)
        requires
            off < 0x400,
            a0 == (0x2000 + off) as u16,
            a1 == (0x2400 + off) as u16,
            a2 == (0x2800 + off) as u16,
            a3 == (0x2C00 + off) as u16,
            a4 == (0x3000 + off) as u16,
    ;
}

/// A nametable write is read back at the same address, and at every
/// address the mirroring maps to the same VRAM byte: `after` is any PPU in
/// the state `write_nametable(addr, value)` leaves `before` in.
pub proof fn law_nametable_read_after_write(before: Ppu, after: Ppu, addr: u16, other: u16, value: u8)
    requires
        addr & 0x2000 == 0x2000,
        other & 0x2000 == 0x2000,
        nametable_index(before.mirroring, addr) == nametable_index(before.mirroring, other),
        after.vram@ == before.vram@.update(nametable_index(before.mirroring, addr), value),
        after.mirroring == before.mirroring,
    ensures
        after.nametable_byte(other) == value,
        after.nametable_byte(addr) == value,
{
    lemma_nametable_index_bound(before.mirroring, addr);
}

/// Nametable indices lie inside the 4 KB VRAM.
pub proof fn lemma_nametable_index_bound(m: Mirroring, addr: u16)
    requires
        addr & 0x2000 == 0x2000,
    ensures
        0 <= nametable_index(m, addr) < 4096,
{
    let a = addr & 0x2FFF;
    crate::bits::lemma_u16_bit13(addr);
}


/// A call on the PPU, as far as the NMI request is concerned: a step, a
/// register write, taking the request, or any other call (all of which
/// keep the request).
pub enum PpuCall {
    Step,
    WriteRegister(u16, u8),
    TakeNmi,
    Other,
}

/// Whether `call` on `p` latches an NMI request: a step that reaches
/// scanline 241 cycle 1 with NMI enabled, or a PPUCTRL write that sets the
/// NMI bit while in VBlank.
pub open spec fn nmi_raise(p: Ppu, call: PpuCall) -> bool {
    match call {
        PpuCall::Step => next_position(p.scanline, p.cycle) == (SCANLINE_VBLANK_START, VBLANK_NMI_CYCLE)
            && p.ppuctrl & CTRL_NMI != 0,
        PpuCall::WriteRegister(reg, value) => reg & 7 == 0 && value & CTRL_NMI != 0 && p.ppustatus & STATUS_VBLANK
            != 0,
        _ => false,
    }
}

/// The NMI request after `call` on `p`: cleared by taking it, else latched
/// when the call raises one.
pub open spec fn nmi_after_call(p: Ppu, call: PpuCall) -> bool {
    match call {
        PpuCall::TakeNmi => false,
        _ => p.nmi_request || nmi_raise(p, call),
    }
}

/// The NMI request is a latch: over any run of calls with no take among
/// them (each call leaving the request as its contract says), the request
/// at the end is set exactly when it was set at the start or some call
/// raised it; and right after a take it is clear.
pub proof fn law_nmi_request_since_take(states: Seq<Ppu>, calls: Seq<PpuCall>)
    requires
        states.len() == calls.len() + 1,
        forall|i: int| 0 <= i < calls.len() ==> #[trigger] states[i + 1].nmi_request == nmi_after_call(states[i], calls[i]),
        forall|i: int| 0 <= i < calls.len() ==> !(#[trigger] calls[i] is TakeNmi),
    ensures
        states.last().nmi_request == (states[0].nmi_request || exists|i: int|
            0 <= i < calls.len() && #[trigger] nmi_raise(states[i], calls[i])),
        forall|p: Ppu| !#[trigger] nmi_after_call(p, PpuCall::TakeNmi),
    decreases calls.len(),
{
    if calls.len() > 0 {
        let n = calls.len() - 1;
        law_nmi_request_since_take(states.take(n + 1), calls.take(n));
        assert(states.take(n + 1).last() == states[n]);
        assert(!(calls[n] is TakeNmi));
        if exists|i: int| 0 <= i < n && #[trigger] nmi_raise(states.take(n + 1)[i], calls.take(n)[i]) {
            let i = choose|i: int| 0 <= i < n && #[trigger] nmi_raise(states.take(n + 1)[i], calls.take(n)[i]);
            assert(nmi_raise(states[i], calls[i]));
        }
        if exists|i: int| 0 <= i < calls.len() && #[trigger] nmi_raise(states[i], calls[i]) {
            let i = choose|i: int| 0 <= i < calls.len() && #[trigger] nmi_raise(states[i], calls[i]);
            if i < n {
                assert(nmi_raise(states.take(n + 1)[i], calls.take(n)[i]));
            }
        }
    }
}

} // verus!
