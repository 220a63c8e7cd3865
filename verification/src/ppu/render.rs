//! PPU rendering pipeline — background and sprite pixel generation.
//!
//! Pattern data (CHR) belongs to the cartridge; the renderers take the
//! 8 KB pattern-table space `$0000-$1FFF` as a byte slice, and a read past
//! its end gives 0.
//!
//! See: https://www.nesdev.org/wiki/PPU_rendering

use vstd::prelude::*;
use crate::mappers::byte_or_zero;
use crate::region::Region;
use super::{Ppu, MASK_SHOW_BG, MASK_SHOW_BG_LEFT, MASK_SHOW_SPRITES, MASK_SHOW_SPRITES_LEFT, CTRL_BG_PATTERN_1000, CTRL_SPRITE_PATTERN_1000, CTRL_SPRITE_SIZE_16, CTRL_BASE_NT_MASK, STATUS_OVERFLOW, STATUS_SPRITE_ZERO, MAX_SPRITES_PER_SCANLINE, FRAMEBUFFER_SIZE};

verus! {

/// Nametable tile columns.
pub const NT_COLS: u16 = 32;
/// Nametable tile rows.
pub const NT_ROWS: u16 = 30;
/// Offset of the attribute table within a nametable.
pub const ATTR_TABLE_OFFSET: u16 = 0x03C0;
/// Base address of the nametables.
pub const NT_BASE: u16 = 0x2000;
/// Base address of palette RAM.
pub const PAL_BASE: u16 = 0x3F00;
/// Base address of the sprite palettes.
pub const SPRITE_PAL_BASE: u16 = 0x3F10;
/// Sprite attribute bits 0-1: palette.
pub const ATTR_PALETTE_MASK: u8 = 0b0000_0011;
/// Sprite attribute bit 5: behind the background.
pub const ATTR_PRIORITY_BEHIND: u8 = 0b0010_0000;
/// Sprite attribute bit 6: horizontal flip.
pub const ATTR_HFLIP: u8 = 0b0100_0000;
/// Sprite attribute bit 7: vertical flip.
pub const ATTR_VFLIP: u8 = 0b1000_0000;
/// Sprites in OAM.
pub const SPRITE_COUNT: usize = 64;
/// OAM Y at or above which a sprite is hidden.
pub const OAM_Y_HIDDEN: u8 = 0xEF;
/// OAM Y that ends sprite evaluation.
pub const OAM_Y_HALT: u8 = 0xFF;
/// Sprite 0 hit never fires at this X or beyond.
pub const SPRITE_ZERO_HIT_MAX_X: u16 = 255;

/// The 2C02 (NTSC) palette, each entry packed as `0xRRGGBB`.
pub open spec fn ntsc_palette_seq() -> Seq<u32> {
    seq![
        0x7C7C7Cu32, 0x0000FCu32, 0x0000BCu32, 0x4428BCu32, 0x940084u32, 0xA80020u32, 0xA81000u32, 0x881400u32,
        0x503000u32, 0x007800u32, 0x006800u32, 0x005800u32, 0x004058u32, 0x000000u32, 0x000000u32, 0x000000u32,
        0xBCBCBCu32, 0x0078F8u32, 0x0058F8u32, 0x6844FCu32, 0xD800CCu32, 0xE40058u32, 0xF83800u32, 0xE45C10u32,
        0xAC7C00u32, 0x00B800u32, 0x00A800u32, 0x00A844u32, 0x008888u32, 0x000000u32, 0x000000u32, 0x000000u32,
        0xF8F8F8u32, 0x3CBCFCu32, 0x6888FCu32, 0x9878F8u32, 0xF878F8u32, 0xF85898u32, 0xF87858u32, 0xFCA044u32,
        0xF8B800u32, 0xB8F818u32, 0x58D854u32, 0x58F898u32, 0x00E8D8u32, 0x787878u32, 0x000000u32, 0x000000u32,
        0xFCFCFCu32, 0xA4E4FCu32, 0xB8B8F8u32, 0xD8B8F8u32, 0xF8B8F8u32, 0xF8A4C0u32, 0xF0D0B0u32, 0xFCE0A8u32,
        0xF8D878u32, 0xD8F878u32, 0xB8F8B8u32, 0xB8F8D8u32, 0x00FCFCu32, 0xF8D8F8u32, 0x000000u32, 0x000000u32,
    ]
}

/// The 2C07 (PAL) palette, packed as `0xRRGGBB`.
pub open spec fn pal_palette_seq() -> Seq<u32> {
    seq![
        0x848484u32, 0x001D2Cu32, 0x0C0C44u32, 0x240454u32, 0x3C004Cu32, 0x4C0034u32, 0x4C0018u32, 0x400C00u32,
        0x2C1800u32, 0x182800u32, 0x083C00u32, 0x004000u32, 0x003C1Cu32, 0x00383Cu32, 0x040404u32, 0x000000u32,
        0xB4B4B4u32, 0x3060A4u32, 0x4848C8u32, 0x6038D8u32, 0x8030C8u32, 0x982CACu32, 0xA82C70u32, 0xB02C38u32,
        0xB43810u32, 0xB84800u32, 0x985800u32, 0x786800u32, 0x5C7800u32, 0x388000u32, 0x008C00u32, 0x040404u32,
        0xFFFFFFu32, 0x8CCCFFu32, 0xA8A8FFu32, 0xC0A8FFu32, 0xE8A4F0u32, 0xE8A0D8u32, 0xE89CB8u32, 0xE89888u32,
        0xE08C54u32, 0xD89838u32, 0xC0A024u32, 0xA0A818u32, 0x84B018u32, 0x60B818u32, 0x44C02Cu32, 0x040404u32,
        0xFFFFFFu32, 0x8CCCFFu32, 0xA8A8FFu32, 0xC0A8FFu32, 0xE8A4F0u32, 0xE8A0D8u32, 0xE89CB8u32, 0xE89888u32,
        0xE08C54u32, 0xD89838u32, 0xC0A024u32, 0xA0A818u32, 0x84B018u32, 0x60B818u32, 0x44C02Cu32, 0x040404u32,
    ]
}

/// The old, inaccurate NTSC palette kept as a debug option, packed as `0xRRGGBB`.
pub open spec fn inaccurate_palette_seq() -> Seq<u32> {
    seq![
        0x848484u32, 0x001D2Cu32, 0x1C0C54u32, 0x300464u32, 0x48005Cu32, 0x580044u32, 0x580024u32, 0x4C0C00u32,
        0x381800u32, 0x202800u32, 0x0C3C00u32, 0x004000u32, 0x003C1Cu32, 0x00383Cu32, 0x000000u32, 0x000000u32,
        0xB4B4B4u32, 0x386CBCu32, 0x5458ECu32, 0x7044F4u32, 0x9038E4u32, 0xA834C8u32, 0xB83488u32, 0xC03444u32,
        0xC44014u32, 0xC85000u32, 0xA86000u32, 0x887000u32, 0x6C8000u32, 0x448800u32, 0x009400u32, 0x000000u32,
        0xFFFFFFu32, 0x9CDCFFu32, 0xB8B8FFu32, 0xD0B8FFu32, 0xFFB0F4u32, 0xFFA8E0u32, 0xFFA4C0u32, 0xFFA090u32,
        0xF89458u32, 0xF0A038u32, 0xD8A820u32, 0xB8B014u32, 0x98B814u32, 0x70C014u32, 0x50C824u32, 0x000000u32,
        0xFFFFFFu32, 0x9CDCFFu32, 0xB8B8FFu32, 0xD0B8FFu32, 0xFFB0F4u32, 0xFFA8E0u32, 0xFFA4C0u32, 0xFFA090u32,
        0xF89458u32, 0xF0A038u32, 0xD8A820u32, 0xB8B014u32, 0x98B814u32, 0x70C014u32, 0x50C824u32, 0x000000u32,
    ]
}

/// Packed RGB of colour `index` (masked to 6 bits) for a region; the
/// inaccurate table replaces the NTSC one when `inaccurate` is set.
pub open spec fn palette_rgb(region: Region, inaccurate: bool, index: u8) -> u32 {
    let i = (index % 64) as int;
    if region == Region::Pal {
        pal_palette_seq()[i]
    } else if inaccurate {
        inaccurate_palette_seq()[i]
    } else {
        ntsc_palette_seq()[i]
    }
}

/// The opaque ARGB pixel of colour `index`.
pub open spec fn color_argb(region: Region, inaccurate: bool, index: u8) -> u32 {
    0xFF00_0000u32 | palette_rgb(region, inaccurate, index)
}

/// Packed RGB of entry `i` of the NTSC table.
fn ntsc_rgb(i: usize) -> (r: u32)
    requires
        i < 64,
    ensures
        r == ntsc_palette_seq()[i as int],
{
    let t: [u32; 64] = [
        0x7C7C7C, 0x0000FC, 0x0000BC, 0x4428BC, 0x940084, 0xA80020, 0xA81000, 0x881400,
        0x503000, 0x007800, 0x006800, 0x005800, 0x004058, 0x000000, 0x000000, 0x000000,
        0xBCBCBC, 0x0078F8, 0x0058F8, 0x6844FC, 0xD800CC, 0xE40058, 0xF83800, 0xE45C10,
        0xAC7C00, 0x00B800, 0x00A800, 0x00A844, 0x008888, 0x000000, 0x000000, 0x000000,
        0xF8F8F8, 0x3CBCFC, 0x6888FC, 0x9878F8, 0xF878F8, 0xF85898, 0xF87858, 0xFCA044,
        0xF8B800, 0xB8F818, 0x58D854, 0x58F898, 0x00E8D8, 0x787878, 0x000000, 0x000000,
        0xFCFCFC, 0xA4E4FC, 0xB8B8F8, 0xD8B8F8, 0xF8B8F8, 0xF8A4C0, 0xF0D0B0, 0xFCE0A8,
        0xF8D878, 0xD8F878, 0xB8F8B8, 0xB8F8D8, 0x00FCFC, 0xF8D8F8, 0x000000, 0x000000,
    ];
    assert(t@ =~= ntsc_palette_seq());
    t[i]
}

/// Packed RGB of entry `i` of the PAL table.
fn pal_rgb(i: usize) -> (r: u32)
    requires
        i < 64,
    ensures
        r == pal_palette_seq()[i as int],
{
    let t: [u32; 64] = [
        0x848484, 0x001D2C, 0x0C0C44, 0x240454, 0x3C004C, 0x4C0034, 0x4C0018, 0x400C00,
        0x2C1800, 0x182800, 0x083C00, 0x004000, 0x003C1C, 0x00383C, 0x040404, 0x000000,
        0xB4B4B4, 0x3060A4, 0x4848C8, 0x6038D8, 0x8030C8, 0x982CAC, 0xA82C70, 0xB02C38,
        0xB43810, 0xB84800, 0x985800, 0x786800, 0x5C7800, 0x388000, 0x008C00, 0x040404,
        0xFFFFFF, 0x8CCCFF, 0xA8A8FF, 0xC0A8FF, 0xE8A4F0, 0xE8A0D8, 0xE89CB8, 0xE89888,
        0xE08C54, 0xD89838, 0xC0A024, 0xA0A818, 0x84B018, 0x60B818, 0x44C02C, 0x040404,
        0xFFFFFF, 0x8CCCFF, 0xA8A8FF, 0xC0A8FF, 0xE8A4F0, 0xE8A0D8, 0xE89CB8, 0xE89888,
        0xE08C54, 0xD89838, 0xC0A024, 0xA0A818, 0x84B018, 0x60B818, 0x44C02C, 0x040404,
    ];
    assert(t@ =~= pal_palette_seq());
    t[i]
}

/// Packed RGB of entry `i` of the inaccurate NTSC table.
fn inaccurate_rgb(i: usize) -> (r: u32)
    requires
        i < 64,
    ensures
        r == inaccurate_palette_seq()[i as int],
{
    let t: [u32; 64] = [
        0x848484, 0x001D2C, 0x1C0C54, 0x300464, 0x48005C, 0x580044, 0x580024, 0x4C0C00,
        0x381800, 0x202800, 0x0C3C00, 0x004000, 0x003C1C, 0x00383C, 0x000000, 0x000000,
        0xB4B4B4, 0x386CBC, 0x5458EC, 0x7044F4, 0x9038E4, 0xA834C8, 0xB83488, 0xC03444,
        0xC44014, 0xC85000, 0xA86000, 0x887000, 0x6C8000, 0x448800, 0x009400, 0x000000,
        0xFFFFFF, 0x9CDCFF, 0xB8B8FF, 0xD0B8FF, 0xFFB0F4, 0xFFA8E0, 0xFFA4C0, 0xFFA090,
        0xF89458, 0xF0A038, 0xD8A820, 0xB8B014, 0x98B814, 0x70C014, 0x50C824, 0x000000,
        0xFFFFFF, 0x9CDCFF, 0xB8B8FF, 0xD0B8FF, 0xFFB0F4, 0xFFA8E0, 0xFFA4C0, 0xFFA090,
        0xF89458, 0xF0A038, 0xD8A820, 0xB8B014, 0x98B814, 0x70C014, 0x50C824, 0x000000,
    ];
    assert(t@ =~= inaccurate_palette_seq());
    t[i]
}

/// ARGB of colour `index` for the given region and palette choice.
fn color_to_argb_with(region: Region, inaccurate: bool, index: u8) -> (r: u32)
    ensures
        r == color_argb(region, inaccurate, index),
{
    let i: u8 = index & 0x3F;
    proof {
        crate::bits::lemma_u8_masks(index);
    }
    let rgb: u32 = if region.is_pal_palette() {
        pal_rgb(i as usize)
    } else if inaccurate {
        inaccurate_rgb(i as usize)
    } else {
        ntsc_rgb(i as usize)
    };
    0xFF00_0000u32 | rgb
}

/// The NTSC palette as `[r, g, b]` triples, 64 entries.
pub fn nes_palette() -> (r: Vec<[u8; 3]>)
    ensures
        r@.len() == 64,
        forall|i: int|
            0 <= i < 64 ==> #[trigger] r@[i]@ == seq![
                (ntsc_palette_seq()[i] >> 16u32) as u8,
                ((ntsc_palette_seq()[i] >> 8u32) & 0xFF) as u8,
                (ntsc_palette_seq()[i] & 0xFF) as u8,
            ],
{
    let mut r: Vec<[u8; 3]> = Vec::with_capacity(64);
    let mut i: usize = 0;
    while i < 64
        invariant
            i <= 64,
            r@.len() == i,
            forall|k: int|
                0 <= k < i ==> #[trigger] r@[k]@ == seq![
                    (ntsc_palette_seq()[k] >> 16u32) as u8,
                    ((ntsc_palette_seq()[k] >> 8u32) & 0xFF) as u8,
                    (ntsc_palette_seq()[k] & 0xFF) as u8,
                ],
        decreases 64 - i,
    {
        let c: u32 = ntsc_rgb(i);
        let e: [u8; 3] = [(c >> 16u32) as u8, ((c >> 8u32) & 0xFF) as u8, (c & 0xFF) as u8];
        assert(e@ =~= seq![(c >> 16u32) as u8, ((c >> 8u32) & 0xFF) as u8, (c & 0xFF) as u8]);
        r.push(e);
        i = i + 1;
    }
    r
}

/// ARGB of NES colour `index` (masked to 6 bits) in the palette of `region`:
/// PAL uses the 2C07 table, NTSC and Dendy the 2C02 table.
pub fn nes_color_to_argb_for(index: u8, region: Region) -> (r: u32)
    ensures
        r == color_argb(region, false, index),
{
    color_to_argb_with(region, false, index)
}

/// ARGB of NES colour `index` in the NTSC palette.
pub fn nes_color_to_argb(index: u8) -> (r: u32)
    ensures
        r == color_argb(Region::Ntsc, false, index),
{
    nes_color_to_argb_for(index, Region::Ntsc)
}


/// Byte `addr` of the pattern-table slice (0 past its end).
pub open spec fn chr_at(chr: Seq<u8>, addr: u16) -> u8 {
    byte_or_zero(chr, addr as int)
}

/// The 2-bit pattern value of bit `bit` of the two bitplanes.
pub open spec fn pattern_bits(plane0: u8, plane1: u8, bit: u8) -> u8 {
    ((plane0 >> bit) & 1) | (((plane1 >> bit) & 1) << 1u8)
}

/// Palette address of a background pixel: `$3F00` when transparent.
pub open spec fn bg_color_addr(pattern: u8, pal_select: u8) -> u16 {
    if pattern == 0 {
        PAL_BASE
    } else {
        PAL_BASE | ((pal_select as u16) << 2u16) | (pattern as u16)
    }
}

/// Byte `addr` of `chr`, or 0 past its end.
pub(crate) fn chr_byte(chr: &[u8], addr: u16) -> (b: u8)
    ensures
        b == chr_at(chr@, addr),
{
    if (addr as usize) < chr.len() {
        chr[addr as usize]
    } else {
        0
    }
}

/// The pattern value of bit `bit` of two bitplanes.
pub(crate) fn pattern_of(plane0: u8, plane1: u8, bit: u8) -> (p: u8)
    requires
        bit < 8,
    ensures
        p == pattern_bits(plane0, plane1, bit),
        p < 4,
{
    let p: u8 = ((plane0 >> bit) & 1) | (((plane1 >> bit) & 1) << 1u8);
    assert(p < 4) by (bit_vector)
        requires p == ((plane0 >> bit) & 1) | (((plane1 >> bit) & 1) << 1u8), bit < 8;
    p
}

impl Ppu {
    /// ARGB of NES colour `index` under this PPU's region and palette choice.
    pub open spec fn argb_of(&self, index: u8) -> u32 {
        color_argb(self.region, self.use_inaccurate_palette, index)
    }

    /// The universal background colour (`$3F00`) as ARGB.
    pub open spec fn universal_bg(&self) -> u32 {
        self.argb_of(self.palette_byte(PAL_BASE))
    }

    /// Base of the background pattern table (PPUCTRL bit 4).
    pub open spec fn bg_table(&self) -> u16 {
        if self.ppuctrl & CTRL_BG_PATTERN_1000 != 0 {
            0x1000u16
        } else {
            0u16
        }
    }

    /// Horizontal scroll in pixels: coarse X of `t` and fine X.
    pub open spec fn scroll_x(&self) -> u16 {
        ((self.t & 0x1F) << 3u16) | (self.fine_x as u16)
    }

    /// Vertical scroll in pixels: coarse Y and fine Y of `t`.
    pub open spec fn scroll_y(&self) -> u16 {
        (((self.t >> 5u16) & 0x1F) << 3u16) | ((self.t >> 12u16) & 0x07)
    }

    /// Nametable (0-3) shown at scrolled position `(gx, gy)`.
    pub open spec fn bg_nametable(&self, gx: u16, gy: u16) -> u16 {
        let base_nt: u16 = ((self.ppuctrl & CTRL_BASE_NT_MASK) as u16) << 10u16;
        ((base_nt >> 10u16) ^ ((gx >> 8u16) & 1) ^ (((gy >> 8u16) & 1) << 1u16)) & 0x03
    }

    /// `(pattern, palette select)` of the background at screen pixel
    /// `(px, py)`, with the scroll from `t`/fine X and the base nametable.
    pub open spec fn bg_fetch(&self, chr: Seq<u8>, py: u16, px: u16) -> (u8, u8) {
        let gy: u16 = (py + self.scroll_y()) as u16;
        let gx: u16 = (px + self.scroll_x()) as u16;
        let fine_y: u16 = gy & 0x07;
        let tile_row: u16 = (gy >> 3u16) & 0x1F;
        let fine_x: u16 = gx & 0x07;
        let tile_col: u16 = (gx >> 3u16) & 0x1F;
        let nt: u16 = self.bg_nametable(gx, gy);
        let nt_addr: u16 = NT_BASE | ((nt << 10u16) | (tile_row << 5u16) | tile_col);
        let tile_index: u16 = self.nametable_byte(nt_addr) as u16;
        let pattern_addr: u16 = self.bg_table() | (tile_index << 4u16) | fine_y;
        let pattern = pattern_bits(
            chr_at(chr, pattern_addr),
            chr_at(chr, pattern_addr | 0x08),
            (7 - fine_x) as u8,
        );
        let attr_addr: u16 = NT_BASE | ((nt << 10u16) | ATTR_TABLE_OFFSET | ((tile_row >> 2u16) << 3u16) | (
        tile_col >> 2u16));
        let shift: u16 = ((tile_row & 0x02) << 1u16) | (tile_col & 0x02);
        (pattern, (self.nametable_byte(attr_addr) >> shift) & 0x03)
    }

    /// `(ARGB, pattern)` the background renderer produces at `(px, py)`:
    /// the universal colour with pattern 0 when the background is off or
    /// the pixel lies in a masked left column.
    pub open spec fn bg_pixel(&self, chr: Seq<u8>, py: u16, px: u16) -> (u32, u8) {
        if self.ppumask & MASK_SHOW_BG == 0 || (px < 8 && self.ppumask & MASK_SHOW_BG_LEFT == 0) {
            (self.universal_bg(), 0u8)
        } else {
            let (pattern, pal_select) = self.bg_fetch(chr, py, px);
            (self.argb_of(self.palette_byte(bg_color_addr(pattern, pal_select))), pattern)
        }
    }

    /// Everything but the framebuffer, the pattern buffer and PPUSTATUS is
    /// the same in `self` and `o`.
    pub open spec fn same_but_output(&self, o: &Ppu) -> bool {
        &&& self.ppuctrl == o.ppuctrl
        &&& self.ppumask == o.ppumask
        &&& self.oamaddr == o.oamaddr
        &&& self.v == o.v
        &&& self.t == o.t
        &&& self.fine_x == o.fine_x
        &&& self.w == o.w
        &&& self.ppudata_buffer == o.ppudata_buffer
        &&& self.open_bus == o.open_bus
        &&& self.vram == o.vram
        &&& self.oam == o.oam
        &&& self.palette == o.palette
        &&& self.scanline == o.scanline
        &&& self.cycle == o.cycle
        &&& self.nmi_request == o.nmi_request
        &&& self.mirroring == o.mirroring
        &&& self.region == o.region
        &&& self.use_inaccurate_palette == o.use_inaccurate_palette
        &&& self.render == o.render
    }

    /// ARGB of NES colour `index` under this PPU's region and palette choice.
    pub(crate) fn color_to_argb(&self, index: u8) -> (r: u32)
        ensures
            r == self.argb_of(index),
    {
        color_to_argb_with(self.region, self.use_inaccurate_palette, index)
    }

    /// The universal background colour (palette entry `$3F00`) as ARGB.
    pub fn universal_bg_argb(&self) -> (r: u32)
        ensures
            r == self.universal_bg(),
    {
        self.color_to_argb(self.read_palette(PAL_BASE))
    }

    /// Fetch the background `(pattern, palette select)` at `(px, py)`.
    fn fetch_bg(&self, chr: &[u8], py: u16, px: u16) -> (r: (u8, u8))
        requires
            py < 240,
            px < 256,
        ensures
            r == self.bg_fetch(chr@, py, px),
            r.0 < 4,
    {
        let t: u16 = self.t;
        let fx: u8 = self.fine_x;
        let scroll_x: u16 = ((t & 0x1F) << 3u16) | (fx as u16);
        let scroll_y: u16 = (((t >> 5u16) & 0x1F) << 3u16) | ((t >> 12u16) & 0x07);
        assert(scroll_y <= 255) by (bit_vector)
            requires scroll_y == (((t >> 5u16) & 0x1F) << 3u16) | ((t >> 12u16) & 0x07);
        assert(fx < 8 ==> scroll_x <= 255) by (bit_vector)
            requires scroll_x == ((t & 0x1F) << 3u16) | (fx as u16);
        assert(scroll_x <= 0xFFFF);
        assert(((t & 0x1F) << 3u16) | (fx as u16) <= ((t & 0x1F) << 3u16) + (fx as u16)) by (bit_vector);
        assert(((t & 0x1F) << 3u16) <= 248) by (bit_vector);
        let gy: u16 = py + scroll_y;
        let gx: u16 = px + scroll_x;
        let fine_y: u16 = gy & 0x07;
        let tile_row: u16 = (gy >> 3u16) & 0x1F;
        let fine_x: u16 = gx & 0x07;
        proof {
            crate::bits::lemma_u16_masks(gx);
        }
        let tile_col: u16 = (gx >> 3u16) & 0x1F;
        let base_nt: u16 = ((self.ppuctrl & CTRL_BASE_NT_MASK) as u16) << 10u16;
        let nt: u16 = ((base_nt >> 10u16) ^ ((gx >> 8u16) & 1) ^ (((gy >> 8u16) & 1) << 1u16)) & 0x03;
        let nt_addr: u16 = NT_BASE | ((nt << 10u16) | (tile_row << 5u16) | tile_col);
        proof {
            crate::bits::lemma_u16_bit13((nt << 10u16) | (tile_row << 5u16) | tile_col);
        }
        let tile_index: u16 = self.read_nametable(nt_addr) as u16;
        let bg_table: u16 = if (self.ppuctrl & CTRL_BG_PATTERN_1000) != 0 {
            0x1000
        } else {
            0x0000
        };
        let pattern_addr: u16 = bg_table | (tile_index << 4u16) | fine_y;
        let plane0: u8 = chr_byte(chr, pattern_addr);
        let plane1: u8 = chr_byte(chr, pattern_addr | 0x08);
        let pattern: u8 = pattern_of(plane0, plane1, (7 - fine_x) as u8);
        let attr_addr: u16 = NT_BASE | ((nt << 10u16) | ATTR_TABLE_OFFSET | ((tile_row >> 2u16) << 3u16) | (
        tile_col >> 2u16));
        proof {
            crate::bits::lemma_u16_bit13((nt << 10u16) | ATTR_TABLE_OFFSET | ((tile_row >> 2u16) << 3u16) | (tile_col >> 2u16));
        }
        let attr_byte: u8 = self.read_nametable(attr_addr);
        let shift: u16 = ((tile_row & 0x02) << 1u16) | (tile_col & 0x02);
        assert(shift < 8) by (bit_vector)
            requires shift == ((tile_row & 0x02) << 1u16) | (tile_col & 0x02);
        let pal_select: u8 = (attr_byte >> shift) & 0x03;
        (pattern, pal_select)
    }

    /// Render background row `py` into the framebuffer, and its pattern
    /// values into the first 256 entries of the pattern buffer.
    fn render_background_scanline(&mut self, py: u16, chr: &[u8])
        requires
            old(self).wf(),
            py < 240,
        ensures
            final(self).wf(),
            final(self).same_but_output(old(self)),
            final(self).ppustatus == old(self).ppustatus,
            forall|px: u16|
                px < 256 ==> #[trigger] final(self).framebuffer@[py * 256 + px] == old(self).bg_pixel(chr@, py, px).0,
            forall|px: u16| px < 256 ==> #[trigger] final(self).bg_pattern@[px as int] == old(self).bg_pixel(chr@, py, px).1,
            forall|i: int|
                0 <= i < FRAMEBUFFER_SIZE && !(py * 256 <= i < py * 256 + 256) ==> #[trigger] final(self).framebuffer@[i]
                    == old(self).framebuffer@[i],
            forall|i: int| 256 <= i < FRAMEBUFFER_SIZE ==> #[trigger] final(self).bg_pattern@[i] == old(self).bg_pattern@[i],
    {
        let bg_enabled: bool = (self.ppumask & MASK_SHOW_BG) != 0;
        let bg_left_enabled: bool = (self.ppumask & MASK_SHOW_BG_LEFT) != 0;
        let universal_bg: u32 = self.universal_bg_argb();
        let row_base: usize = (py as usize) * 256;
        let ghost pre = *old(self);
        let mut px: u16 = 0;
        while px < 256
            invariant
                self.wf(),
                self.same_but_output(&pre),
                self.ppustatus == pre.ppustatus,
                pre.wf(),
                py < 240,
                row_base == py * 256,
                px <= 256,
                universal_bg == pre.universal_bg(),
                bg_enabled == (pre.ppumask & MASK_SHOW_BG != 0),
                bg_left_enabled == (pre.ppumask & MASK_SHOW_BG_LEFT != 0),
                forall|q: u16| q < px ==> #[trigger] self.framebuffer@[py * 256 + q] == pre.bg_pixel(chr@, py, q).0,
                forall|q: u16| q < px ==> #[trigger] self.bg_pattern@[q as int] == pre.bg_pixel(chr@, py, q).1,
                forall|i: int|
                    0 <= i < FRAMEBUFFER_SIZE && !(py * 256 <= i < py * 256 + px) ==> #[trigger] self.framebuffer@[i]
                        == pre.framebuffer@[i],
                forall|i: int| px <= i < FRAMEBUFFER_SIZE ==> #[trigger] self.bg_pattern@[i] == pre.bg_pattern@[i],
            decreases 256 - px,
        {
            let idx: usize = row_base + px as usize;
            if !bg_enabled || (px < 8 && !bg_left_enabled) {
                self.framebuffer.set(idx, universal_bg);
                self.bg_pattern.set(px as usize, 0);
            } else {
                let (pattern, pal_select) = self.fetch_bg(chr, py, px);
                let color_addr: u16 = if pattern == 0 {
                    PAL_BASE
                } else {
                    PAL_BASE | ((pal_select as u16) << 2u16) | (pattern as u16)
                };
                let nes_index: u8 = self.read_palette(color_addr);
                let c: u32 = self.color_to_argb(nes_index);
                self.bg_pattern.set(px as usize, pattern);
                self.framebuffer.set(idx, c);
            }
            px = px + 1;
        }
    }

    /// Render the whole background (256×240) into the framebuffer. The
    /// pattern buffer ends up holding the values of the last row.
    pub fn render_background(&mut self, chr: &[u8])
        requires
            old(self).wf(),
        ensures
            final(self).wf(),
            final(self).same_but_output(old(self)),
            final(self).ppustatus == old(self).ppustatus,
            forall|py: u16, px: u16|
                py < 240 && px < 256 ==> #[trigger] final(self).framebuffer@[py * 256 + px] == old(self).bg_pixel(
                    chr@,
                    py,
                    px,
                ).0,
            forall|px: u16| px < 256 ==> #[trigger] final(self).bg_pattern@[px as int] == old(self).bg_pixel(chr@, 239, px).1,
            forall|i: int| 256 <= i < FRAMEBUFFER_SIZE ==> #[trigger] final(self).bg_pattern@[i] == old(self).bg_pattern@[i],
    {
        let ghost pre = *old(self);
        let mut py: u16 = 0;
        while py < 240
            invariant
                self.wf(),
                pre.wf(),
                self.same_but_output(&pre),
                self.ppustatus == pre.ppustatus,
                py <= 240,
                forall|r: u16, q: u16|
                    r < py && q < 256 ==> #[trigger] self.framebuffer@[r * 256 + q] == pre.bg_pixel(chr@, r, q).0,
                py > 0 ==> forall|q: u16| q < 256 ==> #[trigger] self.bg_pattern@[q as int] == pre.bg_pixel(chr@, (py - 1) as u16, q).1,
                forall|i: int| 256 <= i < FRAMEBUFFER_SIZE ==> #[trigger] self.bg_pattern@[i] == pre.bg_pattern@[i],
            decreases 240 - py,
        {
            self.render_background_scanline(py, chr);
            py = py + 1;
        }
    }

    /// Fill the whole framebuffer with `argb`.
    pub fn clear_framebuffer(&mut self, argb: u32)
        requires
            old(self).wf(),
        ensures
            final(self).wf(),
            forall|i: int| 0 <= i < FRAMEBUFFER_SIZE ==> #[trigger] final(self).framebuffer@[i] == argb,
            *final(self) == (Ppu { framebuffer: final(self).framebuffer, ..*old(self) }),
    {
        let mut i: usize = 0;
        while i < FRAMEBUFFER_SIZE
            invariant
                i <= FRAMEBUFFER_SIZE,
                self.framebuffer@.len() == FRAMEBUFFER_SIZE,
                forall|k: int| 0 <= k < i ==> #[trigger] self.framebuffer@[k] == argb,
                *self == (Ppu { framebuffer: self.framebuffer, ..*old(self) }),
            decreases FRAMEBUFFER_SIZE - i,
        {
            self.framebuffer.set(i, argb);
            i = i + 1;
        }
    }

    /// Framebuffer pixel `(x, y)`; the universal background colour when
    /// the coordinates lie off screen.
    pub fn pixel(&self, x: usize, y: usize) -> (r: u32)
        requires
            self.wf(),
        ensures
            x < 256 && y < 240 ==> r == self.framebuffer@[y * 256 + x],
            !(x < 256 && y < 240) ==> r == self.universal_bg(),
    {
        if x < 256 && y < 240 {
            self.framebuffer[y * 256 + x]
        } else {
            self.universal_bg_argb()
        }
    }
}

/// One evaluated sprite: `(oam index, y, tile, attributes, x)`.
pub type SpriteEntry = (usize, u8, u8, u8, u8);

/// Sprite height for PPUCTRL `ctrl`: 16 in 8×16 mode, else 8.
pub open spec fn sprite_height(ctrl: u8) -> u16 {
    if ctrl & CTRL_SPRITE_SIZE_16 != 0 {
        16u16
    } else {
        8u16
    }
}

/// Whether OAM sprite `i` covers scanline `sl` (and is not hidden).
pub open spec fn sprite_on_line(oam: Seq<u8>, ctrl: u8, i: int, sl: u16) -> bool {
    let y = oam[4 * i];
    &&& y < OAM_Y_HIDDEN
    &&& (y as u16 + 1) <= sl
    &&& sl < (y as u16 + 1) + sprite_height(ctrl)
}

/// OAM indices from `i` on that cover scanline `sl`, in OAM order, up to
/// the first sprite whose Y is `$FF` (which ends evaluation).
pub open spec fn sprites_from(oam: Seq<u8>, ctrl: u8, sl: u16, i: int) -> Seq<int>
    decreases 64 - i,
{
    if i < 0 || i >= 64 {
        Seq::empty()
    } else if oam[4 * i] == OAM_Y_HALT {
        Seq::empty()
    } else if sprite_on_line(oam, ctrl, i, sl) {
        seq![i] + sprites_from(oam, ctrl, sl, i + 1)
    } else {
        sprites_from(oam, ctrl, sl, i + 1)
    }
}

/// The sprites drawn on scanline `sl`: the first eight that cover it.
pub open spec fn line_sprites(oam: Seq<u8>, ctrl: u8, sl: u16) -> Seq<int> {
    let all = sprites_from(oam, ctrl, sl, 0);
    if all.len() > 8 {
        all.take(8)
    } else {
        all
    }
}

/// Whether more than eight sprites cover scanline `sl`.
pub open spec fn line_overflows(oam: Seq<u8>, ctrl: u8, sl: u16) -> bool {
    sprites_from(oam, ctrl, sl, 0).len() > 8
}

/// Whether sprite `i` spans column `px`.
pub open spec fn sprite_covers(oam: Seq<u8>, i: int, px: u16) -> bool {
    let sx = oam[4 * i + 3] as u16;
    sx <= px < sx + 8
}

/// Whether a sprite evaluated at Y `y` with attributes `attr` can be drawn
/// on scanline `sl`: it starts at or above `sl`, and a vertically flipped
/// sprite's row lies within the sprite height.
pub open spec fn entry_fits(y: u8, attr: u8, ctrl: u8, sl: u16) -> bool {
    &&& y as u16 + 1 <= sl
    &&& attr & ATTR_VFLIP != 0 ==> sl - (y as u16 + 1) < sprite_height(ctrl)
}

/// The pattern value at `(px, sl)` (which it covers) of a sprite with Y
/// `y`, `tile`, attributes `attr` and X `sx`, with flips, 8×16 tiles and
/// the sprite pattern table applied.
pub open spec fn entry_pattern(y: u8, tile: u8, attr: u8, sx8: u8, ctrl: u8, chr: Seq<u8>, sl: u16, px: u16) -> u8 {
    let sx = sx8 as u16;
    let size16 = ctrl & CTRL_SPRITE_SIZE_16 != 0;
    let tile_col = (px - sx) as u8;
    let tile_row = (sl - (y as u16 + 1)) as u8;
    let row: u8 = if attr & ATTR_VFLIP != 0 {
        (((sprite_height(ctrl) - 1) as u8) - tile_row) as u8
    } else {
        tile_row
    };
    let col: u8 = if attr & ATTR_HFLIP != 0 {
        (7 - tile_col) as u8
    } else {
        tile_col
    };
    let table: u16 = if size16 {
        if tile & 1 != 0 {
            0x1000u16
        } else {
            0u16
        }
    } else if ctrl & CTRL_SPRITE_PATTERN_1000 != 0 {
        0x1000u16
    } else {
        0u16
    };
    let tile_base: u16 = if size16 {
        (tile & 0xFE) as u16
    } else {
        tile as u16
    };
    let row_in_tile: u8 = if size16 {
        row & 0x07
    } else {
        row
    };
    let tile_for_row: u16 = if size16 && row >= 8 {
        (tile_base + 1) as u16
    } else {
        tile_base
    };
    let addr: u16 = table | (tile_for_row << 4u16) | (row_in_tile as u16);
    pattern_bits(chr_at(chr, addr), chr_at(chr, addr | 0x08), (7 - col) as u8)
}

/// The pattern value of OAM sprite `i` at `(px, sl)` (which it covers).
pub open spec fn sprite_pattern(oam: Seq<u8>, ctrl: u8, chr: Seq<u8>, i: int, sl: u16, px: u16) -> u8 {
    entry_pattern(oam[4 * i], oam[4 * i + 1], oam[4 * i + 2], oam[4 * i + 3], ctrl, chr, sl, px)
}

/// Whether entry `k` of `sel` is an opaque sprite pixel at `(px, sl)`.
pub open spec fn opaque_at(oam: Seq<u8>, ctrl: u8, chr: Seq<u8>, sel: Seq<int>, k: int, sl: u16, px: u16) -> bool {
    sprite_covers(oam, sel[k], px) && sprite_pattern(oam, ctrl, chr, sel[k], sl, px) != 0
}

/// Position in `sel`, from `k` on, of the first sprite with an opaque
/// pixel at `(px, sl)`.
pub open spec fn first_opaque(oam: Seq<u8>, ctrl: u8, chr: Seq<u8>, sel: Seq<int>, sl: u16, px: u16, k: int) -> Option<int>
    decreases sel.len() - k,
{
    if k < 0 || k >= sel.len() {
        None
    } else if opaque_at(oam, ctrl, chr, sel, k, sl, px) {
        Some(k)
    } else {
        first_opaque(oam, ctrl, chr, sel, sl, px, k + 1)
    }
}

impl Ppu {
    /// Whether sprites are drawn at column `px` (enabled, and not masked
    /// in the left 8 pixels).
    pub open spec fn sprites_shown_at(&self, px: u16) -> bool {
        self.ppumask & MASK_SHOW_SPRITES != 0 && (px >= 8 || self.ppumask & MASK_SHOW_SPRITES_LEFT != 0)
    }

    /// The pixel at `(px, sl)` after sprites are composited over `under`:
    /// the front-most opaque sprite wins unless it sits behind an opaque
    /// background pixel, in which case `under` stays.
    pub open spec fn sprite_composite(&self, chr: Seq<u8>, sl: u16, px: u16, under: u32, bg_opaque: bool) -> u32 {
        let sel = line_sprites(self.oam@, self.ppuctrl, sl);
        if !self.sprites_shown_at(px) {
            under
        } else {
            match first_opaque(self.oam@, self.ppuctrl, chr, sel, sl, px, 0) {
                None => under,
                Some(k) => {
                    let i = sel[k];
                    let attr = self.oam@[4 * i + 2];
                    if attr & ATTR_PRIORITY_BEHIND != 0 && bg_opaque {
                        under
                    } else {
                        let pattern = sprite_pattern(self.oam@, self.ppuctrl, chr, i, sl, px);
                        let addr = SPRITE_PAL_BASE | (((attr & ATTR_PALETTE_MASK) as u16) << 2u16) | (
                        pattern as u16);
                        self.argb_of(self.palette_byte(addr))
                    }
                },
            }
        }
    }

    /// Whether sprite 0 hits at `(px, sl)`: it is the front-most opaque
    /// sprite there, `px < 255`, and the background pixel is opaque.
    pub open spec fn zero_hit_at(&self, chr: Seq<u8>, sl: u16, px: u16, bg_opaque: bool) -> bool {
        let sel = line_sprites(self.oam@, self.ppuctrl, sl);
        &&& self.sprites_shown_at(px)
        &&& px < SPRITE_ZERO_HIT_MAX_X
        &&& bg_opaque
        &&& match first_opaque(self.oam@, self.ppuctrl, chr, sel, sl, px, 0) {
            None => false,
            Some(k) => sel[k] == 0,
        }
    }

    /// Whether more than eight sprites cover some visible scanline, with
    /// sprites enabled.
    pub open spec fn frame_overflows(&self) -> bool {
        self.ppumask & MASK_SHOW_SPRITES != 0 && exists|sl: u16| sl < 240 && #[trigger] line_overflows(self.oam@, self.ppuctrl, sl)
    }

    /// The sprite entry of OAM index `i`.
    pub open spec fn entry_of(&self, i: int) -> SpriteEntry {
        (i as usize, self.oam@[4 * i], self.oam@[4 * i + 1], self.oam@[4 * i + 2], self.oam@[4 * i + 3])
    }

    /// Evaluate the sprites of scanline `sl`: the first eight that cover it
    /// and whether more than eight do.
    pub(crate) fn evaluate_sprites(&self, sl: u16) -> (r: (Vec<SpriteEntry>, bool))
        ensures
            r.0@.len() == line_sprites(self.oam@, self.ppuctrl, sl).len(),
            forall|k: int| 0 <= k < r.0@.len() ==> #[trigger] r.0@[k] == self.entry_of(line_sprites(self.oam@, self.ppuctrl, sl)[k]),
            r.1 == line_overflows(self.oam@, self.ppuctrl, sl),
            r.0@.len() <= 8,
    {
        let height: u16 = if (self.ppuctrl & CTRL_SPRITE_SIZE_16) != 0 {
            16
        } else {
            8
        };
        let mut selected: Vec<SpriteEntry> = Vec::new();
        let mut overflow: bool = false;
        let ghost mut acc: Seq<int> = Seq::empty();
        let mut i: usize = 0;
        while i < 64
            invariant_except_break
                sprites_from(self.oam@, self.ppuctrl, sl, 0) == acc + sprites_from(self.oam@, self.ppuctrl, sl, i as int),
            invariant
                i <= 64,
                height == sprite_height(self.ppuctrl),
                selected@.len() == (if acc.len() > 8 { 8 } else { acc.len() }),
                forall|k: int| 0 <= k < selected@.len() ==> #[trigger] selected@[k] == self.entry_of(acc[k]),
                overflow == (acc.len() > 8),
                forall|k: int| 0 <= k < acc.len() ==> 0 <= #[trigger] acc[k] < 64,
            ensures
                sprites_from(self.oam@, self.ppuctrl, sl, 0) == acc,
            decreases 64 - i,
        {
            let y: u8 = self.oam[i * 4];
            if y == OAM_Y_HALT {
                assert(acc + sprites_from(self.oam@, self.ppuctrl, sl, i as int) =~= acc);
                break;
            }
            let top: u16 = y as u16 + 1;
            if y >= OAM_Y_HIDDEN || sl < top || sl >= top + height {
                i = i + 1;
                continue;
            }
            let ghost old_acc = acc;
            proof {
                acc = acc.push(i as int);
                assert(old_acc + sprites_from(self.oam@, self.ppuctrl, sl, i as int) =~= acc + sprites_from(self.oam@, self.ppuctrl, sl, i + 1));
            }
            if selected.len() < 8 {
                selected.push((i, y, self.oam[i * 4 + 1], self.oam[i * 4 + 2], self.oam[i * 4 + 3]));
            } else {
                overflow = true;
            }
            i = i + 1;
        }
        proof {
            if i >= 64 {
                assert(acc + sprites_from(self.oam@, self.ppuctrl, sl, i as int) =~= acc);
            }
        }
        (selected, overflow)
    }
}

impl Ppu {
    /// Whether sprite 0 hits at `(q, sl)` over the pattern row `bgp`.
    pub open spec fn hit_in_row(&self, chr: Seq<u8>, sl: u16, bgp: Seq<u8>, q: u16) -> bool {
        self.zero_hit_at(chr, sl, q, bgp[q as int] != 0)
    }

    /// Pattern value of evaluated sprite `e` at `(px, sl)`, a pixel it covers.
    pub(crate) fn sprite_pixel_pattern(&self, chr: &[u8], e: SpriteEntry, sl: u16, px: u16) -> (p: u8)
        requires
            entry_fits(e.1, e.3, self.ppuctrl, sl),
            e.4 as u16 <= px < e.4 as u16 + 8,
        ensures
            p == entry_pattern(e.1, e.2, e.3, e.4, self.ppuctrl, chr@, sl, px),
            p < 4,
    {
        let (_oam_i, y, tile, attr, sx8) = e;
        let size16: bool = (self.ppuctrl & CTRL_SPRITE_SIZE_16) != 0;
        let height: u16 = if size16 {
            16
        } else {
            8
        };
        let sx: u16 = sx8 as u16;
        let tile_col: u8 = (px - sx) as u8;
        let tile_row: u8 = (sl - (y as u16 + 1)) as u8;
        let row: u8 = if (attr & ATTR_VFLIP) != 0 {
            ((height - 1) as u8) - tile_row
        } else {
            tile_row
        };
        let col: u8 = if (attr & ATTR_HFLIP) != 0 {
            7 - tile_col
        } else {
            tile_col
        };
        let table: u16 = if size16 {
            if (tile & 1) != 0 {
                0x1000
            } else {
                0x0000
            }
        } else if (self.ppuctrl & CTRL_SPRITE_PATTERN_1000) != 0 {
            0x1000
        } else {
            0x0000
        };
        let tile_base: u16 = if size16 {
            (tile & 0xFE) as u16
        } else {
            tile as u16
        };
        let row_in_tile: u8 = if size16 {
            row & 0x07
        } else {
            row
        };
        let tile_for_row: u16 = if size16 && row >= 8 {
            tile_base + 1
        } else {
            tile_base
        };
        let addr: u16 = table | (tile_for_row << 4u16) | (row_in_tile as u16);
        let plane0: u8 = chr_byte(chr, addr);
        let plane1: u8 = chr_byte(chr, addr | 0x08);
        pattern_of(plane0, plane1, 7 - col)
    }

    /// The first entry of `selected` with an opaque pixel at `(px, sl)`,
    /// with that pixel's pattern value.
    fn find_opaque(&self, chr: &[u8], selected: &Vec<SpriteEntry>, sel: Ghost<Seq<int>>, sl: u16, px: u16) -> (r: Option<(usize, u8)>)
        requires
            selected@.len() == sel@.len(),
            forall|j: int| 0 <= j < selected@.len() ==> #[trigger] selected@[j] == self.entry_of(sel@[j]),
            forall|j: int| 0 <= j < sel@.len() ==> 0 <= #[trigger] sel@[j] < 64 && sprite_on_line(self.oam@, self.ppuctrl, sel@[j], sl),
        ensures
            r is None ==> first_opaque(self.oam@, self.ppuctrl, chr@, sel@, sl, px, 0) is None,
            r matches Some((k, pat)) ==> first_opaque(self.oam@, self.ppuctrl, chr@, sel@, sl, px, 0) == Some(k as int)
                && k < selected@.len() && pat == sprite_pattern(self.oam@, self.ppuctrl, chr@, sel@[k as int], sl, px),
    {
        let mut k: usize = 0;
        while k < selected.len()
            invariant
                k <= selected@.len(),
                selected@.len() == sel@.len(),
                forall|j: int| 0 <= j < selected@.len() ==> #[trigger] selected@[j] == self.entry_of(sel@[j]),
                forall|j: int| 0 <= j < sel@.len() ==> 0 <= #[trigger] sel@[j] < 64 && sprite_on_line(self.oam@, self.ppuctrl, sel@[j], sl),
                first_opaque(self.oam@, self.ppuctrl, chr@, sel@, sl, px, 0) == first_opaque(self.oam@, self.ppuctrl, chr@, sel@, sl, px, k as int),
            decreases selected@.len() - k,
        {
            let e: SpriteEntry = selected[k];
            let sx: u16 = e.4 as u16;
            if px >= sx && px < sx + 8 {
                let pattern: u8 = self.sprite_pixel_pattern(chr, e, sl, px);
                if pattern != 0 {
                    return Some((k, pattern));
                }
            }
            k = k + 1;
        }
        None
    }

    /// Composite the sprites of scanline `sl` over the framebuffer row.
    /// `overflow_seen` and `zero_hit_seen` carry the frame's overflow and
    /// sprite 0 hit across scanlines; the hit flag in PPUSTATUS is set the
    /// first time sprite 0 hits.
    fn render_sprites_scanline(&mut self, sl: u16, chr: &[u8], overflow_seen: &mut bool, zero_hit_seen: &mut bool)
        requires
            old(self).wf(),
            sl < 240,
        ensures
            final(self).wf(),
            final(self).same_but_output(old(self)),
            final(self).bg_pattern@ == old(self).bg_pattern@,
            forall|px: u16|
                px < 256 ==> #[trigger] final(self).framebuffer@[sl * 256 + px] == old(self).sprite_composite(
                    chr@,
                    sl,
                    px,
                    old(self).framebuffer@[sl * 256 + px],
                    old(self).bg_pattern@[px as int] != 0,
                ),
            forall|i: int|
                0 <= i < FRAMEBUFFER_SIZE && !(sl * 256 <= i < sl * 256 + 256) ==> #[trigger] final(self).framebuffer@[i]
                    == old(self).framebuffer@[i],
            *final(overflow_seen) == (*old(overflow_seen) || (old(self).ppumask & MASK_SHOW_SPRITES != 0
                && line_overflows(old(self).oam@, old(self).ppuctrl, sl))),
            *final(zero_hit_seen) == (*old(zero_hit_seen) || exists|q: u16|
                q < 256 && #[trigger] old(self).hit_in_row(chr@, sl, old(self).bg_pattern@, q)),
            final(self).ppustatus == (if !*old(zero_hit_seen) && *final(zero_hit_seen) {
                old(self).ppustatus | STATUS_SPRITE_ZERO
            } else {
                old(self).ppustatus
            }),
    {
        let ghost pre = *old(self);
        let ghost zero0 = *old(zero_hit_seen);
        let sprites_enabled: bool = (self.ppumask & MASK_SHOW_SPRITES) != 0;
        if !sprites_enabled {
            assert forall|q: u16| q < 256 implies !#[trigger] pre.hit_in_row(chr@, sl, pre.bg_pattern@, q) by {}
            return;
        }
        let sprites_left_enabled: bool = (self.ppumask & MASK_SHOW_SPRITES_LEFT) != 0;
        let (selected, ovf) = self.evaluate_sprites(sl);
        if ovf {
            *overflow_seen = true;
        }
        let ghost sel = line_sprites(pre.oam@, pre.ppuctrl, sl);
        proof {
            assert forall|k: int| 0 <= k < sel.len() implies 0 <= #[trigger] sel[k] < 64 && sprite_on_line(pre.oam@, pre.ppuctrl, sel[k], sl) by {
                lemma_sprites_from_members(&pre, sl, 0, k);
            }
        }
        let row_base: usize = (sl as usize) * 256;
        let mut px: u16 = 0;
        while px < 256
            invariant
                self.wf(),
                pre.wf(),
                self.same_but_output(&pre),
                self.bg_pattern@ == pre.bg_pattern@,
                sl < 240,
                row_base == sl * 256,
                px <= 256,
                sprites_enabled,
                pre.ppumask & MASK_SHOW_SPRITES != 0,
                sprites_left_enabled == (pre.ppumask & MASK_SHOW_SPRITES_LEFT != 0),
                sel == line_sprites(pre.oam@, pre.ppuctrl, sl),
                selected@.len() == sel.len(),
                selected@.len() <= 8,
                forall|k: int| 0 <= k < selected@.len() ==> #[trigger] selected@[k] == pre.entry_of(sel[k]),
                forall|k: int| 0 <= k < sel.len() ==> 0 <= #[trigger] sel[k] < 64 && sprite_on_line(pre.oam@, pre.ppuctrl, sel[k], sl),
                forall|q: u16|
                    q < px ==> #[trigger] self.framebuffer@[sl * 256 + q] == pre.sprite_composite(
                        chr@,
                        sl,
                        q,
                        pre.framebuffer@[sl * 256 + q],
                        pre.bg_pattern@[q as int] != 0,
                    ),
                forall|i: int|
                    0 <= i < FRAMEBUFFER_SIZE && !(sl * 256 <= i < sl * 256 + px) ==> #[trigger] self.framebuffer@[i]
                        == pre.framebuffer@[i],
                *zero_hit_seen == (zero0 || exists|q: u16| q < px && #[trigger] pre.hit_in_row(chr@, sl, pre.bg_pattern@, q)),
                self.ppustatus == (if !zero0 && *zero_hit_seen {
                    pre.ppustatus | STATUS_SPRITE_ZERO
                } else {
                    pre.ppustatus
                }),
            decreases 256 - px,
        {
            let ghost zero_before = *zero_hit_seen;
            if px < 8 && !sprites_left_enabled {
                assert(!pre.hit_in_row(chr@, sl, pre.bg_pattern@, px));
                proof {
                    assert forall|q: u16| q < px + 1 && #[trigger] pre.hit_in_row(chr@, sl, pre.bg_pattern@, q) implies q < px by {}
                }
                px = px + 1;
                continue;
            }
            let bg_opaque: bool = self.bg_pattern[px as usize] != 0;
            let found = self.find_opaque(chr, &selected, Ghost(sel), sl, px);
            match found {
                None => {},
                Some((k, pattern)) => {
                    let (oam_i, _y, _tile, attr, _sx) = selected[k];
                    if !*zero_hit_seen && oam_i == 0 && px < SPRITE_ZERO_HIT_MAX_X && bg_opaque {
                        self.set_sprite_zero_hit(true);
                        *zero_hit_seen = true;
                    }
                    let behind_bg: bool = (attr & ATTR_PRIORITY_BEHIND) != 0;
                    if !(behind_bg && bg_opaque) {
                        let pal: u16 = (attr & ATTR_PALETTE_MASK) as u16;
                        let color_addr: u16 = SPRITE_PAL_BASE | (pal << 2u16) | (pattern as u16);
                        let nes_index: u8 = self.read_palette(color_addr);
                        let c: u32 = self.color_to_argb(nes_index);
                        self.framebuffer.set(row_base + px as usize, c);
                    }
                },
            }
            proof {
                if *zero_hit_seen && !zero_before {
                    assert(pre.hit_in_row(chr@, sl, pre.bg_pattern@, px));
                }
                assert forall|q: u16| q < px + 1 && #[trigger] pre.hit_in_row(chr@, sl, pre.bg_pattern@, q) && q != px implies q < px by {}
            }
            px = px + 1;
        }
    }
}

impl Ppu {
    /// Whether sprite 0 hits anywhere on screen over the pattern row `bgp`.
    pub open spec fn hits_over_row(&self, chr: Seq<u8>, bgp: Seq<u8>) -> bool {
        exists|sl: u16, q: u16| sl < 240 && q < 256 && #[trigger] self.hit_in_row(chr, sl, bgp, q)
    }

    /// Whether sprite 0 hits at `(q, sl)` over the background this PPU renders.
    pub open spec fn frame_hit_at(&self, chr: Seq<u8>, sl: u16, q: u16) -> bool {
        self.zero_hit_at(chr, sl, q, self.bg_pixel(chr, sl, q).1 != 0)
    }

    /// Whether sprite 0 hits anywhere in a full frame.
    pub open spec fn frame_hits(&self, chr: Seq<u8>) -> bool {
        exists|sl: u16, q: u16| sl < 240 && q < 256 && #[trigger] self.frame_hit_at(chr, sl, q)
    }

    /// PPUSTATUS after a sprite pass: overflow and hit cleared, then set
    /// from what the pass found.
    pub open spec fn status_after_sprites(&self, hit: bool, overflow: bool) -> u8 {
        let s0 = self.ppustatus & !STATUS_OVERFLOW & !STATUS_SPRITE_ZERO;
        let s1 = if hit {
            s0 | STATUS_SPRITE_ZERO
        } else {
            s0
        };
        if overflow {
            s1 | STATUS_OVERFLOW
        } else {
            s1
        }
    }

    /// Composite all sprites over the framebuffer, using the pattern buffer
    /// as it stands for sprite priority and sprite 0 hit. Clears, then sets,
    /// the overflow and sprite 0 hit flags.
    pub fn render_sprites(&mut self, chr: &[u8])
        requires
            old(self).wf(),
        ensures
            final(self).wf(),
            final(self).same_but_output(old(self)),
            final(self).bg_pattern@ == old(self).bg_pattern@,
            forall|sl: u16, px: u16|
                sl < 240 && px < 256 ==> #[trigger] final(self).framebuffer@[sl * 256 + px] == old(self).sprite_composite(
                    chr@,
                    sl,
                    px,
                    old(self).framebuffer@[sl * 256 + px],
                    old(self).bg_pattern@[px as int] != 0,
                ),
            final(self).ppustatus == old(self).status_after_sprites(
                old(self).hits_over_row(chr@, old(self).bg_pattern@),
                old(self).frame_overflows(),
            ),
    {
        let ghost pre = *old(self);
        self.set_sprite_overflow(false);
        self.set_sprite_zero_hit(false);
        let ghost s0 = self.ppustatus;
        let mut overflow_seen: bool = false;
        let mut zero_seen: bool = false;
        let mut sl: u16 = 0;
        while sl < 240
            invariant
                self.wf(),
                pre.wf(),
                self.same_but_output(&pre),
                self.bg_pattern@ == pre.bg_pattern@,
                s0 == pre.ppustatus & !STATUS_OVERFLOW & !STATUS_SPRITE_ZERO,
                sl <= 240,
                forall|r: u16, q: u16|
                    r < sl && q < 256 ==> #[trigger] self.framebuffer@[r * 256 + q] == pre.sprite_composite(
                        chr@,
                        r,
                        q,
                        pre.framebuffer@[r * 256 + q],
                        pre.bg_pattern@[q as int] != 0,
                    ),
                forall|i: int| sl * 256 <= i < FRAMEBUFFER_SIZE ==> #[trigger] self.framebuffer@[i] == pre.framebuffer@[i],
                overflow_seen == (pre.ppumask & MASK_SHOW_SPRITES != 0 && exists|r: u16|
                    r < sl && #[trigger] line_overflows(pre.oam@, pre.ppuctrl, r)),
                zero_seen == exists|r: u16, q: u16| r < sl && q < 256 && #[trigger] pre.hit_in_row(chr@, r, pre.bg_pattern@, q),
                self.ppustatus == (if zero_seen { s0 | STATUS_SPRITE_ZERO } else { s0 }),
            decreases 240 - sl,
        {
            let ghost zero_before = zero_seen;
            let ghost ovf_before = overflow_seen;
            let ghost mid = *self;
            assert forall|q: u16| q < 256 implies #[trigger] mid.hit_in_row(chr@, sl, mid.bg_pattern@, q) == pre.hit_in_row(chr@, sl, pre.bg_pattern@, q) by {}
            self.render_sprites_scanline(sl, chr, &mut overflow_seen, &mut zero_seen);
            proof {
                assert forall|r: u16, q: u16| r < sl + 1 && q < 256 && #[trigger] pre.hit_in_row(chr@, r, pre.bg_pattern@, q) && r != sl
                    implies r < sl by {}
                if zero_seen && !zero_before {
                    let q = choose|q: u16| q < 256 && #[trigger] mid.hit_in_row(chr@, sl, mid.bg_pattern@, q);
                    assert(pre.hit_in_row(chr@, sl, pre.bg_pattern@, q));
                }
                if !zero_seen {
                    assert forall|q: u16| q < 256 implies !#[trigger] pre.hit_in_row(chr@, sl, pre.bg_pattern@, q) by {
                        assert(!mid.hit_in_row(chr@, sl, mid.bg_pattern@, q));
                    }
                }
                if overflow_seen && !ovf_before {
                    assert(line_overflows(pre.oam@, pre.ppuctrl, sl));
                }
            }
            sl = sl + 1;
        }
        if overflow_seen {
            self.set_sprite_overflow(true);
        }
    }

    /// Render a full frame: for each scanline the background, then the
    /// sprites over it. Clears, then sets, the overflow and sprite 0 hit flags.
    pub fn render_frame(&mut self, chr: &[u8])
        requires
            old(self).wf(),
        ensures
            final(self).wf(),
            final(self).same_but_output(old(self)),
            forall|sl: u16, px: u16|
                sl < 240 && px < 256 ==> #[trigger] final(self).framebuffer@[sl * 256 + px] == old(self).sprite_composite(
                    chr@,
                    sl,
                    px,
                    old(self).bg_pixel(chr@, sl, px).0,
                    old(self).bg_pixel(chr@, sl, px).1 != 0,
                ),
            forall|px: u16| px < 256 ==> #[trigger] final(self).bg_pattern@[px as int] == old(self).bg_pixel(chr@, 239, px).1,
            forall|i: int| 256 <= i < FRAMEBUFFER_SIZE ==> #[trigger] final(self).bg_pattern@[i] == old(self).bg_pattern@[i],
            final(self).ppustatus == old(self).status_after_sprites(old(self).frame_hits(chr@), old(self).frame_overflows()),
    {
        let ghost pre = *old(self);
        self.set_sprite_overflow(false);
        self.set_sprite_zero_hit(false);
        let ghost s0 = self.ppustatus;
        let mut overflow_seen: bool = false;
        let mut zero_seen: bool = false;
        let mut py: u16 = 0;
        while py < 240
            invariant
                self.wf(),
                pre.wf(),
                self.same_but_output(&pre),
                s0 == pre.ppustatus & !STATUS_OVERFLOW & !STATUS_SPRITE_ZERO,
                py <= 240,
                forall|r: u16, q: u16|
                    r < py && q < 256 ==> #[trigger] self.framebuffer@[r * 256 + q] == pre.sprite_composite(
                        chr@,
                        r,
                        q,
                        pre.bg_pixel(chr@, r, q).0,
                        pre.bg_pixel(chr@, r, q).1 != 0,
                    ),
                py > 0 ==> forall|q: u16| q < 256 ==> #[trigger] self.bg_pattern@[q as int] == pre.bg_pixel(chr@, (py - 1) as u16, q).1,
                forall|i: int| 256 <= i < FRAMEBUFFER_SIZE ==> #[trigger] self.bg_pattern@[i] == pre.bg_pattern@[i],
                overflow_seen == (pre.ppumask & MASK_SHOW_SPRITES != 0 && exists|r: u16|
                    r < py && #[trigger] line_overflows(pre.oam@, pre.ppuctrl, r)),
                zero_seen == exists|r: u16, q: u16| r < py && q < 256 && #[trigger] pre.frame_hit_at(chr@, r, q),
                self.ppustatus == (if zero_seen { s0 | STATUS_SPRITE_ZERO } else { s0 }),
            decreases 240 - py,
        {
            let ghost zero_before = zero_seen;
            let ghost ovf_before = overflow_seen;
            self.render_background_scanline(py, chr);
            let ghost mid = *self;
            assert forall|q: u16| q < 256 implies #[trigger] mid.hit_in_row(chr@, py, mid.bg_pattern@, q) == pre.frame_hit_at(chr@, py, q) by {
                assert(mid.bg_pattern@[q as int] == pre.bg_pixel(chr@, py, q).1);
            }
            self.render_sprites_scanline(py, chr, &mut overflow_seen, &mut zero_seen);
            proof {
                assert forall|r: u16, q: u16| r < py + 1 && q < 256 && #[trigger] pre.frame_hit_at(chr@, r, q) && r != py
                    implies r < py by {}
                if zero_seen && !zero_before {
                    let q = choose|q: u16| q < 256 && #[trigger] mid.hit_in_row(chr@, py, mid.bg_pattern@, q);
                    assert(pre.frame_hit_at(chr@, py, q));
                }
                if !zero_seen {
                    assert forall|q: u16| q < 256 implies !#[trigger] pre.frame_hit_at(chr@, py, q) by {
                        assert(!mid.hit_in_row(chr@, py, mid.bg_pattern@, q));
                    }
                }
                if overflow_seen && !ovf_before {
                    assert(line_overflows(pre.oam@, pre.ppuctrl, py));
                }
                assert forall|q: u16| q < 256 implies #[trigger] self.framebuffer@[py * 256 + q] == pre.sprite_composite(
                    chr@, py, q, pre.bg_pixel(chr@, py, q).0, pre.bg_pixel(chr@, py, q).1 != 0) by {
                    assert(mid.framebuffer@[py * 256 + q] == pre.bg_pixel(chr@, py, q).0);
                    assert(mid.bg_pattern@[q as int] == pre.bg_pixel(chr@, py, q).1);
                }
            }
            py = py + 1;
        }
        if overflow_seen {
            self.set_sprite_overflow(true);
        }
    }
}

/// Every index in `sprites_from(sl, i)` is an OAM index at or after `i`
/// whose sprite covers `sl`.
pub(crate) proof fn lemma_sprites_from_members(p: &Ppu, sl: u16, i: int, k: int)
    requires
        0 <= i,
        0 <= k < line_sprites(p.oam@, p.ppuctrl, sl).len() || (i > 0 && 0 <= k < sprites_from(p.oam@, p.ppuctrl, sl, i).len()),
    ensures
        i == 0 && k < line_sprites(p.oam@, p.ppuctrl, sl).len() ==> 0 <= line_sprites(p.oam@, p.ppuctrl, sl)[k] < 64 && sprite_on_line(p.oam@, p.ppuctrl, line_sprites(p.oam@, p.ppuctrl, sl)[k], sl),
        0 <= k < sprites_from(p.oam@, p.ppuctrl, sl, i).len() ==> i <= sprites_from(p.oam@, p.ppuctrl, sl, i)[k] < 64 && sprite_on_line(p.oam@, p.ppuctrl, sprites_from(p.oam@, p.ppuctrl, sl, i)[k], sl),
    decreases 64 - i,
{
    lemma_sprites_from_all(p, sl, i);
}

/// Every member of `sprites_from(sl, i)` is an OAM index in `i..64` covering `sl`.
proof fn lemma_sprites_from_all(p: &Ppu, sl: u16, i: int)
    requires
        0 <= i,
    ensures
        forall|k: int|
            0 <= k < sprites_from(p.oam@, p.ppuctrl, sl, i).len() ==> i <= #[trigger] sprites_from(p.oam@, p.ppuctrl, sl, i)[k] < 64 && sprite_on_line(p.oam@, p.ppuctrl, 
                sprites_from(p.oam@, p.ppuctrl, sl, i)[k],
                sl,
            ),
    decreases 64 - i,
{
    if i < 64 && p.oam@[4 * i] != OAM_Y_HALT {
        lemma_sprites_from_all(p, sl, i + 1);
        if sprite_on_line(p.oam@, p.ppuctrl, i, sl) {
            let rest = sprites_from(p.oam@, p.ppuctrl, sl, i + 1);
            assert(sprites_from(p.oam@, p.ppuctrl, sl, i) == seq![i] + rest);
            assert forall|k: int| 0 <= k < sprites_from(p.oam@, p.ppuctrl, sl, i).len() implies i <= #[trigger] sprites_from(p.oam@, p.ppuctrl, sl, i)[k] < 64
                && sprite_on_line(p.oam@, p.ppuctrl, sprites_from(p.oam@, p.ppuctrl, sl, i)[k], sl) by {
                if k > 0 {
                    assert(sprites_from(p.oam@, p.ppuctrl, sl, i)[k] == rest[k - 1]);
                }
            }
        } else {
            assert(sprites_from(p.oam@, p.ppuctrl, sl, i) == sprites_from(p.oam@, p.ppuctrl, sl, i + 1));
        }
    }
}
} // verus!
