//! Cycle-accurate rendering: one output pixel per PPU cycle.
//!
//! The scanline renderers in [`super::render`] draw a whole row from the
//! scroll registers at once. This path instead follows the hardware pixel
//! by pixel: the render position is snapshotted from `v` at the first
//! pixel of a scanline (and again after a mid-scanline `v` change), the
//! background goes through a two-pixel look-ahead fetch pipeline, and the
//! evaluated sprites of the scanline are composited on top.

use vstd::prelude::*;
use super::{Ppu, COARSE_X_MASK, NT_H_BIT, NT_V_BIT, CTRL_BG_PATTERN_1000, MASK_SHOW_BG, MASK_SHOW_BG_LEFT, STATUS_OVERFLOW, STATUS_SPRITE_ZERO, FRAMEBUFFER_SIZE};
use super::render::{SpriteEntry, chr_at, chr_byte, pattern_bits, pattern_of, bg_color_addr, entry_fits, entry_pattern, line_sprites, line_overflows, sprite_on_line, NT_BASE, ATTR_TABLE_OFFSET, PAL_BASE, SPRITE_PAL_BASE, ATTR_PALETTE_MASK, ATTR_PRIORITY_BEHIND, SPRITE_ZERO_HIT_MAX_X};

verus! {

/// Per-scanline state of the cycle-accurate renderer.
pub struct RenderState {
    /// The current scanline's render position and sprites are set up.
    pub scanline_initialized: bool,
    /// `v` changed mid-scanline: re-snapshot before the next pixel.
    pub v_dirty: bool,
    /// The look-ahead fetch pipeline holds the next two pixels.
    pub pipeline_primed: bool,
    /// Background fetches `(pattern, palette select)` of the next two pixels.
    pub fetch_buffer: [(u8, u8); 2],
    /// Slot of `fetch_buffer` that holds the current pixel.
    pub fetch_idx: u8,
    /// Coarse Y of the snapshot.
    pub coarse_y: u16,
    /// Fine Y of the snapshot.
    pub fine_y: u16,
    /// Vertical nametable bit of the snapshot.
    pub nt_v: u16,
    /// Coarse X at the snapshot pixel.
    pub coarse_x_start: u16,
    /// Horizontal nametable bit at the snapshot pixel.
    pub nt_h_start: u16,
    /// Fine X at the snapshot pixel.
    pub fine_x_start: u8,
    /// Output pixel at which the snapshot was taken.
    pub resync_px: u16,
    /// The scanline's evaluated sprites, front-most first (at most eight).
    pub sprites: Vec<SpriteEntry>,
    /// More than eight sprites covered the scanline.
    pub overflow: bool,
    /// Sprite 0 has hit during this frame.
    pub sprite_zero_hit: bool,
}

/// The renderer state as values: the buffers as sequences.
pub struct RenderView {
    pub scanline_initialized: bool,
    pub v_dirty: bool,
    pub pipeline_primed: bool,
    pub fetch_buffer: Seq<(u8, u8)>,
    pub fetch_idx: u8,
    pub coarse_y: u16,
    pub fine_y: u16,
    pub nt_v: u16,
    pub coarse_x_start: u16,
    pub nt_h_start: u16,
    pub fine_x_start: u8,
    pub resync_px: u16,
    pub sprites: Seq<SpriteEntry>,
    pub overflow: bool,
    pub sprite_zero_hit: bool,
}

impl View for RenderState {
    type V = RenderView;

    open spec fn view(&self) -> RenderView {
        RenderView {
            scanline_initialized: self.scanline_initialized,
            v_dirty: self.v_dirty,
            pipeline_primed: self.pipeline_primed,
            fetch_buffer: self.fetch_buffer@,
            fetch_idx: self.fetch_idx,
            coarse_y: self.coarse_y,
            fine_y: self.fine_y,
            nt_v: self.nt_v,
            coarse_x_start: self.coarse_x_start,
            nt_h_start: self.nt_h_start,
            fine_x_start: self.fine_x_start,
            resync_px: self.resync_px,
            sprites: self.sprites@,
            overflow: self.overflow,
            sprite_zero_hit: self.sprite_zero_hit,
        }
    }
}

/// The renderer at power-on: nothing set up, pipeline empty, no sprites.
pub open spec fn idle_render() -> RenderView {
    RenderView {
        scanline_initialized: false,
        v_dirty: false,
        pipeline_primed: false,
        fetch_buffer: seq![(0u8, 0u8), (0u8, 0u8)],
        fetch_idx: 0,
        coarse_y: 0,
        fine_y: 0,
        nt_v: 0,
        coarse_x_start: 0,
        nt_h_start: 0,
        fine_x_start: 0,
        resync_px: 0,
        sprites: Seq::empty(),
        overflow: false,
        sprite_zero_hit: false,
    }
}

impl RenderState {
    /// The power-on renderer state.
    pub fn new() -> (r: Self)
        ensures
            r@ == idle_render(),
    {
        let r = RenderState {
            scanline_initialized: false,
            v_dirty: false,
            pipeline_primed: false,
            fetch_buffer: [(0u8, 0u8), (0u8, 0u8)],
            fetch_idx: 0,
            coarse_y: 0,
            fine_y: 0,
            nt_v: 0,
            coarse_x_start: 0,
            nt_h_start: 0,
            fine_x_start: 0,
            resync_px: 0,
            sprites: Vec::new(),
            overflow: false,
            sprite_zero_hit: false,
        };
        assert(r@.fetch_buffer =~= seq![(0u8, 0u8), (0u8, 0u8)]);
        r
    }
}

/// `r` with the render position snapshotted from `v` and fine X at
/// output pixel `px`.
pub open spec fn snapshot_of(r: RenderView, v: u16, fine_x: u8, px: u16) -> RenderView {
    RenderView {
        coarse_y: (v >> 5u16) & 0x1F,
        fine_y: (v >> 12u16) & 0x07,
        nt_v: v & NT_V_BIT,
        coarse_x_start: v & COARSE_X_MASK,
        nt_h_start: v & NT_H_BIT,
        fine_x_start: fine_x,
        resync_px: px,
        v_dirty: false,
        ..r
    }
}

/// `(coarse X, horizontal nametable bit, fine X)` of output pixel `px`:
/// the snapshot position advanced by `px - resync_px` pixels, coarse X
/// wrapping at 32 and flipping the horizontal nametable bit on each wrap.
pub open spec fn effective_x(r: RenderView, px: u16) -> (u16, u16, u8) {
    let pos = r.fine_x_start + (px - r.resync_px);
    let total = r.coarse_x_start + pos / 8;
    let nt_h = if (total / 32) % 2 == 1 {
        r.nt_h_start ^ NT_H_BIT
    } else {
        r.nt_h_start
    };
    ((total % 32) as u16, nt_h, (pos % 8) as u8)
}

impl Ppu {
    /// The background `(pattern, palette select)` of output pixel `px` at
    /// the render position of `r`.
    pub open spec fn pixel_fetch(&self, r: RenderView, chr: Seq<u8>, px: u16) -> (u8, u8) {
        let e = effective_x(r, px);
        let coarse_x = e.0;
        let nt: u16 = ((e.1 >> 10u16) | (r.nt_v >> 10u16)) & 0x03;
        let nt_addr: u16 = NT_BASE | ((nt << 10u16) | (r.coarse_y << 5u16) | coarse_x);
        let tile = self.nametable_byte(nt_addr) as u16;
        let addr: u16 = self.bg_table() | (tile << 4u16) | r.fine_y;
        let pattern = pattern_bits(chr_at(chr, addr), chr_at(chr, addr | 0x08), (7 - e.2) as u8);
        let attr_addr: u16 = NT_BASE | ((nt << 10u16) | ATTR_TABLE_OFFSET | ((r.coarse_y >> 2u16) << 3u16) | (
        coarse_x >> 2u16));
        let shift: u16 = ((r.coarse_y & 0x02) << 1u16) | (coarse_x & 0x02);
        (pattern, (self.nametable_byte(attr_addr) >> shift) & 0x03)
    }

    /// Snapshot the render position from `v` and fine X at output pixel
    /// `px`: at the first pixel of a scanline and after a mid-scanline `v`
    /// change.
    fn snapshot_render_position(&mut self, px: u16)
        ensures
            final(self).render@ == snapshot_of(old(self).render@, old(self).v, old(self).fine_x, px),
            *final(self) == (Ppu { render: final(self).render, ..*old(self) }),
    {
        self.render.coarse_y = (self.v >> 5u16) & 0x1F;
        self.render.fine_y = (self.v >> 12u16) & 0x07;
        self.render.nt_v = self.v & NT_V_BIT;
        self.render.coarse_x_start = self.v & COARSE_X_MASK;
        self.render.nt_h_start = self.v & NT_H_BIT;
        self.render.fine_x_start = self.fine_x;
        self.render.resync_px = px;
        self.render.v_dirty = false;
    }

    /// The effective `(coarse X, horizontal nametable bit, fine X)` of
    /// output pixel `px`.
    fn effective_render_x(&self, px: u16) -> (r: (u16, u16, u8))
        requires
            self.render.resync_px <= px <= 257,
            self.render.coarse_x_start <= 31,
        ensures
            r == effective_x(self.render@, px),
            r.0 < 32,
            r.2 < 8,
    {
        let fine_x_start: u16 = self.render.fine_x_start as u16;
        let advance: u16 = px - self.render.resync_px;
        let pos: u16 = fine_x_start + advance;
        proof {
            crate::bits::lemma_u16_masks(pos);
        }
        let new_fine_x: u16 = pos & 0x07;
        let cx_inc: u16 = pos >> 3u16;
        let total: u32 = (self.render.coarse_x_start + cx_inc) as u32;
        let wraps: u32 = total / 32;
        let coarse_x: u16 = (total % 32) as u16;
        let mut nt_h: u16 = self.render.nt_h_start;
        if wraps % 2 == 1 {
            nt_h = nt_h ^ NT_H_BIT;
        }
        (coarse_x, nt_h, new_fine_x as u8)
    }

    /// Fetch the background `(pattern, palette select)` of output pixel
    /// `px`: nametable byte, the two pattern bitplanes, attribute byte.
    fn fetch_bg_pixel(&self, px: u16, chr: &[u8]) -> (r: (u8, u8))
        requires
            self.render.resync_px <= px <= 257,
            self.render.coarse_x_start <= 31,
        ensures
            r == self.pixel_fetch(self.render@, chr@, px),
            r.0 < 4,
    {
        let (coarse_x, nt_h, fine_x) = self.effective_render_x(px);
        let nt: u16 = ((nt_h >> 10u16) | (self.render.nt_v >> 10u16)) & 0x03;
        let coarse_y: u16 = self.render.coarse_y;
        let nt_addr: u16 = NT_BASE | ((nt << 10u16) | (coarse_y << 5u16) | coarse_x);
        proof {
            crate::bits::lemma_u16_bit13((nt << 10u16) | (coarse_y << 5u16) | coarse_x);
        }
        let tile_index: u16 = self.read_nametable(nt_addr) as u16;
        let bg_table: u16 = if (self.ppuctrl & CTRL_BG_PATTERN_1000) != 0 {
            0x1000
        } else {
            0x0000
        };
        let pattern_addr: u16 = bg_table | (tile_index << 4u16) | self.render.fine_y;
        let plane0: u8 = chr_byte(chr, pattern_addr);
        let plane1: u8 = chr_byte(chr, pattern_addr | 0x08);
        let pattern: u8 = pattern_of(plane0, plane1, 7 - fine_x);
        let attr_col: u16 = coarse_x >> 2u16;
        let attr_row: u16 = coarse_y >> 2u16;
        let attr_addr: u16 = NT_BASE | ((nt << 10u16) | ATTR_TABLE_OFFSET | (attr_row << 3u16) | attr_col);
        proof {
            crate::bits::lemma_u16_bit13((nt << 10u16) | ATTR_TABLE_OFFSET | (attr_row << 3u16) | attr_col);
        }
        let attr_byte: u8 = self.read_nametable(attr_addr);
        let shift: u16 = ((coarse_y & 0x02) << 1u16) | (coarse_x & 0x02);
        assert(shift < 8) by (bit_vector)
            requires shift == ((coarse_y & 0x02) << 1u16) | (coarse_x & 0x02);
        let pal_select: u8 = (attr_byte >> shift) & 0x03;
        (pattern, pal_select)
    }
}

/// Whether every entry of `es` can be drawn on scanline `sl` under PPUCTRL `ctrl`.
pub open spec fn entries_fit(es: Seq<SpriteEntry>, ctrl: u8, sl: u16) -> bool {
    forall|k: int| 0 <= k < es.len() ==> entry_fits((#[trigger] es[k]).1, es[k].3, ctrl, sl)
}

/// The sprite pixel at `(px, sl)` from the evaluated sprites `es`, from
/// entry `k` on, over a background pixel that is opaque or not: the
/// `(pattern, palette)` of the first opaque sprite pixel that is not
/// hidden behind the background, and whether sprite 0 was met there with
/// an opaque pixel over an opaque background left of `x = 255`.
pub open spec fn sprite_scan(es: Seq<SpriteEntry>, ctrl: u8, chr: Seq<u8>, sl: u16, px: u16, bg_opaque: bool, k: int) -> (
    Option<(u8, u8)>,
    bool,
)
    decreases es.len() - k,
{
    if k < 0 || k >= es.len() {
        (None, false)
    } else {
        let e = es[k];
        let rest = sprite_scan(es, ctrl, chr, sl, px, bg_opaque, k + 1);
        if !(e.4 as u16 <= px && px < e.4 as u16 + 8) {
            rest
        } else {
            let p = entry_pattern(e.1, e.2, e.3, e.4, ctrl, chr, sl, px);
            if p == 0 {
                rest
            } else {
                let hit = e.0 == 0 && px < SPRITE_ZERO_HIT_MAX_X && bg_opaque;
                if e.3 & ATTR_PRIORITY_BEHIND != 0 && bg_opaque {
                    (rest.0, hit || rest.1)
                } else {
                    (Some((p, e.3 & ATTR_PALETTE_MASK)), hit)
                }
            }
        }
    }
}

/// The entry of OAM sprite `i` as evaluation caches it: `(i, y, tile, attributes, x)`.
pub open spec fn oam_entry(oam: Seq<u8>, i: int) -> SpriteEntry {
    (i as usize, oam[4 * i], oam[4 * i + 1], oam[4 * i + 2], oam[4 * i + 3])
}

/// The sprite entries that evaluation caches for scanline `sl`.
pub open spec fn line_entries(oam: Seq<u8>, ctrl: u8, sl: u16) -> Seq<SpriteEntry> {
    line_sprites(oam, ctrl, sl).map_values(|i: int| oam_entry(oam, i))
}

impl Ppu {

    /// Evaluate the sprites of the current scanline into the renderer,
    /// latching the overflow flag into PPUSTATUS when more than eight
    /// cover it.
    fn evaluate_scanline_sprites(&mut self)
        ensures
            final(self).render@ == (RenderView {
                sprites: line_entries(old(self).oam@, old(self).ppuctrl, old(self).scanline),
                overflow: line_overflows(old(self).oam@, old(self).ppuctrl, old(self).scanline),
                ..old(self).render@
            }),
            final(self).ppustatus == (if line_overflows(old(self).oam@, old(self).ppuctrl, old(self).scanline) {
                old(self).ppustatus | STATUS_OVERFLOW
            } else {
                old(self).ppustatus
            }),
            *final(self) == (Ppu { render: final(self).render, ppustatus: final(self).ppustatus, ..*old(self) }),
    {
        let sl: u16 = self.scanline;
        let (selected, ovf) = self.evaluate_sprites(sl);
        proof {
            assert(selected@ =~= line_entries(self.oam@, self.ppuctrl, sl));
        }
        self.render.sprites = selected;
        self.render.overflow = ovf;
        if ovf {
            self.set_sprite_overflow(true);
        }
    }

    /// The sprite pixel at `(px, py)`, if an opaque, visible one covers
    /// it; sets the sprite 0 hit flag (once per frame) when sprite 0 is
    /// met over an opaque background.
    fn fetch_sprite_pixel(&mut self, px: u16, py: u16, chr: &[u8]) -> (r: Option<(u8, u8)>)
        requires
            old(self).wf(),
            px < 256,
            entries_fit(old(self).render.sprites@, old(self).ppuctrl, py),
        ensures
            r == sprite_scan(old(self).render.sprites@, old(self).ppuctrl, chr@, py, px, old(self).bg_pattern@[px as int] != 0, 0).0,
            final(self).render@ == (RenderView {
                sprite_zero_hit: old(self).render.sprite_zero_hit || sprite_scan(
                    old(self).render.sprites@,
                    old(self).ppuctrl,
                    chr@,
                    py,
                    px,
                    old(self).bg_pattern@[px as int] != 0,
                    0,
                ).1,
                ..old(self).render@
            }),
            final(self).ppustatus == (if !old(self).render.sprite_zero_hit && sprite_scan(
                old(self).render.sprites@,
                old(self).ppuctrl,
                chr@,
                py,
                px,
                old(self).bg_pattern@[px as int] != 0,
                0,
            ).1 {
                old(self).ppustatus | STATUS_SPRITE_ZERO
            } else {
                old(self).ppustatus
            }),
            *final(self) == (Ppu { render: final(self).render, ppustatus: final(self).ppustatus, ..*old(self) }),
    {
        let ghost pre = *old(self);
        let bg_opaque: bool = self.bg_pattern[px as usize] != 0;
        let ghost es = pre.render.sprites@;
        let ghost scan0 = sprite_scan(es, pre.ppuctrl, chr@, py, px, bg_opaque, 0);
        let ghost mut hit_acc: bool = false;
        let n: usize = self.render.sprites.len();
        let mut idx: usize = 0;
        while idx < n
            invariant
                pre == *old(self),
                n == es.len(),
                idx <= n,
                es == pre.render.sprites@,
                entries_fit(es, pre.ppuctrl, py),
                bg_opaque == (pre.bg_pattern@[px as int] != 0),
                scan0 == sprite_scan(es, pre.ppuctrl, chr@, py, px, bg_opaque, 0),
                scan0.0 == sprite_scan(es, pre.ppuctrl, chr@, py, px, bg_opaque, idx as int).0,
                scan0.1 == (hit_acc || sprite_scan(es, pre.ppuctrl, chr@, py, px, bg_opaque, idx as int).1),
                self.render@ == (RenderView { sprite_zero_hit: pre.render.sprite_zero_hit || hit_acc, ..pre.render@ }),
                self.ppustatus == (if !pre.render.sprite_zero_hit && hit_acc {
                    pre.ppustatus | STATUS_SPRITE_ZERO
                } else {
                    pre.ppustatus
                }),
                *self == (Ppu { render: self.render, ppustatus: self.ppustatus, ..pre }),
            decreases n - idx,
        {
            let e: SpriteEntry = self.render.sprites[idx];
            let sx: u16 = e.4 as u16;
            if px < sx || px >= sx + 8 {
                idx = idx + 1;
                continue;
            }
            assert(entry_fits(es[idx as int].1, es[idx as int].3, pre.ppuctrl, py));
            let pattern: u8 = self.sprite_pixel_pattern(chr, e, py, px);
            if pattern == 0 {
                idx = idx + 1;
                continue;
            }
            if !self.render.sprite_zero_hit && e.0 == 0 && px < SPRITE_ZERO_HIT_MAX_X && bg_opaque {
                self.set_sprite_zero_hit(true);
                self.render.sprite_zero_hit = true;
            }
            proof {
                hit_acc = hit_acc || (e.0 == 0 && px < SPRITE_ZERO_HIT_MAX_X && bg_opaque);
            }
            let behind: bool = (e.3 & ATTR_PRIORITY_BEHIND) != 0;
            if behind && bg_opaque {
                idx = idx + 1;
                continue;
            }
            assert(sprite_scan(es, pre.ppuctrl, chr@, py, px, bg_opaque, idx as int) == (
                Some((pattern, e.3 & ATTR_PALETTE_MASK)),
                e.0 == 0 && px < SPRITE_ZERO_HIT_MAX_X && bg_opaque,
            ));
            return Some((pattern, e.3 & ATTR_PALETTE_MASK));
        }
        None
    }
}

impl Ppu {
    /// The renderer's own invariant: the fetch slot is 0 or 1; once the
    /// scanline is set up, the snapshot lies at or before the current
    /// pixel (unless a re-sync is pending) and every cached sprite can be
    /// drawn on the current scanline.
    pub open spec fn render_wf(&self) -> bool {
        &&& self.render.fetch_idx < 2
        &&& self.render.scanline_initialized && !self.render.v_dirty ==> self.render.resync_px < self.cycle
            && self.render.coarse_x_start <= 31
        &&& self.render.scanline_initialized ==> entries_fit(self.render.sprites@, self.ppuctrl, self.scanline)
    }

    /// The renderer state once the scanline is set up (snapshot and sprite
    /// evaluation at its first pixel) and any pending re-sync is done, at
    /// output pixel `px`.
    pub open spec fn prepared_render(&self, px: u16) -> RenderView {
        let r = self.render@;
        let r1 = if !r.scanline_initialized {
            RenderView {
                sprites: line_entries(self.oam@, self.ppuctrl, self.scanline),
                overflow: line_overflows(self.oam@, self.ppuctrl, self.scanline),
                scanline_initialized: true,
                ..snapshot_of(r, self.v, self.fine_x, px)
            }
        } else {
            r
        };
        if r1.v_dirty {
            snapshot_of(r1, self.v, self.fine_x, px)
        } else {
            r1
        }
    }

    /// PPUSTATUS once the scanline is set up: sprite overflow latched when
    /// the evaluation at its first pixel finds more than eight sprites.
    pub open spec fn prepared_status(&self) -> u8 {
        if !self.render.scanline_initialized && line_overflows(self.oam@, self.ppuctrl, self.scanline) {
            self.ppustatus | STATUS_OVERFLOW
        } else {
            self.ppustatus
        }
    }

    /// The background stage at output pixel `px` from renderer state `r`:
    /// the renderer state after the fetch pipeline, the pattern value
    /// recorded for the pixel, and the pixel's colour.
    ///
    /// With the background shown, the pipeline (primed with pixels `px`
    /// and `px + 1` when empty) hands out the fetch made two pixels
    /// earlier and fetches pixel `px + 2` into the freed slot; the left
    /// 8-pixel mask hides the output only.
    #[verifier::opaque]
    pub open spec fn bg_stage(&self, r: RenderView, chr: Seq<u8>, px: u16) -> (RenderView, u8, u32) {
        if self.ppumask & MASK_SHOW_BG == 0 {
            (RenderView { pipeline_primed: false, ..r }, 0u8, self.universal_bg())
        } else {
            let rp = if !r.pipeline_primed {
                RenderView {
                    fetch_buffer: seq![self.pixel_fetch(r, chr, px), self.pixel_fetch(r, chr, (px + 1) as u16)],
                    fetch_idx: 0,
                    pipeline_primed: true,
                    ..r
                }
            } else {
                r
            };
            let cur = rp.fetch_buffer[rp.fetch_idx as int];
            let r2 = RenderView {
                fetch_buffer: rp.fetch_buffer.update(rp.fetch_idx as int, self.pixel_fetch(r, chr, (px + 2) as u16)),
                fetch_idx: (1 - rp.fetch_idx) as u8,
                ..rp
            };
            if px < 8 && self.ppumask & MASK_SHOW_BG_LEFT == 0 {
                (r2, 0u8, self.universal_bg())
            } else {
                (r2, cur.0, self.argb_of(self.palette_byte(bg_color_addr(cur.0, cur.1))))
            }
        }
    }

    /// The colour of pixel `(px, sl)` with the evaluated sprites `es`
    /// composited over `under`, and whether sprite 0 hits there.
    #[verifier::opaque]
    pub open spec fn sprite_stage(&self, es: Seq<SpriteEntry>, chr: Seq<u8>, sl: u16, px: u16, under: u32, bg_opaque: bool) -> (
        u32,
        bool,
    ) {
        if self.sprites_shown_at(px) {
            let scan = sprite_scan(es, self.ppuctrl, chr, sl, px, bg_opaque, 0);
            match scan.0 {
                Some(sp) => (
                    self.argb_of(self.palette_byte(SPRITE_PAL_BASE | ((sp.1 as u16) << 2u16) | (sp.0 as u16))),
                    scan.1,
                ),
                None => (under, scan.1),
            }
        } else {
            (under, false)
        }
    }

    /// What drawing the pixel of the current `(cycle, scanline)` leaves:
    /// the framebuffer, the pattern buffer, the renderer state and
    /// PPUSTATUS.
    pub open spec fn pixel_outcome(&self, chr: Seq<u8>) -> (Seq<u32>, Seq<u8>, RenderView, u8) {
        let px = (self.cycle - 1) as u16;
        let sl = self.scanline;
        let r1 = self.prepared_render(px);
        let bg = self.bg_stage(r1, chr, px);
        let sp = self.sprite_stage(r1.sprites, chr, sl, px, bg.2, bg.1 != 0);
        let status = self.prepared_status();
        (
            self.framebuffer@.update(sl * 256 + px, sp.0),
            self.bg_pattern@.update(px as int, bg.1),
            RenderView { sprite_zero_hit: r1.sprite_zero_hit || sp.1, ..bg.0 },
            if !r1.sprite_zero_hit && sp.1 {
                status | STATUS_SPRITE_ZERO
            } else {
                status
            },
        )
    }

    /// Set up the scanline at its first pixel (position snapshot and
    /// sprite evaluation) and re-sync the position after a mid-scanline
    /// `v` change, at output pixel `px`.
    fn prepare_pixel(&mut self, px: u16)
        requires
            old(self).render_wf(),
            px as int + 1 == old(self).cycle,
        ensures
            final(self).render@ == old(self).prepared_render(px),
            final(self).ppustatus == old(self).prepared_status(),
            *final(self) == (Ppu { render: final(self).render, ppustatus: final(self).ppustatus, ..*old(self) }),
            final(self).render.scanline_initialized,
            !final(self).render.v_dirty,
            final(self).render.resync_px <= px,
            final(self).render.coarse_x_start <= 31,
            final(self).render.fetch_idx < 2,
            entries_fit(final(self).render.sprites@, final(self).ppuctrl, final(self).scanline),
    {
        let ghost pre = *old(self);
        proof {
            crate::bits::lemma_u16_masks(pre.v);
        }
        if !self.render.scanline_initialized {
            self.snapshot_render_position(px);
            self.evaluate_scanline_sprites();
            self.render.scanline_initialized = true;
            proof {
                let sel = line_sprites(pre.oam@, pre.ppuctrl, pre.scanline);
                assert forall|k: int| 0 <= k < sel.len() implies 0 <= #[trigger] sel[k] < 64 && sprite_on_line(
                    pre.oam@,
                    pre.ppuctrl,
                    sel[k],
                    pre.scanline,
                ) by {
                    super::render::lemma_sprites_from_members(&pre, pre.scanline, 0, k);
                }
                let es = line_entries(pre.oam@, pre.ppuctrl, pre.scanline);
                assert forall|k: int| 0 <= k < es.len() implies entry_fits((#[trigger] es[k]).1, es[k].3, pre.ppuctrl, pre.scanline) by {
                    assert(sprite_on_line(pre.oam@, pre.ppuctrl, sel[k], pre.scanline));
                }
            }
        }
        if self.render.v_dirty {
            self.snapshot_render_position(px);
        }
    }

    /// The background stage of output pixel `px` (see [`Ppu::bg_stage`]):
    /// advances the fetch pipeline, records the pixel's pattern value and
    /// returns its colour.
    fn background_pixel(&mut self, px: u16, chr: &[u8]) -> (c: u32)
        requires
            old(self).wf(),
            px < 256,
            old(self).render.resync_px <= px,
            old(self).render.coarse_x_start <= 31,
            old(self).render.fetch_idx < 2,
        ensures
            final(self).wf(),
            final(self).render@ == old(self).bg_stage(old(self).render@, chr@, px).0,
            final(self).bg_pattern@ == old(self).bg_pattern@.update(px as int, old(self).bg_stage(old(self).render@, chr@, px).1),
            c == old(self).bg_stage(old(self).render@, chr@, px).2,
            *final(self) == (Ppu { render: final(self).render, bg_pattern: final(self).bg_pattern, ..*old(self) }),
            final(self).render.fetch_idx < 2,
            final(self).render.scanline_initialized == old(self).render.scanline_initialized,
            final(self).render.v_dirty == old(self).render.v_dirty,
            final(self).render.resync_px == old(self).render.resync_px,
            final(self).render.coarse_x_start == old(self).render.coarse_x_start,
            final(self).render.sprites@ == old(self).render.sprites@,
            final(self).render.sprite_zero_hit == old(self).render.sprite_zero_hit,
    {
        reveal(Ppu::bg_stage);
        let ghost pre = *old(self);
        let bg_enabled: bool = (self.ppumask & MASK_SHOW_BG) != 0;
        let bg_left_enabled: bool = (self.ppumask & MASK_SHOW_BG_LEFT) != 0;
        if !bg_enabled {
            let c: u32 = self.universal_bg_argb();
            self.bg_pattern.set(px as usize, 0);
            self.render.pipeline_primed = false;
            return c;
        }
        if !self.render.pipeline_primed {
            let f0: (u8, u8) = self.fetch_bg_pixel(px, chr);
            let f1: (u8, u8) = self.fetch_bg_pixel(px + 1, chr);
            self.render.fetch_buffer[0] = f0;
            self.render.fetch_buffer[1] = f1;
            self.render.fetch_idx = 0;
            self.render.pipeline_primed = true;
            assert(self.render.fetch_buffer@ =~= seq![f0, f1]);
        }
        let idx: usize = self.render.fetch_idx as usize;
        let (pattern, pal_select) = self.render.fetch_buffer[idx];
        let lookahead: (u8, u8) = self.fetch_bg_pixel(px + 2, chr);
        assert(lookahead == pre.pixel_fetch(pre.render@, chr@, (px + 2) as u16));
        self.render.fetch_buffer[idx] = lookahead;
        self.render.fetch_idx = 1 - self.render.fetch_idx;
        if px < 8 && !bg_left_enabled {
            let c: u32 = self.universal_bg_argb();
            self.bg_pattern.set(px as usize, 0);
            c
        } else {
            self.bg_pattern.set(px as usize, pattern);
            let color_addr: u16 = if pattern == 0 {
                PAL_BASE
            } else {
                PAL_BASE | ((pal_select as u16) << 2u16) | (pattern as u16)
            };
            let nes_index: u8 = self.read_palette(color_addr);
            self.color_to_argb(nes_index)
        }
    }

    /// The sprite stage of pixel `(px, py)` (see [`Ppu::sprite_stage`]):
    /// composites the evaluated sprites over `under` and latches sprite 0
    /// hit.
    fn sprite_pixel(&mut self, px: u16, py: u16, chr: &[u8], under: u32) -> (c: u32)
        requires
            old(self).wf(),
            px < 256,
            entries_fit(old(self).render.sprites@, old(self).ppuctrl, py),
        ensures
            c == old(self).sprite_stage(old(self).render.sprites@, chr@, py, px, under, old(self).bg_pattern@[px as int] != 0).0,
            final(self).render@ == (RenderView {
                sprite_zero_hit: old(self).render.sprite_zero_hit || old(self).sprite_stage(
                    old(self).render.sprites@,
                    chr@,
                    py,
                    px,
                    under,
                    old(self).bg_pattern@[px as int] != 0,
                ).1,
                ..old(self).render@
            }),
            final(self).ppustatus == (if !old(self).render.sprite_zero_hit && old(self).sprite_stage(
                old(self).render.sprites@,
                chr@,
                py,
                px,
                under,
                old(self).bg_pattern@[px as int] != 0,
            ).1 {
                old(self).ppustatus | STATUS_SPRITE_ZERO
            } else {
                old(self).ppustatus
            }),
            *final(self) == (Ppu { render: final(self).render, ppustatus: final(self).ppustatus, ..*old(self) }),
    {
        reveal(Ppu::sprite_stage);
        let sprites_enabled: bool = (self.ppumask & super::MASK_SHOW_SPRITES) != 0;
        let sprites_left_enabled: bool = (self.ppumask & super::MASK_SHOW_SPRITES_LEFT) != 0;
        if sprites_enabled && (px >= 8 || sprites_left_enabled) {
            if let Some((sprite_pattern, sprite_pal)) = self.fetch_sprite_pixel(px, py, chr) {
                let color_addr: u16 = SPRITE_PAL_BASE | ((sprite_pal as u16) << 2u16) | (sprite_pattern as u16);
                let nes_index: u8 = self.read_palette(color_addr);
                return self.color_to_argb(nes_index);
            }
        }
        under
    }

    /// Render the pixel of the current `(cycle, scanline)` (cycle 1 is
    /// pixel 0): set up the scanline at its first pixel, re-sync after a
    /// mid-scanline `v` change, run the background fetch pipeline and
    /// composite the scanline's sprites on top.
    pub fn render_one_pixel(&mut self, chr: &[u8])
        requires
            old(self).wf(),
            old(self).render_wf(),
            1 <= old(self).cycle <= 256,
            old(self).scanline < 240,
        ensures
            final(self).wf(),
            final(self).render_wf(),
            final(self).framebuffer@ == old(self).pixel_outcome(chr@).0,
            final(self).bg_pattern@ == old(self).pixel_outcome(chr@).1,
            final(self).render@ == old(self).pixel_outcome(chr@).2,
            final(self).ppustatus == old(self).pixel_outcome(chr@).3,
            *final(self) == (Ppu {
                framebuffer: final(self).framebuffer,
                bg_pattern: final(self).bg_pattern,
                render: final(self).render,
                ppustatus: final(self).ppustatus,
                ..*old(self)
            }),
    {
        let ghost pre = *old(self);
        let px: u16 = self.cycle - 1;
        let py: u16 = self.scanline;
        let col: usize = (py as usize) * 256 + (px as usize);
        self.prepare_pixel(px);
        let ghost mid = *self;
        let c: u32 = self.background_pixel(px, chr);
        proof {
            lemma_bg_stage_frame(mid, pre, mid.render@, chr@, px);
        }
        let ghost mid2 = *self;
        let pixel_argb: u32 = self.sprite_pixel(px, py, chr, c);
        proof {
            lemma_sprite_stage_frame(mid2, pre, mid2.render.sprites@, chr@, py, px, c, mid2.bg_pattern@[px as int] != 0);
        }
        self.framebuffer.set(col, pixel_argb);
    }
}

/// The background stage reads only the mask and control registers,
/// nametable VRAM with its mirroring, and the palette.
proof fn lemma_bg_stage_frame(a: Ppu, b: Ppu, r: RenderView, chr: Seq<u8>, px: u16)
    requires
        a.ppumask == b.ppumask,
        a.ppuctrl == b.ppuctrl,
        a.vram == b.vram,
        a.mirroring == b.mirroring,
        a.palette == b.palette,
        a.region == b.region,
        a.use_inaccurate_palette == b.use_inaccurate_palette,
    ensures
        a.bg_stage(r, chr, px) == b.bg_stage(r, chr, px),
{
    reveal(Ppu::bg_stage);
    assert(a.pixel_fetch(r, chr, px) == b.pixel_fetch(r, chr, px));
    assert(a.pixel_fetch(r, chr, (px + 1) as u16) == b.pixel_fetch(r, chr, (px + 1) as u16));
    assert(a.pixel_fetch(r, chr, (px + 2) as u16) == b.pixel_fetch(r, chr, (px + 2) as u16));
}

/// The sprite stage reads only the mask and control registers and the
/// palette.
proof fn lemma_sprite_stage_frame(a: Ppu, b: Ppu, es: Seq<SpriteEntry>, chr: Seq<u8>, sl: u16, px: u16, under: u32, bg_opaque: bool)
    requires
        a.ppumask == b.ppumask,
        a.ppuctrl == b.ppuctrl,
        a.palette == b.palette,
        a.region == b.region,
        a.use_inaccurate_palette == b.use_inaccurate_palette,
    ensures
        a.sprite_stage(es, chr, sl, px, under, bg_opaque) == b.sprite_stage(es, chr, sl, px, under, bg_opaque),
{
    reveal(Ppu::sprite_stage);
}
/// The look-ahead pipeline hands each pixel its own fetch: when the
/// background is shown and the pipeline holds the fetches of pixels `px`
/// (in the current slot) and `px + 1` (or is empty), the value recorded
/// for `px` is the fetch of `px` (unless the left mask hides it), and
/// afterwards the pipeline holds the fetches of `px + 1` and `px + 2` in
/// the same way.
pub proof fn law_fetch_pipeline_in_step(p: Ppu, r: RenderView, chr: Seq<u8>, px: u16)
    requires
        p.ppumask & MASK_SHOW_BG != 0,
        px < 256,
        r.pipeline_primed ==> r.fetch_idx < 2 && r.fetch_buffer.len() == 2,
        r.pipeline_primed ==> r.fetch_buffer[r.fetch_idx as int] == p.pixel_fetch(r, chr, px),
        r.pipeline_primed ==> r.fetch_buffer[1 - r.fetch_idx] == p.pixel_fetch(r, chr, (px + 1) as u16),
    ensures
        (px >= 8 || p.ppumask & MASK_SHOW_BG_LEFT != 0) ==> p.bg_stage(r, chr, px).1 == p.pixel_fetch(r, chr, px).0,
        p.bg_stage(r, chr, px).0.pipeline_primed,
        p.bg_stage(r, chr, px).0.fetch_idx < 2,
        p.bg_stage(r, chr, px).0.fetch_buffer.len() == 2,
        p.bg_stage(r, chr, px).0.fetch_buffer[p.bg_stage(r, chr, px).0.fetch_idx as int] == p.pixel_fetch(
            p.bg_stage(r, chr, px).0,
            chr,
            (px + 1) as u16,
        ),
        p.bg_stage(r, chr, px).0.fetch_buffer[1 - p.bg_stage(r, chr, px).0.fetch_idx] == p.pixel_fetch(
            p.bg_stage(r, chr, px).0,
            chr,
            (px + 2) as u16,
        ),
{
    reveal(Ppu::bg_stage);
    let r2 = p.bg_stage(r, chr, px).0;
    assert(p.pixel_fetch(r2, chr, (px + 1) as u16) == p.pixel_fetch(r, chr, (px + 1) as u16));
    assert(p.pixel_fetch(r2, chr, (px + 2) as u16) == p.pixel_fetch(r, chr, (px + 2) as u16));
}

} // verus!
