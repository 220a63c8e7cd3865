//! The rewind timeline: a bar drawn near the bottom of the frame showing
//! how full the rewind buffer is, where playback stands in it, how much
//! can be replayed forward, and the alternate timelines branching off it,
//! with a text label above. The whole overlay fades with an opacity level.
//!
//! Drawing is painter's order: a background strip, the label, the bar's
//! border, its empty fill, the rewind fill, the forward fill, tick marks
//! at each quarter, the position marker, then each branch bar. Every pixel
//! drawn is blended over what lies below by `opacity / MAX_OPACITY`.

use vstd::prelude::*;

use crate::osd::{OSD_BG_ARGB, OSD_FG_ARGB};
use crate::text::{decimal, push_decimal};

verus! {

pub const TIMELINE_FILLED: u32 = 0xFF00_CC66;
pub const TIMELINE_EMPTY: u32 = 0xFF33_3333;
pub const TIMELINE_BORDER: u32 = 0xFF88_8888;
pub const TIMELINE_MARKER: u32 = 0xFFFF_FFFF;
pub const TIMELINE_MARKER_DIM: u32 = 0xFF88_8888;
pub const TIMELINE_BG: u32 = 0xFF00_0000;
/// Forward fill colour (light blue-white).
pub const TIMELINE_FORWARD: u32 = 0xFFAA_CCDD;
/// Branch bar colour (orange).
pub const TIMELINE_BRANCH: u32 = 0xFFCC_8833;
/// Branch forward fill colour (light orange).
pub const TIMELINE_BRANCH_FORWARD: u32 = 0xFFEE_BB88;
/// Branch divergence marker colour (bright yellow).
pub const TIMELINE_BRANCH_MARKER: u32 = 0xFFFF_DD00;

/// Bar layout, in framebuffer pixels.
pub const BAR_X: u32 = 4;
pub const BAR_Y: u32 = 228;
pub const BAR_W: u32 = 248;
pub const BAR_H: u32 = 6;
pub const BORDER_THICKNESS: u32 = 1;
pub const TEXT_Y: u32 = 218;

/// The glyph drawn for `c` from table `glyphs`; none (a blank cell) past
/// the table.
pub open spec fn glyph_cell(glyphs: Seq<[u8; 8]>, c: char) -> Option<[u8; 8]> {
    if (c as int) < glyphs.len() {
        Some(glyphs[c as int])
    } else {
        None
    }
}

/// Full opacity; the fade runs over `0..=MAX_OPACITY`.
pub const MAX_OPACITY: u8 = 4;

/// What the timeline shows.
#[derive(Debug, Clone, Copy, PartialEq, Eq, Structural)]
pub enum TimelineMode {
    /// Rewinding.
    Rewind,
    /// Replaying forward.
    Forward,
    /// Showing the buffer while playing.
    Buffer,
}

/// One timeline drawing.
#[derive(Debug, Clone)]
pub struct TimelineConfig {
    /// Snapshots in the rewind buffer.
    pub filled: usize,
    /// Most snapshots the buffer holds.
    pub capacity: usize,
    pub mode: TimelineMode,
    /// Frames between snapshots; the label counts frames.
    pub rewind_interval: usize,
    /// Opacity 0 (invisible) to `MAX_OPACITY`.
    pub opacity: u8,
    /// Animation frame; the marker pulses every 8 frames.
    pub anim_frame: u32,
    /// Rewind speed multiplier shown in the label.
    pub speed: u32,
    /// Snapshots available to replay forward.
    pub forward_filled: usize,
    /// Branches as (divergence position, rewind length, forward length,
    /// nesting depth).
    pub branches: Vec<(usize, usize, usize, u32)>,
}

impl Default for TimelineConfig {
    /// An empty buffer of 300 snapshots every 2 frames, fully visible.
    fn default() -> (c: Self)
        ensures
            c.filled == 0 && c.capacity == 300 && c.mode == TimelineMode::Buffer,
            c.rewind_interval == 2 && c.opacity == MAX_OPACITY && c.anim_frame == 0 && c.speed == 1,
            c.forward_filled == 0 && c.branches@.len() == 0,
    {
        TimelineConfig {
            filled: 0,
            capacity: 300,
            mode: TimelineMode::Buffer,
            rewind_interval: 2,
            opacity: MAX_OPACITY,
            anim_frame: 0,
            speed: 1,
            forward_filled: 0,
            branches: Vec::new(),
        }
    }
}

/// `fg` over `bg` at `opacity / MAX_OPACITY`, channel by channel, made
/// opaque; all `fg` at full opacity and all `bg` at zero.
pub open spec fn blend_spec(fg: u32, bg: u32, opacity: u8) -> u32 {
    if opacity >= MAX_OPACITY {
        fg
    } else if opacity == 0 {
        bg
    } else {
        let a = opacity as int;
        let b = 4 - a;
        let r = (((fg >> 16u32) & 0xFF) * a + ((bg >> 16u32) & 0xFF) * b) / 4;
        let g = (((fg >> 8u32) & 0xFF) * a + ((bg >> 8u32) & 0xFF) * b) / 4;
        let bl = ((fg & 0xFF) * a + (bg & 0xFF) * b) / 4;
        0xFF00_0000u32 | ((r as u32) << 16u32) | ((g as u32) << 8u32) | (bl as u32)
    }
}

/// Blend `fg` over `bg` (see [`blend_spec`]).
pub fn blend(fg: u32, bg: u32, opacity: u8) -> (r: u32)
    ensures
        r == blend_spec(fg, bg, opacity),
{
    if opacity >= MAX_OPACITY {
        return fg;
    }
    if opacity == 0 {
        return bg;
    }
    let a: u32 = opacity as u32;
    let b: u32 = (MAX_OPACITY - opacity) as u32;
    proof {
        crate::bits::lemma_u32_masks(fg);
        crate::bits::lemma_u32_masks(bg);
        crate::bits::lemma_u32_masks(fg >> 16u32);
        crate::bits::lemma_u32_masks(bg >> 16u32);
        crate::bits::lemma_u32_masks(fg >> 8u32);
        crate::bits::lemma_u32_masks(bg >> 8u32);
    }
    let fr: u32 = (fg >> 16) & 0xFF;
    let fgg: u32 = (fg >> 8) & 0xFF;
    let fb: u32 = fg & 0xFF;
    let br: u32 = (bg >> 16) & 0xFF;
    let bgg: u32 = (bg >> 8) & 0xFF;
    let bb: u32 = bg & 0xFF;
    assert(fr * a + br * b <= 1020 && fgg * a + bgg * b <= 1020 && fb * a + bb * b <= 1020) by (nonlinear_arith)
        requires
            fr < 256,
            br < 256,
            fgg < 256,
            bgg < 256,
            fb < 256,
            bb < 256,
            a + b == 4,
    ;
    let r: u32 = (fr * a + br * b) / 4;
    let g: u32 = (fgg * a + bgg * b) / 4;
    let bl: u32 = (fb * a + bb * b) / 4;
    0xFF00_0000u32 | (r << 16) | (g << 8) | bl
}

/// What a painted area holds: one colour, or an 8×8 glyph (bit 7 of each
/// row leftmost; none is blank) in `fg` on `bg`.
#[derive(Clone, Copy)]
pub enum Pattern {
    Solid(u32),
    Glyph(Option<[u8; 8]>, u32, u32),
}

/// The colour of `p` at offset `(dx, dy)` inside the painted area.
pub open spec fn pattern_color(p: Pattern, dx: int, dy: int) -> u32 {
    match p {
        Pattern::Solid(c) => c,
        Pattern::Glyph(rows, fg, bg) => match rows {
            Some(r) => if (r[dy] >> ((7 - dx) as u8)) & 1 != 0 {
                fg
            } else {
                bg
            },
            None => bg,
        },
    }
}

/// Frame `f` (`w` pixels wide, row-major) with the rectangle at `(x, y)`
/// of width `rw` painted in full over rows `y..row`, and row `row` painted
/// over columns `x..col`.
pub open spec fn paint_progress(f: Seq<u32>, w: int, x: int, y: int, rw: int, p: Pattern, op: u8, row: int, col: int) -> Seq<u32> {
    Seq::new(
        f.len(),
        |i: int|
            if (x <= i % w < x + rw && y <= i / w < row) || (i / w == row && x <= i % w < col) {
                blend_spec(pattern_color(p, i % w - x, i / w - y), f[i], op)
            } else {
                f[i]
            },
    )
}

/// Frame `f` with the `rw` × `rh` rectangle at `(x, y)` painted with `p`
/// at opacity `op` (clipped to the frame).
pub open spec fn painted(f: Seq<u32>, w: int, x: int, y: int, rw: int, rh: int, p: Pattern, op: u8) -> Seq<u32> {
    paint_progress(f, w, x, y, rw, p, op, y + rh, x)
}

/// Frame `f` with a one-pixel outline of the `rw` × `rh` rectangle at
/// `(x, y)` in `c`: top, bottom, left and right edges in that order.
pub open spec fn outlined(f: Seq<u32>, w: int, x: int, y: int, rw: int, rh: int, c: u32, op: u8) -> Seq<u32> {
    if rw == 0 || rh == 0 {
        f
    } else {
        let p = Pattern::Solid(c);
        let f1 = painted(f, w, x, y, rw, 1, p, op);
        let f2 = painted(f1, w, x, y + rh - 1, rw, 1, p, op);
        let f3 = painted(f2, w, x, y, 1, rh, p, op);
        painted(f3, w, x + rw - 1, y, 1, rh, p, op)
    }
}

/// Frame `f` with the first `n` characters of `t` drawn from `(x, y)`,
/// eight pixels apart, in `fg` on `bg`.
pub open spec fn text_drawn(f: Seq<u32>, w: int, t: Seq<char>, x: int, y: int, fg: u32, bg: u32, op: u8, glyphs: Seq<[u8; 8]>, n: int) -> Seq<u32>
    decreases n,
{
    if n <= 0 {
        f
    } else {
        painted(
            text_drawn(f, w, t, x, y, fg, bg, op, glyphs, n - 1),
            w,
            x + 8 * (n - 1),
            y,
            8,
            8,
            Pattern::Glyph(glyph_cell(glyphs, t[n - 1]), fg, bg),
            op,
        )
    }
}

/// How many characters of an `len`-character text drawn from `x` fit
/// whole in a frame `w` pixels wide.
pub open spec fn chars_fitting(len: int, x: int, w: int) -> int {
    if x + 8 > w {
        0
    } else {
        let k = (w - x) / 8;
        if k < len { k } else { len }
    }
}

/// The label: mode, speed when above 1, and frames held / frames capacity.
pub open spec fn timeline_label(cfg: TimelineConfig) -> Seq<char> {
    let counts = " F:"@ + decimal((cfg.filled * cfg.rewind_interval) as nat) + "/"@ + decimal(
        (cfg.capacity * cfg.rewind_interval) as nat,
    );
    match cfg.mode {
        TimelineMode::Rewind => if cfg.speed > 1 {
            "REWIND x"@ + decimal(cfg.speed as nat) + counts
        } else {
            "REWIND "@ + counts
        },
        TimelineMode::Forward => if cfg.speed > 1 {
            "FORWARD x"@ + decimal(cfg.speed as nat) + counts
        } else {
            "FORWARD "@ + counts
        },
        TimelineMode::Buffer => "BUFFER "@ + counts,
    }
}

/// `n` scaled to bar pixels against `capacity`, as a 32-bit value.
pub open spec fn scaled_width(n: int, capacity: int) -> int {
    (((BAR_W as int) * n) / capacity) as u32 as int
}

/// Width of the rewind fill.
pub open spec fn filled_width(cfg: TimelineConfig) -> int {
    if cfg.filled >= cfg.capacity {
        BAR_W as int
    } else {
        scaled_width(cfg.filled as int, cfg.capacity as int)
    }
}

/// Width of the forward fill, clipped to the rest of the bar.
pub open spec fn forward_width(cfg: TimelineConfig) -> int {
    if cfg.forward_filled == 0 {
        0
    } else {
        let fwd = scaled_width(cfg.forward_filled as int, cfg.capacity as int);
        let room = BAR_W - filled_width(cfg);
        if fwd < room { fwd } else { room }
    }
}

/// Column of the position marker: the end of the rewind fill while
/// rewinding or replaying, the end of the bar otherwise.
pub open spec fn marker_x(cfg: TimelineConfig) -> int {
    let m = match cfg.mode {
        TimelineMode::Buffer => BAR_X + BAR_W,
        _ => BAR_X + filled_width(cfg),
    };
    if m < BAR_X + BAR_W { m } else { (BAR_X + BAR_W) as int }
}

/// Marker colour: bright for 8 animation frames, dim for the next 8.
pub open spec fn marker_color(cfg: TimelineConfig) -> u32 {
    if cfg.anim_frame % 16 < 8 {
        blend_spec(TIMELINE_MARKER, 0, cfg.opacity)
    } else {
        blend_spec(TIMELINE_MARKER_DIM, 0, cfg.opacity)
    }
}

/// Frame `f` with branch `b` drawn: a marker line rising from the bar at
/// the divergence point to the branch's row (four pixels per depth level
/// above the bar), then its rewind and forward fills and their outline.
pub open spec fn branch_drawn(f: Seq<u32>, w: int, cfg: TimelineConfig, b: (usize, usize, usize, u32)) -> Seq<u32> {
    let op = cfg.opacity;
    let cap = cfg.capacity as int;
    let div_x = if b.0 >= cap { (BAR_X + BAR_W) as int } else { BAR_X + scaled_width(b.0 as int, cap) };
    let rew_w = scaled_width(b.1 as int, cap);
    let fwd_w = scaled_width(b.2 as int, cap);
    let offset = 4 * (b.3 + 1);
    let by = if BAR_Y >= offset { BAR_Y - offset } else { 0 };
    let f1 = painted(f, w, div_x, by, 1, offset, Pattern::Solid(blend_spec(TIMELINE_BRANCH_MARKER, 0, op)), op);
    let f2 = if rew_w > 0 {
        painted(f1, w, div_x, by, rew_w, 3, Pattern::Solid(blend_spec(TIMELINE_BRANCH, 0, op)), op)
    } else {
        f1
    };
    let f3 = if fwd_w > 0 {
        painted(f2, w, div_x + rew_w, by, fwd_w, 3, Pattern::Solid(blend_spec(TIMELINE_BRANCH_FORWARD, 0, op)), op)
    } else {
        f2
    };
    if rew_w + fwd_w > 0 {
        outlined(f3, w, div_x, by, rew_w + fwd_w, 3, blend_spec(TIMELINE_BORDER, 0, op), op)
    } else {
        f3
    }
}

/// Frame `f` with the first `n` branches drawn, in order.
pub open spec fn branches_drawn(f: Seq<u32>, w: int, cfg: TimelineConfig, n: int) -> Seq<u32>
    decreases n,
{
    if n <= 0 {
        f
    } else {
        branch_drawn(branches_drawn(f, w, cfg, n - 1), w, cfg, cfg.branches@[n - 1])
    }
}

/// Frame `f` (`w` × `h`) with the whole timeline drawn for `cfg`.
pub open spec fn timeline_drawn(f: Seq<u32>, w: int, h: int, cfg: TimelineConfig, glyphs: Seq<[u8; 8]>) -> Seq<u32> {
    let op = cfg.opacity;
    let label = timeline_label(cfg);
    let fw = filled_width(cfg);
    let f1 = painted(f, w, 0, (TEXT_Y - 1) as int, w, (BAR_Y + BAR_H + BORDER_THICKNESS - (TEXT_Y - 1)) as int,
        Pattern::Solid(blend_spec(TIMELINE_BG, 0, op)), op);
    let f2 = text_drawn(f1, w, label, BAR_X as int, TEXT_Y as int, blend_spec(OSD_FG_ARGB, 0, op),
        blend_spec(OSD_BG_ARGB, 0, op), op, glyphs, chars_fitting(label.len() as int, BAR_X as int, w));
    let f3 = outlined(f2, w, (BAR_X - 1) as int, (BAR_Y - 1) as int, (BAR_W + 2) as int, (BAR_H + 2) as int,
        blend_spec(TIMELINE_BORDER, 0, op), op);
    let f4 = painted(f3, w, BAR_X as int, BAR_Y as int, BAR_W as int, BAR_H as int,
        Pattern::Solid(blend_spec(TIMELINE_EMPTY, 0, op)), op);
    let f5 = if fw > 0 {
        painted(f4, w, BAR_X as int, BAR_Y as int, fw, BAR_H as int, Pattern::Solid(blend_spec(TIMELINE_FILLED, 0, op)), op)
    } else {
        f4
    };
    let fwd = forward_width(cfg);
    let f6 = if fwd > 0 && fw < BAR_W {
        painted(f5, w, BAR_X + fw, BAR_Y as int, fwd, BAR_H as int, Pattern::Solid(blend_spec(TIMELINE_FORWARD, 0, op)), op)
    } else {
        f5
    };
    let tick = Pattern::Solid(blend_spec(TIMELINE_BORDER, 0, op));
    let f7 = painted(f6, w, (BAR_X + 62) as int, BAR_Y as int, 1, BAR_H as int, tick, op);
    let f8 = painted(f7, w, (BAR_X + 124) as int, BAR_Y as int, 1, BAR_H as int, tick, op);
    let f9 = painted(f8, w, (BAR_X + 186) as int, BAR_Y as int, 1, BAR_H as int, tick, op);
    let f10 = painted(f9, w, marker_x(cfg), BAR_Y as int, 1, BAR_H as int, Pattern::Solid(marker_color(cfg)), op);
    branches_drawn(f10, w, cfg, cfg.branches@.len() as int)
}

/// Row-major index facts for a `w`-wide frame.
proof fn lemma_row_col(py: int, px: int, w: int)
    requires
        w > 0,
        0 <= px < w,
        0 <= py,
    ensures
        (py * w + px) / w == py,
        (py * w + px) % w == px,
{
    vstd::arithmetic::div_mod::lemma_fundamental_div_mod_converse(py * w + px, w, py, px);
}

/// Every index of a `w` × `h` frame lies on a row below `h`.
proof fn lemma_index_row(i: int, w: int, h: int)
    requires
        w > 0,
        0 <= i < w * h,
    ensures
        0 <= i / w < h,
        0 <= i % w < w,
        i == (i / w) * w + i % w,
{
    vstd::arithmetic::div_mod::lemma_multiply_divide_lt(i, w, h);
    vstd::arithmetic::div_mod::lemma_fundamental_div_mod(i, w);
    assert(0 <= i / w) by (nonlinear_arith)
        requires
            0 <= i,
            w > 0,
    ;
    assert(w * (i / w) == (i / w) * w) by (nonlinear_arith);
}

/// The colour of `p` at `(dx, dy)` (see [`pattern_color`]).
fn pattern_at(p: &Pattern, dx: u64, dy: u64) -> (c: u32)
    requires
        dx < 8 || p is Solid,
        dy < 8 || p is Solid,
    ensures
        c == pattern_color(*p, dx as int, dy as int),
{
    match p {
        Pattern::Solid(c) => *c,
        Pattern::Glyph(rows, fg, bg) => match rows {
            Some(r) => {
                let row: u8 = r[dy as usize];
                let bit: u8 = (row >> ((7 - dx) as u8)) & 1;
                if bit != 0 {
                    *fg
                } else {
                    *bg
                }
            },
            None => *bg,
        },
    }
}

/// Paint the `rw` × `rh` rectangle at `(x, y)` of `fb` (`width` ×
/// `height`) with `p` at opacity `op`, clipped to the frame.
fn paint(fb: &mut [u32], width: u32, height: u32, x: u64, y: u64, rw: u64, rh: u64, p: &Pattern, op: u8)
    requires
        old(fb)@.len() == width * height,
        x < 0x1000_0000_0000_0000,
        y < 0x1000_0000_0000_0000,
        rw < 0x1000_0000_0000_0000,
        rh < 0x1000_0000_0000_0000,
        p is Glyph ==> rw <= 8 && rh <= 8,
    ensures
        final(fb)@ == painted(old(fb)@, width as int, x as int, y as int, rw as int, rh as int, *p, op),
{
    let ghost f0 = fb@;
    let ghost wi = width as int;
    if width == 0 {
        assert(fb@ =~= painted(f0, wi, x as int, y as int, rw as int, rh as int, *p, op));
        return;
    }
    let w: u64 = width as u64;
    let h: u64 = height as u64;
    let total: usize = fb.len();
    let y1: u64 = if y + rh < h { y + rh } else { h };
    let x1: u64 = if x + rw < w { x + rw } else { w };
    let mut py: u64 = y;
    assert(fb@ =~= paint_progress(f0, wi, x as int, y as int, rw as int, *p, op, y as int, x as int)) by {
        assert forall|i: int| 0 <= i < f0.len() implies #[trigger] fb@[i] == paint_progress(f0, wi, x as int, y as int,
            rw as int, *p, op, y as int, x as int)[i] by {
            lemma_index_row(i, wi, height as int);
        }
    }
    while py < y1
        invariant
            f0.len() == width * height,
            total == f0.len(),
            wi == width,
            width > 0,
            w == width,
            h == height,
            y <= py,
            py <= y1 || py == y,
            y1 == (if y + rh < h { (y + rh) as int } else { h as int }),
            x1 == (if x + rw < w { (x + rw) as int } else { w as int }),
            p is Glyph ==> rw <= 8 && rh <= 8,
            fb@ == paint_progress(f0, wi, x as int, y as int, rw as int, *p, op, py as int, x as int),
        decreases y1 - py,
    {
        let mut px: u64 = x;
        while px < x1
            invariant
                f0.len() == width * height,
                total == f0.len(),
                wi == width,
                width > 0,
                w == width,
                h == height,
                y <= py < y1,
                y1 <= h,
                y1 <= y + rh,
                x <= px,
                px <= x1 || px == x,
                x1 == (if x + rw < w { (x + rw) as int } else { w as int }),
                p is Glyph ==> rw <= 8 && rh <= 8,
                fb@ == paint_progress(f0, wi, x as int, y as int, rw as int, *p, op, py as int, px as int),
            decreases x1 - px,
        {
            proof {
                lemma_row_col(py as int, px as int, wi);
                assert((py as int) * wi + (px as int) < wi * (height as int)) by (nonlinear_arith)
                    requires
                        py < height,
                        px < wi,
                        wi > 0,
                ;
            }
            assert(py * w + px < w * h) by (nonlinear_arith)
                requires
                    py < h,
                    px < w,
            ;
            assert(w * h <= 0xFFFF_FFFF * 0xFFFF_FFFF) by (nonlinear_arith)
                requires
                    w <= 0xFFFF_FFFF,
                    h <= 0xFFFF_FFFF,
            ;
            let idx: usize = (py * w + px) as usize;
            let ghost before = fb@;
            assert(idx as int == (py as int) * wi + (px as int));
            assert((idx as int) / wi == py && (idx as int) % wi == px);
            assert(before[idx as int] == f0[idx as int]);
            let c: u32 = pattern_at(p, px - x, py - y);
            let v: u32 = blend(c, fb[idx], op);
            fb[idx] = v;
            proof {
                assert forall|i: int| 0 <= i < f0.len() implies #[trigger] fb@[i] == paint_progress(f0, wi, x as int,
                    y as int, rw as int, *p, op, py as int, px + 1)[i] by {
                    lemma_index_row(i, wi, height as int);
                    if i != idx {
                        if i / wi == py && i % wi == px {
                            assert(i == (py as int) * wi + (px as int));
                        }
                    }
                }
                assert(fb@ =~= paint_progress(f0, wi, x as int, y as int, rw as int, *p, op, py as int, px + 1));
            }
            px = px + 1;
        }
        proof {
            assert forall|i: int| 0 <= i < f0.len() implies #[trigger] fb@[i] == paint_progress(f0, wi, x as int,
                y as int, rw as int, *p, op, py + 1, x as int)[i] by {
                lemma_index_row(i, wi, height as int);
            }
            assert(fb@ =~= paint_progress(f0, wi, x as int, y as int, rw as int, *p, op, py + 1, x as int));
        }
        py = py + 1;
    }
    proof {
        assert forall|i: int| 0 <= i < f0.len() implies #[trigger] fb@[i] == painted(f0, wi, x as int, y as int,
            rw as int, rh as int, *p, op)[i] by {
            lemma_index_row(i, wi, height as int);
        }
        assert(fb@ =~= painted(f0, wi, x as int, y as int, rw as int, rh as int, *p, op));
    }
}

/// Outline the `rw` × `rh` rectangle at `(x, y)` (see [`outlined`]).
fn outline(fb: &mut [u32], width: u32, height: u32, x: u64, y: u64, rw: u64, rh: u64, c: u32, op: u8)
    requires
        old(fb)@.len() == width * height,
        x < 0x0100_0000_0000_0000,
        y < 0x0100_0000_0000_0000,
        rw < 0x0100_0000_0000_0000,
        rh < 0x0100_0000_0000_0000,
    ensures
        final(fb)@ == outlined(old(fb)@, width as int, x as int, y as int, rw as int, rh as int, c, op),
        final(fb)@.len() == old(fb)@.len(),
{
    if rw == 0 || rh == 0 {
        return;
    }
    let p: Pattern = Pattern::Solid(c);
    paint(fb, width, height, x, y, rw, 1, &p, op);
    paint(fb, width, height, x, y + rh - 1, rw, 1, &p, op);
    paint(fb, width, height, x, y, 1, rh, &p, op);
    paint(fb, width, height, x + rw - 1, y, 1, rh, &p, op);
}

/// Draw the characters of `t` that fit whole, from `(x, y)` (see
/// [`text_drawn`]).
fn draw_text(fb: &mut [u32], width: u32, height: u32, t: &str, x: u64, y: u64, fg: u32, bg: u32, op: u8, glyphs: &[[u8; 8]])
    requires
        old(fb)@.len() == width * height,
        x < 0x1_0000_0000,
        y < 0x1_0000_0000,
    ensures
        final(fb)@ == text_drawn(old(fb)@, width as int, t@, x as int, y as int, fg, bg, op, glyphs@,
            chars_fitting(t@.len() as int, x as int, width as int)),
        final(fb)@.len() == old(fb)@.len(),
{
    let n: usize = t.unicode_len();
    let ghost want = chars_fitting(t@.len() as int, x as int, width as int);
    let mut k: usize = 0;
    let mut cx: u64 = x;
    while k < n && cx + 8 <= width as u64
        invariant
            n == t@.len(),
            k <= n,
            cx == x + 8 * k,
            cx < 0x2_0000_0000,
            x < 0x1_0000_0000,
            y < 0x1_0000_0000,
            fb@.len() == width * height,
            k <= want,
            want == chars_fitting(t@.len() as int, x as int, width as int),
            fb@ == text_drawn(old(fb)@, width as int, t@, x as int, y as int, fg, bg, op, glyphs@, k as int),
        decreases n - k,
    {
        let ch: char = t.get_char(k);
        let code: usize = ch as u32 as usize;
        let rows: Option<[u8; 8]> = if code < glyphs.len() { Some(glyphs[code]) } else { None };
        assert(rows == glyph_cell(glyphs@, t@[k as int]));
        let p: Pattern = Pattern::Glyph(rows, fg, bg);
        paint(fb, width, height, cx, y, 8, 8, &p, op);
        k = k + 1;
        cx = cx + 8;
    }
    proof {
        if k < n {
            if x + 8 <= width {
                assert((width - x) / 8 <= k) by (nonlinear_arith)
                    requires
                        x + 8 * k + 8 > width,
                        x + 8 <= width,
                ;
            }
        }
    }
}

/// `n` scaled to bar pixels against `capacity` (see [`scaled_width`]).
fn scaled(n: usize, capacity: usize) -> (r: u64)
    requires
        capacity > 0,
    ensures
        r == scaled_width(n as int, capacity as int),
        r < 0x1_0000_0000,
{
    let v: u128 = (248u128 * (n as u128)) / (capacity as u128);
    (v as u32) as u64
}

/// The timeline label (see [`timeline_label`]).
pub fn timeline_label_text(cfg: &TimelineConfig) -> (r: String)
    ensures
        r@ == timeline_label(*cfg),
{
    let mut s: String = match cfg.mode {
        TimelineMode::Rewind => String::from_str("REWIND "),
        TimelineMode::Forward => String::from_str("FORWARD "),
        TimelineMode::Buffer => String::from_str("BUFFER "),
    };
    let with_speed: bool = cfg.mode != TimelineMode::Buffer && cfg.speed > 1;
    if with_speed {
        s.append("x");
        push_decimal(&mut s, cfg.speed as u128);
    }
    s.append(" F:");
    assert((cfg.filled as u128) * (cfg.rewind_interval as u128) <= 0xFFFF_FFFF_FFFF_FFFF * 0xFFFF_FFFF_FFFF_FFFF)
        by (nonlinear_arith)
        requires
            cfg.filled <= 0xFFFF_FFFF_FFFF_FFFF,
            cfg.rewind_interval <= 0xFFFF_FFFF_FFFF_FFFF,
    ;
    assert((cfg.capacity as u128) * (cfg.rewind_interval as u128) <= 0xFFFF_FFFF_FFFF_FFFF * 0xFFFF_FFFF_FFFF_FFFF)
        by (nonlinear_arith)
        requires
            cfg.capacity <= 0xFFFF_FFFF_FFFF_FFFF,
            cfg.rewind_interval <= 0xFFFF_FFFF_FFFF_FFFF,
    ;
    push_decimal(&mut s, (cfg.filled as u128) * (cfg.rewind_interval as u128));
    s.append("/");
    push_decimal(&mut s, (cfg.capacity as u128) * (cfg.rewind_interval as u128));
    proof {
        reveal_strlit("REWIND ");
        reveal_strlit("REWIND x");
        reveal_strlit("FORWARD ");
        reveal_strlit("FORWARD x");
        reveal_strlit("x");
    }
    assert(s@ =~= timeline_label(*cfg));
    s
}


/// Draw branch `b` (see [`branch_drawn`]).
fn draw_branch(fb: &mut [u32], width: u32, height: u32, cfg: &TimelineConfig, b: (usize, usize, usize, u32))
    requires
        old(fb)@.len() == width * height,
        cfg.capacity > 0,
    ensures
        final(fb)@ == branch_drawn(old(fb)@, width as int, *cfg, b),
        final(fb)@.len() == old(fb)@.len(),
{
    let op: u8 = cfg.opacity;
    let cap: usize = cfg.capacity;
    let div_x: u64 = if b.0 >= cap { 252 } else { 4 + scaled(b.0, cap) };
    let rew_w: u64 = scaled(b.1, cap);
    let fwd_w: u64 = scaled(b.2, cap);
    let offset: u64 = 4 * ((b.3 as u64) + 1);
    let by: u64 = if 228 >= offset { 228 - offset } else { 0 };
    paint(fb, width, height, div_x, by, 1, offset, &Pattern::Solid(blend(TIMELINE_BRANCH_MARKER, 0, op)), op);
    if rew_w > 0 {
        paint(fb, width, height, div_x, by, rew_w, 3, &Pattern::Solid(blend(TIMELINE_BRANCH, 0, op)), op);
    }
    if fwd_w > 0 {
        paint(fb, width, height, div_x + rew_w, by, fwd_w, 3, &Pattern::Solid(blend(TIMELINE_BRANCH_FORWARD, 0, op)), op);
    }
    if rew_w + fwd_w > 0 {
        outline(fb, width, height, div_x, by, rew_w + fwd_w, 3, blend(TIMELINE_BORDER, 0, op), op);
    }
}

/// Draw the timeline for `cfg` into `fb` (`width` × `height`, row-major)
/// with glyph table `glyphs` (see [`timeline_drawn`]). Nothing is drawn
/// when `fb` is not `width` × `height`, the capacity is 0 or the opacity
/// is 0.
pub fn render_timeline(fb: &mut [u32], width: u32, height: u32, cfg: &TimelineConfig, glyphs: &[[u8; 8]])
    ensures
        final(fb)@.len() == old(fb)@.len(),
        old(fb)@.len() != width * height || cfg.capacity == 0 || cfg.opacity == 0 ==> final(fb)@ == old(fb)@,
        old(fb)@.len() == width * height && cfg.capacity > 0 && cfg.opacity > 0 ==> final(fb)@ == timeline_drawn(
            old(fb)@,
            width as int,
            height as int,
            *cfg,
            glyphs@,
        ),
{
    assert((width as u64) * (height as u64) <= 0xFFFF_FFFF * 0xFFFF_FFFF) by (nonlinear_arith)
        requires
            width <= 0xFFFF_FFFF,
            height <= 0xFFFF_FFFF,
    ;
    if fb.len() as u64 != (width as u64) * (height as u64) {
        return;
    }
    if cfg.capacity == 0 || cfg.opacity == 0 {
        return;
    }
    let op: u8 = cfg.opacity;
    let cap: usize = cfg.capacity;
    paint(fb, width, height, 0, 217, width as u64, 18, &Pattern::Solid(blend(TIMELINE_BG, 0, op)), op);
    let label: String = timeline_label_text(cfg);
    draw_text(fb, width, height, label.as_str(), 4, 218, blend(OSD_FG_ARGB, 0, op), blend(OSD_BG_ARGB, 0, op), op, glyphs);
    outline(fb, width, height, 3, 227, 250, 8, blend(TIMELINE_BORDER, 0, op), op);
    paint(fb, width, height, 4, 228, 248, 6, &Pattern::Solid(blend(TIMELINE_EMPTY, 0, op)), op);
    let fw: u64 = if cfg.filled >= cap {
        248
    } else {
        assert((248 * (cfg.filled as int)) / (cap as int) < 248) by (nonlinear_arith)
            requires
                cfg.filled < cap,
        ;
        scaled(cfg.filled, cap)
    };
    if fw > 0 {
        paint(fb, width, height, 4, 228, fw, 6, &Pattern::Solid(blend(TIMELINE_FILLED, 0, op)), op);
    }
    let fwd: u64 = if cfg.forward_filled == 0 {
        0
    } else {
        let v: u64 = scaled(cfg.forward_filled, cap);
        let room: u64 = 248 - fw;
        if v < room { v } else { room }
    };
    if fwd > 0 && fw < 248 {
        paint(fb, width, height, 4 + fw, 228, fwd, 6, &Pattern::Solid(blend(TIMELINE_FORWARD, 0, op)), op);
    }
    let tick: Pattern = Pattern::Solid(blend(TIMELINE_BORDER, 0, op));
    paint(fb, width, height, 66, 228, 1, 6, &tick, op);
    paint(fb, width, height, 128, 228, 1, 6, &tick, op);
    paint(fb, width, height, 190, 228, 1, 6, &tick, op);
    let m: u64 = match cfg.mode {
        TimelineMode::Buffer => 252,
        _ => 4 + fw,
    };
    let mx: u64 = if m < 252 { m } else { 252 };
    let mc: u32 = if cfg.anim_frame % 16 < 8 {
        blend(TIMELINE_MARKER, 0, op)
    } else {
        blend(TIMELINE_MARKER_DIM, 0, op)
    };
    paint(fb, width, height, mx, 228, 1, 6, &Pattern::Solid(mc), op);
    let ghost base = fb@;
    let mut i: usize = 0;
    while i < cfg.branches.len()
        invariant
            i <= cfg.branches@.len(),
            cfg.capacity > 0,
            base.len() == width * height,
            fb@ == branches_drawn(base, width as int, *cfg, i as int),
            fb@.len() == width * height,
        decreases cfg.branches@.len() - i,
    {
        let b: (usize, usize, usize, u32) = cfg.branches[i];
        draw_branch(fb, width, height, cfg, b);
        i = i + 1;
    }
}

/// At opacity zero blending leaves what lies below, at full opacity it
/// gives the colour drawn, and every blend is opaque in between.
pub proof fn law_blend_endpoints(fg: u32, bg: u32)
    ensures
        blend_spec(fg, bg, 0) == bg,
        blend_spec(fg, bg, MAX_OPACITY) == fg,
{
}

/// The rewind fill never runs past the bar, and neither do the rewind and
/// forward fills together.
pub proof fn law_fills_stay_on_bar(cfg: TimelineConfig)
    requires
        cfg.capacity > 0,
    ensures
        0 <= filled_width(cfg) <= BAR_W,
        0 <= forward_width(cfg),
        filled_width(cfg) + forward_width(cfg) <= BAR_W,
{
    if cfg.filled < cfg.capacity {
        assert((248 * (cfg.filled as int)) / (cfg.capacity as int) < 248) by (nonlinear_arith)
            requires
                cfg.filled < cfg.capacity,
        ;
    }
}
} // verus!
