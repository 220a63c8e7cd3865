//! On-screen display (OSD) — a text overlay drawn into the 256×240 ARGB
//! framebuffer with an 8×8 bitmap font, toggled by the user.
//!
//! Frame timing is kept as a ring of the last 30 inter-frame intervals in
//! nanoseconds (taken from a monotonic clock by the program); the program
//! turns the ring into a floating-point FPS readout. The glyph table is
//! handed in: entry `c` holds the eight rows of character code `c` (bit 7
//! is the leftmost pixel); characters past the table draw as blank cells.

use vstd::prelude::*;
use crate::text::{decimal, push_decimal};
use crate::save_state::SAVE_STATE_SLOT_COUNT;

verus! {

/// Text colour (opaque white).
pub const OSD_FG_ARGB: u32 = 0xFFFF_FFFF;
/// Glyph-cell background colour (opaque black).
pub const OSD_BG_ARGB: u32 = 0xFF00_0000;
/// Glyph cell width in pixels.
pub const GLYPH_W: u32 = 8;
/// Glyph cell height in pixels.
pub const GLYPH_H: u32 = 8;
/// Number of frame intervals averaged for the FPS readout.
pub const FPS_WINDOW: usize = 30;
/// Intervals of a second or more are pauses, not frames.
pub const MAX_FRAME_INTERVAL_NS: u64 = 1_000_000_000;

/// On-screen display state.
pub struct Osd {
    /// Whether the overlay is visible.
    pub enabled: bool,
    /// Ring of recent inter-frame intervals, in nanoseconds.
    pub frame_intervals: [u64; 30],
    /// Next slot of the ring to write.
    pub frame_idx: usize,
    /// Number of intervals recorded (at most 30).
    pub frame_count: usize,
    /// Monotonic time of the previous frame, in nanoseconds.
    pub last_frame: Option<u64>,
}

/// Rows of the glyph for `c` in `glyphs`: all blank past the table.
pub open spec fn glyph_rows(glyphs: Seq<[u8; 8]>, c: char) -> Seq<u8> {
    if (c as int) < glyphs.len() {
        glyphs[c as int]@
    } else {
        Seq::new(8, |i: int| 0u8)
    }
}

/// The colour of pixel `(gx, gy)` of the glyph for `c`.
pub open spec fn glyph_pixel(glyphs: Seq<[u8; 8]>, c: char, gx: int, gy: int) -> u32 {
    if (glyph_rows(glyphs, c)[gy] >> ((7 - gx) as u8)) & 1 != 0 {
        OSD_FG_ARGB
    } else {
        OSD_BG_ARGB
    }
}

impl Default for Osd {
    /// A disabled overlay with no recorded frames.
    fn default() -> (o: Self)
        ensures
            o.wf(),
            !o.enabled,
            o.frame_idx == 0 && o.frame_count == 0,
            o.last_frame is None,
    {
        Osd::new()
    }
}

impl Osd {
    /// The ring positions are in range and every interval is under a second.
    pub open spec fn wf(&self) -> bool {
        &&& self.frame_idx < FPS_WINDOW
        &&& self.frame_count <= FPS_WINDOW
        &&& forall|i: int| 0 <= i < 30 ==> #[trigger] self.frame_intervals@[i] < MAX_FRAME_INTERVAL_NS
    }

    /// A disabled overlay with no recorded frames.
    pub fn new() -> (o: Self)
        ensures
            o.wf(),
            !o.enabled,
            o.frame_intervals@ == Seq::new(30, |i: int| 0u64),
            o.frame_idx == 0 && o.frame_count == 0,
            o.last_frame is None,
    {
        let o = Osd { enabled: false, frame_intervals: [0u64; 30], frame_idx: 0, frame_count: 0, last_frame: None };
        assert(o.frame_intervals@ =~= Seq::new(30, |i: int| 0u64));
        o
    }

    /// Whether the overlay is visible.
    pub fn enabled(&self) -> (r: bool)
        ensures
            r == self.enabled,
    {
        self.enabled
    }

    /// Flip visibility; returns the new state.
    pub fn toggle(&mut self) -> (r: bool)
        ensures
            r == !old(self).enabled,
            *final(self) == (Osd { enabled: r, ..*old(self) }),
    {
        self.enabled = !self.enabled;
        self.enabled
    }

    /// Set visibility.
    pub fn set_enabled(&mut self, on: bool)
        ensures
            *final(self) == (Osd { enabled: on, ..*old(self) }),
    {
        self.enabled = on;
    }

    /// Record a presented frame at monotonic time `now_ns`. The interval
    /// since the previous frame (0 if the clock went backwards) enters the
    /// ring unless it is a second or more; the first frame only seeds the
    /// clock.
    pub fn record_frame(&mut self, now_ns: u64)
        requires
            old(self).wf(),
        ensures
            final(self).wf(),
            final(self).last_frame == Some(now_ns),
            final(self).enabled == old(self).enabled,
            match old(self).last_frame {
                Some(prev) => {
                    let delta = if now_ns >= prev { (now_ns - prev) as u64 } else { 0u64 };
                    if delta < MAX_FRAME_INTERVAL_NS {
                        &&& final(self).frame_intervals@ == old(self).frame_intervals@.update(old(self).frame_idx as int, delta)
                        &&& final(self).frame_idx == (old(self).frame_idx + 1) % 30
                        &&& final(self).frame_count == (if old(self).frame_count < 30 { old(self).frame_count + 1 } else { 30 })
                    } else {
                        &&& final(self).frame_intervals == old(self).frame_intervals
                        &&& final(self).frame_idx == old(self).frame_idx
                        &&& final(self).frame_count == old(self).frame_count
                    }
                },
                None => {
                    &&& final(self).frame_intervals == old(self).frame_intervals
                    &&& final(self).frame_idx == old(self).frame_idx
                    &&& final(self).frame_count == old(self).frame_count
                },
            },
    {
        if let Some(prev) = self.last_frame {
            let delta: u64 = now_ns.saturating_sub(prev);
            if delta < MAX_FRAME_INTERVAL_NS {
                let i: usize = self.frame_idx;
                self.frame_intervals[i] = delta;
                self.frame_idx = (i + 1) % FPS_WINDOW;
                if self.frame_count < FPS_WINDOW {
                    self.frame_count = self.frame_count + 1;
                }
            }
        }
        self.last_frame = Some(now_ns);
    }

    /// Sum of the recorded intervals (nanoseconds) and their number; the
    /// program divides them for the FPS readout.
    pub fn interval_totals(&self) -> (r: (u64, usize))
        requires
            self.wf(),
        ensures
            r.1 == self.frame_count,
            r.0 as int == interval_sum(self.frame_intervals@, self.frame_count as int),
    {
        let mut sum: u64 = 0;
        let mut i: usize = 0;
        while i < self.frame_count
            invariant
                self.wf(),
                i <= self.frame_count,
                sum as int == interval_sum(self.frame_intervals@, i as int),
                sum as int <= i * MAX_FRAME_INTERVAL_NS,
            decreases self.frame_count - i,
        {
            sum = sum + self.frame_intervals[i];
            i = i + 1;
        }
        (sum, self.frame_count)
    }

    /// Draw `lines` into `fb` (`width` × `height`, row-major) when the
    /// overlay is visible and `fb` has exactly that size: line `l` occupies
    /// rows `8l..8l+8` and character `k` columns `8k..8k+8`, each cell
    /// filled with its glyph in white on black. Characters that do not fit
    /// whole in the width are skipped, and so are lines after the first
    /// that do not fit whole in the height; the first line is clipped at
    /// the bottom edge. Every other pixel is left alone.
    pub fn render(&self, fb: &mut [u32], width: u32, height: u32, lines: &[&str], glyphs: &[[u8; 8]])
        requires
            width * height <= u32::MAX,
        ensures
            final(fb)@.len() == old(fb)@.len(),
            !self.enabled || old(fb)@.len() != width * height ==> final(fb)@ == old(fb)@,
            self.enabled && old(fb)@.len() == width * height ==> forall|py: int, px: int|
                0 <= py < height && 0 <= px < width ==> #[trigger] final(fb)@[py * width + px] == osd_pixel(
                    str_views(lines@),
                    glyphs@,
                    width as int,
                    height as int,
                    py,
                    px,
                    old(fb)@[py * width + px],
                ),
    {
        let total: u64 = (width as u64) * (height as u64);
        if !self.enabled || fb.len() as u64 != total {
            return;
        }
        let ghost fb0 = fb@;
        let mut py: u32 = 0;
        while py < height
            invariant
                fb@.len() == fb0.len(),
                fb0.len() == width * height,
                width * height <= u32::MAX,
                py <= height,
                forall|r: int, q: int|
                    0 <= r < py && 0 <= q < width ==> #[trigger] fb@[r * width + q] == osd_pixel(
                        str_views(lines@),
                        glyphs@,
                        width as int,
                        height as int,
                        r,
                        q,
                        fb0[r * width + q],
                    ),
                forall|r: int, q: int| py <= r < height && 0 <= q < width ==> #[trigger] fb@[r * width + q] == fb0[r * width + q],
            decreases height - py,
        {
            let l: usize = (py / 8) as usize;
            let shown: bool = l < lines.len() && (l == 0 || (l as u64 + 1) * 8 <= height as u64);
            let ghost fb_row = fb@;
            let mut px: u32 = 0;
            while px < width
                invariant
                    fb@.len() == fb0.len(),
                    fb0.len() == width * height,
                    width * height <= u32::MAX,
                    py < height,
                    px <= width,
                    l == py / 8,
                    shown == (l < lines@.len() && (l == 0 || (l + 1) * 8 <= height)),
                    forall|r: int, q: int|
                        0 <= r < py && 0 <= q < width ==> #[trigger] fb@[r * width + q] == osd_pixel(
                            str_views(lines@),
                            glyphs@,
                            width as int,
                            height as int,
                            r,
                            q,
                            fb0[r * width + q],
                        ),
                    forall|q: int|
                        0 <= q < px ==> #[trigger] fb@[py * width + q] == osd_pixel(
                            str_views(lines@),
                            glyphs@,
                            width as int,
                            height as int,
                            py as int,
                            q,
                            fb0[py * width + q],
                        ),
                    forall|q: int| px <= q < width ==> #[trigger] fb@[py * width + q] == fb0[py * width + q],
                    forall|r: int, q: int| py < r < height && 0 <= q < width ==> #[trigger] fb@[r * width + q] == fb0[r * width + q],
                decreases width - px,
            {
                proof {
                    lemma_cell_index(py as int, px as int, width as int, height as int);
                }
                let idx: usize = (py as usize) * (width as usize) + (px as usize);
                let k: usize = (px / 8) as usize;
                let ghost before = fb@;
                let ghost expected = osd_pixel(str_views(lines@), glyphs@, width as int, height as int, py as int, px as int, fb0[idx as int]);
                if shown {
                    let text: &str = lines[l];
                    let n: usize = text.unicode_len();
                    if k < n && (k as u64 + 1) * 8 <= width as u64 {
                        let c: char = text.get_char(k);
                        let gy: usize = (py % 8) as usize;
                        let gx: u32 = px % 8;
                        let code: usize = c as u32 as usize;
                        let row: u8 = if code < glyphs.len() { glyphs[code][gy] } else { 0 };
                        let bit: u8 = (row >> ((7 - gx) as u8)) & 1;
                        let color: u32 = if bit != 0 { OSD_FG_ARGB } else { OSD_BG_ARGB };
                        assert(color == expected);
                        fb[idx] = color;
                    } else {
                        assert(expected == fb0[idx as int]);
                    }
                } else {
                    assert(expected == fb0[idx as int]);
                }
                proof {
                    assert(fb@ == before.update(idx as int, expected) || fb@ == before);
                    assert(before[idx as int] == fb0[idx as int]);
                    assert forall|r: int, q: int| 0 <= r < height && 0 <= q < width && !(r == py && q == px) implies
                        #[trigger] fb@[r * width + q] == before[r * width + q] by {
                        lemma_cell_index(r, q, width as int, height as int);
                        if r * width + q == idx {
                            lemma_index_unique(r, q, py as int, px as int, width as int);
                        }
                    }
                    assert(fb@[idx as int] == expected);
                }
                px = px + 1;
            }
            py = py + 1;
        }
    }
}

/// Sum of the first `n` entries of `s`.
pub open spec fn interval_sum(s: Seq<u64>, n: int) -> int
    decreases n,
{
    if n <= 0 {
        0
    } else {
        interval_sum(s, n - 1) + s[n - 1]
    }
}

/// The text of each line.
pub open spec fn str_views(lines: Seq<&str>) -> Seq<Seq<char>> {
    lines.map_values(|t: &str| t@)
}

/// Whether line `l` of `n_lines` is drawn in a frame `height` pixels tall.
pub open spec fn line_shown(n_lines: int, height: int, l: int) -> bool {
    0 <= l < n_lines && l * 8 < height && (l == 0 || (l + 1) * 8 <= height)
}

/// The overlay pixel at `(px, py)` over the pixel `under`: the glyph pixel
/// of the character whose cell holds it when that cell is drawn, else
/// `under`.
pub open spec fn osd_pixel(lines: Seq<Seq<char>>, glyphs: Seq<[u8; 8]>, width: int, height: int, py: int, px: int, under: u32) -> u32 {
    let l = py / 8;
    let k = px / 8;
    if line_shown(lines.len() as int, height, l) && k < lines[l].len() && (k + 1) * 8 <= width {
        glyph_pixel(glyphs, lines[l][k], px % 8, py % 8)
    } else {
        under
    }
}

/// Row-major index `py * width + px` lies in a `width` × `height` frame.
proof fn lemma_cell_index(py: int, px: int, width: int, height: int)
    requires
        0 <= py < height,
        0 <= px < width,
    ensures
        0 <= py * width + px < width * height,
{
    assert(py * width + px < width * height) by (nonlinear_arith)
        requires 0 <= py < height, 0 <= px < width;
    assert(0 <= py * width) by (nonlinear_arith)
        requires 0 <= py, 0 <= width;
}

/// Distinct pixels of a `w`-wide frame have distinct row-major indices.
proof fn lemma_index_unique(r: int, q: int, p: int, x: int, w: int)
    requires
        0 <= q < w,
        0 <= x < w,
        0 <= r,
        0 <= p,
        r * w + q == p * w + x,
    ensures
        r == p && q == x,
{
    if r < p {
        assert(r * w + q < p * w) by (nonlinear_arith)
            requires r < p, 0 <= q < w, 0 <= r;
    } else if r > p {
        assert(p * w + x < r * w) by (nonlinear_arith)
            requires p < r, 0 <= x < w, 0 <= p;
    }
}

} // verus!

verus! {

/// The game name shown for the ROM at `path`: its file stem (no directory,
/// no extension), or `?` when the path has none.
pub fn game_name_from_path(path: &str) -> (r: String)
    ensures
        r@ == (match crate::paths::path_file_stem(path@) {
            Some(s) => s,
            None => "?"@,
        }),
{
    match crate::paths::file_stem_of(path) {
        Some(s) => s,
        None => String::from_str("?"),
    }
}


/// The text of the OSD slot line: `SLOT:<slot + 1>/<slot count> <state>`.
pub open spec fn slot_line(slot: usize, slot_occupied: bool) -> Seq<char> {
    "SLOT:"@ + decimal((slot + 1) as nat) + "/"@ + decimal(SAVE_STATE_SLOT_COUNT as nat) + " "@ + (if slot_occupied {
        "OCCUPIED"@
    } else {
        "EMPTY"@
    })
}

/// The OSD overlay lines: FPS (already formatted) and mapper number, game
/// name, current save slot with whether it holds a save, rewind depth.
pub fn osd_lines(fps_text: &str, mapper_number: u16, game_name: &str, slot: usize, slot_occupied: bool, rewind_len: usize) -> (r: Vec<String>)
    requires
        slot < usize::MAX,
    ensures
        r@.len() == 4,
        r@[0]@ == "FPS:"@ + fps_text@ + " MAP:"@ + decimal(mapper_number as nat),
        r@[1]@ == "GAME:"@ + game_name@,
        r@[2]@ == slot_line(slot, slot_occupied),
        r@[3]@ == "REWIND:"@ + decimal(rewind_len as nat),
{
    let mut fps_line: String = String::from_str("FPS:");
    fps_line.append(fps_text);
    fps_line.append(" MAP:");
    push_decimal(&mut fps_line, mapper_number as u128);
    let mut game_line: String = String::from_str("GAME:");
    game_line.append(game_name);
    let mut slot_text: String = String::from_str("SLOT:");
    push_decimal(&mut slot_text, (slot + 1) as u128);
    slot_text.append("/");
    push_decimal(&mut slot_text, SAVE_STATE_SLOT_COUNT as u128);
    slot_text.append(" ");
    if slot_occupied {
        slot_text.append("OCCUPIED");
    } else {
        slot_text.append("EMPTY");
    }
    let mut rewind_line: String = String::from_str("REWIND:");
    push_decimal(&mut rewind_line, rewind_len as u128);
    let mut r: Vec<String> = Vec::new();
    r.push(fps_line);
    r.push(game_line);
    r.push(slot_text);
    r.push(rewind_line);
    r
}

} // verus!
