//! ROM management: the dropped-file queue, the recent-ROM list and the ROM
//! information overlay.
//!
//! The recent-ROM list is capped, free of the path just loaded elsewhere in
//! it, and most recent first; the program persists it in its configuration.
//! The overlay describes the loaded cartridge (mapper, PRG/CHR sizes,
//! mirroring, battery and trainer flags, region hint and region in use) as
//! on-screen text lines.
//!
//! See: https://www.nesdev.org/wiki/INES

use vstd::prelude::*;

use crate::mappers::Mirroring;
use crate::menu::keys::KEY_F12;
use crate::osd::{osd_pixel, str_views, Osd};
use crate::region::Region;
use crate::text::{decimal, push_decimal, texts};

verus! {

/// Most entries kept in the recent-ROM list.
pub const RECENT_ROM_MAX: usize = 10;

/// Key code of the key that toggles the ROM information overlay (F12).
pub const ROM_INFO_HOTKEY: i32 = KEY_F12;

/// PRG-ROM bank unit of the iNES header (16 KB).
pub const PRG_ROM_UNIT: usize = 16384;
/// CHR-ROM bank unit of the iNES header (8 KB).
pub const CHR_ROM_UNIT: usize = 8192;

/// The parts of a cartridge's iNES header that the overlay shows.
#[derive(Debug, Clone, Copy)]
pub struct RomHeader {
    /// PRG-ROM size in 16 KB units.
    pub prg_rom_banks: u8,
    /// CHR-ROM size in 8 KB units (0 for CHR-RAM).
    pub chr_rom_banks: u8,
    pub mapper_number: u16,
    pub mirroring: Mirroring,
    pub has_trainer: bool,
    pub has_battery: bool,
    /// Region named by the header, if any.
    pub region_hint: Option<Region>,
}

/// A snapshot of the loaded cartridge's metadata for the overlay.
#[derive(Debug, Clone)]
pub struct RomInfo {
    /// ROM file name (no directory).
    pub file_name: String,
    /// Size of the loaded file in bytes.
    pub file_size: u64,
    pub mapper_number: u16,
    /// PRG-ROM size in bytes.
    pub prg_rom_size: usize,
    /// CHR-ROM size in bytes (0 for CHR-RAM).
    pub chr_rom_size: usize,
    pub mirroring: Mirroring,
    pub has_battery: bool,
    pub has_trainer: bool,
    /// Region named by the header, if any.
    pub region_hint: Option<Region>,
    /// Region in use.
    pub region: Region,
}

impl Default for RomInfo {
    /// An empty description: no name, size 0, mapper 0, horizontal, NTSC.
    fn default() -> (r: Self)
        ensures
            r.file_name@ == Seq::<char>::empty(),
            r.file_size == 0 && r.mapper_number == 0 && r.prg_rom_size == 0 && r.chr_rom_size == 0,
            r.mirroring == Mirroring::Horizontal,
            !r.has_battery && !r.has_trainer,
            r.region_hint is None,
            r.region == Region::Ntsc,
    {
        RomInfo {
            file_name: String::new(),
            file_size: 0,
            mapper_number: 0,
            prg_rom_size: 0,
            chr_rom_size: 0,
            mirroring: Mirroring::Horizontal,
            has_battery: false,
            has_trainer: false,
            region_hint: None,
            region: Region::Ntsc,
        }
    }
}

/// ROM manager state held by the program.
pub struct RomManager {
    /// Path of a file dropped onto the window, waiting to be loaded; a
    /// later drop replaces an earlier one.
    pub pending_drop: Option<String>,
    /// Whether the ROM information overlay is shown.
    pub info_overlay: bool,
    /// Recent ROM paths, most recent first.
    pub recent_roms: Vec<String>,
}

/// `s` without its first entry equal to `x`, if it has one.
pub open spec fn without_first(s: Seq<Seq<char>>, x: Seq<char>) -> Seq<Seq<char>>
    decreases s.len(),
{
    if s.len() == 0 {
        s
    } else if s[0] == x {
        s.drop_first()
    } else {
        seq![s[0]] + without_first(s.drop_first(), x)
    }
}

/// At most the first `RECENT_ROM_MAX` entries of `s`.
pub open spec fn capped(s: Seq<Seq<char>>) -> Seq<Seq<char>> {
    if s.len() > RECENT_ROM_MAX {
        s.take(RECENT_ROM_MAX as int)
    } else {
        s
    }
}

/// The recent list `s` after `path` is loaded: `path` first, then the rest
/// of `s` without (the first copy of) `path`, capped.
pub open spec fn recent_after_load(s: Seq<Seq<char>>, path: Seq<char>) -> Seq<Seq<char>> {
    capped(seq![path] + without_first(s, path))
}

/// `s` cut to `max` characters for the overlay: unchanged when it fits,
/// else its first `max - 2` characters (none when `max < 2`) and `..`.
pub open spec fn truncated(s: Seq<char>, max: nat) -> Seq<char> {
    if s.len() <= max {
        s
    } else {
        s.take(if max >= 2 { max - 2 } else { 0 }) + ".."@
    }
}

/// How the overlay names a mirroring mode.
pub open spec fn mirroring_label(m: Mirroring) -> Seq<char> {
    match m {
        Mirroring::Horizontal => "H"@,
        Mirroring::Vertical => "V"@,
        Mirroring::FourScreen => "4S"@,
        Mirroring::SingleScreen(nt) => if nt == 0 {
            "1SA"@
        } else if nt == 1 {
            "1SB"@
        } else if nt == 2 {
            "1SC"@
        } else {
            "1SD"@
        },
    }
}

/// Short name of a region, as [`Region::short_name`] gives it.
pub open spec fn region_label(r: Region) -> Seq<char> {
    match r {
        Region::Ntsc => "NTSC"@,
        Region::Pal => "PAL"@,
        Region::Dendy => "DENDY"@,
    }
}

/// The four overlay lines describing `info`.
pub open spec fn info_text(info: RomInfo) -> Seq<Seq<char>> {
    seq![
        "ROM:"@ + truncated(info.file_name@, 20) + " ("@ + decimal(info.file_size as nat) + "B)"@,
        "MAP:"@ + decimal(info.mapper_number as nat) + " PRG:"@ + decimal((info.prg_rom_size / 1024) as nat) + "K CHR:"@
            + decimal((info.chr_rom_size / 1024) as nat) + "K"@,
        "MIR:"@ + mirroring_label(info.mirroring) + " "@ + (if info.has_battery { "BATT"@ } else { "----"@ }) + " "@
            + (if info.has_trainer { "TRN"@ } else { "---"@ }) + " "@ + (match info.region_hint {
            Some(r) => region_label(r),
            None => "auto"@,
        }),
        "REGION:"@ + region_label(info.region),
    ]
}

/// Line `i` of the recent-ROM listing of path `p`: its 1-based number, a
/// colon and the path cut to 28 characters.
pub open spec fn recent_line(i: int, p: Seq<char>) -> Seq<char> {
    decimal((i + 1) as nat) + ":"@ + truncated(p, 28)
}

/// Cut `s` for the overlay (see [`truncated`]).
pub fn truncate_for_osd(s: &str, max: usize) -> (r: String)
    ensures
        r@ == truncated(s@, max as nat),
{
    let n: usize = s.unicode_len();
    if n <= max {
        return String::from_str(s);
    }
    let keep: usize = if max >= 2 { max - 2 } else { 0 };
    let mut out: String = String::from_str(s.substring_char(0, keep));
    out.append("..");
    out
}

/// Copy of each string.
fn clone_strings(v: &Vec<String>) -> (r: Vec<String>)
    ensures
        texts(r@) == texts(v@),
{
    let mut out: Vec<String> = Vec::new();
    let mut i: usize = 0;
    while i < v.len()
        invariant
            i <= v@.len(),
            texts(out@) == texts(v@).take(i as int),
        decreases v@.len() - i,
    {
        let s: String = v[i].clone();
        assert(s@ == v@[i as int]@);
        let ghost before = out@;
        out.push(s);
        assert(texts(out@) =~= texts(before).push(s@));
        assert(texts(v@).take(i + 1) =~= texts(v@).take(i as int).push(v@[i as int]@));
        i = i + 1;
    }
    assert(texts(v@).take(v@.len() as int) =~= texts(v@));
    out
}

fn mirroring_str(m: Mirroring) -> (r: &'static str)
    ensures
        r@ == mirroring_label(m),
{
    match m {
        Mirroring::Horizontal => "H",
        Mirroring::Vertical => "V",
        Mirroring::FourScreen => "4S",
        Mirroring::SingleScreen(nt) => if nt == 0 {
            "1SA"
        } else if nt == 1 {
            "1SB"
        } else if nt == 2 {
            "1SC"
        } else {
            "1SD"
        },
    }
}

impl RomManager {
    /// A manager with the recent list `recent_roms` (as loaded from the
    /// configuration), no pending drop and the overlay hidden.
    pub fn new(recent_roms: Vec<String>) -> (m: Self)
        ensures
            m.pending_drop is None,
            !m.info_overlay,
            m.recent_roms@ == recent_roms@,
    {
        RomManager { pending_drop: None, info_overlay: false, recent_roms }
    }

    /// Queue `path` for loading, replacing any earlier drop.
    pub fn queue_drop(&mut self, path: String)
        ensures
            final(self).pending_drop == Some(path),
            final(self).info_overlay == old(self).info_overlay,
            final(self).recent_roms@ == old(self).recent_roms@,
    {
        self.pending_drop = Some(path);
    }

    /// Take the queued path, if any.
    pub fn take_pending_drop(&mut self) -> (r: Option<String>)
        ensures
            r == old(self).pending_drop,
            final(self).pending_drop is None,
            final(self).info_overlay == old(self).info_overlay,
            final(self).recent_roms@ == old(self).recent_roms@,
    {
        let mut r: Option<String> = None;
        std::mem::swap(&mut r, &mut self.pending_drop);
        r
    }

    pub fn has_pending_drop(&self) -> (r: bool)
        ensures
            r == self.pending_drop is Some,
    {
        self.pending_drop.is_some()
    }

    /// Flip the overlay; returns the new state.
    pub fn toggle_info_overlay(&mut self) -> (r: bool)
        ensures
            r == !old(self).info_overlay,
            final(self).info_overlay == r,
            final(self).pending_drop == old(self).pending_drop,
            final(self).recent_roms@ == old(self).recent_roms@,
    {
        self.info_overlay = !self.info_overlay;
        self.info_overlay
    }

    pub fn set_info_overlay(&mut self, on: bool)
        ensures
            final(self).info_overlay == on,
            final(self).pending_drop == old(self).pending_drop,
            final(self).recent_roms@ == old(self).recent_roms@,
    {
        self.info_overlay = on;
    }

    pub fn info_overlay_enabled(&self) -> (r: bool)
        ensures
            r == self.info_overlay,
    {
        self.info_overlay
    }

    /// Record a successful load of `path`: it moves to the head of the
    /// recent list (its first earlier copy removed) and the list is capped
    /// at [`RECENT_ROM_MAX`]. Returns the new list for the program to
    /// persist.
    pub fn record_loaded_rom(&mut self, path: &str) -> (r: Vec<String>)
        ensures
            texts(final(self).recent_roms@) == recent_after_load(texts(old(self).recent_roms@), path@),
            texts(r@) == texts(final(self).recent_roms@),
            final(self).pending_drop == old(self).pending_drop,
            final(self).info_overlay == old(self).info_overlay,
    {
        let p: String = String::from_str(path);
        let ghost s0 = texts(self.recent_roms@);
        let n: usize = self.recent_roms.len();
        let mut i: usize = 0;
        let mut found: bool = false;
        proof {
            assert(s0.take(0) =~= Seq::<Seq<char>>::empty());
            assert(s0.skip(0) =~= s0);
            assert(s0.take(0) + without_first(s0.skip(0), p@) =~= without_first(s0, p@));
        }
        while i < n && !found
            invariant
                n == self.recent_roms@.len(),
                i <= n,
                self.recent_roms@ == old(self).recent_roms@,
                s0 == texts(self.recent_roms@),
                p@ == path@,
                !found ==> without_first(s0, p@) == s0.take(i as int) + without_first(s0.skip(i as int), p@),
                found ==> i < n && s0[i as int] == p@ && without_first(s0, p@) == s0.take(i as int) + s0.skip(i + 1),
            decreases n - i + (if found { 0int } else { 1int }),
        {
            proof {
                assert(s0.skip(i as int).drop_first() =~= s0.skip(i + 1));
                assert(s0.skip(i as int)[0] == s0[i as int]);
            }
            if self.recent_roms[i] == p {
                found = true;
            } else {
                proof {
                    assert(s0.take(i as int) + seq![s0[i as int]] =~= s0.take(i + 1));
                    assert(s0.take(i as int) + without_first(s0.skip(i as int), p@) =~= s0.take(i + 1)
                        + without_first(s0.skip(i + 1), p@));
                }
                i = i + 1;
            }
        }
        proof {
            if !found {
                assert(s0.skip(i as int) =~= Seq::<Seq<char>>::empty());
                assert(s0.take(i as int) =~= s0);
            }
        }
        if found {
            let _gone: String = self.recent_roms.remove(i);
            assert(texts(self.recent_roms@) =~= s0.take(i as int) + s0.skip(i + 1));
        }
        let ghost rest = texts(self.recent_roms@);
        assert(rest == without_first(s0, p@));
        self.recent_roms.insert(0, p);
        assert(texts(self.recent_roms@) =~= seq![path@] + rest);
        if self.recent_roms.len() > RECENT_ROM_MAX {
            self.recent_roms.truncate(RECENT_ROM_MAX);
            assert(texts(self.recent_roms@) =~= (seq![path@] + rest).take(RECENT_ROM_MAX as int));
        }
        clone_strings(&self.recent_roms)
    }

    /// The recent list, most recent first.
    pub fn recent_roms(&self) -> (r: &[String])
        ensures
            r@ == self.recent_roms@,
    {
        self.recent_roms.as_slice()
    }

    /// Replace the recent list with `roms`, capped at [`RECENT_ROM_MAX`].
    pub fn set_recent_roms(&mut self, roms: Vec<String>)
        ensures
            texts(final(self).recent_roms@) == capped(texts(roms@)),
            final(self).pending_drop == old(self).pending_drop,
            final(self).info_overlay == old(self).info_overlay,
    {
        self.recent_roms = roms;
        if self.recent_roms.len() > RECENT_ROM_MAX {
            self.recent_roms.truncate(RECENT_ROM_MAX);
            assert(texts(self.recent_roms@) =~= texts(roms@).take(RECENT_ROM_MAX as int));
        }
    }

    /// The overlay lines for `info` (see [`info_text`]); none while the
    /// overlay is hidden.
    pub fn info_lines(&self, info: &RomInfo) -> (r: Vec<String>)
        ensures
            !self.info_overlay ==> r@.len() == 0,
            self.info_overlay ==> texts(r@) == info_text(*info),
    {
        let mut lines: Vec<String> = Vec::new();
        if !self.info_overlay {
            return lines;
        }
        let mut l0: String = String::from_str("ROM:");
        let name: String = truncate_for_osd(info.file_name.as_str(), 20);
        l0.append(name.as_str());
        l0.append(" (");
        push_decimal(&mut l0, info.file_size as u128);
        l0.append("B)");
        lines.push(l0);
        let mut l1: String = String::from_str("MAP:");
        push_decimal(&mut l1, info.mapper_number as u128);
        l1.append(" PRG:");
        push_decimal(&mut l1, (info.prg_rom_size / 1024) as u128);
        l1.append("K CHR:");
        push_decimal(&mut l1, (info.chr_rom_size / 1024) as u128);
        l1.append("K");
        lines.push(l1);
        let mut l2: String = String::from_str("MIR:");
        l2.append(mirroring_str(info.mirroring));
        l2.append(" ");
        l2.append(if info.has_battery { "BATT" } else { "----" });
        l2.append(" ");
        l2.append(if info.has_trainer { "TRN" } else { "---" });
        l2.append(" ");
        l2.append(match info.region_hint {
            Some(r) => r.short_name(),
            None => "auto",
        });
        lines.push(l2);
        let mut l3: String = String::from_str("REGION:");
        l3.append(info.region.short_name());
        lines.push(l3);
        assert(texts(lines@) =~= info_text(*info));
        lines
    }

    /// The recent list as numbered overlay lines (see [`recent_line`]).
    pub fn recent_lines(&self) -> (r: Vec<String>)
        ensures
            r@.len() == self.recent_roms@.len(),
            forall|i: int| 0 <= i < r@.len() ==> #[trigger] r@[i]@ == recent_line(i, self.recent_roms@[i]@),
    {
        let mut out: Vec<String> = Vec::new();
        let mut i: usize = 0;
        while i < self.recent_roms.len()
            invariant
                i <= self.recent_roms@.len(),
                out@.len() == i,
                forall|j: int| 0 <= j < i ==> #[trigger] out@[j]@ == recent_line(j, self.recent_roms@[j]@),
            decreases self.recent_roms@.len() - i,
        {
            let mut line: String = String::new();
            push_decimal(&mut line, (i as u128) + 1);
            line.append(":");
            let t: String = truncate_for_osd(self.recent_roms[i].as_str(), 28);
            line.append(t.as_str());
            out.push(line);
            i = i + 1;
        }
        out
    }

    /// Draw the overlay lines for `info` into `fb` (`width` × `height`,
    /// row-major) with the OSD font, whether or not the OSD itself is shown;
    /// nothing is drawn while the overlay is hidden.
    pub fn render_info_overlay(&self, fb: &mut [u32], width: u32, height: u32, info: &RomInfo, glyphs: &[[u8; 8]])
        requires
            width * height <= u32::MAX,
        ensures
            final(fb)@.len() == old(fb)@.len(),
            !self.info_overlay || old(fb)@.len() != width * height ==> final(fb)@ == old(fb)@,
            self.info_overlay && old(fb)@.len() == width * height ==> forall|py: int, px: int|
                0 <= py < height && 0 <= px < width ==> #[trigger] final(fb)@[py * width + px] == osd_pixel(
                    info_text(*info),
                    glyphs@,
                    width as int,
                    height as int,
                    py,
                    px,
                    old(fb)@[py * width + px],
                ),
    {
        if !self.info_overlay {
            return;
        }
        let lines: Vec<String> = self.info_lines(info);
        let mut strs: Vec<&str> = Vec::new();
        let mut i: usize = 0;
        while i < lines.len()
            invariant
                i <= lines@.len(),
                strs@.len() == i,
                forall|j: int| 0 <= j < i ==> #[trigger] strs@[j]@ == lines@[j]@,
            decreases lines@.len() - i,
        {
            strs.push(lines[i].as_str());
            i = i + 1;
        }
        assert(str_views(strs@) =~= texts(lines@));
        let mut osd: Osd = Osd::new();
        osd.set_enabled(true);
        osd.render(fb, width, height, strs.as_slice(), glyphs);
    }
}

/// The overlay description of a cartridge with header `header`, loaded
/// from a file named `file_name` of `file_size` bytes, running in `region`.
pub fn build_rom_info(header: &RomHeader, file_name: &str, file_size: u64, region: Region) -> (r: RomInfo)
    ensures
        r.file_name@ == file_name@,
        r.file_size == file_size,
        r.mapper_number == header.mapper_number,
        r.prg_rom_size == header.prg_rom_banks * PRG_ROM_UNIT,
        r.chr_rom_size == header.chr_rom_banks * CHR_ROM_UNIT,
        r.mirroring == header.mirroring,
        r.has_battery == header.has_battery,
        r.has_trainer == header.has_trainer,
        r.region_hint == header.region_hint,
        r.region == region,
{
    RomInfo {
        file_name: String::from_str(file_name),
        file_size,
        mapper_number: header.mapper_number,
        prg_rom_size: (header.prg_rom_banks as usize) * PRG_ROM_UNIT,
        chr_rom_size: (header.chr_rom_banks as usize) * CHR_ROM_UNIT,
        mirroring: header.mirroring,
        has_battery: header.has_battery,
        has_trainer: header.has_trainer,
        region_hint: header.region_hint,
        region,
    }
}

/// The file name (final component, extension kept) of `path`, or `?` when
/// it has none.
pub fn file_name_from_path(path: &str) -> (r: String)
    ensures
        r@ == (match crate::paths::path_file_name(path@) {
            Some(s) => s,
            None => "?"@,
        }),
{
    match crate::paths::file_name_of(path) {
        Some(s) => s,
        None => String::from_str("?"),
    }
}

/// A path just loaded heads the recent list, appears in it once more at
/// most where it appeared before (never twice from the load), and the list
/// never exceeds its cap.
pub proof fn law_recent_list_head_and_cap(s: Seq<Seq<char>>, path: Seq<char>)
    ensures
        recent_after_load(s, path).len() <= RECENT_ROM_MAX,
        recent_after_load(s, path).len() >= 1,
        recent_after_load(s, path)[0] == path,
{
}

/// Loading the path already at the head of the list leaves a capped list
/// unchanged.
pub proof fn law_reload_head_is_idempotent(s: Seq<Seq<char>>, path: Seq<char>)
    requires
        s.len() >= 1,
        s.len() <= RECENT_ROM_MAX,
        s[0] == path,
    ensures
        recent_after_load(s, path) == s,
{
    assert(seq![path] + s.drop_first() =~= s);
}

} // verus!
