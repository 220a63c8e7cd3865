//! NES region / TV system — NTSC, PAL and Dendy (Famiclone) timing.
//!
//! | Region | Scanlines | Palette | APU frame counter |
//! |--------|-----------|---------|-------------------|
//! | NTSC   | 262       | 2C02    | NTSC thresholds   |
//! | PAL    | 312       | 2C07    | PAL thresholds    |
//! | Dendy  | 312       | 2C02    | NTSC thresholds   |
//!
//! The clock rates in Hz are floating-point values and live with the
//! program, not here; everything below is integer timing.
//!
//! See: https://www.nesdev.org/wiki/Cycle_reference
//! See: https://www.nesdev.org/wiki/APU_Frame_Counter

use vstd::prelude::*;

verus! {

/// NES region / TV system.
#[derive(Copy, Clone, Debug, PartialEq, Eq, Hash, Structural)]
pub enum Region {
    /// NTSC — North America / Japan. 262 scanlines, ~60 Hz, 2C02 palette.
    Ntsc,
    /// PAL — Europe / Australia. 312 scanlines, ~50 Hz, 2C07 palette.
    Pal,
    /// Dendy — Russian Famiclone. 312 scanlines, ~50 Hz, NTSC palette and
    /// NTSC CPU speed.
    Dendy,
}

impl Default for Region {
    /// NTSC, the machine's primary region.
    fn default() -> (r: Self)
        ensures
            r == Region::Ntsc,
    {
        Region::Ntsc
    }
}

/// The Unicode `White_Space` characters (the set `str::trim` removes).
pub open spec fn is_white_space(c: char) -> bool {
    ||| ('\u{9}' <= c && c <= '\u{d}')
    ||| c == ' '
    ||| c == '\u{85}'
    ||| c == '\u{a0}'
    ||| c == '\u{1680}'
    ||| ('\u{2000}' <= c && c <= '\u{200a}')
    ||| c == '\u{2028}'
    ||| c == '\u{2029}'
    ||| c == '\u{202f}'
    ||| c == '\u{205f}'
    ||| c == '\u{3000}'
}

/// `s` without its leading white space.
pub open spec fn trim_start_seq(s: Seq<char>) -> Seq<char>
    decreases s.len(),
{
    if s.len() > 0 && is_white_space(s[0]) {
        trim_start_seq(s.drop_first())
    } else {
        s
    }
}

/// `s` without its trailing white space.
pub open spec fn trim_end_seq(s: Seq<char>) -> Seq<char>
    decreases s.len(),
{
    if s.len() > 0 && is_white_space(s.last()) {
        trim_end_seq(s.drop_last())
    } else {
        s
    }
}

/// `s` without leading and trailing white space.
pub open spec fn trim_seq(s: Seq<char>) -> Seq<char> {
    trim_end_seq(trim_start_seq(s))
}

/// `c` with `'A'..='Z'` mapped to `'a'..='z'`; every other character unchanged.
pub open spec fn ascii_lower_char(c: char) -> char {
    if 'A' <= c && c <= 'Z' {
        ((c as int) + 32) as char
    } else {
        c
    }
}

/// `s` with its ASCII upper-case letters lowered.
pub open spec fn ascii_lower_seq(s: Seq<char>) -> Seq<char> {
    s.map_values(|c: char| ascii_lower_char(c))
}

/// The key a config string is matched on: trimmed, ASCII letters lowered.
pub open spec fn config_key(s: Seq<char>) -> Seq<char> {
    ascii_lower_seq(trim_seq(s))
}

/// `str::trim`: the slice without leading and trailing Unicode white space.
#[verifier::external_body]
fn trim_str(s: &str) -> (r: &str)
    ensures
        r@ == trim_seq(s@),
{
    s.trim()
}

/// `str::to_ascii_lowercase`: a copy with ASCII letters lowered and every
/// other character unchanged.
#[verifier::external_body]
fn ascii_lowercase(s: &str) -> (r: String)
    ensures
        r@ == ascii_lower_seq(s@),
{
    s.to_ascii_lowercase()
}

/// The error message for an unknown region name `key`.
pub open spec fn unknown_region_message(key: Seq<char>) -> Seq<char> {
    "unknown region '"@ + key + "' (expected: auto, ntsc, pal, dendy)"@
}

impl Region {
    /// Total scanlines per frame: NTSC 262, PAL/Dendy 312.
    pub fn scanlines_per_frame(self) -> (r: u16)
        ensures
            r == (if self == Region::Ntsc { 262u16 } else { 312u16 }),
    {
        match self {
            Region::Ntsc => 262,
            Region::Pal | Region::Dendy => 312,
        }
    }

    /// Scanline on which VBlank begins: 241 in every region.
    pub fn scanline_vblank_start(self) -> (r: u16)
        ensures
            r == 241,
    {
        241
    }

    /// Prerender scanline: NTSC 261, PAL/Dendy 311 (the last scanline).
    pub fn scanline_prerender(self) -> (r: u16)
        ensures
            r == (if self == Region::Ntsc { 261u16 } else { 311u16 }),
    {
        match self {
            Region::Ntsc => 261,
            Region::Pal | Region::Dendy => 311,
        }
    }

    /// PPU cycles per scanline: 341 in every region.
    pub fn cycles_per_scanline(self) -> (r: u16)
        ensures
            r == 341,
    {
        341
    }

    /// Whether the region uses the PAL (2C07) palette: only PAL does;
    /// Dendy keeps the NTSC palette.
    pub fn is_pal_palette(self) -> (r: bool)
        ensures
            r == (self == Region::Pal),
    {
        match self {
            Region::Pal => true,
            _ => false,
        }
    }

    /// APU frame-counter 4-step thresholds `(cpu_cycle, quarter, half)`.
    /// NTSC/Dendy: 7457, 14913, 22371, 29828; PAL: 8314, 16627, 24941, 33255.
    pub fn apu_4step_thresholds(self) -> (r: [(u32, bool, bool); 4])
        ensures
            self != Region::Pal ==> r@ == seq![(7457u32, true, false), (14913u32, true, true), (22371u32, true, false), (29828u32, true, true)],
            self == Region::Pal ==> r@ == seq![(8314u32, true, false), (16627u32, true, true), (24941u32, true, false), (33255u32, true, true)],
    {
        match self {
            Region::Ntsc | Region::Dendy => [
                (7457, true, false),
                (14913, true, true),
                (22371, true, false),
                (29828, true, true),
            ],
            Region::Pal => [
                (8314, true, false),
                (16627, true, true),
                (24941, true, false),
                (33255, true, true),
            ],
        }
    }

    /// APU frame-counter 5-step thresholds (no IRQ in this mode).
    /// NTSC/Dendy: 7457, 14913, 22371, 37281; PAL: 8314, 16627, 24941, 41568.
    pub fn apu_5step_thresholds(self) -> (r: [(u32, bool, bool); 4])
        ensures
            self != Region::Pal ==> r@ == seq![(7457u32, true, false), (14913u32, true, true), (22371u32, true, false), (37281u32, true, true)],
            self == Region::Pal ==> r@ == seq![(8314u32, true, false), (16627u32, true, true), (24941u32, true, false), (41568u32, true, true)],
    {
        match self {
            Region::Ntsc | Region::Dendy => [
                (7457, true, false),
                (14913, true, true),
                (22371, true, false),
                (37281, true, true),
            ],
            Region::Pal => [
                (8314, true, false),
                (16627, true, true),
                (24941, true, false),
                (41568, true, true),
            ],
        }
    }

    /// Frame-counter reset point in CPU cycles.
    /// NTSC/Dendy: 29830 (4-step), 37282 (5-step); PAL: 33257, 41570.
    pub fn apu_reset_at(self, mode_5step: bool) -> (r: u32)
        ensures
            r == (if self == Region::Pal {
                if mode_5step { 41570u32 } else { 33257u32 }
            } else {
                if mode_5step { 37282u32 } else { 29830u32 }
            }),
    {
        match self {
            Region::Ntsc | Region::Dendy => {
                if mode_5step {
                    37282
                } else {
                    29830
                }
            },
            Region::Pal => {
                if mode_5step {
                    41570
                } else {
                    33257
                }
            },
        }
    }

    /// The 4-step IRQ threshold: NTSC/Dendy 29828, PAL 33255.
    pub fn apu_4step_irq_threshold(self) -> (r: u32)
        ensures
            r == (if self == Region::Pal { 33255u32 } else { 29828u32 }),
    {
        match self {
            Region::Ntsc | Region::Dendy => 29828,
            Region::Pal => 33255,
        }
    }

    /// Parse a region name as written in the configuration: `auto`, `ntsc`,
    /// `pal` or `dendy`, ignoring surrounding white space and ASCII case.
    /// `Ok(None)` stands for `auto`; any other name is an error naming it.
    pub fn from_config_str(s: &str) -> (r: Result<Option<Region>, String>)
        ensures
            config_key(s@) == "auto"@ ==> r == Ok::<Option<Region>, String>(None),
            config_key(s@) == "ntsc"@ ==> r == Ok::<Option<Region>, String>(Some(Region::Ntsc)),
            config_key(s@) == "pal"@ ==> r == Ok::<Option<Region>, String>(Some(Region::Pal)),
            config_key(s@) == "dendy"@ ==> r == Ok::<Option<Region>, String>(Some(Region::Dendy)),
            config_key(s@) != "auto"@ && config_key(s@) != "ntsc"@ && config_key(s@) != "pal"@
                && config_key(s@) != "dendy"@ ==> (r matches Err(e) && e@ == unknown_region_message(
                config_key(s@))),
    {
        proof {
            reveal_strlit("auto");
            reveal_strlit("ntsc");
            reveal_strlit("pal");
            reveal_strlit("dendy");
        }
        let t: &str = trim_str(s);
        let key: String = ascii_lowercase(t);
        let auto_s: String = String::from_str("auto");
        let ntsc_s: String = String::from_str("ntsc");
        let pal_s: String = String::from_str("pal");
        let dendy_s: String = String::from_str("dendy");
        let is_auto: bool = key == auto_s;
        let is_ntsc: bool = key == ntsc_s;
        let is_pal: bool = key == pal_s;
        let is_dendy: bool = key == dendy_s;
        assert("pal"@ != "auto"@ && "pal"@ != "ntsc"@ && "dendy"@ != "auto"@ && "dendy"@ != "ntsc"@
            && "dendy"@ != "pal"@ && "ntsc"@ != "auto"@) by {
            assert("pal"@.len() == 3 && "auto"@.len() == 4 && "ntsc"@.len() == 4 && "dendy"@.len() == 5);
            assert("auto"@[0] == 'a' && "ntsc"@[0] == 'n');
        }
        if is_auto {
            Ok(None)
        } else if is_ntsc {
            Ok(Some(Region::Ntsc))
        } else if is_pal {
            Ok(Some(Region::Pal))
        } else if is_dendy {
            Ok(Some(Region::Dendy))
        } else {
            let mut e: String = String::from_str("unknown region '");
            e.append(key.as_str());
            e.append("' (expected: auto, ntsc, pal, dendy)");
            Err(e)
        }
    }

    /// Short name for the on-screen display: `NTSC`, `PAL` or `DENDY`.
    pub fn short_name(self) -> (r: &'static str)
        ensures
            self == Region::Ntsc ==> r@ == "NTSC"@,
            self == Region::Pal ==> r@ == "PAL"@,
            self == Region::Dendy ==> r@ == "DENDY"@,
    {
        match self {
            Region::Ntsc => "NTSC",
            Region::Pal => "PAL",
            Region::Dendy => "DENDY",
        }
    }

    /// The next region in the order NTSC → PAL → Dendy → NTSC.
    pub fn cycle(self) -> (r: Region)
        ensures
            r == cycle_spec(self),
            self == Region::Ntsc ==> r == Region::Pal,
            self == Region::Pal ==> r == Region::Dendy,
            self == Region::Dendy ==> r == Region::Ntsc,
    {
        match self {
            Region::Ntsc => Region::Pal,
            Region::Pal => Region::Dendy,
            Region::Dendy => Region::Ntsc,
        }
    }
}

/// Three steps of `cycle` lead back to the region they started from.
pub proof fn law_region_cycle_period(r: Region)
    ensures
        cycle_spec(cycle_spec(cycle_spec(r))) == r,
        cycle_spec(r) != r,
{
}

/// The region `cycle` moves to.
pub open spec fn cycle_spec(r: Region) -> Region {
    match r {
        Region::Ntsc => Region::Pal,
        Region::Pal => Region::Dendy,
        Region::Dendy => Region::Ntsc,
    }
}

} // verus!
