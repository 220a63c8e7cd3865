//! Region hotkey: bare `F11` cycles the TV system NTSC → PAL → Dendy → NTSC.
//!
//! The dispatcher decides; the program applies the chosen region to the
//! machine (PPU timing and palette, APU frame counter) and reports it.
//!
//! See: https://www.nesdev.org/wiki/Cycle_reference

use vstd::prelude::*;

use crate::menu::keys::KEY_F11;
use crate::region::{cycle_spec, Region};

verus! {

/// Key code of the region-cycling key (F11).
pub const REGION_CYCLE_KEY: i32 = KEY_F11;

/// Modifier bits (SDL `KMOD_*`) of the left and right Ctrl keys.
pub const MOD_LCTRL: u16 = 0x0040;
pub const MOD_RCTRL: u16 = 0x0080;
/// Modifier bits of the left and right Alt keys.
pub const MOD_LALT: u16 = 0x0100;
pub const MOD_RALT: u16 = 0x0200;

/// Whether modifier state `keymod` holds a Ctrl or Alt key.
pub open spec fn ctrl_or_alt(keymod: u16) -> bool {
    keymod & MOD_LCTRL != 0 || keymod & MOD_RCTRL != 0 || keymod & MOD_LALT != 0 || keymod & MOD_RALT != 0
}

/// Region hotkey dispatcher.
#[derive(Debug, Default)]
pub struct RegionHotkeys {
    /// The region last chosen with the hotkey, if any.
    pub last_region: Option<Region>,
}

impl RegionHotkeys {
    /// A dispatcher that has not switched the region yet.
    pub fn new() -> (h: Self)
        ensures
            h.last_region is None,
    {
        RegionHotkeys { last_region: None }
    }

    /// The region last chosen with the hotkey, if any.
    pub fn last_region(&self) -> (r: Option<Region>)
        ensures
            r == self.last_region,
    {
        self.last_region
    }

    /// Handle key `key` pressed with modifiers `keymod` while the machine
    /// runs in `current`. Bare `F11` is consumed and gives the next region
    /// in the cycle, for the program to apply; any other key, and `F11`
    /// with Ctrl or Alt held, falls through (`None`).
    pub fn handle_key(&mut self, current: Region, key: i32, keymod: u16) -> (r: Option<Region>)
        ensures
            key == REGION_CYCLE_KEY && !ctrl_or_alt(keymod) ==> r == Some(cycle_spec(current))
                && final(self).last_region == r,
            !(key == REGION_CYCLE_KEY && !ctrl_or_alt(keymod)) ==> r is None && final(self).last_region
                == old(self).last_region,
    {
        if key != REGION_CYCLE_KEY {
            return None;
        }
        let ctrl: bool = (keymod & MOD_LCTRL) != 0 || (keymod & MOD_RCTRL) != 0;
        let alt: bool = (keymod & MOD_LALT) != 0 || (keymod & MOD_RALT) != 0;
        if ctrl || alt {
            return None;
        }
        let next: Region = current.cycle();
        self.last_region = Some(next);
        Some(next)
    }
}

} // verus!
