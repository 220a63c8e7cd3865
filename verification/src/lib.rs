//! NES emulator core: cartridge mappers, PPU, region timing, save-state
//! bookkeeping and ROM management, with their behaviour stated as Verus
//! contracts.

pub mod bits;
pub mod mappers;
pub mod region;
pub mod ppu;
pub mod osd;
pub mod paths;
pub mod text;
pub mod menu;
pub mod save_state;
pub mod rom_manager;
pub mod region_hotkeys;
pub mod rewind_timeline;
