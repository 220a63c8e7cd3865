# nes_emu

The core of an NES emulator, written in Verus: the library's functions
carry `requires` / `ensures` contracts that Verus proves. Four small
functions that call the standard library (`str::trim`,
`str::to_ascii_lowercase`, `Path::file_stem`, `Path::file_name`) are
trusted: their contracts state what the standard library documents.

Layout:

- `src/mappers/` — cartridge boards (NROM, UxROM, CNROM, AxROM, MMC1,
  MMC2, MMC3, MMC5, FME-7, VRC6, VRC7, Namco 163, FDS) and the sound
  chips they carry (FDS wavetable, Namco 163 wavetable, VRC7 FM/OPLL,
  YM2149). Contracts state the PRG/CHR bank routing, register writes,
  IRQ counters and audio state updates over spec functions.
- `src/ppu/` — the PPU register file, memory map and scanline/cycle
  stepper (`mod.rs`), the scanline renderers (`render.rs`) and the
  cycle-accurate per-pixel renderer (`pixel.rs`).
- `src/region.rs` — NTSC/PAL/Dendy timing and configuration parsing.
- `src/osd.rs`, `src/menu/`, `src/rewind_timeline.rs` — on-screen
  overlays drawn into the framebuffer, and the settings menu state
  machine.
- `src/save_state/` — save-state header checks, save slots and the rewind
  ring buffer.
- `src/rom_manager.rs`, `src/region_hotkeys.rs` — recent-ROM list, ROM
  information overlay and region hotkeys.
- `src/paths.rs`, `src/text.rs`, `src/bits.rs` — path and text helpers,
  bit-level lemmas.
- `tests/` — the test suite, run against the compiled library.
- `app/` — the SDL front end (window, input, audio levels and frame
  pacing), which calls the library.
