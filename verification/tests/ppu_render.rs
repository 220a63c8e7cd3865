use nes_emu::ppu::render::{nes_color_to_argb, nes_palette, ATTR_TABLE_OFFSET, NT_BASE, NT_COLS, NT_ROWS, PAL_BASE};
use nes_emu::ppu::Ppu;
use nes_emu::ppu::{SCREEN_HEIGHT, SCREEN_WIDTH};

/// The pattern-table space `$0000-$1FFF` as bytes, read through `f`.
fn chr_from(f: impl Fn(u16) -> u8) -> Vec<u8> {
    (0..0x2000u16).map(f).collect()
}


#[test]
fn palette_has_64_entries() {
    assert_eq!(nes_palette().len(), 64);
}

#[test]
fn palette_index_0_is_grey() {
    // 0x00 = grey in the reference palette.
    assert_eq!(nes_palette()[0x00], [0x7C, 0x7C, 0x7C]);
}

#[test]
fn palette_index_20_is_white() {
    assert_eq!(nes_palette()[0x20], [0xF8, 0xF8, 0xF8]);
}

#[test]
fn palette_index_0e_is_black() {
    assert_eq!(nes_palette()[0x0E], [0x00, 0x00, 0x00]);
}

#[test]
fn nes_color_to_argb_packs_channels() {
    // 0x21 = (0x3C, 0xBC, 0xFC) → ARGB 0xFF3CBCFC.
    assert_eq!(nes_color_to_argb(0x21), 0xFF3C_BCFC);
}

#[test]
fn nes_color_masks_to_6_bits() {
    // 0x40 should mask down to 0x00.
    assert_eq!(nes_color_to_argb(0x40), nes_color_to_argb(0x00));
    // 0x80 should mask down to 0x00 as well.
    assert_eq!(nes_color_to_argb(0x80), nes_color_to_argb(0x00));
}

#[test]
fn universal_bg_uses_palette_3f00() {
    let mut ppu = Ppu::new();
    // The PPU register write path doesn't route PPUDATA writes to
    // palette RAM (the bus does that); use the palette API directly.
    ppu.write_palette(0x3F00, 0x21);
    assert_eq!(ppu.universal_bg_argb(), nes_color_to_argb(0x21));
}

#[test]
fn render_background_disabled_fills_universal_bg() {
    let mut ppu = Ppu::new();
    ppu.write_palette(0x3F00, 0x0E); // black
                                     // PPUMASK = 0 → background disabled.
    ppu.render_background(&chr_from(|_| 0));
    let bg = nes_color_to_argb(0x0E);
    for &px in ppu.framebuffer().iter() {
        assert_eq!(px, bg);
    }
}

#[test]
fn render_background_enabled_left_mask_blanks_first_8() {
    let mut ppu = Ppu::new();
    // Enable background but NOT left 8 pixels (PPUMASK = 0b1000).
    ppu.write_register(0x01, 0b0000_1000);
    ppu.write_palette(0x3F00, 0x0E); // universal bg = black
                                     // Fill nametable with a non-zero tile and a non-black palette so
                                     // rendered pixels differ from the universal bg.
    for i in 0..0x3C0u16 {
        ppu.write_nametable(0x2000 | i, 0x01);
    }
    // Pattern table 0, tile 1: all bits set (white pixels).
    // (plane0/1 at $0010..$001F are supplied by the chr closure below.)
    let chr = |addr: u16| -> u8 {
        if (0x10..=0x1F).contains(&addr) {
            0xFF
        } else {
            0
        }
    };
    ppu.render_background(&chr_from(chr));
    let bg = nes_color_to_argb(0x0E);
    // Left 8 pixels of every scanline should be the universal bg.
    for y in 0..SCREEN_HEIGHT {
        for x in 0..8 {
            assert_eq!(
                ppu.pixel(x, y),
                bg,
                "left pixel ({},{}) should be universal bg",
                x,
                y
            );
        }
    }
    // Pixel (8, 0) should NOT be the universal bg (tile is non-zero).
    assert_ne!(ppu.pixel(8, 0), bg);
}

#[test]
fn render_background_solid_tile_fills_screen() {
    let mut ppu = Ppu::new();
    // Enable background + left column.
    ppu.write_register(0x01, 0b0000_1010);
    // Nametable 0: every tile = 1.
    for i in 0..(NT_COLS * NT_ROWS) {
        ppu.write_nametable(NT_BASE | i, 0x01);
    }
    // Attribute table: all zeros → palette 0 for all quadrants.
    // Pattern table 0, tile 1: all bits set → pattern value 3.
    let chr = |addr: u16| -> u8 {
        if (0x10..=0x1F).contains(&addr) {
            0xFF
        } else {
            0
        }
    };
    // Palette: $3F00 = black (universal bg), $3F03 = white.
    ppu.write_palette(PAL_BASE, 0x0E);
    ppu.write_palette(PAL_BASE | 0x03, 0x20);
    ppu.render_background(&chr_from(chr));
    // Every pixel should be white (pattern 3, palette 0, color $3F03).
    let white = nes_color_to_argb(0x20);
    for y in 0..SCREEN_HEIGHT {
        for x in 0..SCREEN_WIDTH {
            assert_eq!(ppu.pixel(x, y), white, "pixel ({},{})", x, y);
        }
    }
}

#[test]
fn render_background_pattern_zero_uses_universal_bg() {
    let mut ppu = Ppu::new();
    ppu.write_register(0x01, 0b0000_1010);
    // Nametable 0: tile 0 everywhere (pattern all-zero → pattern value 0).
    // (VRAM is zero-initialised, so this is already the case.)
    // Palette: $3F00 = 0x0E (black), $3F01 = 0x21 (blue).
    ppu.write_palette(PAL_BASE, 0x0E);
    ppu.write_palette(PAL_BASE | 0x01, 0x21);
    ppu.render_background(&chr_from(|_| 0));
    // Every pixel uses the universal background ($3F00).
    let bg = nes_color_to_argb(0x0E);
    for y in 0..SCREEN_HEIGHT {
        for x in 0..SCREEN_WIDTH {
            assert_eq!(ppu.pixel(x, y), bg);
        }
    }
}

#[test]
fn render_background_attribute_selects_palette() {
    let mut ppu = Ppu::new();
    ppu.write_register(0x01, 0b0000_1010);
    // Nametable 0: all tiles = 1 (solid pattern).
    for i in 0..(NT_COLS * NT_ROWS) {
        ppu.write_nametable(NT_BASE | i, 0x01);
    }
    // Pattern table 0, tile 1: solid (pattern 3).
    let chr = |addr: u16| {
        if (0x10..=0x1F).contains(&addr) {
            0xFF
        } else {
            0
        }
    };
    // Set the first attribute byte (top-left 32×32 quadrant) to 0b01_01_01_01
    // → palette 1 for all four 16×16 sub-quadrants.
    ppu.write_nametable(NT_BASE | ATTR_TABLE_OFFSET, 0b01_01_01_01);
    // Palette 0 color 3 = white, palette 1 color 3 = blue.
    ppu.write_palette(PAL_BASE | 0x03, 0x20); // white
    ppu.write_palette(PAL_BASE | 0x07, 0x21); // blue (palette 1, color 3)
    ppu.render_background(&chr_from(chr));
    // Top-left quadrant (0..32, 0..32) → palette 1 → blue.
    let blue = nes_color_to_argb(0x21);
    assert_eq!(ppu.pixel(0, 0), blue);
    assert_eq!(ppu.pixel(31, 31), blue);
    // The next 32×32 quadrant to the right (32..64, 0..32) → palette 0 → white.
    let white = nes_color_to_argb(0x20);
    assert_eq!(ppu.pixel(32, 0), white);
    assert_eq!(ppu.pixel(63, 31), white);
}

#[test]
fn render_background_pattern_table_select() {
    let mut ppu = Ppu::new();
    // PPUCTRL bit 4 = 1 → background pattern table at $1000.
    ppu.write_register(0x00, 0b0001_0000);
    ppu.write_register(0x01, 0b0000_1010);
    for i in 0..(NT_COLS * NT_ROWS) {
        ppu.write_nametable(NT_BASE | i, 0x01);
    }
    // Pattern table 0 (tile 1) = all zero; pattern table 1 (tile 1) = solid.
    let chr = |addr: u16| -> u8 {
        if (0x1010..=0x101F).contains(&addr) {
            0xFF
        } else {
            0
        }
    };
    ppu.write_palette(PAL_BASE | 0x03, 0x20); // white
    ppu.render_background(&chr_from(chr));
    // With table 1 selected, tile 1 is solid → white everywhere.
    let white = nes_color_to_argb(0x20);
    assert_eq!(ppu.pixel(0, 0), white);
    assert_eq!(ppu.pixel(255, 239), white);
}

#[test]
fn render_background_base_nametable_select() {
    let mut ppu = Ppu::new();
    // PPUCTRL bits 0-1 = 0b01 → base nametable $2400 (NT 1).
    ppu.write_register(0x00, 0b0000_0001);
    ppu.write_register(0x01, 0b0000_1010);
    // NT 0: tile 0 (blank). NT 1: tile 1 (solid).
    for i in 0..(NT_COLS * NT_ROWS) {
        ppu.write_nametable(NT_BASE | 0x400 | i, 0x01);
    }
    let chr = |addr: u16| {
        if (0x10..=0x1F).contains(&addr) {
            0xFF
        } else {
            0
        }
    };
    ppu.write_palette(PAL_BASE | 0x03, 0x20); // white
    ppu.write_palette(PAL_BASE, 0x0E); // black universal bg
    ppu.render_background(&chr_from(chr));
    // NT 1 is the base → solid white.
    assert_eq!(ppu.pixel(0, 0), nes_color_to_argb(0x20));
}

#[test]
fn render_background_horizontal_scroll_wraps_nametable() {
    let mut ppu = Ppu::new();
    // Vertical mirroring so NT 0 ($2000) and NT 1 ($2400) are distinct.
    ppu.set_mirroring(nes_emu::mappers::Mirroring::Vertical);
    ppu.write_register(0x01, 0b0000_1010);
    // Set scroll X = 8 via PPUSCROLL (coarse X = 1, fine X = 0).
    ppu.write_register(0x05, 0x08); // first write: coarse X = 1, fine X = 0
    ppu.write_register(0x05, 0x00); // second write: coarse Y = 0, fine Y = 0
                                    // NT 0: tile 0 (blank, zero-initialised). NT 1 ($2400): tile 1 (solid).
    for i in 0..(NT_COLS * NT_ROWS) {
        ppu.write_nametable(NT_BASE | 0x400 | i, 0x01);
    }
    let chr = |addr: u16| {
        if (0x10..=0x1F).contains(&addr) {
            0xFF
        } else {
            0
        }
    };
    ppu.write_palette(PAL_BASE | 0x03, 0x20);
    ppu.write_palette(PAL_BASE, 0x0E);
    ppu.render_background(&chr_from(chr));
    // With scroll X = 8, screen X 0 maps to nametable pixel 8 of NT 0
    // (blank). Screen X 248..255 wrap into NT 1 (solid).
    let white = nes_color_to_argb(0x20);
    let black = nes_color_to_argb(0x0E);
    assert_eq!(ppu.pixel(0, 0), black, "screen X 0 reads NT 0 (blank)");
    assert_eq!(ppu.pixel(248, 0), white, "screen X 248 wraps into NT 1");
    assert_eq!(ppu.pixel(255, 0), white);
}

#[test]
fn render_background_vertical_scroll_wraps_nametable() {
    let mut ppu = Ppu::new();
    // Horizontal mirroring (default) so NT 0 ($2000) and NT 2 ($2800)
    // are distinct.
    ppu.write_register(0x01, 0b0000_1010);
    // Set scroll Y = 24 via PPUSCROLL (coarse Y = 3, fine Y = 0).
    ppu.write_register(0x05, 0x00); // first write: coarse X = 0, fine X = 0
    ppu.write_register(0x05, 0x18); // second write: coarse Y = 3, fine Y = 0
                                    // NT 0: tile 0 (blank, zero-initialised). NT 2 ($2800): tile 1 (solid).
    for i in 0..(NT_COLS * NT_ROWS) {
        ppu.write_nametable(NT_BASE | 0x800 | i, 0x01);
    }
    let chr = |addr: u16| {
        if (0x10..=0x1F).contains(&addr) {
            0xFF
        } else {
            0
        }
    };
    ppu.write_palette(PAL_BASE | 0x03, 0x20);
    ppu.write_palette(PAL_BASE, 0x0E);
    ppu.render_background(&chr_from(chr));
    // Scroll Y = 24 → screen Y 0..231 read NT 0 (gy 24..255, blank),
    // Y 232..239 wrap into NT 2 (gy 256..263, solid).
    let white = nes_color_to_argb(0x20);
    let black = nes_color_to_argb(0x0E);
    assert_eq!(ppu.pixel(0, 0), black);
    assert_eq!(ppu.pixel(0, 232), white);
    assert_eq!(ppu.pixel(0, 239), white);
}

#[test]
fn render_background_fine_y_selects_pattern_row() {
    let mut ppu = Ppu::new();
    ppu.write_register(0x01, 0b0000_1010);
    // Tile 1 in NT 0: only the top row (fine_y = 0) has set bits.
    for i in 0..(NT_COLS * NT_ROWS) {
        ppu.write_nametable(NT_BASE | i, 0x01);
    }
    // Pattern table 0, tile 1: plane0 row 0 = 0xFF, all other rows = 0.
    let chr = |addr: u16| -> u8 {
        if addr == 0x10 {
            0xFF
        } else {
            0
        }
    };
    // Palette 0 color 1 = white-ish; universal bg = black.
    ppu.write_palette(PAL_BASE | 0x01, 0x20);
    ppu.write_palette(PAL_BASE, 0x0E);
    ppu.render_background(&chr_from(chr));
    // Row 0 of each 8-pixel tile row should be white; rows 1-7 black.
    let white = nes_color_to_argb(0x20);
    let black = nes_color_to_argb(0x0E);
    assert_eq!(ppu.pixel(0, 0), white, "fine_y=0 row is set");
    assert_eq!(ppu.pixel(0, 1), black, "fine_y=1 row is clear");
    assert_eq!(ppu.pixel(0, 7), black);
    assert_eq!(ppu.pixel(0, 8), white, "next tile row fine_y=0");
}

#[test]
fn render_background_fine_x_selects_pattern_bit() {
    let mut ppu = Ppu::new();
    ppu.write_register(0x01, 0b0000_1010);
    // Set fine X = 4 via PPUSCROLL first write (coarse X = 0, fine X = 4).
    ppu.write_register(0x05, 0x04);
    ppu.write_register(0x05, 0x00);
    for i in 0..(NT_COLS * NT_ROWS) {
        ppu.write_nametable(NT_BASE | i, 0x01);
    }
    // Tile 1: only the high bit (bit 7) of each row is set.
    let chr = |addr: u16| -> u8 {
        if (0x10..=0x17).contains(&addr) {
            0x80
        } else {
            0
        }
    };
    ppu.write_palette(PAL_BASE | 0x01, 0x20);
    ppu.write_palette(PAL_BASE, 0x0E);
    ppu.render_background(&chr_from(chr));
    // With fine X = 4, screen X 0 reads nametable pixel 4 of the tile,
    // which is bit 3 (clear). Screen X 3 reads nametable pixel 7 = bit 0
    // of the shifted view → bit 7 of the tile (set).
    let white = nes_color_to_argb(0x20);
    let black = nes_color_to_argb(0x0E);
    // Screen X 0 → tile pixel (0 + 4) = 4 → bit 3 → clear.
    assert_eq!(ppu.pixel(0, 0), black);
    // Screen X 3 → tile pixel (3 + 4) = 7 → bit 0 → clear.
    assert_eq!(ppu.pixel(3, 0), black);
    // Screen X 4 → tile pixel (4 + 4) = 8 → wraps to next tile pixel 0
    // → bit 7 → set.
    assert_eq!(ppu.pixel(4, 0), white);
}

#[test]
fn render_background_uses_mirroring_for_nametable_fetch() {
    // Horizontal mirroring: NT 0 and NT 1 share VRAM; NT 2 and NT 3 share.
    let mut ppu = Ppu::new();
    ppu.set_mirroring(nes_emu::mappers::Mirroring::Horizontal);
    // Base nametable = NT 1 ($2400). Under horizontal mirroring NT 1
    // maps to the same physical VRAM as NT 0, so writing NT 0 should
    // be visible when rendering from NT 1.
    ppu.write_register(0x00, 0b0000_0001); // base NT = 1
    ppu.write_register(0x01, 0b0000_1010);
    for i in 0..(NT_COLS * NT_ROWS) {
        ppu.write_nametable(NT_BASE | i, 0x01); // write NT 0
    }
    let chr = |addr: u16| {
        if (0x10..=0x1F).contains(&addr) {
            0xFF
        } else {
            0
        }
    };
    ppu.write_palette(PAL_BASE | 0x03, 0x20);
    ppu.render_background(&chr_from(chr));
    // NT 1 mirrors NT 0 under horizontal mirroring → solid white.
    assert_eq!(ppu.pixel(0, 0), nes_color_to_argb(0x20));
}

#[test]
fn clear_framebuffer_sets_all_pixels() {
    let mut ppu = Ppu::new();
    ppu.clear_framebuffer(0xABCDEF12);
    for &px in ppu.framebuffer().iter() {
        assert_eq!(px, 0xABCDEF12);
    }
}

#[test]
fn pixel_out_of_bounds_returns_universal_bg() {
    let mut ppu = Ppu::new();
    ppu.write_palette(PAL_BASE, 0x21);
    let bg = nes_color_to_argb(0x21);
    assert_eq!(ppu.pixel(SCREEN_WIDTH, 0), bg);
    assert_eq!(ppu.pixel(0, SCREEN_HEIGHT), bg);
}
