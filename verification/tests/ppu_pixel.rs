use nes_emu::mappers::Mirroring;
use nes_emu::ppu::render::{nes_color_to_argb, NT_BASE, PAL_BASE, SPRITE_PAL_BASE};
use nes_emu::ppu::Ppu;
use nes_emu::ppu::NT_H_BIT;

/// Pattern space where tile 1 is solid colour 3, tile 2 solid colour 1,
/// and every other byte follows a fixed pseudo-random pattern.
fn chr_mixed() -> Vec<u8> {
    (0..0x2000u32)
        .map(|a| {
            if (0x10..0x20).contains(&a) {
                0xFF
            } else if (0x20..0x28).contains(&a) {
                0xFF
            } else if (0x28..0x30).contains(&a) {
                0x00
            } else {
                ((a * 37 + 11) ^ (a >> 3)) as u8
            }
        })
        .collect()
}

/// Draw the pixels of cycles `from..=to` of the current scanline.
fn draw(ppu: &mut Ppu, chr: &[u8], from: u16, to: u16) {
    for c in from..=to {
        ppu.cycle = c;
        ppu.render_one_pixel(chr);
    }
}

/// A PPU with varied nametables, attributes and palettes, vertical
/// mirroring, the background shown and horizontal scroll 13.
fn scrolled_ppu() -> Ppu {
    let mut ppu = Ppu::new();
    ppu.set_mirroring(Mirroring::Vertical);
    for i in 0..0x3C0u16 {
        ppu.write_nametable(NT_BASE | i, (i * 7 % 251) as u8);
        ppu.write_nametable(NT_BASE | 0x400 | i, (i * 13 % 241) as u8);
    }
    for i in 0..64u16 {
        ppu.write_nametable(NT_BASE | 0x3C0 | i, (i * 29) as u8);
        ppu.write_nametable(NT_BASE | 0x7C0 | i, (i * 53 + 1) as u8);
    }
    for i in 0..32u16 {
        ppu.write_palette(PAL_BASE | i, (i as u8 * 3 + 1) & 0x3F);
    }
    ppu.write_register(0x01, 0b0000_1010);
    ppu.write_register(0x05, 13);
    ppu.write_register(0x05, 0);
    ppu
}

#[test]
fn per_pixel_background_row_matches_scanline_renderer() {
    let chr = chr_mixed();
    let mut row = scrolled_ppu();
    row.render_background(&chr);
    let mut px = scrolled_ppu();
    px.v = px.t;
    px.scanline = 0;
    draw(&mut px, &chr, 1, 256);
    for x in 0..256usize {
        assert_eq!(px.pixel(x, 0), row.pixel(x, 0), "pixel {x}");
    }
}

#[test]
fn per_pixel_background_disabled_gives_universal_colour() {
    let chr = chr_mixed();
    let mut ppu = scrolled_ppu();
    ppu.write_register(0x01, 0);
    ppu.write_palette(PAL_BASE, 0x0E);
    draw(&mut ppu, &chr, 1, 40);
    for x in 0..40usize {
        assert_eq!(ppu.pixel(x, 0), nes_color_to_argb(0x0E));
        assert_eq!(ppu.bg_pattern()[x], 0);
    }
    assert!(!ppu.render.pipeline_primed);
}

#[test]
fn per_pixel_left_mask_hides_first_8_pixels() {
    let chr = chr_mixed();
    let mut ppu = Ppu::new();
    for i in 0..0x3C0u16 {
        ppu.write_nametable(NT_BASE | i, 1);
    }
    ppu.write_palette(PAL_BASE, 0x0E);
    ppu.write_palette(PAL_BASE | 3, 0x20);
    ppu.write_register(0x01, 0b0000_1000);
    draw(&mut ppu, &chr, 1, 16);
    assert_eq!(ppu.pixel(0, 0), nes_color_to_argb(0x0E));
    assert_eq!(ppu.pixel(7, 0), nes_color_to_argb(0x0E));
    assert_eq!(ppu.pixel(8, 0), nes_color_to_argb(0x20));
    assert_eq!(ppu.bg_pattern()[7], 0);
    assert_eq!(ppu.bg_pattern()[8], 3);
}

#[test]
fn per_pixel_resync_follows_new_v() {
    let chr = chr_mixed();
    let mut ppu = Ppu::new();
    ppu.set_mirroring(Mirroring::Vertical);
    for i in 0..0x3C0u16 {
        ppu.write_nametable(NT_BASE | i, 1);
        ppu.write_nametable(NT_BASE | 0x400 | i, 2);
    }
    ppu.write_palette(PAL_BASE, 0x0E);
    ppu.write_palette(PAL_BASE | 3, 0x20);
    ppu.write_palette(PAL_BASE | 1, 0x16);
    ppu.write_register(0x01, 0b0000_1010);
    draw(&mut ppu, &chr, 1, 100);
    ppu.v ^= NT_H_BIT;
    ppu.render.v_dirty = true;
    draw(&mut ppu, &chr, 101, 200);
    assert_eq!(ppu.pixel(50, 0), nes_color_to_argb(0x20));
    assert_eq!(ppu.pixel(99, 0), nes_color_to_argb(0x20));
    // The two pixels already in the fetch pipeline keep the old position.
    assert_eq!(ppu.pixel(100, 0), nes_color_to_argb(0x20));
    assert_eq!(ppu.pixel(101, 0), nes_color_to_argb(0x20));
    assert_eq!(ppu.pixel(102, 0), nes_color_to_argb(0x16));
    assert_eq!(ppu.pixel(150, 0), nes_color_to_argb(0x16));
    assert_eq!(ppu.render.resync_px, 100);
}

/// A PPU showing a solid background (tile 1, colour 3) and sprites.
fn sprite_ppu() -> Ppu {
    let mut ppu = Ppu::new();
    for i in 0..0x3C0u16 {
        ppu.write_nametable(NT_BASE | i, 1);
    }
    ppu.write_palette(PAL_BASE, 0x0E);
    ppu.write_palette(PAL_BASE | 3, 0x20);
    ppu.write_palette(SPRITE_PAL_BASE | 1, 0x16);
    ppu.write_palette(SPRITE_PAL_BASE | 0x05, 0x2A);
    ppu.write_register(0x01, 0b0001_1110);
    for i in 0..64usize {
        ppu.oam_mut()[i * 4] = 0xFF;
    }
    ppu
}

#[test]
fn per_pixel_sprite_zero_hit_over_opaque_background() {
    let chr = chr_mixed();
    let mut ppu = sprite_ppu();
    // Sprite 0 at (20, 0): tile 2 (solid colour 1), palette 0.
    ppu.oam_mut()[0] = 0;
    ppu.oam_mut()[1] = 2;
    ppu.oam_mut()[2] = 0;
    ppu.oam_mut()[3] = 20;
    ppu.scanline = 1;
    draw(&mut ppu, &chr, 1, 256);
    assert!(ppu.sprite_zero_hit());
    assert!(ppu.render.sprite_zero_hit);
    assert_eq!(ppu.render.sprites.len(), 1);
    assert_eq!(ppu.pixel(19, 1), nes_color_to_argb(0x20));
    assert_eq!(ppu.pixel(20, 1), nes_color_to_argb(0x16));
    assert_eq!(ppu.pixel(27, 1), nes_color_to_argb(0x16));
    assert_eq!(ppu.pixel(28, 1), nes_color_to_argb(0x20));
}

#[test]
fn per_pixel_sprite_behind_background_lets_next_sprite_show() {
    let chr = chr_mixed();
    let mut ppu = sprite_ppu();
    // Sprite 0: behind the background. Sprite 1: in front, palette 1.
    ppu.oam_mut()[0] = 0;
    ppu.oam_mut()[1] = 2;
    ppu.oam_mut()[2] = 0b0010_0000;
    ppu.oam_mut()[3] = 40;
    ppu.oam_mut()[4] = 0;
    ppu.oam_mut()[5] = 2;
    ppu.oam_mut()[6] = 1;
    ppu.oam_mut()[7] = 44;
    ppu.scanline = 1;
    draw(&mut ppu, &chr, 1, 256);
    // Sprite 0 still hits, although the background covers it.
    assert!(ppu.sprite_zero_hit());
    assert_eq!(ppu.pixel(41, 1), nes_color_to_argb(0x20));
    assert_eq!(ppu.pixel(45, 1), nes_color_to_argb(0x2A));
    assert_eq!(ppu.pixel(51, 1), nes_color_to_argb(0x2A));
}

#[test]
fn per_pixel_sprite_overflow_latched_at_first_pixel() {
    let chr = chr_mixed();
    let mut ppu = sprite_ppu();
    for i in 0..9usize {
        ppu.oam_mut()[i * 4] = 3;
        ppu.oam_mut()[i * 4 + 1] = 2;
        ppu.oam_mut()[i * 4 + 3] = (i * 20) as u8;
    }
    ppu.scanline = 6;
    draw(&mut ppu, &chr, 1, 1);
    assert!(ppu.sprite_overflow());
    assert!(ppu.render.overflow);
    assert_eq!(ppu.render.sprites.len(), 8);
    assert_eq!(ppu.render.sprites[7].0, 7);
}

#[test]
fn per_pixel_no_overflow_with_eight_sprites() {
    let chr = chr_mixed();
    let mut ppu = sprite_ppu();
    for i in 0..8usize {
        ppu.oam_mut()[i * 4] = 3;
        ppu.oam_mut()[i * 4 + 3] = (i * 20) as u8;
    }
    ppu.scanline = 6;
    draw(&mut ppu, &chr, 1, 1);
    assert!(!ppu.sprite_overflow());
    assert_eq!(ppu.render.sprites.len(), 8);
}
