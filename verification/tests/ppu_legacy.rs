use nes_emu::mappers::Mirroring;
use nes_emu::ppu::Ppu;



// ---- PPUSTATUS read side-effects ---------------------------------

#[test]
fn ppu_status_read_clears_vblank() {
    let mut ppu = Ppu::new();
    ppu.set_vblank(true);
    assert!(ppu.in_vblank());
    let r = ppu.read_status();
    assert_eq!(r & 0x80, 0x80, "VBlank bit visible in read");
    assert!(!ppu.in_vblank(), "VBlank cleared after read");
}

#[test]
fn ppu_status_read_resets_write_latch() {
    let mut ppu = Ppu::new();
    ppu.write_register(6, 0x20); // first PPUADDR write → w = true
    assert!(ppu.write_latch());
    ppu.read_status();
    assert!(!ppu.write_latch(), "w reset by PPUSTATUS read");
}

// ---- PPUADDR two-write sequence ----------------------------------

#[test]
fn ppu_ppuaddr_two_writes_set_v() {
    let mut ppu = Ppu::new();
    ppu.write_register(6, 0x21); // hi
    assert!(ppu.write_latch());
    assert_eq!(ppu.temp_vram_addr() & 0xFF00, 0x2100);
    ppu.write_register(6, 0x08); // lo → v = $2108
    assert!(!ppu.write_latch());
    assert_eq!(ppu.vram_addr(), 0x2108);
}

#[test]
fn ppu_ppuaddr_high_byte_masks_to_14_bits() {
    let mut ppu = Ppu::new();
    ppu.write_register(6, 0xFF); // bit 6+ should be dropped
    ppu.write_register(6, 0x00);
    assert_eq!(ppu.vram_addr(), 0x3F00, "0xFF masked to 0x3F");
}

// ---- PPUSCROLL two-write sequence --------------------------------

#[test]
fn ppu_ppuscroll_two_writes_set_t_and_fine_x() {
    let mut ppu = Ppu::new();
    // First write: value 0x7D → coarse X = 0x0F (bits 3-7), fine X = 5
    ppu.write_register(5, 0x7D);
    assert_eq!(ppu.fine_x(), 5);
    assert_eq!(ppu.temp_vram_addr() & 0x1F, 0x0F);
    assert!(ppu.write_latch());
    // Second write: value 0x1B → coarse Y = 3 (bits 3-7), fine Y = 3
    ppu.write_register(5, 0x1B);
    assert!(!ppu.write_latch());
    let t = ppu.temp_vram_addr();
    assert_eq!(t & 0x1F, 0x0F, "coarse X preserved");
    assert_eq!((t >> 5) & 0x1F, 3, "coarse Y = 3");
    assert_eq!((t >> 12) & 0x07, 3, "fine Y = 3");
}

// ---- PPUDATA increment -------------------------------------------

#[test]
fn ppu_vram_increment_default_is_1() {
    let ppu = Ppu::new();
    assert_eq!(ppu.vram_increment(), 1);
}

#[test]
fn ppu_vram_increment_32_when_ctrl_bit_set() {
    let mut ppu = Ppu::new();
    ppu.write_register(0, 0x04); // PPUCTRL bit 2
    assert_eq!(ppu.vram_increment(), 32);
}

#[test]
fn ppu_advance_vram_wraps_at_3fff() {
    let mut ppu = Ppu::new();
    // Set v = 0x3FFF via PPUADDR writes.
    ppu.write_register(6, 0x3F);
    ppu.write_register(6, 0xFF);
    assert_eq!(ppu.vram_addr(), 0x3FFF);
    ppu.advance_vram_addr();
    assert_eq!(ppu.vram_addr(), 0x0000, "wraps to 0 with increment 1");
}

// ---- Nametable mirroring -----------------------------------------

#[test]
fn ppu_horizontal_mirroring_nt0_nt1_share_vram() {
    let mut ppu = Ppu::new();
    ppu.set_mirroring(Mirroring::Horizontal);
    ppu.write_nametable(0x2000, 0x11); // NT0
    assert_eq!(ppu.read_nametable(0x2400), 0x11, "NT1 mirrors NT0");
    assert_eq!(ppu.read_nametable(0x2000), 0x11);
    ppu.write_nametable(0x2800, 0x22); // NT2
    assert_eq!(ppu.read_nametable(0x2C00), 0x22, "NT3 mirrors NT2");
}

#[test]
fn ppu_vertical_mirroring_nt0_nt2_share_vram() {
    let mut ppu = Ppu::new();
    ppu.set_mirroring(Mirroring::Vertical);
    ppu.write_nametable(0x2000, 0x33); // NT0
    assert_eq!(ppu.read_nametable(0x2800), 0x33, "NT2 mirrors NT0");
    ppu.write_nametable(0x2400, 0x44); // NT1
    assert_eq!(ppu.read_nametable(0x2C00), 0x44, "NT3 mirrors NT1");
}

#[test]
fn ppu_four_screen_mirroring_all_unique() {
    let mut ppu = Ppu::new();
    ppu.set_mirroring(Mirroring::FourScreen);
    ppu.write_nametable(0x2000, 0xAA);
    ppu.write_nametable(0x2400, 0xBB);
    ppu.write_nametable(0x2800, 0xCC);
    ppu.write_nametable(0x2C00, 0xDD);
    assert_eq!(ppu.read_nametable(0x2000), 0xAA);
    assert_eq!(ppu.read_nametable(0x2400), 0xBB);
    assert_eq!(ppu.read_nametable(0x2800), 0xCC);
    assert_eq!(ppu.read_nametable(0x2C00), 0xDD);
}

#[test]
fn ppu_nametable_3000_mirror_of_2000() {
    let mut ppu = Ppu::new();
    ppu.set_mirroring(Mirroring::Horizontal);
    ppu.write_nametable(0x2000, 0x55);
    assert_eq!(ppu.read_nametable(0x3000), 0x55, "$3000 mirrors $2000");
    assert_eq!(ppu.read_nametable(0x3EFF), ppu.read_nametable(0x2EFF));
}

// ---- Palette mirroring -------------------------------------------

#[test]
fn ppu_palette_3f10_mirrors_3f00() {
    let mut ppu = Ppu::new();
    ppu.write_palette(0x3F00, 0x0F);
    assert_eq!(ppu.read_palette(0x3F10), 0x0F);
    assert_eq!(ppu.read_palette(0x3F14), ppu.read_palette(0x3F04));
    assert_eq!(ppu.read_palette(0x3F18), ppu.read_palette(0x3F08));
    assert_eq!(ppu.read_palette(0x3F1C), ppu.read_palette(0x3F0C));
}

#[test]
fn ppu_palette_3f20_mirrors_3f00() {
    let mut ppu = Ppu::new();
    ppu.write_palette(0x3F00, 0x21);
    assert_eq!(ppu.read_palette(0x3F20), 0x21);
    assert_eq!(ppu.read_palette(0x3FFF), ppu.read_palette(0x3F1F));
}

#[test]
fn ppu_palette_3f11_is_not_mirror_of_3f01() {
    let mut ppu = Ppu::new();
    ppu.write_palette(0x3F01, 0x11);
    ppu.write_palette(0x3F11, 0x22);
    assert_eq!(ppu.read_palette(0x3F01), 0x11);
    assert_eq!(ppu.read_palette(0x3F11), 0x22);
}

// ---- OAMDATA ------------------------------------------------------

#[test]
fn ppu_oamdata_write_increments_oamaddr() {
    let mut ppu = Ppu::new();
    ppu.write_register(3, 0x00); // OAMADDR = 0
    ppu.write_register(4, 0xAA);
    ppu.write_register(4, 0xBB);
    assert_eq!(ppu.oam()[0], 0xAA);
    assert_eq!(ppu.oam()[1], 0xBB);
    assert_eq!(ppu.oamaddr(), 2);
}

#[test]
fn ppu_oamdata_read_increments_oamaddr() {
    let mut ppu = Ppu::new();
    ppu.write_register(3, 0x10);
    ppu.write_register(4, 0xCC); // OAM[0x10] = 0xCC, OAMADDR → 0x11
    ppu.write_register(3, 0x10); // reset to 0x10
    let v = ppu.read_register(4); // read OAM[0x10]
    assert_eq!(v, 0xCC);
    assert_eq!(ppu.oamaddr(), 0x11);
}

// ---- OAM DMA ------------------------------------------------------

#[test]
fn ppu_oam_dma_copies_256_bytes() {
    let mut ppu = Ppu::new();
    let mut data = [0u8; 256];
    for (i, slot) in data.iter_mut().enumerate() {
        *slot = (i as u8).wrapping_add(0x40);
    }
    ppu.oam_dma(&data);
    for (i, &byte) in ppu.oam().iter().enumerate() {
        assert_eq!(byte, data[i]);
    }
    assert_eq!(ppu.oamaddr(), 0, "OAMADDR reset to 0 after DMA");
}

// ---- NMI enable ---------------------------------------------------

#[test]
fn ppu_nmi_enabled_reflects_ppuctrl_bit7() {
    let mut ppu = Ppu::new();
    assert!(!ppu.nmi_enabled());
    ppu.write_register(0, 0x80);
    assert!(ppu.nmi_enabled());
    ppu.write_register(0, 0x00);
    assert!(!ppu.nmi_enabled());
}

// ---- Open bus -----------------------------------------------------

#[test]
fn ppu_write_only_register_read_returns_open_bus() {
    let mut ppu = Ppu::new();
    ppu.write_register(0, 0xA5); // PPUCTRL write
    let r = ppu.read_register(0); // PPUCTRL is write-only → open bus
    assert_eq!(r, 0xA5);
}

#[test]
fn ppu_status_read_fills_low_bits_from_open_bus() {
    let mut ppu = Ppu::new();
    ppu.write_register(0, 0x1F); // open bus = 0x1F
    ppu.set_vblank(true);
    let r = ppu.read_status();
    assert_eq!(r, 0x80 | 0x1F); // VBlank + open bus low 5 bits
}
