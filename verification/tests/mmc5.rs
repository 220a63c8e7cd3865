use nes_emu::mappers::mmc5::Mmc5;
use nes_emu::mappers::Mirroring;

const PRG_BANK_SIZE: usize = 8 * 1024;
const CHR_1K_SIZE: usize = 1024;



/// Build PRG-ROM with `banks` 8 KB banks, each filled with a unique byte.
fn make_prg(banks: usize) -> Vec<u8> {
    let mut prg = vec![0u8; banks * PRG_BANK_SIZE];
    for (i, b) in prg.iter_mut().enumerate() {
        *b = (i / PRG_BANK_SIZE) as u8;
    }
    prg
}

/// Build CHR-ROM with `banks` 1 KB banks, each filled with a unique byte.
fn make_chr(banks: usize) -> Vec<u8> {
    let mut chr = vec![0u8; banks * CHR_1K_SIZE];
    for (i, b) in chr.iter_mut().enumerate() {
        *b = (i / CHR_1K_SIZE) as u8;
    }
    chr
}

// ---- PRG banking ---------------------------------------------------

#[test]
fn prg_default_bank_0_slots_fixed_last_at_e000() {
    // 4 × 8KB banks. Default: slots 0-2 = bank 0, slot 3 = fixed last.
    let mmc = Mmc5::new(make_prg(4), make_chr(8), Mirroring::Horizontal, false);
    assert_eq!(mmc.read_prg(0x8000), 0x00); // slot 0 = bank 0
    assert_eq!(mmc.read_prg(0x9FFF), 0x00);
    assert_eq!(mmc.read_prg(0xA000), 0x00); // slot 1 = bank 0
    assert_eq!(mmc.read_prg(0xC000), 0x00); // slot 2 = bank 0
    assert_eq!(mmc.read_prg(0xE000), 0x03); // slot 3 = fixed last bank
    assert_eq!(mmc.read_prg(0xFFFF), 0x03);
}

#[test]
fn prg_bank_select_switches_8k_windows() {
    let mut mmc = Mmc5::new(make_prg(8), make_chr(8), Mirroring::Horizontal, false);
    mmc.write_prg(0x5114, 0x02); // slot 0 = bank 2
    mmc.write_prg(0x5115, 0x03); // slot 1 = bank 3
    mmc.write_prg(0x5116, 0x04); // slot 2 = bank 4
                                 // Slot 3 ($E000) is fixed to the last bank (7 for 8 banks).
    assert_eq!(mmc.read_prg(0x8000), 0x02);
    assert_eq!(mmc.read_prg(0x9FFF), 0x02);
    assert_eq!(mmc.read_prg(0xA000), 0x03);
    assert_eq!(mmc.read_prg(0xC000), 0x04);
    assert_eq!(mmc.read_prg(0xE000), 0x07);
    assert_eq!(mmc.read_prg(0xFFFF), 0x07);
}

#[test]
fn mmc5_prg_bank_wraps_within_rom_size() {
    let mut mmc = Mmc5::new(make_prg(4), make_chr(8), Mirroring::Horizontal, false);
    mmc.write_prg(0x5114, 0x06); // 6 % 4 = 2
    assert_eq!(mmc.read_prg(0x8000), 0x02);
}

// ---- PRG-RAM -------------------------------------------------------

#[test]
fn prg_ram_banked_at_6000_via_5113() {
    let mut mmc = Mmc5::new(make_prg(4), make_chr(8), Mirroring::Horizontal, false);
    // Enable writes: protect bits 0-1 must be 0b11.
    mmc.write_prg(0x5102, 0x02);
    mmc.write_prg(0x5103, 0x01);
    // Bank 0 at $6000.
    mmc.write_prg(0x6000, 0x42);
    assert_eq!(mmc.read_prg(0x6000), 0x42);
    // Switch to bank 1 and write a different value.
    mmc.write_prg(0x5113, 0x01);
    mmc.write_prg(0x6000, 0x99);
    assert_eq!(mmc.read_prg(0x6000), 0x99);
    // Switch back to bank 0 — original value preserved.
    mmc.write_prg(0x5113, 0x00);
    assert_eq!(mmc.read_prg(0x6000), 0x42);
}

#[test]
fn prg_ram_writes_blocked_when_protect_not_set() {
    let mut mmc = Mmc5::new(make_prg(4), make_chr(8), Mirroring::Horizontal, false);
    // protect = 0 (default) → writes blocked.
    mmc.write_prg(0x6000, 0x42);
    assert_eq!(mmc.read_prg(0x6000), 0x00);
}

#[test]
fn prg_ram_bank_selectable_in_prg_window() {
    // Bit 7 of a PRG bank register selects PRG-RAM.
    let mut mmc = Mmc5::new(make_prg(4), make_chr(8), Mirroring::Horizontal, false);
    mmc.write_prg(0x5102, 0x02);
    mmc.write_prg(0x5103, 0x01); // enable RAM writes
                                 // Map PRG-RAM bank 0 at $8000 by setting prg_banks[0] = 0x80.
    mmc.write_prg(0x5114, 0x80);
    mmc.write_prg(0x8000, 0x77);
    assert_eq!(mmc.read_prg(0x8000), 0x77);
}

// ---- Hardware multiplier ------------------------------------------

#[test]
fn multiplier_product_low_at_5205() {
    let mut mmc = Mmc5::new(make_prg(4), make_chr(8), Mirroring::Horizontal, false);
    mmc.write_prg(0x5205, 0x07); // A = 7
    mmc.write_prg(0x5206, 0x09); // B = 9 → product = 63 = 0x003F
    assert_eq!(mmc.read_prg(0x5205), 0x3F);
    assert_eq!(mmc.read_prg(0x5206), 0x00);
}

#[test]
fn multiplier_product_high_at_5206() {
    let mut mmc = Mmc5::new(make_prg(4), make_chr(8), Mirroring::Horizontal, false);
    mmc.write_prg(0x5205, 0xFF); // A = 255
    mmc.write_prg(0x5206, 0xFF); // B = 255 → product = 65025 = 0xFE01
    assert_eq!(mmc.read_prg(0x5205), 0x01);
    assert_eq!(mmc.read_prg(0x5206), 0xFE);
}

#[test]
fn multiplier_zero_operand() {
    let mut mmc = Mmc5::new(make_prg(4), make_chr(8), Mirroring::Horizontal, false);
    mmc.write_prg(0x5205, 0x00);
    mmc.write_prg(0x5206, 0x42);
    assert_eq!(mmc.read_prg(0x5205), 0x00);
    assert_eq!(mmc.read_prg(0x5206), 0x00);
}

// ---- CHR banking ---------------------------------------------------

#[test]
fn mmc5_chr_eight_1kb_banks_selectable() {
    let mut mmc = Mmc5::new(make_prg(4), make_chr(16), Mirroring::Horizontal, false);
    mmc.write_prg(0x5120, 0x02); // CHR 0 = 2
    mmc.write_prg(0x5127, 0x0F); // CHR 7 = 15
    assert_eq!(mmc.read_chr(0x0000), 0x02);
    assert_eq!(mmc.read_chr(0x03FF), 0x02);
    assert_eq!(mmc.read_chr(0x1C00), 0x0F);
    assert_eq!(mmc.read_chr(0x1FFF), 0x0F);
}

#[test]
fn chr_upper_bit_extends_bank_number() {
    let mut mmc = Mmc5::new(make_prg(4), make_chr(16), Mirroring::Horizontal, false);
    mmc.write_prg(0x5130, 0x01); // upper bit = 1
    mmc.write_prg(0x5120, 0x00); // CHR 0 = 0x100 = 256 % 16 = 0
                                 // With 16 1KB banks, bank 0x100 % 16 = 0.
    assert_eq!(mmc.read_chr(0x0000), 0x00);
}

#[test]
fn mmc5_chr_ram_writes_persist() {
    let mut mmc = Mmc5::new(make_prg(4), vec![], Mirroring::Horizontal, false);
    mmc.write_chr(0x0000, 0x42);
    assert_eq!(mmc.read_chr(0x0000), 0x42);
}

// ---- Mirroring -----------------------------------------------------

#[test]
fn mirroring_default_horizontal_from_header() {
    let mmc = Mmc5::new(make_prg(4), make_chr(8), Mirroring::Horizontal, false);
    assert_eq!(mmc.mirror_mode(), Mirroring::Horizontal);
}

#[test]
fn mirroring_default_vertical_from_header() {
    let mmc = Mmc5::new(make_prg(4), make_chr(8), Mirroring::Vertical, false);
    assert_eq!(mmc.mirror_mode(), Mirroring::Vertical);
}

#[test]
fn mirroring_switchable_via_5105() {
    let mut mmc = Mmc5::new(make_prg(4), make_chr(8), Mirroring::Horizontal, false);
    // Vertical: 0x50.
    mmc.write_prg(0x5105, 0x50);
    assert_eq!(mmc.mirror_mode(), Mirroring::Vertical);
    // Single-screen NT2: all slots = 2 → 0b10 10 10 10 = 0xAA.
    mmc.write_prg(0x5105, 0xAA);
    assert_eq!(mmc.mirror_mode(), Mirroring::SingleScreen(2));
}

// ---- Scanline IRQ --------------------------------------------------

#[test]
fn irq_fires_when_scanline_counter_matches() {
    let mut mmc = Mmc5::new(make_prg(4), make_chr(8), Mirroring::Horizontal, false);
    mmc.write_prg(0x5203, 0x05); // target scanline = 5
    mmc.write_prg(0x5204, 0x80); // enable IRQ
                                 // Clock 5 scanlines: counter goes 1,2,3,4,5 → fire at 5.
    for _ in 0..5 {
        mmc.clock_irq();
    }
    assert!(mmc.irq_pending());
}

#[test]
fn mmc5_irq_disabled_does_not_fire() {
    let mut mmc = Mmc5::new(make_prg(4), make_chr(8), Mirroring::Horizontal, false);
    mmc.write_prg(0x5203, 0x05);
    // Don't enable.
    for _ in 0..10 {
        mmc.clock_irq();
    }
    assert!(!mmc.irq_pending());
}

#[test]
fn irq_acknowledged_by_writing_5204_clear() {
    let mut mmc = Mmc5::new(make_prg(4), make_chr(8), Mirroring::Horizontal, false);
    mmc.write_prg(0x5203, 0x02);
    mmc.write_prg(0x5204, 0x80);
    for _ in 0..2 {
        mmc.clock_irq();
    }
    assert!(mmc.irq_pending());
    mmc.write_prg(0x5204, 0x00); // clear
    assert!(!mmc.irq_pending());
}

// ---- Split registers ----------------------------------------------

#[test]
fn split_registers_stored_and_readable() {
    let mut mmc = Mmc5::new(make_prg(4), make_chr(8), Mirroring::Horizontal, false);
    mmc.write_prg(0x5200, 0x01);
    mmc.write_prg(0x5201, 0x80);
    mmc.write_prg(0x5202, 0x42);
    assert_eq!(mmc.split_config(), (0x01, 0x80, 0x42));
}

// ---- Battery -------------------------------------------------------

#[test]
fn mmc5_battery_sram_round_trips() {
    let mut mmc = Mmc5::new(make_prg(4), make_chr(8), Mirroring::Horizontal, true);
    mmc.write_prg(0x5102, 0x02);
    mmc.write_prg(0x5103, 0x01); // enable RAM writes
    mmc.write_prg(0x6000, 0xAB);
    let saved = mmc.battery_sram().expect("battery");
    let mut mmc2 = Mmc5::new(make_prg(4), make_chr(8), Mirroring::Horizontal, true);
    mmc2.load_battery_sram(&saved);
    mmc2.write_prg(0x5102, 0x02);
    mmc2.write_prg(0x5103, 0x01);
    assert_eq!(mmc2.read_prg(0x6000), 0xAB);
}
