use nes_emu::mappers::mmc2::Mmc2;
use nes_emu::mappers::Mirroring;

const PRG_BANK_SIZE: usize = 8 * 1024;
const CHR_4K_SIZE: usize = 4 * 1024;



/// Build PRG-ROM with `banks` 8 KB banks, each filled with a unique
/// byte (the bank index).
fn make_prg(banks: usize) -> Vec<u8> {
    let mut prg = vec![0u8; banks * PRG_BANK_SIZE];
    for (i, b) in prg.iter_mut().enumerate() {
        *b = (i / PRG_BANK_SIZE) as u8;
    }
    prg
}

/// Build CHR-ROM with `banks` 4 KB banks, each filled with a unique byte.
fn make_chr(banks: usize) -> Vec<u8> {
    let mut chr = vec![0u8; banks * CHR_4K_SIZE];
    for (i, b) in chr.iter_mut().enumerate() {
        *b = (i / CHR_4K_SIZE) as u8;
    }
    chr
}

// ---- PRG banking ---------------------------------------------------

#[test]
fn prg_default_bank_0_at_8000_fixed_last_24k_at_a000() {
    // 4 × 8KB banks (32 KB). Default R0=0 → $8000 = bank 0.
    // $A000-$FFFF = fixed last 24KB = banks 1,2,3.
    let mmc = Mmc2::new(make_prg(4), make_chr(4), Mirroring::Horizontal, false);
    assert_eq!(mmc.read_prg(0x8000), 0x00); // switchable bank 0
    assert_eq!(mmc.read_prg(0x9FFF), 0x00);
    assert_eq!(mmc.read_prg(0xA000), 0x01); // fixed bank 1
    assert_eq!(mmc.read_prg(0xBFFF), 0x01);
    assert_eq!(mmc.read_prg(0xC000), 0x02); // fixed bank 2
    assert_eq!(mmc.read_prg(0xDFFF), 0x02);
    assert_eq!(mmc.read_prg(0xE000), 0x03); // fixed bank 3
    assert_eq!(mmc.read_prg(0xFFFF), 0x03);
}

#[test]
fn prg_bank_select_switches_8000_window() {
    let mut mmc = Mmc2::new(make_prg(4), make_chr(4), Mirroring::Horizontal, false);
    mmc.write_prg(0xA000, 0x02); // R0 = bank 2
    assert_eq!(mmc.read_prg(0x8000), 0x02);
    assert_eq!(mmc.read_prg(0x9FFF), 0x02);
    // Fixed region unchanged.
    assert_eq!(mmc.read_prg(0xA000), 0x01);
    assert_eq!(mmc.read_prg(0xE000), 0x03);
}

#[test]
fn mmc2_prg_bank_number_wraps_within_rom_size() {
    // 4 banks. R0 = 6 → 6 % 4 = 2.
    let mut mmc = Mmc2::new(make_prg(4), make_chr(4), Mirroring::Horizontal, false);
    mmc.write_prg(0xA000, 0x06);
    assert_eq!(mmc.read_prg(0x8000), 0x02);
}

#[test]
fn mmc2_prg_bank_register_masked_to_low_4_bits() {
    let mut mmc = Mmc2::new(make_prg(4), make_chr(4), Mirroring::Horizontal, false);
    mmc.write_prg(0xA000, 0xFF); // & 0x0F = 0x0F → 15 % 4 = 3
    assert_eq!(mmc.read_prg(0x8000), 0x03);
}

#[test]
fn prg_register_only_responds_to_a000() {
    let mut mmc = Mmc2::new(make_prg(4), make_chr(4), Mirroring::Horizontal, false);
    // Writes to other addresses in $8000-$FFFF should not change PRG bank.
    mmc.write_prg(0x8000, 0x02);
    assert_eq!(mmc.read_prg(0x8000), 0x00); // still bank 0
    mmc.write_prg(0xA000, 0x02);
    assert_eq!(mmc.read_prg(0x8000), 0x02); // now bank 2
}

// ---- PRG-RAM -------------------------------------------------------

#[test]
fn mmc2_prg_ram_writes_and_reads_at_6000() {
    let mut mmc = Mmc2::new(make_prg(4), make_chr(4), Mirroring::Horizontal, false);
    mmc.write_prg(0x6000, 0x42);
    mmc.write_prg(0x7FFF, 0x99);
    assert_eq!(mmc.read_prg(0x6000), 0x42);
    assert_eq!(mmc.read_prg(0x7FFF), 0x99);
}

#[test]
fn prg_ram_is_1kb_mirrored_across_6000_7fff() {
    // 1KB PRG-RAM mirrors 8× across the 8KB $6000-$7FFF window.
    let mut mmc = Mmc2::new(make_prg(4), make_chr(4), Mirroring::Horizontal, false);
    mmc.write_prg(0x6000, 0x77);
    assert_eq!(mmc.read_prg(0x6400), 0x77); // mirror (0x400 = 1KB)
    assert_eq!(mmc.read_prg(0x7C00), 0x77); // mirror
}

// ---- CHR latching --------------------------------------------------

#[test]
fn chr_default_left_bank_0_right_bank_0() {
    // Default latches: left=0 → R0, right=0 → R2. Both R0 and R2
    // default to 0, so both slots read CHR bank 0.
    let mmc = Mmc2::new(make_prg(4), make_chr(8), Mirroring::Horizontal, false);
    assert_eq!(mmc.read_chr(0x0000), 0x00); // R0 = bank 0
    assert_eq!(mmc.read_chr(0x0FFF), 0x00);
    assert_eq!(mmc.read_chr(0x1000), 0x00); // R2 = bank 0
    assert_eq!(mmc.read_chr(0x1FFF), 0x00);
}

#[test]
fn chr_bank_registers_select_4kb_window() {
    let mut mmc = Mmc2::new(make_prg(4), make_chr(8), Mirroring::Horizontal, false);
    mmc.write_prg(0xB000, 0x04); // R0 = 4
    mmc.write_prg(0xB002, 0x06); // R2 = 6
    assert_eq!(mmc.read_chr(0x0000), 0x04);
    assert_eq!(mmc.read_chr(0x0FFF), 0x04);
    assert_eq!(mmc.read_chr(0x1000), 0x06);
    assert_eq!(mmc.read_chr(0x1FFF), 0x06);
}

#[test]
fn chr_latch_left_toggles_between_r0_and_r1() {
    let mut mmc = Mmc2::new(make_prg(4), make_chr(8), Mirroring::Horizontal, false);
    mmc.write_prg(0xB000, 0x01); // R0 = 1
    mmc.write_prg(0xB001, 0x05); // R1 = 5
                                 // Default latch_left = 0 → R0 = bank 1.
    assert_eq!(mmc.read_chr(0x0000), 0x01);
    // Read $0FE8 → latch_left = 1 → R1 = bank 5.
    assert!(mmc.tick_latch(0x0FE8));
    assert_eq!(mmc.read_chr(0x0000), 0x05);
    // Read $0FD8 → latch_left = 0 → R0 = bank 1.
    assert!(mmc.tick_latch(0x0FD8));
    assert_eq!(mmc.read_chr(0x0000), 0x01);
}

#[test]
fn chr_latch_right_toggles_between_r2_and_r3() {
    let mut mmc = Mmc2::new(make_prg(4), make_chr(8), Mirroring::Horizontal, false);
    mmc.write_prg(0xB002, 0x02); // R2 = 2
    mmc.write_prg(0xB003, 0x07); // R3 = 7
                                 // Default latch_right = 0 → R2 = bank 2.
    assert_eq!(mmc.read_chr(0x1000), 0x02);
    // Read $1FE8 → latch_right = 1 → R3 = bank 7.
    assert!(mmc.tick_latch(0x1FE8));
    assert_eq!(mmc.read_chr(0x1000), 0x07);
    // Read $1FD8 → latch_right = 0 → R2 = bank 2.
    assert!(mmc.tick_latch(0x1FD8));
    assert_eq!(mmc.read_chr(0x1000), 0x02);
}

#[test]
fn chr_latch_addresses_outside_triggers_do_not_toggle() {
    let mut mmc = Mmc2::new(make_prg(4), make_chr(8), Mirroring::Horizontal, false);
    mmc.write_prg(0xB000, 0x01);
    mmc.write_prg(0xB001, 0x05);
    // Random address — no toggle.
    assert!(!mmc.tick_latch(0x0800));
    assert_eq!(mmc.latch_left, 0);
    // $0FD9 (one off) — no toggle.
    assert!(!mmc.tick_latch(0x0FD9));
    assert_eq!(mmc.latch_left, 0);
}

#[test]
fn chr_bank_register_masked_to_low_5_bits() {
    let mut mmc = Mmc2::new(make_prg(4), make_chr(8), Mirroring::Horizontal, false);
    mmc.write_prg(0xB000, 0xFF); // & 0x1F = 0x1F → 31 % 8 = 7
    assert_eq!(mmc.read_chr(0x0000), 0x07);
}

#[test]
fn mmc2_chr_rom_writes_ignored() {
    let mut mmc = Mmc2::new(make_prg(4), make_chr(8), Mirroring::Horizontal, false);
    mmc.write_chr(0x0000, 0x42);
    assert_eq!(mmc.read_chr(0x0000), 0x00); // unchanged
}

#[test]
fn mmc2_chr_ram_writes_persist() {
    let mut mmc = Mmc2::new(make_prg(4), vec![], Mirroring::Horizontal, false);
    mmc.write_chr(0x0000, 0x42);
    assert_eq!(mmc.read_chr(0x0000), 0x42);
}

// ---- Mirroring / battery -------------------------------------------

#[test]
fn mirroring_is_fixed_from_header() {
    let mmc = Mmc2::new(make_prg(4), make_chr(4), Mirroring::Vertical, false);
    assert_eq!(mmc.mirror_mode(), Mirroring::Vertical);
}

#[test]
fn mmc2_battery_flag_reported() {
    let mmc = Mmc2::new(make_prg(4), make_chr(4), Mirroring::Horizontal, true);
    assert!(mmc.has_battery());
}

#[test]
fn mmc2_battery_sram_round_trips() {
    let mut mmc = Mmc2::new(make_prg(4), make_chr(4), Mirroring::Horizontal, true);
    mmc.write_prg(0x6000, 0xAB);
    let saved = mmc.battery_sram().expect("battery");
    let mut mmc2 = Mmc2::new(make_prg(4), make_chr(4), Mirroring::Horizontal, true);
    mmc2.load_battery_sram(&saved);
    assert_eq!(mmc2.read_prg(0x6000), 0xAB);
}
