use nes_emu::mappers::cnrom::Cnrom;
use nes_emu::mappers::Mirroring;

const PRG_BANK_SIZE: usize = 16 * 1024;
const CHR_BANK_SIZE: usize = 8 * 1024;



/// Build PRG-ROM with `banks` 16 KB banks, each filled with a unique
/// byte (the bank index).
fn make_prg(banks: usize) -> Vec<u8> {
    let mut prg = vec![0u8; banks * PRG_BANK_SIZE];
    for (i, b) in prg.iter_mut().enumerate() {
        *b = (i / PRG_BANK_SIZE) as u8;
    }
    prg
}

/// Build CHR-ROM with `banks` 8 KB banks, each filled with a unique
/// byte (the bank index).
fn make_chr(banks: usize) -> Vec<u8> {
    let mut chr = vec![0u8; banks * CHR_BANK_SIZE];
    for (i, b) in chr.iter_mut().enumerate() {
        *b = (i / CHR_BANK_SIZE) as u8;
    }
    chr
}

#[test]
fn prg_32k_reads_linearly() {
    let cn = Cnrom::new(make_prg(2), make_chr(2), Mirroring::Horizontal, false);
    assert_eq!(cn.read_prg(0x8000), 0x00);
    assert_eq!(cn.read_prg(0xBFFF), 0x00);
    assert_eq!(cn.read_prg(0xC000), 0x01);
    assert_eq!(cn.read_prg(0xFFFF), 0x01);
}

#[test]
fn prg_16k_mirrors_high_half() {
    let cn = Cnrom::new(make_prg(1), make_chr(2), Mirroring::Horizontal, false);
    assert_eq!(cn.read_prg(0x8000), 0x00);
    assert_eq!(cn.read_prg(0xC000), 0x00); // mirror of $8000
    assert_eq!(cn.read_prg(0xFFFF), 0x00);
}

#[test]
fn cnrom_prg_ram_region_reads_zero() {
    let cn = Cnrom::new(make_prg(2), make_chr(2), Mirroring::Horizontal, false);
    assert_eq!(cn.read_prg(0x6000), 0x00);
    assert_eq!(cn.read_prg(0x7FFF), 0x00);
}

#[test]
fn cnrom_prg_ram_region_writes_ignored() {
    let mut cn = Cnrom::new(make_prg(2), make_chr(2), Mirroring::Horizontal, false);
    cn.write_prg(0x6000, 0xFF);
    assert_eq!(cn.read_prg(0x6000), 0x00);
    // PRG banking unchanged.
    assert_eq!(cn.read_prg(0x8000), 0x00);
}

#[test]
fn chr_bank_select_switches_window() {
    // 4 × 8 KB CHR banks.
    let mut cn = Cnrom::new(make_prg(2), make_chr(4), Mirroring::Horizontal, false);
    // Default chr_bank = 0 → bank 0.
    assert_eq!(cn.read_chr(0x0000), 0x00);
    assert_eq!(cn.read_chr(0x1FFF), 0x00);
    // Select bank 2.
    cn.write_prg(0x8000, 0x02);
    assert_eq!(cn.read_chr(0x0000), 0x02);
    assert_eq!(cn.read_chr(0x1FFF), 0x02);
    // Select bank 3.
    cn.write_prg(0x8000, 0x03);
    assert_eq!(cn.read_chr(0x0000), 0x03);
}

#[test]
fn chr_bank_select_uses_low_bits_only() {
    // 4 × 8 KB CHR banks. Writing 0xFF should select bank 3 (bits 0-1).
    let mut cn = Cnrom::new(make_prg(2), make_chr(4), Mirroring::Horizontal, false);
    cn.write_prg(0x8000, 0xFF);
    assert_eq!(cn.read_chr(0x0000), 0x03);
}

#[test]
fn chr_bank_number_wraps_within_rom_size() {
    // 2 × 8 KB CHR banks. chr_bank=5 → 5 % 2 = 1.
    let mut cn = Cnrom::new(make_prg(2), make_chr(2), Mirroring::Horizontal, false);
    cn.write_prg(0x8000, 0x05);
    assert_eq!(cn.read_chr(0x0000), 0x01);
}

#[test]
fn cnrom_chr_rom_writes_ignored() {
    let mut cn = Cnrom::new(make_prg(2), make_chr(2), Mirroring::Horizontal, false);
    cn.write_chr(0x0000, 0x11);
    assert_eq!(cn.read_chr(0x0000), 0x00);
}

#[test]
fn cnrom_chr_ram_writes_persist() {
    let mut cn = Cnrom::new(make_prg(2), vec![], Mirroring::Vertical, false);
    cn.write_chr(0x0000, 0x42);
    assert_eq!(cn.read_chr(0x0000), 0x42);
}

#[test]
fn cnrom_mirror_mode_reported_correctly() {
    let cn = Cnrom::new(make_prg(2), make_chr(2), Mirroring::Vertical, false);
    assert_eq!(cn.mirror_mode(), Mirroring::Vertical);
}

#[test]
fn cnrom_mirror_mode_unchanged_by_writes() {
    // CNROM has fixed mirroring — writes must not change it.
    let mut cn = Cnrom::new(make_prg(2), make_chr(2), Mirroring::Horizontal, false);
    cn.write_prg(0x8000, 0x02);
    assert_eq!(cn.mirror_mode(), Mirroring::Horizontal);
}

#[test]
fn cnrom_battery_flag_reported() {
    let cn = Cnrom::new(make_prg(2), make_chr(2), Mirroring::Horizontal, true);
    assert!(cn.has_battery());
}
