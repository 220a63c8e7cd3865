use nes_emu::mappers::uxrom::Uxrom;
use nes_emu::mappers::Mirroring;

const PRG_BANK_SIZE: usize = 16 * 1024;
const CHR_SIZE: usize = 8 * 1024;



/// Build PRG-ROM with `banks` 16 KB banks, each filled with a unique
/// byte (the bank index) so bank selection is observable.
fn make_prg(banks: usize) -> Vec<u8> {
    let mut prg = vec![0u8; banks * PRG_BANK_SIZE];
    for (i, b) in prg.iter_mut().enumerate() {
        *b = (i / PRG_BANK_SIZE) as u8;
    }
    prg
}

#[test]
fn default_bank_0_at_8000_last_bank_at_c000() {
    // 4 banks (64 KB). Bank 0 = 0x00, bank 3 = 0x03.
    let ux = Uxrom::new(make_prg(4), vec![], Mirroring::Horizontal, false);
    assert_eq!(ux.read_prg(0x8000), 0x00);
    assert_eq!(ux.read_prg(0xBFFF), 0x00);
    assert_eq!(ux.read_prg(0xC000), 0x03);
    assert_eq!(ux.read_prg(0xFFFF), 0x03);
}

#[test]
fn bank_select_switches_8000_window() {
    let mut ux = Uxrom::new(make_prg(4), vec![], Mirroring::Horizontal, false);
    ux.write_prg(0x8000, 0x02);
    assert_eq!(ux.read_prg(0x8000), 0x02);
    assert_eq!(ux.read_prg(0xBFFF), 0x02);
    // $C000 stays fixed at last bank.
    assert_eq!(ux.read_prg(0xC000), 0x03);
    assert_eq!(ux.read_prg(0xFFFF), 0x03);
}

#[test]
fn uxrom_bank_select_via_any_address_in_8000_ffff() {
    let mut ux = Uxrom::new(make_prg(4), vec![], Mirroring::Horizontal, false);
    // Writing to $C000 should still latch the bank register.
    ux.write_prg(0xC000, 0x01);
    assert_eq!(ux.read_prg(0x8000), 0x01);
    assert_eq!(ux.read_prg(0xBFFF), 0x01);
}

#[test]
fn uxrom_bank_number_wraps_within_rom_size() {
    // 2 banks (32 KB). bank=5 → 5 % 2 = 1.
    let mut ux = Uxrom::new(make_prg(2), vec![], Mirroring::Horizontal, false);
    ux.write_prg(0x8000, 0x05);
    assert_eq!(ux.read_prg(0x8000), 0x01);
    // $C000 = last bank (bank 1).
    assert_eq!(ux.read_prg(0xC000), 0x01);
}

#[test]
fn uxrom_prg_ram_region_reads_zero() {
    let ux = Uxrom::new(make_prg(4), vec![], Mirroring::Horizontal, false);
    assert_eq!(ux.read_prg(0x6000), 0x00);
    assert_eq!(ux.read_prg(0x7FFF), 0x00);
}

#[test]
fn uxrom_prg_ram_region_writes_ignored() {
    let mut ux = Uxrom::new(make_prg(4), vec![], Mirroring::Horizontal, false);
    ux.write_prg(0x6000, 0xFF);
    // Should not affect bank selection or PRG-ROM reads.
    assert_eq!(ux.read_prg(0x6000), 0x00);
    assert_eq!(ux.read_prg(0x8000), 0x00);
}

#[test]
fn uxrom_chr_ram_writes_persist() {
    let mut ux = Uxrom::new(make_prg(4), vec![], Mirroring::Vertical, false);
    ux.write_chr(0x0000, 0x42);
    assert_eq!(ux.read_chr(0x0000), 0x42);
}

#[test]
fn uxrom_chr_rom_writes_ignored() {
    let mut ux = Uxrom::new(
        make_prg(4),
        vec![0xAA; CHR_SIZE],
        Mirroring::Vertical,
        false,
    );
    ux.write_chr(0x0000, 0x11);
    assert_eq!(ux.read_chr(0x0000), 0xAA);
}

#[test]
fn chr_rom_reads_return_data() {
    let mut chr = vec![0u8; CHR_SIZE];
    for (i, b) in chr.iter_mut().enumerate() {
        *b = (i as u8).wrapping_add(0x40);
    }
    let ux = Uxrom::new(make_prg(4), chr, Mirroring::Vertical, false);
    assert_eq!(ux.read_chr(0x0000), 0x40);
    assert_eq!(ux.read_chr(0x0001), 0x41);
}

#[test]
fn uxrom_mirror_mode_reported_correctly() {
    let ux = Uxrom::new(make_prg(4), vec![], Mirroring::Vertical, false);
    assert_eq!(ux.mirror_mode(), Mirroring::Vertical);
}

#[test]
fn uxrom_mirror_mode_unchanged_by_writes() {
    // UxROM has fixed mirroring — writes must not change it.
    let mut ux = Uxrom::new(make_prg(4), vec![], Mirroring::Horizontal, false);
    ux.write_prg(0x8000, 0x02);
    assert_eq!(ux.mirror_mode(), Mirroring::Horizontal);
}

#[test]
fn uxrom_battery_flag_reported() {
    let ux = Uxrom::new(make_prg(4), vec![], Mirroring::Horizontal, true);
    assert!(ux.has_battery());
}
