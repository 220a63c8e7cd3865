use nes_emu::mappers::axrom::Axrom;
use nes_emu::mappers::Mirroring;

const PRG_BANK_SIZE: usize = 32 * 1024;
const CHR_SIZE: usize = 8 * 1024;



/// Build PRG-ROM with `banks` 32 KB banks, each filled with a unique
/// byte (the bank index).
fn make_prg(banks: usize) -> Vec<u8> {
    let mut prg = vec![0u8; banks * PRG_BANK_SIZE];
    for (i, b) in prg.iter_mut().enumerate() {
        *b = (i / PRG_BANK_SIZE) as u8;
    }
    prg
}

#[test]
fn default_bank_0_across_whole_window() {
    // 4 banks (128 KB). Bank 0 = 0x00, bank 3 = 0x03.
    let ax = Axrom::new(make_prg(4), vec![], Mirroring::Horizontal, false);
    assert_eq!(ax.read_prg(0x8000), 0x00);
    assert_eq!(ax.read_prg(0xBFFF), 0x00);
    assert_eq!(ax.read_prg(0xC000), 0x00);
    assert_eq!(ax.read_prg(0xFFFF), 0x00);
}

#[test]
fn bank_select_switches_whole_32k_window() {
    let mut ax = Axrom::new(make_prg(4), vec![], Mirroring::Horizontal, false);
    ax.write_prg(0x8000, 0x02);
    assert_eq!(ax.read_prg(0x8000), 0x02);
    assert_eq!(ax.read_prg(0xBFFF), 0x02);
    assert_eq!(ax.read_prg(0xC000), 0x02);
    assert_eq!(ax.read_prg(0xFFFF), 0x02);
}

#[test]
fn axrom_bank_select_via_any_address_in_8000_ffff() {
    let mut ax = Axrom::new(make_prg(4), vec![], Mirroring::Horizontal, false);
    // Writing to $FFFF should still latch the bank register.
    ax.write_prg(0xFFFF, 0x01);
    assert_eq!(ax.read_prg(0x8000), 0x01);
}

#[test]
fn axrom_bank_number_wraps_within_rom_size() {
    // 2 banks (64 KB). bank=5 → 5 % 2 = 1.
    let mut ax = Axrom::new(make_prg(2), vec![], Mirroring::Horizontal, false);
    ax.write_prg(0x8000, 0x05);
    assert_eq!(ax.read_prg(0x8000), 0x01);
    assert_eq!(ax.read_prg(0xFFFF), 0x01);
}

#[test]
fn bank_select_uses_low_3_bits() {
    // 8 banks (256 KB). Writing 0x0F should select bank 7 (bits 0-2).
    let mut ax = Axrom::new(make_prg(8), vec![], Mirroring::Horizontal, false);
    ax.write_prg(0x8000, 0x0F);
    assert_eq!(ax.read_prg(0x8000), 0x07);
}

#[test]
fn axrom_prg_ram_region_reads_zero() {
    let ax = Axrom::new(make_prg(4), vec![], Mirroring::Horizontal, false);
    assert_eq!(ax.read_prg(0x6000), 0x00);
    assert_eq!(ax.read_prg(0x7FFF), 0x00);
}

#[test]
fn axrom_prg_ram_region_writes_ignored() {
    let mut ax = Axrom::new(make_prg(4), vec![], Mirroring::Horizontal, false);
    ax.write_prg(0x6000, 0xFF);
    assert_eq!(ax.read_prg(0x6000), 0x00);
    // Bank selection unchanged.
    assert_eq!(ax.read_prg(0x8000), 0x00);
}

#[test]
fn default_mirroring_is_single_screen_nt0() {
    let ax = Axrom::new(make_prg(4), vec![], Mirroring::Horizontal, false);
    assert_eq!(ax.mirror_mode(), Mirroring::SingleScreen(0));
}

#[test]
fn bit4_selects_single_screen_nt1() {
    let mut ax = Axrom::new(make_prg(4), vec![], Mirroring::Horizontal, false);
    // Bit 4 set, bank bits = 0.
    ax.write_prg(0x8000, 0x10);
    assert_eq!(ax.mirror_mode(), Mirroring::SingleScreen(1));
    // Bank still 0.
    assert_eq!(ax.read_prg(0x8000), 0x00);
}

#[test]
fn mirroring_and_bank_independent() {
    let mut ax = Axrom::new(make_prg(4), vec![], Mirroring::Horizontal, false);
    // Bit 4 set + bank 2.
    ax.write_prg(0x8000, 0x12);
    assert_eq!(ax.mirror_mode(), Mirroring::SingleScreen(1));
    assert_eq!(ax.read_prg(0x8000), 0x02);
    // Bit 4 clear + bank 3.
    ax.write_prg(0x8000, 0x03);
    assert_eq!(ax.mirror_mode(), Mirroring::SingleScreen(0));
    assert_eq!(ax.read_prg(0x8000), 0x03);
}

#[test]
fn axrom_chr_ram_writes_persist() {
    let mut ax = Axrom::new(make_prg(4), vec![], Mirroring::Vertical, false);
    ax.write_chr(0x0000, 0x42);
    assert_eq!(ax.read_chr(0x0000), 0x42);
}

#[test]
fn axrom_chr_rom_writes_ignored() {
    let mut ax = Axrom::new(
        make_prg(4),
        vec![0xAA; CHR_SIZE],
        Mirroring::Vertical,
        false,
    );
    ax.write_chr(0x0000, 0x11);
    assert_eq!(ax.read_chr(0x0000), 0xAA);
}

#[test]
fn axrom_battery_flag_reported() {
    let ax = Axrom::new(make_prg(4), vec![], Mirroring::Horizontal, true);
    assert!(ax.has_battery());
}
