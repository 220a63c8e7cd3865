use nes_emu::mappers::nrom::Nrom;
use nes_emu::mappers::Mirroring;



fn make_prg(size_kb: usize, fill: u8) -> Vec<u8> {
    vec![fill; size_kb * 1024]
}

#[test]
fn nrom_32k_reads_linearly() {
    let prg = make_prg(32, 0xCD);
    let nrom = Nrom::new(prg, vec![0; 8 * 1024], Mirroring::Horizontal, false);
    assert_eq!(nrom.read_prg(0x8000), 0xCD);
    assert_eq!(nrom.read_prg(0xC000), 0xCD);
    assert_eq!(nrom.read_prg(0xFFFF), 0xCD);
}

#[test]
fn nrom_16k_mirrors_high_half() {
    let mut prg = make_prg(16, 0);
    for (i, b) in prg.iter_mut().enumerate() {
        *b = (i & 0xFF) as u8;
    }
    let nrom = Nrom::new(prg, vec![], Mirroring::Horizontal, false);
    assert_eq!(nrom.read_prg(0x8000), 0x00);
    assert_eq!(nrom.read_prg(0xC000), 0x00); // mirror of $8000
    assert_eq!(nrom.read_prg(0xC001), 0x01);
    assert_eq!(nrom.read_prg(0xFFFF), 0xFF);
}

#[test]
fn nrom_prg_ram_region_reads_zero() {
    let nrom = Nrom::new(make_prg(16, 0xFF), vec![], Mirroring::Horizontal, false);
    assert_eq!(nrom.read_prg(0x6000), 0x00);
    assert_eq!(nrom.read_prg(0x7FFF), 0x00);
}

#[test]
fn nrom_chr_ram_writes_persist() {
    let mut nrom = Nrom::new(make_prg(16, 0), vec![], Mirroring::Vertical, false);
    nrom.write_chr(0x0000, 0x42);
    assert_eq!(nrom.read_chr(0x0000), 0x42);
}

#[test]
fn nrom_chr_rom_writes_ignored() {
    let mut nrom = Nrom::new(
        make_prg(16, 0),
        vec![0xAA; 8 * 1024],
        Mirroring::Vertical,
        false,
    );
    nrom.write_chr(0x0000, 0x11);
    assert_eq!(nrom.read_chr(0x0000), 0xAA);
}

#[test]
fn nrom_mirror_mode_reported_correctly() {
    let nrom = Nrom::new(make_prg(16, 0), vec![], Mirroring::Vertical, false);
    assert_eq!(nrom.mirror_mode(), Mirroring::Vertical);
}

#[test]
fn nrom_battery_flag_reported() {
    let nrom = Nrom::new(make_prg(16, 0), vec![], Mirroring::Horizontal, true);
    assert!(nrom.has_battery());
}

#[test]
fn mapper_state_dispatches_reads_and_mirroring() {
    let prg: Vec<u8> = (0..0x4000u32).map(|i| (i % 251) as u8).collect();
    let chr: Vec<u8> = (0..0x2000u32).map(|i| (i % 13) as u8).collect();
    let state = nes_emu::mappers::from_ines(0, prg, chr, Mirroring::Vertical, false).unwrap();
    // 16 KB of PRG is mirrored at $C000.
    assert_eq!(state.read_prg(0x8005), 5);
    assert_eq!(state.read_prg(0xC005), 5);
    assert_eq!(state.read_chr(0x0010), 3);
    assert_eq!(state.mirror_mode(), Mirroring::Vertical);
    assert!(nes_emu::mappers::from_ines(200, Vec::new(), Vec::new(), Mirroring::Vertical, false).is_err());
}
