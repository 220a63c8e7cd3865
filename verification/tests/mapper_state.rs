use nes_emu::mappers::{from_ines, MapperState, Mirroring};

/// PRG of `banks` 8 KB banks, each filled with its own index.
fn prg_banks(banks: usize) -> Vec<u8> {
    (0..banks * 0x2000).map(|i| (i / 0x2000) as u8).collect()
}

#[test]
fn mapper_state_mmc3_bank_switch_through_dispatch() {
    let mut m = from_ines(4, prg_banks(8), vec![0u8; 0x2000], Mirroring::Vertical, false).unwrap();
    // Power-on: bank select 0, so $8000 maps R6 = bank 0 and $C000 the second-to-last bank.
    assert_eq!(m.read_prg(0x8000), 0);
    assert_eq!(m.read_prg(0xC000), 6);
    m.write_prg(0x8000, 6);
    m.write_prg(0x8001, 3);
    assert_eq!(m.read_prg(0x8000), 3);
    assert_eq!(m.mirror_mode(), Mirroring::Vertical);
}

#[test]
fn mapper_state_mmc3_irq_through_dispatch() {
    let mut m = from_ines(4, prg_banks(8), vec![0u8; 0x2000], Mirroring::Vertical, false).unwrap();
    m.write_prg(0xC000, 1);
    m.write_prg(0xC001, 0);
    m.write_prg(0xE001, 0);
    assert!(!m.irq_pending());
    m.clock_irq();
    m.clock_irq();
    assert!(m.irq_pending());
}

#[test]
fn mapper_state_boards_without_irq_never_assert_it() {
    let mut m = from_ines(0, prg_banks(2), vec![0u8; 0x2000], Mirroring::Horizontal, false).unwrap();
    m.clock_irq();
    m.clock_cpu(1000);
    assert!(!m.irq_pending());
    assert!(!m.has_battery());
    assert!(m.battery_sram().is_none());
}

#[test]
fn mapper_state_save_restore_round_trip() {
    let mut m = from_ines(4, prg_banks(8), vec![0u8; 0x2000], Mirroring::Vertical, true).unwrap();
    m.write_prg(0x8000, 6);
    m.write_prg(0x8001, 5);
    let snap = m.save_state();
    m.write_prg(0x8001, 2);
    assert_eq!(m.read_prg(0x8000), 2);
    m.restore_state(snap);
    assert_eq!(m.read_prg(0x8000), 5);
    assert!(m.has_battery());
}

#[test]
fn mapper_state_fds_disk_read_through_dispatch() {
    let mut m = MapperState::Fds(nes_emu::mappers::fds::Fds::new(vec![0u8; 0x2000], vec![0x80, 0x46, 0x44, 0x53, 0x00]));
    m.write_prg(0x4025, 0x20);
    let bytes: Vec<u8> = (0..6).map(|_| m.read_prg_mut(0x4031)).collect();
    assert_eq!(bytes, vec![0x80, 0x46, 0x44, 0x53, 0x00, 0x00]);
}

#[test]
fn mapper_state_mmc5_keeps_header_mirroring() {
    let m = from_ines(5, prg_banks(8), vec![0u8; 0x2000], Mirroring::Vertical, false).unwrap();
    assert_eq!(m.mirror_mode(), Mirroring::Vertical);
}
