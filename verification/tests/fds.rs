use nes_emu::mappers::fds::Fds;
use nes_emu::mappers::Mirroring;

const BIOS_SIZE: usize = 8 * 1024;


/// Create a minimal FDS mapper with a small BIOS for testing.
fn make_fds() -> Fds {
    let mut bios = vec![0u8; BIOS_SIZE];
    // Set reset vector to $E000.
    bios[0x1FFC] = 0x00;
    bios[0x1FFD] = 0xE0;
    // Fill with NOPs.
    for b in &mut bios[..0x1FFC] {
        *b = 0xEA;
    }
    let disk_data = vec![0x80, b'F', b'D', b'S', 0x00]; // minimal disk header
    Fds::new(bios, disk_data)
}

#[test]
fn prg_ram_reads_zero_initially() {
    let fds = make_fds();
    assert_eq!(fds.read_prg(0x6000), 0);
    assert_eq!(fds.read_prg(0xDFFF), 0);
}

#[test]
fn prg_ram_writes_persist() {
    let mut fds = make_fds();
    fds.write_prg(0x6000, 0x42);
    assert_eq!(fds.read_prg(0x6000), 0x42);
    fds.write_prg(0xDFFF, 0xAB);
    assert_eq!(fds.read_prg(0xDFFF), 0xAB);
}

#[test]
fn bios_reads_return_bios_data() {
    let fds = make_fds();
    // BIOS is filled with NOPs (0xEA) except the reset vector.
    assert_eq!(fds.read_prg(0xE000), 0xEA);
    assert_eq!(fds.read_prg(0xE001), 0xEA);
}

#[test]
fn bios_reset_vector_at_fffc() {
    let fds = make_fds();
    // $FFFC = BIOS offset 0x1FFC = 0x00, $FFFD = 0xE0 → reset to $E000.
    assert_eq!(fds.read_prg(0xFFFC), 0x00);
    assert_eq!(fds.read_prg(0xFFFD), 0xE0);
}

#[test]
fn fds_chr_ram_writes_persist() {
    let mut fds = make_fds();
    fds.write_chr(0x0000, 0x55);
    assert_eq!(fds.read_chr(0x0000), 0x55);
    fds.write_chr(0x1FFF, 0xAA);
    assert_eq!(fds.read_chr(0x1FFF), 0xAA);
}

#[test]
fn default_mirroring_is_vertical() {
    let fds = make_fds();
    assert_eq!(fds.mirror_mode(), Mirroring::Vertical);
}

#[test]
fn mirroring_switches_via_4025() {
    let mut fds = make_fds();
    fds.write_prg(0x4025, 0x02); // bit 1 = horizontal
    assert_eq!(fds.mirror_mode(), Mirroring::Horizontal);
    fds.write_prg(0x4025, 0x00); // bit 1 clear = vertical
    assert_eq!(fds.mirror_mode(), Mirroring::Vertical);
}

#[test]
fn timer_irq_latch_and_enable() {
    let mut fds = make_fds();
    fds.write_prg(0x4020, 0x10); // latch low
    fds.write_prg(0x4021, 0x00); // latch high → latch = 0x0010
    fds.write_prg(0x4023, 0x02); // enable timer I/O
    fds.write_prg(0x4022, 0x01); // enable timer IRQ
    assert!(fds.timer_enable);
    assert_eq!(fds.timer_latch, 0x0010);
    assert_eq!(fds.timer_counter, 0x0010);
}

#[test]
fn timer_irq_fires_after_countdown() {
    let mut fds = make_fds();
    fds.write_prg(0x4020, 0x05); // latch low = 5
    fds.write_prg(0x4021, 0x00); // latch high = 0
    fds.write_prg(0x4023, 0x02); // enable timer I/O
    fds.write_prg(0x4022, 0x01); // enable timer
                                 // Counter starts at 5. After 5 decrements it reaches 0; the
                                 // 6th cycle detects 0 and fires the IRQ (reloading the latch).
    fds.clock_cpu(6);
    assert!(fds.irq_pending());
}

#[test]
fn timer_irq_cleared_on_4030_read() {
    let mut fds = make_fds();
    fds.write_prg(0x4020, 0x01);
    fds.write_prg(0x4021, 0x00);
    fds.write_prg(0x4023, 0x02);
    fds.write_prg(0x4022, 0x01);
    // Latch=1: counter=1→0 (1 cycle), then 0 detected → IRQ (2 cycles).
    fds.clock_cpu(2);
    assert!(fds.irq_pending());
    // Read $4030 → clears IRQ flag.
    let status = fds.read_disk_register(0x4030);
    assert!(status & 0x80 != 0); // bit 7 was set
    assert!(!fds.irq_pending()); // now cleared
}

#[test]
fn disk_read_returns_data_sequentially() {
    let mut fds = make_fds();
    // disk_data = [0x80, 'F', 'D', 'S', 0x00]
    fds.write_prg(0x4025, 0x20); // motor on, read mode
    let b0 = fds.read_disk_register(0x4031);
    assert_eq!(b0, 0x80);
    let b1 = fds.read_disk_register(0x4031);
    assert_eq!(b1, b'F');
    let b2 = fds.read_disk_register(0x4031);
    assert_eq!(b2, b'D');
}

#[test]
fn disk_transfer_reset_resets_position() {
    let mut fds = make_fds();
    fds.write_prg(0x4025, 0x20); // motor on
                                 // Read a few bytes.
    let _ = fds.read_disk_register(0x4031);
    let _ = fds.read_disk_register(0x4031);
    assert!(fds.disk_read_pos > 0);
    // Transfer reset.
    fds.write_prg(0x4025, 0x21); // bit 0 = reset
    assert_eq!(fds.disk_read_pos, 0);
}

#[test]
fn disk_status_shows_motor_and_data() {
    let mut fds = make_fds();
    fds.write_prg(0x4025, 0x20); // motor on
    let status = fds.read_disk_register(0x4030);
    // bit 2 = disk ready (motor on + inserted).
    assert!(status & 0x04 != 0);
    // bit 0 = data available.
    assert!(status & 0x01 != 0);
}

#[test]
fn audio_register_writes_route_to_audio() {
    let mut fds = make_fds();
    // Write to wave RAM via $4040.
    fds.write_prg(0x4040, 0x3F);
    assert_eq!(fds.audio.wave_ram()[0], 0x3F);
}



#[test]
fn save_restore_preserves_prg_ram() {
    let mut fds = make_fds();
    fds.write_prg(0x6000, 0x99);
    fds.write_prg(0x8000, 0x88);
    let state = fds.save_state();
    let mut fds2 = make_fds();
    fds2.restore_state(state);
    assert_eq!(fds2.read_prg(0x6000), 0x99);
    assert_eq!(fds2.read_prg(0x8000), 0x88);
}

#[test]
fn save_restore_preserves_chr_ram() {
    let mut fds = make_fds();
    fds.write_chr(0x1000, 0x77);
    let state = fds.save_state();
    let mut fds2 = make_fds();
    fds2.restore_state(state);
    assert_eq!(fds2.read_chr(0x1000), 0x77);
}

#[test]
fn save_restore_preserves_bios_and_disk() {
    let fds = make_fds();
    // fds2 starts with the same BIOS so we can verify the restored
    // state (which preserves fds2's own BIOS, since BIOS is
    // #[serde(skip)]).
    let mut fds2 = make_fds();
    let state = fds.save_state();
    fds2.restore_state(state);
    // BIOS should be readable (preserved from fds2's own BIOS).
    assert_eq!(fds2.read_prg(0xE000), 0xEA);
    // Disk data should be preserved (restored from the saved state).
    fds2.write_prg(0x4025, 0x20); // motor on
    assert_eq!(fds2.read_disk_register(0x4031), 0x80);
}

#[test]
fn expansion_level_silent_when_freq_zero() {
    let fds = make_fds();
    assert_eq!(fds.expansion_level(), None);
}

#[test]
fn expansion_level_nonzero_with_freq() {
    let mut fds = make_fds();
    for _ in 0..64 {
        fds.write_prg(0x4040, 0x3F);
    }
    fds.write_prg(0x4080, 0x7F);
    fds.write_prg(0x4082, 0x00);
    fds.write_prg(0x4081, 0x01);
    fds.clock_cpu(200);
    assert_eq!(fds.expansion_level(), Some(31 * 63));
}

#[test]
fn short_bios_is_zero_padded() {
    let fds = Fds::new(vec![0x11, 0x22], vec![]);
    assert_eq!(fds.read_prg(0xE000), 0x11);
    assert_eq!(fds.read_prg(0xE001), 0x22);
    assert_eq!(fds.read_prg(0xE002), 0x00);
    assert_eq!(fds.read_prg(0xFFFF), 0x00);
}
