use nes_emu::mappers::namco163::Namco163;
use nes_emu::mappers::Mirroring;

fn prg(banks: usize) -> Vec<u8> {
    let mut v = vec![0u8; banks * 8192];
    for b in 0..banks {
        v[b * 8192] = b as u8;
        v[b * 8192 + 1] = 0xA0 + b as u8;
    }
    v
}

#[test]
fn namco_prg_banks_switch_through_c000() {
    let mut m = Namco163::new(prg(8), vec![0u8; 8192], Mirroring::Vertical, false);
    assert_eq!(m.read_prg(0x8000), 0);
    m.write_prg(0xC000, 5);
    assert_eq!(m.read_prg(0x8000), 5);
    m.write_prg(0xD800, 0x43);
    assert_eq!(m.read_prg(0xE001), 0xA3);
}

#[test]
fn namco_prg_ram_needs_enable_and_no_protect() {
    let mut m = Namco163::new(prg(2), vec![], Mirroring::Vertical, true);
    m.write_prg(0x6000, 0x55);
    assert_eq!(m.read_prg(0x6000), 0);
    m.write_prg(0xE800, 0x80);
    m.write_prg(0x6000, 0x55);
    assert_eq!(m.read_prg(0x6000), 0x55);
    m.write_prg(0xE800, 0xC0);
    m.write_prg(0x6000, 0x66);
    assert_eq!(m.read_prg(0x6000), 0x55);
    assert_eq!(m.battery_sram().unwrap()[0], 0x55);
}

#[test]
fn namco_wave_ram_auto_increment_wraps() {
    let mut m = Namco163::new(prg(2), vec![], Mirroring::Vertical, false);
    m.write_prg(0xF800, 0xFF);
    m.write_prg(0x4800, 0x12);
    m.write_prg(0x4800, 0x34);
    m.write_prg(0xF800, 0x7F);
    assert_eq!(m.read_prg(0x4800), 0x12);
    m.write_prg(0xF800, 0x00);
    assert_eq!(m.read_prg(0x4800), 0x34);
}

#[test]
fn namco_channel_registers_read_back() {
    let mut m = Namco163::new(prg(2), vec![], Mirroring::Vertical, false);
    m.write_prg(0x5008, 0x34);
    m.write_prg(0x5009, 0x5F);
    m.write_prg(0x500A, 0xFF);
    m.write_prg(0x500B, 0xE0);
    assert_eq!(m.read_prg(0x5008), 0x34);
    assert_eq!(m.read_prg(0x5009), 0x5F);
    assert_eq!(m.read_prg(0x500A), 0x0F);
    assert_eq!(m.read_prg(0x500B), 0xE0);
    assert_eq!(m.read_prg(0x5400), 0);
}

#[test]
fn namco_mirroring_and_irq_latch() {
    let mut m = Namco163::new(prg(2), vec![], Mirroring::Vertical, false);
    m.write_prg(0xE000, 2);
    assert_eq!(m.mirror_mode(), Mirroring::SingleScreen(0));
    m.write_prg(0xE000, 1);
    assert_eq!(m.mirror_mode(), Mirroring::Horizontal);
    m.write_prg(0xF000, 0x34);
    m.write_prg(0xF000, 0x12);
    assert_eq!(m.irq_latch, 0x1234);
}

#[test]
fn namco_chr_banks_and_ram() {
    let mut chr = vec![0u8; 8 * 1024];
    chr[3 * 1024] = 0x77;
    let mut m = Namco163::new(prg(2), chr, Mirroring::Vertical, false);
    m.write_prg(0x8800, 3);
    assert_eq!(m.read_chr(0x0400), 0x77);
    m.write_chr(0x0400, 1);
    assert_eq!(m.read_chr(0x0400), 0x77);
}

#[test]
fn namco_channel_output_scaled_by_volume() {
    let mut m = Namco163::new(prg(2), vec![], Mirroring::Vertical, false);
    m.write_prg(0xF800, 0x00);
    m.write_prg(0x4800, 0xF5);
    m.write_prg(0x5002, 15);
    m.write_prg(0x5003, 0x80);
    assert_eq!(m.chan_sample(0), 5);
    m.write_prg(0x5002, 3);
    assert_eq!(m.chan_sample(0), 1);
    assert_eq!(m.audio_level(), 1);
    m.write_prg(0x5003, 0x00);
    assert_eq!(m.audio_level(), 0);
}

#[test]
fn namco_phase_advances_when_enabled() {
    let mut m = Namco163::new(prg(2), vec![], Mirroring::Vertical, false);
    m.write_prg(0x5000, 0x10);
    m.write_prg(0x5003, 0x80);
    m.clock_cpu(4);
    assert_eq!(m.chans[0].phase, 4 * (0x10 << 8));
    assert_eq!(m.chans[1].phase, 0);
}

#[test]
fn namco_irq_counter_reloads_from_latch() {
    let mut m = Namco163::new(prg(2), vec![], Mirroring::Vertical, false);
    m.write_prg(0xF000, 3);
    m.write_prg(0xF000, 0);
    m.clock_cpu(1);
    assert_eq!(m.irq_counter, 3);
    m.clock_cpu(2);
    assert_eq!(m.irq_counter, 1);
    assert!(!m.irq_pending());
}
