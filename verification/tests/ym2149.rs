use nes_emu::mappers::ym2149::Ym2149;

fn write(y: &mut Ym2149, reg: u8, v: u8) {
    y.write_addr(reg);
    y.write_data(v);
}

#[test]
fn ym_registers_read_back() {
    let mut y = Ym2149::new();
    write(&mut y, 0x1D, 0x0E);
    assert_eq!(y.read_data(), 0x0E);
    assert_eq!(y.regs[0x0D], 0x0E);
}

#[test]
fn ym_tone_toggles_every_period() {
    let mut y = Ym2149::new();
    write(&mut y, 0, 3);
    write(&mut y, 7, 0x3E);
    write(&mut y, 8, 0x0A);
    y.clock(1);
    assert_eq!(y.tone_out[0], 1);
    assert_eq!(y.chan_out(0), 10);
    y.clock(3);
    assert_eq!(y.tone_out[0], 1);
    y.clock(1);
    assert_eq!(y.tone_out[0], 0);
    assert_eq!(y.chan_out(0), 0);
}

#[test]
fn ym_noise_shift_register() {
    let mut y = Ym2149::new();
    y.clock(1);
    assert_eq!(y.noise_lfsr, 0x8000);
    assert_eq!(y.noise_out, 0);
}

#[test]
fn ym_envelope_attack_ramps_up_then_holds() {
    let mut y = Ym2149::new();
    write(&mut y, 0x0D, 0x0A);
    assert_eq!(y.env_amplitude(), 0);
    y.clock(11);
    assert_eq!(y.env_pos, 6);
    assert_eq!(y.env_amplitude(), 3);
    y.clock(100);
    assert!(y.env_holding);
    assert_eq!(y.env_pos, 31);
    assert_eq!(y.env_amplitude(), 15);
}

#[test]
fn ym_mix_sums_channels() {
    let mut y = Ym2149::new();
    write(&mut y, 7, 0x38);
    write(&mut y, 8, 15);
    write(&mut y, 9, 15);
    write(&mut y, 10, 15);
    y.clock(1);
    assert_eq!(y.mix_level(), 45);
}
