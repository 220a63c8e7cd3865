use nes_emu::mappers::fds_audio::FdsAudio;




#[test]
fn wave_ram_write_stores_6bit_values() {
    let mut audio = FdsAudio::new();
    audio.write_register(0x4040, 0x3F); // max 6-bit value
    assert_eq!(audio.wave_ram()[0], 0x3F);
    audio.write_register(0x4041, 0xFF); // upper bits masked
    assert_eq!(audio.wave_ram()[1], 0x3F);
}

#[test]
fn wave_ram_auto_increments_address() {
    let mut audio = FdsAudio::new();
    for i in 0..64 {
        audio.write_register(0x4040, i as u8 & 0x3F);
    }
    // All 64 entries should be filled.
    for i in 0..64 {
        assert_eq!(audio.wave_ram()[i], i as u8 & 0x3F);
    }
}

#[test]
fn volume_register_sets_envelope() {
    let mut audio = FdsAudio::new();
    // $4080: volume = 0x20, envelope disabled (bit 6).
    audio.write_register(0x4080, 0x60);
    assert_eq!(audio.master_volume, 0x20);
    assert!(audio.env_disabled);
    assert_eq!(audio.volume_gain, 0x20); // disabled → gain = volume
}

#[test]
fn frequency_registers_set_12bit_value() {
    let mut audio = FdsAudio::new();
    audio.write_register(0x4082, 0x34); // low byte
    audio.write_register(0x4081, 0x05); // high byte (bits 0-3)
    assert_eq!(audio.freq, 0x534);
}

#[test]
fn modulator_wave_write_auto_increments() {
    let mut audio = FdsAudio::new();
    audio.write_register(0x4088, 0x07); // max 3-bit
    audio.write_register(0x4088, 0x03);
    assert_eq!(audio.mod_wave()[0], 0x07);
    assert_eq!(audio.mod_wave()[1], 0x03);
}

#[test]
fn modulator_disable_on_4083_bit7() {
    let mut audio = FdsAudio::new();
    audio.write_register(0x4083, 0x80);
    assert!(audio.mod_disabled);
}

#[test]
fn read_volume_gain_returns_6bit() {
    let mut audio = FdsAudio::new();
    audio.write_register(0x4080, 0x6F); // envelope disabled, vol = 0x2F
    let val = audio.read_register(0x4090);
    assert_eq!(val, 0x2F);
}



#[test]
fn clock_advances_phase() {
    let mut audio = FdsAudio::new();
    audio.write_register(0x4082, 0xFF);
    audio.write_register(0x4081, 0x0F); // freq = 0xFFF
    let phase_before = audio.phase_acc;
    audio.clock(10);
    assert!(audio.phase_acc > phase_before);
}

#[test]
fn modulator_gain_accumulates() {
    let mut audio = FdsAudio::new();
    audio.write_register(0x4087, 0x10); // +16
    assert_eq!(audio.mod_gain, 16);
    audio.write_register(0x4086, 0x08); // -8
    assert_eq!(audio.mod_gain, 8);
}

#[test]
fn sample_level_silent_without_frequency() {
    let audio = FdsAudio::new();
    assert_eq!(audio.sample_level(), None);
}

#[test]
fn sample_level_positive_with_full_wave() {
    let mut audio = FdsAudio::new();
    for _ in 0..64 {
        audio.write_register(0x4040, 0x3F);
    }
    audio.write_register(0x4080, 0x7F);
    audio.write_register(0x4082, 0x00);
    audio.write_register(0x4081, 0x01);
    audio.clock(100);
    // (0x3F - 32) * 0x3F
    assert_eq!(audio.sample_level(), Some(31 * 63));
}

#[test]
fn sample_level_negative_with_zero_wave() {
    let mut audio = FdsAudio::new();
    audio.write_register(0x4080, 0x60);
    audio.write_register(0x4082, 0x00);
    audio.write_register(0x4081, 0x01);
    audio.clock(100);
    assert_eq!(audio.sample_level(), Some(-32 * 0x20));
}

#[test]
fn modulator_gain_saturates_at_i8_bounds() {
    let mut audio = FdsAudio::new();
    for _ in 0..4 {
        audio.write_register(0x4087, 0x3F);
    }
    assert_eq!(audio.mod_gain, 127);
    for _ in 0..8 {
        audio.write_register(0x4086, 0x3F);
    }
    assert_eq!(audio.mod_gain, -128);
}

#[test]
fn wave_pointer_holds_in_write_mode() {
    let mut a = FdsAudio::new();
    a.write_register(0x4089, 0x40);
    a.write_register(0x4040, 0x11);
    a.write_register(0x4040, 0x22);
    assert_eq!(a.wave_ram()[0], 0x22);
    assert_eq!(a.wave_ram()[1], 0x00);
    // Clearing bit 6 restores auto-increment.
    a.write_register(0x4089, 0x00);
    a.write_register(0x4040, 0x05);
    a.write_register(0x4040, 0x06);
    assert_eq!(a.wave_ram()[0], 0x05);
    assert_eq!(a.wave_ram()[1], 0x06);
}
