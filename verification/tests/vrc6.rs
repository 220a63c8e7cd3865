use nes_emu::mappers::vrc6::Vrc6;
use nes_emu::mappers::Mirroring;

const PRG_8K_SIZE: usize = 8 * 1024;
const CHR_1K_SIZE: usize = 1024;



/// Build PRG-ROM with `banks_8k` 8 KB banks, each filled with a unique
/// byte (the bank index modulo 256).
fn make_prg(banks_8k: usize) -> Vec<u8> {
    let mut prg = vec![0u8; banks_8k * PRG_8K_SIZE];
    for (i, b) in prg.iter_mut().enumerate() {
        *b = (i / PRG_8K_SIZE) as u8;
    }
    prg
}

/// Build CHR-ROM with `banks` 1 KB banks, each filled with a unique byte.
fn make_chr(banks: usize) -> Vec<u8> {
    let mut chr = vec![0u8; banks * CHR_1K_SIZE];
    for (i, b) in chr.iter_mut().enumerate() {
        *b = (i / CHR_1K_SIZE) as u8;
    }
    chr
}

// ---- PRG banking ---------------------------------------------------

#[test]
fn prg_default_16k_bank_0_at_8000_fixed_last_at_e000() {
    // 8 × 8KB = 64KB PRG = 4 × 16KB banks. Default 16k bank = 0.
    // $C000 8k bank = 0. $E000 fixed last 8KB = bank 7.
    let vrc = Vrc6::new(make_prg(8), make_chr(8), Mirroring::Vertical, false, false);
    // $8000-$BFFF = 16KB bank 0 = 8KB banks 0,1.
    assert_eq!(vrc.read_prg(0x8000), 0x00);
    assert_eq!(vrc.read_prg(0x9FFF), 0x00);
    assert_eq!(vrc.read_prg(0xA000), 0x01);
    assert_eq!(vrc.read_prg(0xBFFF), 0x01);
    // $C000-$DFFF = 8KB bank 0.
    assert_eq!(vrc.read_prg(0xC000), 0x00);
    assert_eq!(vrc.read_prg(0xDFFF), 0x00);
    // $E000-$FFFF = fixed last 8KB = bank 7.
    assert_eq!(vrc.read_prg(0xE000), 0x07);
    assert_eq!(vrc.read_prg(0xFFFF), 0x07);
}

#[test]
fn prg_16k_bank_select_switches_8000_window() {
    let mut vrc = Vrc6::new(make_prg(8), make_chr(8), Mirroring::Vertical, false, false);
    // 16k bank 2 → 8KB banks 4,5 at $8000-$BFFF.
    vrc.write_prg(0x8000, 0x02);
    assert_eq!(vrc.read_prg(0x8000), 0x04);
    assert_eq!(vrc.read_prg(0xBFFF), 0x05);
    // $C000 unchanged (8k bank 0).
    assert_eq!(vrc.read_prg(0xC000), 0x00);
}

#[test]
fn prg_8k_bank_select_switches_c000_window() {
    let mut vrc = Vrc6::new(make_prg(8), make_chr(8), Mirroring::Vertical, false, false);
    vrc.write_prg(0xC000, 0x03); // 8k bank 3 at $C000.
    assert_eq!(vrc.read_prg(0xC000), 0x03);
    assert_eq!(vrc.read_prg(0xDFFF), 0x03);
    // $8000 unchanged.
    assert_eq!(vrc.read_prg(0x8000), 0x00);
}

#[test]
fn vrc6_prg_bank_wraps_within_rom_size() {
    // 4 × 8KB = 32KB = 2 × 16KB banks. 16k bank 5 → 5 % 2 = 1.
    let mut vrc = Vrc6::new(make_prg(4), make_chr(8), Mirroring::Vertical, false, false);
    vrc.write_prg(0x8000, 0x05);
    assert_eq!(vrc.read_prg(0x8000), 0x02); // 16k bank 1 = 8k banks 2,3
    assert_eq!(vrc.read_prg(0xBFFF), 0x03);
}

#[test]
fn prg_register_uses_f003_mask() {
    // Only A0, A1, A12-A15 are used for register decode, so addresses
    // that share those bits hit the same register. $8FFC & 0xF003 =
    // 0x8000 (the 16 KB PRG bank register).
    let mut vrc = Vrc6::new(make_prg(8), make_chr(8), Mirroring::Vertical, false, false);
    vrc.write_prg(0x8FFC, 0x02); // decodes to $8000 → 16k bank 2
    assert_eq!(vrc.read_prg(0x8000), 0x04); // 16k bank 2 = 8k banks 4,5
}

// ---- CHR banking ---------------------------------------------------

#[test]
fn vrc6_chr_eight_1kb_banks_selectable() {
    let mut vrc = Vrc6::new(make_prg(8), make_chr(16), Mirroring::Vertical, false, false);
    vrc.write_prg(0xD000, 0x02); // CHR bank 0 = 2
    vrc.write_prg(0xD001, 0x05); // CHR bank 1 = 5
    vrc.write_prg(0xE003, 0x0E); // CHR bank 7 = 14
    assert_eq!(vrc.read_chr(0x0000), 0x02);
    assert_eq!(vrc.read_chr(0x03FF), 0x02);
    assert_eq!(vrc.read_chr(0x0400), 0x05);
    assert_eq!(vrc.read_chr(0x07FF), 0x05);
    assert_eq!(vrc.read_chr(0x1C00), 0x0E);
    assert_eq!(vrc.read_chr(0x1FFF), 0x0E);
}

#[test]
fn vrc6_chr_ram_writes_persist() {
    let mut vrc = Vrc6::new(make_prg(8), vec![], Mirroring::Vertical, false, false);
    vrc.write_chr(0x0000, 0x42);
    assert_eq!(vrc.read_chr(0x0000), 0x42);
}

// ---- Mirroring -----------------------------------------------------

#[test]
fn vrc6_mirroring_default_from_header() {
    let vrc = Vrc6::new(
        make_prg(8),
        make_chr(8),
        Mirroring::Horizontal,
        false,
        false,
    );
    assert_eq!(vrc.mirror_mode(), Mirroring::Horizontal);
}

#[test]
fn mirroring_switchable_via_b003() {
    let mut vrc = Vrc6::new(make_prg(8), make_chr(8), Mirroring::Vertical, false, false);
    assert_eq!(vrc.mirror_mode(), Mirroring::Vertical);
    vrc.write_prg(0xB003, 0x01); // horizontal
    assert_eq!(vrc.mirror_mode(), Mirroring::Horizontal);
    vrc.write_prg(0xB003, 0x00); // vertical
    assert_eq!(vrc.mirror_mode(), Mirroring::Vertical);
}

// ---- IRQ -----------------------------------------------------------

#[test]
fn irq_fires_after_counter_underflow() {
    let mut vrc = Vrc6::new(make_prg(8), make_chr(8), Mirroring::Vertical, false, false);
    // Latch = 4, enable + reload via $F001.
    vrc.write_prg(0xF000, 0x04);
    vrc.write_prg(0xF001, 0x01); // enable + reload → counter = 4
    assert!(!vrc.irq_pending());
    // 4 cycles → counter 4→3→2→1→0 (no underflow yet at 0).
    vrc.clock_cpu(4);
    assert!(!vrc.irq_pending());
    // 1 more cycle → underflow (0 → reload), IRQ fires.
    vrc.clock_cpu(1);
    assert!(vrc.irq_pending());
}

#[test]
fn vrc6_irq_disabled_does_not_fire() {
    let mut vrc = Vrc6::new(make_prg(8), make_chr(8), Mirroring::Vertical, false, false);
    vrc.write_prg(0xF000, 0x02);
    vrc.write_prg(0xF001, 0x00); // disable + reload
    vrc.clock_cpu(10);
    assert!(!vrc.irq_pending());
}

#[test]
fn vrc6_irq_acknowledge_clears_pending() {
    let mut vrc = Vrc6::new(make_prg(8), make_chr(8), Mirroring::Vertical, false, false);
    vrc.write_prg(0xF000, 0x01);
    vrc.write_prg(0xF001, 0x01); // enable + reload → counter = 1
    vrc.clock_cpu(2); // underflow → IRQ fires
    assert!(vrc.irq_pending());
    vrc.write_prg(0xF002, 0x00); // acknowledge (disable)
    assert!(!vrc.irq_pending());
}

#[test]
fn irq_one_shot_mode_disables_after_firing() {
    let mut vrc = Vrc6::new(make_prg(8), make_chr(8), Mirroring::Vertical, false, false);
    vrc.write_prg(0xF000, 0x01);
    vrc.write_prg(0xF001, 0x01); // enable + reload → counter = 1
    vrc.clock_cpu(2); // fires, one-shot → disable
    assert!(vrc.irq_pending());
    vrc.write_prg(0xF002, 0x00); // ack
                                 // Counter continues to decrement but IRQ stays disabled.
    vrc.clock_cpu(10);
    assert!(!vrc.irq_pending());
}

// ---- Audio ---------------------------------------------------------

#[test]
fn audio_pulse_channel_produces_output_when_enabled() {
    let mut vrc = Vrc6::new(make_prg(8), make_chr(8), Mirroring::Vertical, false, false);
    // Pulse 1: duty = 8/16 (bits 4-6 = 0b111), volume = 15, enable.
    vrc.write_prg(0x9000, 0b0111_1111); // duty 7+1=8, vol 15
    vrc.write_prg(0x9001, 0x10); // period low = 0x10
    vrc.write_prg(0x9002, 0x80); // period high = 0, enable bit 7
                                 // Clock enough cycles to step through the duty window.
    vrc.clock_audio(64);
    // At some point the output should be non-zero (volume 15).
    let sample = vrc.pulse1_sample();
    // After 64 cycles with period 0x10=16, the step advanced ~4 times.
    // The sample depends on step position; just assert it can be 15.
    // We clock a bit more and check the max sample observed.
    let mut saw_nonzero = false;
    for _ in 0..100 {
        vrc.clock_audio(1);
        if vrc.pulse1_sample() == 15 {
            saw_nonzero = true;
            break;
        }
    }
    assert!(saw_nonzero, "pulse1 should produce volume output");
    let _ = sample;
}

#[test]
fn audio_saw_channel_produces_rising_output() {
    let mut vrc = Vrc6::new(make_prg(8), make_chr(8), Mirroring::Vertical, false, false);
    vrc.write_prg(0xB000, 0x20); // accumulator rate = 32
    vrc.write_prg(0xB001, 0x04); // period low = 4
    vrc.write_prg(0xB002, 0x80); // period high = 0, enable
                                 // Clock many cycles; the accumulator should rise and reset.
    let mut saw_nonzero = false;
    for _ in 0..2000 {
        vrc.clock_audio(1);
        if vrc.saw_sample() > 0 {
            saw_nonzero = true;
        }
    }
    assert!(saw_nonzero, "saw should produce non-zero output");
}

#[test]
fn audio_disabled_channel_produces_no_output() {
    let vrc = Vrc6::new(make_prg(8), make_chr(8), Mirroring::Vertical, false, false);
    assert_eq!(vrc.pulse1_sample(), 0);
    assert_eq!(vrc.pulse2_sample(), 0);
    assert_eq!(vrc.saw_sample(), 0);
}

// ---- Mapper 26 A0/A1 swap -----------------------------------------

#[test]
fn mapper26_swaps_a0_a1_for_register_decode() {
    // Mapper 26: $x001 ↔ $x002. So writing $9002 (mapper 26) should hit
    // the period-low register (which is $9001 in mapper 24 terms).
    let mut vrc = Vrc6::new(make_prg(8), make_chr(8), Mirroring::Vertical, false, true);
    // $9002 in mapper 26 decodes to $9001 (period low) in canonical form.
    vrc.write_prg(0x9002, 0xAB);
    assert_eq!(vrc.pulse1.period & 0xFF, 0xAB);
}

// ---- PRG-RAM / battery --------------------------------------------

#[test]
fn vrc6_prg_ram_writes_and_reads_at_6000() {
    let mut vrc = Vrc6::new(make_prg(8), make_chr(8), Mirroring::Vertical, false, false);
    vrc.write_prg(0x6000, 0x42);
    assert_eq!(vrc.read_prg(0x6000), 0x42);
}

#[test]
fn vrc6_battery_sram_round_trips() {
    let mut vrc = Vrc6::new(make_prg(8), make_chr(8), Mirroring::Vertical, true, false);
    vrc.write_prg(0x6000, 0xCD);
    let saved = vrc.battery_sram().expect("battery");
    let mut vrc2 = Vrc6::new(make_prg(8), make_chr(8), Mirroring::Vertical, true, false);
    vrc2.load_battery_sram(&saved);
    assert_eq!(vrc2.read_prg(0x6000), 0xCD);
}
