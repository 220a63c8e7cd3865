use nes_emu::mappers::fme7::Fme7;
use nes_emu::mappers::Mirroring;

const PRG_BANK_SIZE: usize = 8 * 1024;
const CHR_1K_SIZE: usize = 1024;



/// Build PRG-ROM with `banks` 8 KB banks, each filled with a unique byte.
fn make_prg(banks: usize) -> Vec<u8> {
    let mut prg = vec![0u8; banks * PRG_BANK_SIZE];
    for (i, b) in prg.iter_mut().enumerate() {
        *b = (i / PRG_BANK_SIZE) as u8;
    }
    prg
}

/// Build CHR-ROM with `banks` 1 KB banks, each filled with a unique byte.
fn make_chr(banks: usize) -> Vec<u8> {
    let mut chr = vec![0u8; banks * CHR_1K_SIZE];
    for (i, b) in chr.iter_mut().enumerate() {
        *b = (i / CHR_1K_SIZE) as u8;
    }
    chr
}

/// Write a command/data pair via the `$8000`/`$8001` latch.
fn cmd(fme: &mut Fme7, command: u8, value: u8) {
    fme.write_prg(0x8000, command);
    fme.write_prg(0x8001, value);
}

// ---- PRG banking ---------------------------------------------------

#[test]
fn prg_default_all_banks_zero() {
    // 4 × 8KB banks. Default: all PRG bank regs = 0 → bank 0 everywhere.
    let fme = Fme7::new(make_prg(4), make_chr(8), Mirroring::Vertical, false);
    assert_eq!(fme.read_prg(0x8000), 0x00);
    assert_eq!(fme.read_prg(0xA000), 0x00);
    assert_eq!(fme.read_prg(0xC000), 0x00);
    assert_eq!(fme.read_prg(0xE000), 0x00);
}

#[test]
fn prg_bank_select_switches_each_8k_window() {
    let mut fme = Fme7::new(make_prg(8), make_chr(8), Mirroring::Vertical, false);
    cmd(&mut fme, 8, 0x02); // PRG 0 = bank 2 at $8000
    cmd(&mut fme, 9, 0x03); // PRG 1 = bank 3 at $A000
    cmd(&mut fme, 10, 0x04); // PRG 2 = bank 4 at $C000
    cmd(&mut fme, 11, 0x05); // PRG 3 = bank 5 at $E000
    assert_eq!(fme.read_prg(0x8000), 0x02);
    assert_eq!(fme.read_prg(0x9FFF), 0x02);
    assert_eq!(fme.read_prg(0xA000), 0x03);
    assert_eq!(fme.read_prg(0xBFFF), 0x03);
    assert_eq!(fme.read_prg(0xC000), 0x04);
    assert_eq!(fme.read_prg(0xDFFF), 0x04);
    assert_eq!(fme.read_prg(0xE000), 0x05);
    assert_eq!(fme.read_prg(0xFFFF), 0x05);
}

#[test]
fn fme7_prg_bank_wraps_within_rom_size() {
    // 4 banks. PRG 0 = 6 → 6 % 4 = 2.
    let mut fme = Fme7::new(make_prg(4), make_chr(8), Mirroring::Vertical, false);
    cmd(&mut fme, 8, 0x06);
    assert_eq!(fme.read_prg(0x8000), 0x02);
}

#[test]
fn fme7_prg_bank_register_masked_to_low_4_bits() {
    let mut fme = Fme7::new(make_prg(8), make_chr(8), Mirroring::Vertical, false);
    cmd(&mut fme, 8, 0xFF); // & 0x0F = 0x0F → 15 % 8 = 7
    assert_eq!(fme.read_prg(0x8000), 0x07);
}

// ---- CHR banking ---------------------------------------------------

#[test]
fn fme7_chr_eight_1kb_banks_selectable() {
    let mut fme = Fme7::new(make_prg(8), make_chr(16), Mirroring::Vertical, false);
    cmd(&mut fme, 0, 0x02); // CHR 0 = 2
    cmd(&mut fme, 3, 0x09); // CHR 3 = 9
    cmd(&mut fme, 7, 0x0F); // CHR 7 = 15
    assert_eq!(fme.read_chr(0x0000), 0x02);
    assert_eq!(fme.read_chr(0x03FF), 0x02);
    assert_eq!(fme.read_chr(0x0C00), 0x09);
    assert_eq!(fme.read_chr(0x0FFF), 0x09);
    assert_eq!(fme.read_chr(0x1C00), 0x0F);
    assert_eq!(fme.read_chr(0x1FFF), 0x0F);
}

#[test]
fn fme7_chr_ram_writes_persist() {
    let mut fme = Fme7::new(make_prg(8), vec![], Mirroring::Vertical, false);
    fme.write_chr(0x0000, 0x42);
    assert_eq!(fme.read_chr(0x0000), 0x42);
}

// ---- Mirroring -----------------------------------------------------

#[test]
fn fme7_mirroring_default_from_header() {
    let fme = Fme7::new(make_prg(8), make_chr(8), Mirroring::Horizontal, false);
    assert_eq!(fme.mirror_mode(), Mirroring::Horizontal);
}

#[test]
fn mirroring_switchable_via_command_12() {
    let mut fme = Fme7::new(make_prg(8), make_chr(8), Mirroring::Vertical, false);
    cmd(&mut fme, 12, 0x01); // horizontal
    assert_eq!(fme.mirror_mode(), Mirroring::Horizontal);
    cmd(&mut fme, 12, 0x00); // vertical
    assert_eq!(fme.mirror_mode(), Mirroring::Vertical);
}

// ---- PRG-RAM -------------------------------------------------------

#[test]
fn prg_ram_disabled_reads_zero() {
    let fme = Fme7::new(make_prg(8), make_chr(8), Mirroring::Vertical, false);
    assert_eq!(fme.read_prg(0x6000), 0x00);
}

#[test]
fn prg_ram_enable_via_command_13() {
    let mut fme = Fme7::new(make_prg(8), make_chr(8), Mirroring::Vertical, false);
    cmd(&mut fme, 13, 0x80); // enable PRG-RAM
    fme.write_prg(0x6000, 0x42);
    assert_eq!(fme.read_prg(0x6000), 0x42);
}

#[test]
fn fme7_prg_ram_write_protect_blocks_writes() {
    let mut fme = Fme7::new(make_prg(8), make_chr(8), Mirroring::Vertical, false);
    cmd(&mut fme, 13, 0xC0); // enable + write protect
    fme.write_prg(0x6000, 0x42);
    assert_eq!(fme.read_prg(0x6000), 0x00); // write blocked
}

// ---- IRQ -----------------------------------------------------------

#[test]
fn irq_latch_loaded_via_two_writes() {
    let mut fme = Fme7::new(make_prg(8), make_chr(8), Mirroring::Vertical, false);
    // Command 14: write low byte 0x34, then high byte 0x12 → latch 0x1234.
    cmd(&mut fme, 14, 0x34);
    cmd(&mut fme, 14, 0x12);
    assert_eq!(fme.irq_latch, 0x1234);
}

#[test]
fn irq_fires_after_counter_reaches_zero() {
    let mut fme = Fme7::new(make_prg(8), make_chr(8), Mirroring::Vertical, false);
    // Latch = 0x0005.
    cmd(&mut fme, 14, 0x05);
    cmd(&mut fme, 14, 0x00);
    // Enable via command 15 bit 0 — this reloads the counter to 5.
    cmd(&mut fme, 15, 0x01);
    assert!(!fme.irq_pending());
    // 5 cycles: 5→4→3→2→1→0. No fire yet (fire happens on the reload
    // when the counter is 0 and is clocked again).
    fme.clock_cpu(5);
    assert!(!fme.irq_pending());
    // 1 more: 0→reload(5) + fire.
    fme.clock_cpu(1);
    assert!(fme.irq_pending());
}

#[test]
fn fme7_irq_disabled_does_not_fire() {
    let mut fme = Fme7::new(make_prg(8), make_chr(8), Mirroring::Vertical, false);
    cmd(&mut fme, 14, 0x01);
    cmd(&mut fme, 14, 0x00);
    // Don't enable.
    fme.clock_cpu(100);
    assert!(!fme.irq_pending());
}

#[test]
fn fme7_irq_acknowledge_clears_pending() {
    let mut fme = Fme7::new(make_prg(8), make_chr(8), Mirroring::Vertical, false);
    cmd(&mut fme, 14, 0x01);
    cmd(&mut fme, 14, 0x00);
    cmd(&mut fme, 15, 0x01); // enable
    fme.clock_cpu(4); // fire
    assert!(fme.irq_pending());
    cmd(&mut fme, 15, 0x02); // enable + acknowledge
    assert!(!fme.irq_pending());
}

#[test]
fn irq_continues_after_fire_when_enabled() {
    // Unlike VRC6 one-shot, FME-7 keeps firing every latch period while
    // enabled (the counter reloads and continues).
    let mut fme = Fme7::new(make_prg(8), make_chr(8), Mirroring::Vertical, false);
    cmd(&mut fme, 14, 0x02);
    cmd(&mut fme, 14, 0x00);
    cmd(&mut fme, 15, 0x01); // enable
    fme.clock_cpu(4); // first fire (0→reload 2→1→0→reload+fire)
    assert!(fme.irq_pending());
    cmd(&mut fme, 15, 0x02); // ack
                             // Continue clocking; should fire again.
    fme.clock_cpu(4);
    assert!(fme.irq_pending());
}

// ---- Battery -------------------------------------------------------

#[test]
fn fme7_battery_sram_round_trips() {
    let mut fme = Fme7::new(make_prg(8), make_chr(8), Mirroring::Vertical, true);
    cmd(&mut fme, 13, 0x80); // enable PRG-RAM
    fme.write_prg(0x6000, 0xCD);
    let saved = fme.battery_sram().expect("battery");
    let mut fme2 = Fme7::new(make_prg(8), make_chr(8), Mirroring::Vertical, true);
    cmd(&mut fme2, 13, 0x80);
    fme2.load_battery_sram(&saved);
    assert_eq!(fme2.read_prg(0x6000), 0xCD);
}
