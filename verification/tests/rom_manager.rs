use nes_emu::mappers::Mirroring;
use nes_emu::region::Region;
use nes_emu::rom_manager::{
    build_rom_info, file_name_from_path, truncate_for_osd, RomHeader, RomInfo, RomManager, CHR_ROM_UNIT,
    PRG_ROM_UNIT, RECENT_ROM_MAX,
};

fn fake_header(mapper: u16, mirroring: Mirroring) -> RomHeader {
    RomHeader {
        prg_rom_banks: 2,
        chr_rom_banks: 1,
        mapper_number: mapper,
        mirroring,
        has_trainer: false,
        has_battery: false,
        region_hint: None,
    }
}

#[test]
fn record_loaded_rom_inserts_at_head() {
    let mut rm = RomManager::new(vec![]);
    rm.record_loaded_rom("/a.nes");
    rm.record_loaded_rom("/b.nes");
    assert_eq!(rm.recent_roms(), &["/b.nes".to_string(), "/a.nes".to_string()]);
}

#[test]
fn record_loaded_rom_deduplicates_and_moves_to_front() {
    let mut rm = RomManager::new(vec!["/a.nes".into(), "/b.nes".into()]);
    rm.record_loaded_rom("/b.nes");
    assert_eq!(rm.recent_roms(), &["/b.nes".to_string(), "/a.nes".to_string()]);
    let returned = rm.record_loaded_rom("/a.nes");
    assert_eq!(returned, vec!["/a.nes".to_string(), "/b.nes".to_string()]);
}

#[test]
fn record_loaded_rom_caps_at_max() {
    let mut rm = RomManager::new(vec![]);
    for i in 0..(RECENT_ROM_MAX + 5) {
        rm.record_loaded_rom(&format!("/{i}.nes"));
    }
    assert_eq!(rm.recent_roms().len(), RECENT_ROM_MAX);
    assert_eq!(rm.recent_roms()[0], format!("/{}.nes", RECENT_ROM_MAX + 4));
}

#[test]
fn pending_drop_queue_and_take() {
    let mut rm = RomManager::new(vec![]);
    assert!(!rm.has_pending_drop());
    rm.queue_drop("/dropped.nes".to_string());
    assert!(rm.has_pending_drop());
    assert_eq!(rm.take_pending_drop(), Some("/dropped.nes".to_string()));
    assert!(!rm.has_pending_drop());
    assert!(rm.take_pending_drop().is_none());
}

#[test]
fn pending_drop_overwrites_earlier() {
    let mut rm = RomManager::new(vec![]);
    rm.queue_drop("/first.nes".to_string());
    rm.queue_drop("/second.nes".to_string());
    assert_eq!(rm.take_pending_drop(), Some("/second.nes".to_string()));
}

#[test]
fn info_overlay_toggle() {
    let mut rm = RomManager::new(vec![]);
    assert!(!rm.info_overlay_enabled());
    assert!(rm.toggle_info_overlay());
    assert!(rm.info_overlay_enabled());
    assert!(!rm.toggle_info_overlay());
    assert!(!rm.info_overlay_enabled());
}

#[test]
fn info_lines_empty_when_overlay_disabled() {
    let rm = RomManager::new(vec![]);
    let info = build_rom_info(&fake_header(0, Mirroring::Horizontal), "game.nes", 40976, Region::Ntsc);
    assert!(rm.info_lines(&info).is_empty());
}

#[test]
fn info_lines_show_mapper_prg_chr_mirroring() {
    let mut rm = RomManager::new(vec![]);
    rm.set_info_overlay(true);
    let info = build_rom_info(&fake_header(4, Mirroring::Vertical), "game.nes", 40976, Region::Ntsc);
    let lines = rm.info_lines(&info);
    assert_eq!(lines.len(), 4);
    assert!(lines[1].contains("MAP:4"));
    assert!(lines[1].contains("PRG:32K"));
    assert!(lines[1].contains("CHR:8K"));
    assert!(lines[2].contains("MIR:V"));
    assert_eq!(lines[0], "ROM:game.nes (40976B)");
    assert_eq!(lines[2], "MIR:V ---- --- auto");
    assert_eq!(lines[3], "REGION:NTSC");
}

#[test]
fn info_lines_show_battery_and_trainer_flags() {
    let mut rm = RomManager::new(vec![]);
    rm.set_info_overlay(true);
    let mut h = fake_header(1, Mirroring::Horizontal);
    h.has_battery = true;
    h.has_trainer = true;
    let info = build_rom_info(&h, "game.nes", 32768, Region::Ntsc);
    let lines = rm.info_lines(&info);
    assert!(lines[2].contains("BATT"));
    assert!(lines[2].contains("TRN"));
}

#[test]
fn info_lines_show_region_hint_and_resolved() {
    let mut rm = RomManager::new(vec![]);
    rm.set_info_overlay(true);
    let mut h = fake_header(0, Mirroring::SingleScreen(1));
    h.region_hint = Some(Region::Pal);
    let info = build_rom_info(&h, "game.nes", 32768, Region::Pal);
    let lines = rm.info_lines(&info);
    assert_eq!(lines[2], "MIR:1SB ---- --- PAL");
    assert!(lines[3].contains("PAL"));
}

#[test]
fn info_lines_truncate_long_file_names() {
    let mut rm = RomManager::new(vec![]);
    rm.set_info_overlay(true);
    let info = build_rom_info(
        &fake_header(0, Mirroring::Horizontal),
        "this_is_a_very_long_rom_file_name_that_exceeds_the_osd_width.nes",
        32768,
        Region::Ntsc,
    );
    let lines = rm.info_lines(&info);
    assert!(lines[0].contains(".."));
    assert_eq!(lines[0], "ROM:this_is_a_very_lon.. (32768B)");
}

#[test]
fn recent_lines_numbered_one_based() {
    let rm = RomManager::new(vec!["/a.nes".into(), "/b.nes".into()]);
    let lines = rm.recent_lines();
    assert_eq!(lines.len(), 2);
    assert!(lines[0].starts_with("1:/a.nes"));
    assert!(lines[1].starts_with("2:/b.nes"));
}

#[test]
fn recent_lines_empty_when_no_roms() {
    let rm = RomManager::new(vec![]);
    assert!(rm.recent_lines().is_empty());
}

#[test]
fn set_recent_roms_caps_at_max() {
    let mut rm = RomManager::new(vec![]);
    let mut many = Vec::new();
    for i in 0..(RECENT_ROM_MAX + 3) {
        many.push(format!("/{i}.nes"));
    }
    rm.set_recent_roms(many);
    assert_eq!(rm.recent_roms().len(), RECENT_ROM_MAX);
}

#[test]
fn build_rom_info_prg_chr_sizes() {
    let mut h = fake_header(0, Mirroring::Horizontal);
    h.prg_rom_banks = 4;
    h.chr_rom_banks = 2;
    let info = build_rom_info(&h, "g.nes", 0, Region::Ntsc);
    assert_eq!(info.prg_rom_size, 4 * PRG_ROM_UNIT);
    assert_eq!(info.chr_rom_size, 2 * CHR_ROM_UNIT);
}

#[test]
fn file_name_from_path_keeps_extension() {
    assert_eq!(file_name_from_path("/some/dir/game.nes.gz"), "game.nes.gz");
}

#[test]
fn file_name_from_path_handles_root() {
    assert_eq!(file_name_from_path("game.nes"), "game.nes");
    assert_eq!(file_name_from_path("/"), "?");
}

#[test]
fn truncate_for_osd_short_string_unchanged() {
    assert_eq!(truncate_for_osd("short", 10), "short");
}

#[test]
fn truncate_for_osd_long_string_gets_ellipsis() {
    let s = "x".repeat(30);
    let t = truncate_for_osd(&s, 10);
    assert_eq!(t.chars().count(), 10);
    assert!(t.ends_with(".."));
}

#[test]
fn rom_info_default_is_empty() {
    let info = RomInfo::default();
    assert_eq!(info.file_name, "");
    assert_eq!(info.region, Region::Ntsc);
}

#[test]
fn render_info_overlay_draws_only_when_enabled() {
    let mut rm = RomManager::new(vec![]);
    let info = build_rom_info(&fake_header(0, Mirroring::Horizontal), "g.nes", 1, Region::Ntsc);
    let glyphs = vec![[0xFFu8; 8]; 128];
    let mut fb = vec![7u32; 256 * 240];
    rm.render_info_overlay(&mut fb, 256, 240, &info, &glyphs);
    assert!(fb.iter().all(|&p| p == 7));
    rm.set_info_overlay(true);
    rm.render_info_overlay(&mut fb, 256, 240, &info, &glyphs);
    assert_eq!(fb[0], 0xFFFF_FFFF);
    assert_eq!(fb[256 * 100], 7);
}
