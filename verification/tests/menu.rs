use nes_emu::menu::keys::{
    keycode_to_name, KEY_A, KEY_BACKQUOTE, KEY_BACKSLASH, KEY_BACKSPACE, KEY_CAPSLOCK, KEY_DELETE, KEY_DOWN, KEY_END,
    KEY_ESCAPE, KEY_F1, KEY_F11, KEY_F12, KEY_HOME, KEY_INSERT, KEY_LCTRL, KEY_LEFT, KEY_LEFTBRACKET, KEY_NUM0,
    KEY_PAGEDOWN, KEY_PAGEUP, KEY_QUOTE, KEY_RALT, KEY_RETURN, KEY_RIGHT, KEY_RSHIFT, KEY_SPACE, KEY_TAB, KEY_UP,
    KEY_Z,
};
use nes_emu::menu::{Menu, MenuLimits, MenuPage};

fn limits() -> MenuLimits {
    MenuLimits {
        max_rewind_capacity: 600,
        max_countdown_delay_ms: 2000,
        max_countdown_start: 9,
        rewind_interval: 2,
        turbo_speed_count: 4,
        default_turbo_index: 1,
    }
}

fn button_names() -> [&'static str; 8] {
    ["A", "B", "Select", "Start", "Up", "Down", "Left", "Right"]
}

#[test]
fn menu_starts_closed() {
    let m = Menu::new(limits());
    assert!(!m.is_open());
}

#[test]
fn open_sets_main_page() {
    let mut m = Menu::new(limits());
    m.open();
    assert!(m.is_open());
    assert_eq!(m.page(), MenuPage::Main);
    assert_eq!(m.selection(), 0);
}

#[test]
fn close_resets_state() {
    let mut m = Menu::new(limits());
    m.open();
    m.close();
    assert!(!m.is_open());
}

#[test]
fn navigate_down_wraps() {
    let mut m = Menu::new(limits());
    m.open();
    m.handle_key(KEY_DOWN);
    assert_eq!(m.selection(), 1);
    m.handle_key(KEY_DOWN);
    assert_eq!(m.selection(), 2);
    m.handle_key(KEY_DOWN);
    assert_eq!(m.selection(), 3);
    m.handle_key(KEY_DOWN);
    assert_eq!(m.selection(), 4);
    m.handle_key(KEY_DOWN);
    assert_eq!(m.selection(), 5);
    m.handle_key(KEY_DOWN);
    assert_eq!(m.selection(), 0);
}

#[test]
fn navigate_up_wraps() {
    let mut m = Menu::new(limits());
    m.open();
    m.handle_key(KEY_UP);
    assert_eq!(m.selection(), 5);
}

#[test]
fn enter_debug_page() {
    let mut m = Menu::new(limits());
    m.open();
    m.handle_key(KEY_RETURN);
    assert_eq!(m.page(), MenuPage::Debug);
    assert_eq!(m.selection(), 0);
}

#[test]
fn toggle_slant_corruption() {
    let mut m = Menu::new(limits());
    m.open();
    m.handle_key(KEY_RETURN);
    assert!(!m.slant_corruption());
    m.handle_key(KEY_RETURN);
    assert!(m.slant_corruption());
    m.handle_key(KEY_RETURN);
    assert!(!m.slant_corruption());
}

#[test]
fn toggle_inaccurate_palette() {
    let mut m = Menu::new(limits());
    m.open();
    m.handle_key(KEY_RETURN);
    m.handle_key(KEY_DOWN);
    assert!(!m.inaccurate_palette());
    m.handle_key(KEY_RETURN);
    assert!(m.inaccurate_palette());
    m.handle_key(KEY_RETURN);
    assert!(!m.inaccurate_palette());
}

#[test]
fn enter_controller1_page() {
    let mut m = Menu::new(limits());
    m.open();
    m.handle_key(KEY_DOWN);
    m.handle_key(KEY_DOWN);
    m.handle_key(KEY_DOWN);
    m.handle_key(KEY_RETURN);
    assert_eq!(m.page(), MenuPage::Controller1);
    assert_eq!(m.selection(), 0);
}

#[test]
fn rebind_mode_captures_key() {
    let mut m = Menu::new(limits());
    m.open();
    m.handle_key(KEY_DOWN);
    m.handle_key(KEY_DOWN);
    m.handle_key(KEY_DOWN);
    m.handle_key(KEY_RETURN);
    m.handle_key(KEY_RETURN);
    assert_eq!(m.rebind_button(), Some(0));
    m.handle_key(KEY_Z);
    assert_eq!(m.rebind_button(), None);
    let bindings = m.take_pending_bindings();
    assert_eq!(bindings.len(), 1);
    assert_eq!(bindings[0], (0, 0, KEY_Z));
}

#[test]
fn rebind_mode_escape_cancels() {
    let mut m = Menu::new(limits());
    m.open();
    m.handle_key(KEY_DOWN);
    m.handle_key(KEY_DOWN);
    m.handle_key(KEY_DOWN);
    m.handle_key(KEY_RETURN);
    m.handle_key(KEY_RETURN);
    assert_eq!(m.rebind_button(), Some(0));
    m.handle_key(KEY_ESCAPE);
    assert_eq!(m.rebind_button(), None);
    assert!(m.take_pending_bindings().is_empty());
}

#[test]
fn escape_from_main_closes_menu() {
    let mut m = Menu::new(limits());
    m.open();
    m.handle_key(KEY_ESCAPE);
    assert!(!m.is_open());
}

#[test]
fn escape_from_subpage_goes_back() {
    let mut m = Menu::new(limits());
    m.open();
    m.handle_key(KEY_RETURN);
    m.handle_key(KEY_ESCAPE);
    assert_eq!(m.page(), MenuPage::Main);
    assert!(m.is_open());
}

#[test]
fn backspace_goes_back() {
    let mut m = Menu::new(limits());
    m.open();
    m.handle_key(KEY_DOWN);
    m.handle_key(KEY_DOWN);
    m.handle_key(KEY_DOWN);
    m.handle_key(KEY_RETURN);
    m.handle_key(KEY_BACKSPACE);
    assert_eq!(m.page(), MenuPage::Main);
}

#[test]
fn menu_consumes_all_keys_when_open() {
    let mut m = Menu::new(limits());
    m.open();
    assert!(m.handle_key(KEY_F1));
    assert!(m.handle_key(KEY_SPACE));
    assert!(m.handle_key(KEY_A));
}

#[test]
fn menu_does_not_consume_when_closed() {
    let mut m = Menu::new(limits());
    assert!(!m.handle_key(KEY_F1));
    assert!(!m.handle_key(KEY_A));
}

#[test]
fn close_menu_item_works() {
    let mut m = Menu::new(limits());
    m.open();
    for _ in 0..5 {
        m.handle_key(KEY_DOWN);
    }
    assert_eq!(m.selection(), 5);
    m.handle_key(KEY_RETURN);
    assert!(!m.is_open());
}

#[test]
fn keycode_to_name_covers_common_keys() {
    assert_eq!(keycode_to_name(KEY_A), "A");
    assert_eq!(keycode_to_name(KEY_RETURN), "Return");
    assert_eq!(keycode_to_name(KEY_UP), "Up");
    assert_eq!(keycode_to_name(KEY_SPACE), "Space");
    assert_eq!(keycode_to_name(KEY_F12), "F12");
}

#[test]
fn key_codes_are_sdl_key_codes() {
    assert_eq!(KEY_A, 97);
    assert_eq!(KEY_RETURN, 13);
    assert_eq!(KEY_ESCAPE, 27);
    assert_eq!(KEY_UP, 0x4000_0052);
    assert_eq!(KEY_F1, 0x4000_003A);
}

#[test]
fn keycode_names_of_every_named_key() {
    let cases: [(i32, &str); 24] = [
        (KEY_NUM0, "0"),
        (KEY_NUM0 + 7, "7"),
        (KEY_BACKSPACE, "Backspace"),
        (KEY_TAB, "Tab"),
        (KEY_ESCAPE, "Escape"),
        (KEY_LEFTBRACKET, "["),
        (KEY_BACKSLASH, "\\"),
        (KEY_BACKQUOTE, "`"),
        (KEY_CAPSLOCK, "CapsLk"),
        (KEY_LCTRL, "LCtrl"),
        (KEY_RSHIFT, "RShift"),
        (KEY_RALT, "RAlt"),
        (KEY_F1 + 8, "F9"),
        (KEY_F1 + 9, "F10"),
        (KEY_F11, "F11"),
        (KEY_HOME, "Home"),
        (KEY_END, "End"),
        (KEY_PAGEUP, "PgUp"),
        (KEY_PAGEDOWN, "PgDn"),
        (KEY_INSERT, "Ins"),
        (KEY_DELETE, "Del"),
        (KEY_QUOTE, "'"),
        (KEY_Z, "Z"),
        (0x4000_0058, "???"),
    ];
    for (k, name) in cases.iter() {
        assert_eq!(keycode_to_name(*k), *name);
    }
}

#[test]
fn up_then_down_returns_to_same_item() {
    let mut m = Menu::new(limits());
    m.open();
    m.handle_key(KEY_DOWN);
    m.handle_key(KEY_DOWN);
    m.handle_key(KEY_UP);
    m.handle_key(KEY_DOWN);
    assert_eq!(m.selection(), 2);
}

#[test]
fn rewind_capacity_steps_and_clamps() {
    let mut m = Menu::new(limits());
    m.open();
    m.handle_key(KEY_DOWN);
    m.handle_key(KEY_RETURN);
    assert_eq!(m.page(), MenuPage::Rewind);
    m.handle_key(KEY_RIGHT);
    assert_eq!(m.effective_rewind_capacity(), 70);
    m.set_rewind_capacity_display(95);
    m.take_pending_rewind_capacity();
    m.handle_key(KEY_RIGHT);
    assert_eq!(m.effective_rewind_capacity(), 105);
    m.handle_key(KEY_RIGHT);
    assert_eq!(m.effective_rewind_capacity(), 205);
    m.set_rewind_capacity_display(580);
    m.take_pending_rewind_capacity();
    m.handle_key(KEY_RIGHT);
    assert_eq!(m.take_pending_rewind_capacity(), Some(600));
    m.set_rewind_capacity_display(8);
    m.handle_key(KEY_LEFT);
    assert_eq!(m.take_pending_rewind_capacity(), Some(1));
}

#[test]
fn turbo_index_wraps() {
    let mut m = Menu::new(limits());
    m.open();
    m.handle_key(KEY_DOWN);
    m.handle_key(KEY_DOWN);
    m.handle_key(KEY_RETURN);
    assert_eq!(m.page(), MenuPage::Turbo);
    assert_eq!(m.effective_turbo_index(), 1);
    m.handle_key(KEY_LEFT);
    m.handle_key(KEY_LEFT);
    assert_eq!(m.effective_turbo_index(), 3);
    m.handle_key(KEY_RIGHT);
    assert_eq!(m.take_pending_turbo_index(), Some(0));
}

#[test]
fn build_lines_main_page() {
    let mut m = Menu::new(limits());
    m.open();
    m.handle_key(KEY_DOWN);
    let lines = m.build_lines(&[[None; 8]; 2], &button_names(), "1.00");
    assert_eq!(
        lines,
        vec![
            "== NES-EMU MENU ==",
            "  Debug Options",
            "> Rewind Settings",
            "  Turbo Speed",
            "  Controller 1 Keys",
            "  Controller 2 Keys",
            "  Close Menu",
        ]
    );
}

#[test]
fn build_lines_rewind_page_numbers() {
    let mut m = Menu::new(limits());
    m.open();
    m.handle_key(KEY_DOWN);
    m.handle_key(KEY_RETURN);
    m.set_countdown_delay_display(0);
    let lines = m.build_lines(&[[None; 8]; 2], &button_names(), "1.00");
    assert_eq!(lines[1], "> Capacity: 60 (~2s) < >");
    assert_eq!(lines[2], "  Branching: ON < >");
    assert_eq!(lines[4], "  Countdown Delay: OFF < >");
    assert_eq!(lines[5], "  Countdown Start: 3 < >");
    m.set_countdown_delay_display(1500);
    let lines = m.build_lines(&[[None; 8]; 2], &button_names(), "1.00");
    assert_eq!(lines[4], "  Countdown Delay: 1500ms < >");
}

#[test]
fn build_lines_controller_page_shows_pending_binding() {
    let mut m = Menu::new(limits());
    m.open();
    for _ in 0..4 {
        m.handle_key(KEY_DOWN);
    }
    m.handle_key(KEY_RETURN);
    assert_eq!(m.page(), MenuPage::Controller2);
    let mut bound = [[None; 8]; 2];
    bound[1][0] = Some(KEY_A);
    m.handle_key(KEY_DOWN);
    m.handle_key(KEY_RETURN);
    let lines = m.build_lines(&bound, &button_names(), "1.00");
    assert_eq!(lines[0], "== CONTROLLER 2 ==");
    assert_eq!(lines[1], "  A: A");
    assert_eq!(lines[2], "> B: PRESS KEY...");
    assert_eq!(lines[3], "  Select: ---");
    m.handle_key((KEY_A + 23));
    let lines = m.build_lines(&bound, &button_names(), "1.00");
    assert_eq!(lines[2], "> B: X");
    assert_eq!(lines[9], "  Back");
}

#[test]
fn render_closed_menu_draws_nothing() {
    let m = Menu::new(limits());
    let mut fb = vec![0x1234_5678u32; 256 * 240];
    m.render(&mut fb, 256, 240, &[[None; 8]; 2], &button_names(), "1.00", &[]);
    assert!(fb.iter().all(|&p| p == 0x1234_5678));
}

#[test]
fn render_open_menu_border_band_and_text() {
    let mut m = Menu::new(limits());
    m.open();
    let mut glyphs = vec![[0u8; 8]; 128];
    glyphs['=' as usize] = [0xFF; 8];
    let mut fb = vec![0xFF64_6464u32; 256 * 240];
    m.render(&mut fb, 256, 240, &[[None; 8]; 2], &button_names(), "1.00", &glyphs);
    assert_eq!(fb[5], 0xFF40_40C0);
    assert_eq!(fb[256 * 8 + 8], 0xFF00_FFFF);
    assert_eq!(fb[256 * 4 + 100], 0xFF28_2828);
    assert_eq!(fb[256 * 100], 0xFF64_6464);
    assert_eq!(fb[256 * 16 + 8], 0xFF00_0010);
}
