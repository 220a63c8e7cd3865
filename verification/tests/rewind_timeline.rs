use nes_emu::osd::OSD_FG_ARGB;
use nes_emu::rewind_timeline::{
    blend, render_timeline, timeline_label_text, TimelineConfig, TimelineMode, BAR_H, BAR_W, BAR_X, BAR_Y,
    BORDER_THICKNESS, MAX_OPACITY, TEXT_Y, TIMELINE_BORDER, TIMELINE_BRANCH_MARKER, TIMELINE_EMPTY, TIMELINE_FILLED,
    TIMELINE_FORWARD, TIMELINE_MARKER, TIMELINE_MARKER_DIM,
};

const W: u32 = 256;
const H: u32 = 240;

fn font() -> Vec<[u8; 8]> {
    let mut f = vec![[0u8; 8]; 128];
    for c in 33..127usize {
        f[c] = [0x7E, 0x60, 0x60, 0x7C, 0x60, 0x60, 0x60, 0x00];
    }
    f
}

fn cfg(filled: usize, capacity: usize, mode: TimelineMode) -> TimelineConfig {
    TimelineConfig {
        filled,
        capacity,
        mode,
        rewind_interval: 2,
        opacity: MAX_OPACITY,
        anim_frame: 0,
        speed: 1,
        forward_filled: 0,
        branches: Vec::new(),
    }
}

fn render(fb: &mut [u32], c: &TimelineConfig) {
    render_timeline(fb, W, H, c, &font());
}

#[test]
fn render_full_buffer() {
    let mut fb = vec![0u32; (W * H) as usize];
    render(&mut fb, &cfg(300, 300, TimelineMode::Buffer));
    let green_count = fb.iter().filter(|&&p| p == TIMELINE_FILLED).count();
    assert!(green_count > 0, "expected green pixels for full buffer");
    let marker_x = BAR_X + BAR_W;
    let has_marker = (BAR_Y..BAR_Y + BAR_H).any(|y| fb[(y * W + marker_x) as usize] == TIMELINE_MARKER);
    assert!(has_marker, "expected marker at right edge");
}

#[test]
fn render_half_buffer_rewind() {
    let mut fb = vec![0u32; (W * H) as usize];
    render(&mut fb, &cfg(150, 300, TimelineMode::Rewind));
    let filled_w = (BAR_W as usize * 150 / 300) as u32;
    let mid_filled = BAR_X + filled_w / 2 + 1;
    assert_eq!(fb[((BAR_Y + BAR_H / 2) * W + mid_filled) as usize], TIMELINE_FILLED, "expected green in filled portion");
    let empty_x = BAR_X + filled_w + 10;
    assert_eq!(fb[((BAR_Y + BAR_H / 2) * W + empty_x) as usize], TIMELINE_EMPTY, "expected dark gray in empty portion");
    let marker_x = BAR_X + filled_w;
    let has_marker = (BAR_Y..BAR_Y + BAR_H).any(|y| fb[(y * W + marker_x) as usize] == TIMELINE_MARKER);
    assert!(has_marker, "expected marker at fill boundary");
}

#[test]
fn render_empty_buffer() {
    let mut fb = vec![0u32; (W * H) as usize];
    render(&mut fb, &cfg(0, 300, TimelineMode::Rewind));
    let green_count = fb.iter().filter(|&&p| p == TIMELINE_FILLED).count();
    assert_eq!(green_count, 0, "expected no green for empty buffer");
    let has_marker = (BAR_Y..BAR_Y + BAR_H).any(|y| fb[(y * W + BAR_X) as usize] == TIMELINE_MARKER);
    assert!(has_marker, "expected marker at left edge for empty buffer");
}

#[test]
fn render_zero_capacity_no_panic() {
    let mut fb = vec![0u32; (W * H) as usize];
    let c = TimelineConfig { capacity: 0, ..cfg(0, 0, TimelineMode::Rewind) };
    render(&mut fb, &c);
    assert!(fb.iter().all(|&p| p == 0));
}

#[test]
fn render_wrong_fb_size_no_panic() {
    let mut fb = vec![0u32; 100];
    render(&mut fb, &cfg(10, 300, TimelineMode::Rewind));
    assert!(fb.iter().all(|&p| p == 0));
}

#[test]
fn border_pixels_present() {
    let mut fb = vec![0u32; (W * H) as usize];
    render(&mut fb, &cfg(100, 300, TimelineMode::Buffer));
    let bx = BAR_X.saturating_sub(BORDER_THICKNESS);
    let by = BAR_Y.saturating_sub(BORDER_THICKNESS);
    assert_eq!(fb[(by * W + bx) as usize], TIMELINE_BORDER);
}

#[test]
fn text_pixels_present() {
    let mut fb = vec![0u32; (W * H) as usize];
    render(&mut fb, &cfg(100, 300, TimelineMode::Buffer));
    let fg_count = fb.iter().filter(|&&p| p == OSD_FG_ARGB).count();
    assert!(fg_count > 0, "expected white text pixels");
}

#[test]
fn tick_marks_present() {
    let mut fb = vec![0u32; (W * H) as usize];
    render(&mut fb, &cfg(300, 300, TimelineMode::Buffer));
    let tick_x = BAR_X + BAR_W / 4;
    let has_tick = (BAR_Y..BAR_Y + BAR_H).any(|y| fb[(y * W + tick_x) as usize] == TIMELINE_BORDER);
    assert!(has_tick, "expected 25% tick mark");
}

#[test]
fn opacity_zero_is_noop() {
    let mut fb = vec![0x12345678u32; (W * H) as usize];
    let c = TimelineConfig { opacity: 0, ..cfg(100, 300, TimelineMode::Rewind) };
    render(&mut fb, &c);
    assert!(fb.iter().all(|&p| p == 0x12345678), "no pixels should change at opacity 0");
}

#[test]
fn opacity_partial_blends() {
    let mut fb = vec![0xFF0000FFu32; (W * H) as usize];
    let c = TimelineConfig { opacity: 2, anim_frame: 0, ..cfg(300, 300, TimelineMode::Buffer) };
    render(&mut fb, &c);
    let mid_x = BAR_X + BAR_W / 2;
    let mid_y = BAR_Y + BAR_H / 2;
    let pixel = fb[(mid_y * W + mid_x) as usize];
    assert_ne!(pixel, TIMELINE_FILLED, "should not be pure green at partial opacity");
    assert_ne!(pixel, 0xFF0000FF, "should not be pure blue at partial opacity");
}

#[test]
fn pulse_alternates_marker_color() {
    let mut fb1 = vec![0u32; (W * H) as usize];
    let c1 = TimelineConfig { anim_frame: 0, ..cfg(150, 300, TimelineMode::Rewind) };
    render(&mut fb1, &c1);
    let mut fb2 = vec![0u32; (W * H) as usize];
    let c2 = TimelineConfig { anim_frame: 8, ..cfg(150, 300, TimelineMode::Rewind) };
    render(&mut fb2, &c2);
    let filled_w = (BAR_W as usize * 150 / 300) as u32;
    let marker_x = BAR_X + filled_w;
    assert_eq!(fb1[(BAR_Y * W + marker_x) as usize], TIMELINE_MARKER, "frame 0 should be bright marker");
    assert_eq!(fb2[(BAR_Y * W + marker_x) as usize], TIMELINE_MARKER_DIM, "frame 8 should be dim marker");
}

#[test]
fn forward_mode_marker_at_fill_boundary() {
    let mut fb = vec![0u32; (W * H) as usize];
    render(&mut fb, &cfg(150, 300, TimelineMode::Forward));
    let filled_w = (BAR_W as usize * 150 / 300) as u32;
    let marker_x = BAR_X + filled_w;
    let has_marker = (BAR_Y..BAR_Y + BAR_H).any(|y| fb[(y * W + marker_x) as usize] == TIMELINE_MARKER);
    assert!(has_marker, "forward mode marker should be at fill boundary");
}

#[test]
fn speed_shown_in_label() {
    let mut fb = vec![0u32; (W * H) as usize];
    let c = TimelineConfig { speed: 4, ..cfg(100, 300, TimelineMode::Rewind) };
    render(&mut fb, &c);
    let fg_count = fb.iter().filter(|&&p| p == OSD_FG_ARGB).count();
    assert!(fg_count > 0, "expected text pixels with speed label");
    assert_eq!(timeline_label_text(&c), "REWIND x4 F:200/600");
}

#[test]
fn forward_label_present() {
    let mut fb = vec![0u32; (W * H) as usize];
    render(&mut fb, &cfg(100, 300, TimelineMode::Forward));
    let f_x = BAR_X + 1;
    let f_y = TEXT_Y;
    assert_eq!(fb[(f_y * W + f_x) as usize], OSD_FG_ARGB, "expected 'F' glyph pixel for FORWARD label");
}

#[test]
fn blend_full_opacity_returns_fg() {
    assert_eq!(blend(0xFF00FF00, 0xFF0000FF, MAX_OPACITY), 0xFF00FF00);
}

#[test]
fn blend_zero_opacity_returns_bg() {
    assert_eq!(blend(0xFF00FF00, 0xFF0000FF, 0), 0xFF0000FF);
}

#[test]
fn blend_half_opacity_averages() {
    let result = blend(0xFFFFFFFF, 0xFF000000, 2);
    let r = (result >> 16) & 0xFF;
    assert_eq!(r, 0x7F, "half opacity should average to 0x7F");
}

#[test]
fn labels_per_mode() {
    assert_eq!(timeline_label_text(&cfg(10, 300, TimelineMode::Buffer)), "BUFFER  F:20/600");
    assert_eq!(timeline_label_text(&cfg(10, 300, TimelineMode::Rewind)), "REWIND  F:20/600");
    let c = TimelineConfig { speed: 2, ..cfg(1, 5, TimelineMode::Forward) };
    assert_eq!(timeline_label_text(&c), "FORWARD x2 F:2/10");
}

#[test]
fn forward_fill_follows_rewind_fill() {
    let mut fb = vec![0u32; (W * H) as usize];
    let c = TimelineConfig { forward_filled: 30, ..cfg(150, 300, TimelineMode::Rewind) };
    render(&mut fb, &c);
    let x = BAR_X + 124 + 5;
    assert_eq!(fb[((BAR_Y + 2) * W + x) as usize], TIMELINE_FORWARD);
}

#[test]
fn branch_marker_drawn_above_bar() {
    let mut fb = vec![0u32; (W * H) as usize];
    let c = TimelineConfig { branches: vec![(150, 30, 0, 0)], ..cfg(200, 300, TimelineMode::Buffer) };
    render(&mut fb, &c);
    let div_x = BAR_X + 124;
    assert_eq!(fb[((BAR_Y - 4) * W + div_x) as usize], TIMELINE_BORDER);
    assert_eq!(fb[((BAR_Y - 1) * W + div_x) as usize], TIMELINE_BRANCH_MARKER);
}
