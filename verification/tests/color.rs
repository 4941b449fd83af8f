use led_matrix_rs::{color, color_from_hue, is_running, Color, PanelConfig};
use std::sync::atomic::{AtomicBool, Ordering};

// ── PanelConfig ────────────────────────────────────────────────────

#[test]
fn panel_config_default_is_64x64() {
    let panel = PanelConfig::default();
    assert_eq!(panel.rows, 64);
    assert_eq!(panel.cols, 64);
}

#[test]
fn frame_byte_count_64x64() {
    assert_eq!(PanelConfig::new(64, 64).frame_byte_count(), 12288);
}

#[test]
fn frame_byte_count_32x32() {
    assert_eq!(PanelConfig::new(32, 32).frame_byte_count(), 3072);
}

#[test]
fn frame_byte_count_128x64() {
    assert_eq!(PanelConfig::new(128, 64).frame_byte_count(), 24576);
}

#[test]
fn frame_byte_count_32x64() {
    assert_eq!(PanelConfig::new(32, 64).frame_byte_count(), 6144);
}

#[test]
fn pixel_count_64x64() {
    assert_eq!(PanelConfig::new(64, 64).pixel_count(), 4096);
}

#[test]
fn pixel_count_32x32() {
    assert_eq!(PanelConfig::new(32, 32).pixel_count(), 1024);
}

#[test]
fn pixel_count_128x64() {
    assert_eq!(PanelConfig::new(128, 64).pixel_count(), 8192);
}

#[test]
fn panel_well_formedness() {
    assert!(PanelConfig::new(64, 64).is_well_formed());
    assert!(PanelConfig::new(1, 1).is_well_formed());
    assert!(!PanelConfig::new(0, 64).is_well_formed());
    assert!(!PanelConfig::new(64, 0).is_well_formed());
    // 3 * 1_431_655_765 is the largest 32-bit value.
    assert!(PanelConfig::new(1, 1_431_655_765).is_well_formed());
    assert!(!PanelConfig::new(1, 1_431_655_766).is_well_formed());
    assert!(!PanelConfig::new(65536, 65536).is_well_formed());
    assert!(!PanelConfig::new(u32::MAX, u32::MAX).is_well_formed());
}

// ── Color ──────────────────────────────────────────────────────────

#[test]
fn color_new() {
    let c = Color::new(10, 20, 30);
    assert_eq!(c.r, 10);
    assert_eq!(c.g, 20);
    assert_eq!(c.b, 30);
}

#[test]
fn color_from_hue_primary_red() {
    assert_eq!(Color::from_hue(0), Color::new(255, 0, 0));
}

#[test]
fn color_from_hue_primary_yellow() {
    assert_eq!(Color::from_hue(60), Color::new(255, 255, 0));
}

#[test]
fn color_from_hue_primary_green() {
    assert_eq!(Color::from_hue(120), Color::new(0, 255, 0));
}

#[test]
fn color_from_hue_primary_cyan() {
    assert_eq!(Color::from_hue(180), Color::new(0, 255, 255));
}

#[test]
fn color_from_hue_primary_blue() {
    assert_eq!(Color::from_hue(240), Color::new(0, 0, 255));
}

#[test]
fn color_from_hue_primary_magenta() {
    assert_eq!(Color::from_hue(300), Color::new(255, 0, 255));
}

#[test]
fn color_from_hue_wraps_at_360() {
    assert_eq!(Color::from_hue(0), Color::from_hue(360));
    assert_eq!(Color::from_hue(90), Color::from_hue(450));
}

#[test]
fn color_from_hue_is_periodic_for_every_hue() {
    for hue in 0..=u16::MAX {
        assert_eq!(Color::from_hue(hue), Color::from_hue(hue % 360), "hue {}", hue);
    }
}

/// The hue ramp in single precision: the rising channel is
/// `fraction * 255`, the falling one `(1 - fraction) * 255`, both truncated.
fn ramp_in_single_precision(hue: u16) -> Color {
    let hue = hue % 360;
    let sector = hue / 60;
    let fraction = ((hue % 60) as f32) / 60.0;
    let rising = (fraction * 255.0) as u8;
    let falling = ((1.0 - fraction) * 255.0) as u8;
    match sector {
        0 => Color::new(255, rising, 0),
        1 => Color::new(falling, 255, 0),
        2 => Color::new(0, 255, rising),
        3 => Color::new(0, falling, 255),
        4 => Color::new(rising, 0, 255),
        _ => Color::new(255, 0, falling),
    }
}

#[test]
fn color_from_hue_follows_the_single_precision_ramp() {
    for hue in 0..720u16 {
        assert_eq!(Color::from_hue(hue), ramp_in_single_precision(hue), "hue {}", hue);
    }
}

#[test]
fn color_from_hue_inside_sectors() {
    // 30 degrees into a sector: 30 * 255 / 60 = 127 both ways.
    assert_eq!(Color::from_hue(30), Color::new(255, 127, 0));
    assert_eq!(Color::from_hue(90), Color::new(127, 255, 0));
    assert_eq!(Color::from_hue(150), Color::new(0, 255, 127));
    assert_eq!(Color::from_hue(210), Color::new(0, 127, 255));
    assert_eq!(Color::from_hue(270), Color::new(127, 0, 255));
    assert_eq!(Color::from_hue(330), Color::new(255, 0, 127));
    // 1 degree: rising 4, falling 250.
    assert_eq!(Color::from_hue(1), Color::new(255, 4, 0));
    assert_eq!(Color::from_hue(61), Color::new(250, 255, 0));
    // 20 degrees into a falling sector: one below 170.
    assert_eq!(Color::from_hue(80), Color::new(169, 255, 0));
    // 24 degrees into a falling sector: exactly 153.
    assert_eq!(Color::from_hue(84), Color::new(153, 255, 0));
    assert_eq!(Color::from_hue(359), Color::new(255, 0, 4));
}

#[test]
fn apply_brightness_100_is_identity() {
    let c = Color::new(100, 200, 50);
    assert_eq!(c.apply_brightness(100), c);
}

#[test]
fn apply_brightness_above_100_is_identity() {
    let c = Color::new(100, 200, 50);
    assert_eq!(c.apply_brightness(255), c);
}

#[test]
fn apply_brightness_0_is_black() {
    let c = Color::new(255, 255, 255);
    assert_eq!(c.apply_brightness(0), Color::new(0, 0, 0));
}

#[test]
fn apply_brightness_50_halves() {
    let c = Color::new(200, 100, 50);
    let dimmed = c.apply_brightness(50);
    assert_eq!(dimmed, Color::new(100, 50, 25));
}

#[test]
fn apply_brightness_truncates() {
    // 255 * 75 / 100 = 191.25, 1 * 99 / 100 = 0.99, 3 * 50 / 100 = 1.5
    assert_eq!(Color::new(255, 1, 3).apply_brightness(75), Color::new(191, 0, 2));
    assert_eq!(Color::new(255, 1, 3).apply_brightness(99), Color::new(252, 0, 2));
    assert_eq!(Color::new(255, 1, 3).apply_brightness(50), Color::new(127, 0, 1));
}

#[test]
fn apply_brightness_laws_hold_for_every_channel_value() {
    for value in 0..=255u8 {
        let c = Color::new(value, 255 - value, value / 2);
        assert_eq!(c.apply_brightness(100), c);
        assert_eq!(c.apply_brightness(0), Color::new(0, 0, 0));
        for brightness in 101..=255u8 {
            assert_eq!(c.apply_brightness(brightness), c.apply_brightness(100));
        }
        for brightness in 0..100u8 {
            let dimmed = c.apply_brightness(brightness);
            assert_eq!(dimmed.r as u32, value as u32 * brightness as u32 / 100);
            assert!(dimmed.r <= c.r && dimmed.g <= c.g && dimmed.b <= c.b);
        }
    }
}

#[test]
fn dim_channel_matches_color() {
    assert_eq!(led_matrix_rs::dim_channel(200, 50), 100);
    assert_eq!(led_matrix_rs::dim_channel(200, 100), 200);
    assert_eq!(led_matrix_rs::dim_channel(200, 0), 0);
}

// ── Helpers ────────────────────────────────────────────────────────

#[test]
fn color_helper_creates_color() {
    assert_eq!(color(1, 2, 3), Color::new(1, 2, 3));
}

#[test]
fn color_from_hue_helper_delegates() {
    assert_eq!(color_from_hue(120), Color::from_hue(120));
}

#[test]
fn is_running_reads_the_flag() {
    let flag = AtomicBool::new(true);
    assert!(is_running(&flag));
    flag.store(false, Ordering::SeqCst);
    assert!(!is_running(&flag));
}
