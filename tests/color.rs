use text_sphere::color::{color_for_index, hsv_to_rgb};

fn float_color(i: usize, total: usize) -> u32 {
    let h = i as f64 / total as f64;
    let (s, v) = (0.8_f64, 0.9_f64);
    let c = v * s;
    let x = c * (1.0 - ((h * 6.0) % 2.0 - 1.0).abs());
    let m = v - c;
    let (r, g, b) = match (h * 6.0) as u32 {
        0 => (c, x, 0.0),
        1 => (x, c, 0.0),
        2 => (0.0, c, x),
        3 => (0.0, x, c),
        4 => (x, 0.0, c),
        _ => (c, 0.0, x),
    };
    // Exact halves (such as 0.9 * 255 = 229.5) come out a hair either side of the
    // half in floating point; the nudge makes them round up, as the exact value does.
    let byte = |level: f64| (level * 255.0 + 1e-9).round() as u32;
    let (r, g, b) = (byte(r + m), byte(g + m), byte(b + m));
    (r << 16) | (g << 8) | b
}

#[test]
fn hue_zero_is_red() {
    assert_eq!(color_for_index(0, 4), 0xE62E2E);
    assert_eq!(color_for_index(0, 1), 0xE62E2E);
}

#[test]
fn hue_half_is_cyan() {
    assert_eq!(color_for_index(1, 2), 0x2EE6E6);
}

#[test]
fn hue_sixth_is_yellow() {
    assert_eq!(color_for_index(1, 6), 0xE6E62E);
    assert_eq!(color_for_index(2, 12), 0xE6E62E);
}

#[test]
fn full_turn_wraps_to_red() {
    assert_eq!(color_for_index(6, 6), 0xE62E2E);
    assert_eq!(color_for_index(5, 5), color_for_index(0, 5));
}

#[test]
fn colors_repeat_with_period_total() {
    for total in 1..=9usize {
        for i in 0..3 * total {
            assert_eq!(color_for_index(i, total), color_for_index(i + total, total));
        }
    }
}

#[test]
fn four_glyph_palette() {
    assert_eq!(color_for_index(0, 4), 0xE62E2E);
    assert_eq!(color_for_index(1, 4), 0x8AE62E);
    assert_eq!(color_for_index(2, 4), 0x2EE6E6);
    assert_eq!(color_for_index(3, 4), 0x8A2EE6);
}

#[test]
fn matches_floating_point_conversion() {
    for total in 1..=12usize {
        for i in 0..total {
            assert_eq!(color_for_index(i, total), float_color(i, total), "{} of {}", i, total);
        }
    }
}

#[test]
fn hsv_primaries() {
    assert_eq!(hsv_to_rgb(0, 1, 100, 100), 0xFF0000);
    assert_eq!(hsv_to_rgb(1, 3, 100, 100), 0x00FF00);
    assert_eq!(hsv_to_rgb(2, 3, 100, 100), 0x0000FF);
    assert_eq!(hsv_to_rgb(1, 6, 100, 100), 0xFFFF00);
    assert_eq!(hsv_to_rgb(5, 6, 100, 100), 0xFF00FF);
}

#[test]
fn hsv_grey_and_black() {
    assert_eq!(hsv_to_rgb(0, 1, 0, 20), 0x333333);
    assert_eq!(hsv_to_rgb(3, 7, 0, 100), 0xFFFFFF);
    assert_eq!(hsv_to_rgb(3, 7, 0, 50), 0x808080);
    assert_eq!(hsv_to_rgb(3, 7, 100, 0), 0x000000);
}

#[test]
fn hsv_huge_denominator() {
    assert_eq!(hsv_to_rgb(0, u64::MAX, 100, 100), 0xFF0000);
    assert_eq!(hsv_to_rgb(u64::MAX, u64::MAX, 100, 100), 0xFF0000);
}
