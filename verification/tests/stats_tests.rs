use cube_sim::stats::StatsDisplay;
use cube_sim::text::{dec_string, fixed2_string};

#[test]
fn decimal_rendering() {
    assert_eq!(dec_string(0), "0");
    assert_eq!(dec_string(7), "7");
    assert_eq!(dec_string(100), "100");
    assert_eq!(dec_string(65_535), "65535");
    assert_eq!(dec_string(u64::MAX), "18446744073709551615");
}

#[test]
fn two_decimal_rendering() {
    assert_eq!(fixed2_string(0), "0.00");
    assert_eq!(fixed2_string(5), "0.05");
    assert_eq!(fixed2_string(50), "0.50");
    assert_eq!(fixed2_string(1234), "12.34");
    assert_eq!(fixed2_string(59_999), "599.99");
    assert_eq!(fixed2_string(6_000), "60.00");
}

#[test]
fn display_starts_with_fixed_layout() {
    let display = StatsDisplay::new();
    assert_eq!(display.sections.len(), 10);
    assert_eq!(display.sections[0], "Cubes Count: ");
    assert_eq!(display.sections[2], "\nSpawning Rate: ");
    assert_eq!(display.sections[4], "\nFPS (raw): ");
    assert_eq!(display.sections[6], "\nFPS (SMA): ");
    assert_eq!(display.sections[8], "\nFPS (EMA): ");
    for i in [1, 3, 5, 7, 9] {
        assert_eq!(display.sections[i], "");
    }
}

#[test]
fn count_field_is_change_gated() {
    let mut display = StatsDisplay::new();
    display.update(42, true, 100, None, None, None);
    assert_eq!(display.sections[1], "42");
    // A later frame with no change leaves the rendered count alone even if the
    // passed value were stale.
    display.update(43, false, 100, None, None, None);
    assert_eq!(display.sections[1], "42");
}

#[test]
fn rate_field_is_rewritten_every_frame() {
    let mut display = StatsDisplay::new();
    display.update(0, false, 100, None, None, None);
    assert_eq!(display.sections[3], "100");
    display.update(0, false, 99, None, None, None);
    assert_eq!(display.sections[3], "99");
}

#[test]
fn fps_fields_render_two_decimal_places() {
    let mut display = StatsDisplay::new();
    display.update(0, false, 0, Some(6_017), Some(5_999), Some(6_000));
    assert_eq!(display.sections[5], "60.17");
    assert_eq!(display.sections[7], "59.99");
    assert_eq!(display.sections[9], "60.00");
}

#[test]
fn absent_fps_samples_retain_previous_text() {
    let mut display = StatsDisplay::new();
    display.update(0, false, 0, Some(1_234), Some(2_345), Some(3_456));
    assert_eq!(display.sections[5], "12.34");
    assert_eq!(display.sections[7], "23.45");
    assert_eq!(display.sections[9], "34.56");
    // A frame without samples keeps the previous strings: not blanked, not
    // "0.00".
    display.update(0, false, 0, None, None, None);
    assert_eq!(display.sections[5], "12.34");
    assert_eq!(display.sections[7], "23.45");
    assert_eq!(display.sections[9], "34.56");
}
