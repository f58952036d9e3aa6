use frame_pipeline::filename::{decimal_string, frame_path, padded3_string};

#[test]
fn frame_path_pads_to_three_digits() {
    // Frame index 41 is stored as the one-based, zero-padded "042".
    assert_eq!(frame_path("frames", 41, "jpg"), "frames/042.jpg");
}

#[test]
fn frame_path_first_frame() {
    assert_eq!(frame_path("/usr/share/frames", 0, "png"), "/usr/share/frames/001.png");
}

#[test]
fn frame_path_grows_past_three_digits() {
    // Index 999 is position 1000: no truncation, just no padding.
    assert_eq!(frame_path("d", 999, "jpg"), "d/1000.jpg");
    assert_eq!(frame_path("d", 6570, "jpg"), "d/6571.jpg");
}

#[test]
fn frame_path_boundary_positions() {
    assert_eq!(frame_path("d", 8, "jpg"), "d/009.jpg");
    assert_eq!(frame_path("d", 9, "jpg"), "d/010.jpg");
    assert_eq!(frame_path("d", 98, "jpg"), "d/099.jpg");
    assert_eq!(frame_path("d", 99, "jpg"), "d/100.jpg");
}

#[test]
fn decimal_renders_exact_digits() {
    assert_eq!(decimal_string(0), "0");
    assert_eq!(decimal_string(7), "7");
    assert_eq!(decimal_string(10), "10");
    assert_eq!(decimal_string(6571), "6571");
    assert_eq!(decimal_string(u64::MAX), "18446744073709551615");
}

#[test]
fn padded3_pads_short_values_only() {
    assert_eq!(padded3_string(0), "000");
    assert_eq!(padded3_string(5), "005");
    assert_eq!(padded3_string(42), "042");
    assert_eq!(padded3_string(100), "100");
    assert_eq!(padded3_string(12345), "12345");
}
