use ascii_video::glyph::{glyph_ramp, map_intensity, GLYPH_RAMP};

#[test]
fn endpoints_map_to_ends_of_ramp() {
    for n in [2usize, 10, 74, 75, 256] {
        assert_eq!(map_intensity(0, n), 0);
        assert_eq!(map_intensity(255, n), n - 1);
    }
}

#[test]
fn index_stays_in_range_and_is_monotonic() {
    for n in [2usize, 3, 74, 75, 300] {
        let mut prev = 0usize;
        for i in 0..=255 {
            let r = map_intensity(i, n);
            assert!(r < n);
            assert!(r >= prev);
            prev = r;
        }
    }
}

#[test]
fn scale_rounds_down() {
    // 128 * 73 / 255 = 36.6...
    assert_eq!(map_intensity(128, 74), 36);
    assert_eq!(map_intensity(127, 2), 0);
    assert_eq!(map_intensity(254, 2), 0);
    assert_eq!(map_intensity(100, 75), 29);
}

#[test]
fn out_of_range_intensity_is_clamped() {
    assert_eq!(map_intensity(-40, 74), 0);
    assert_eq!(map_intensity(1000, 74), 73);
}

#[test]
fn ramp_has_seventy_four_glyphs() {
    let r = glyph_ramp();
    assert_eq!(r, GLYPH_RAMP);
    assert_eq!(r.chars().count(), 74);
    assert!(r.starts_with("     ."));
    assert!(r.ends_with("B@$"));
}
