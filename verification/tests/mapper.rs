use vadb::scale::Scale;

#[test]
fn scale_rejects_bad_fractions() {
    assert!(Scale::new(0, 5).is_none());
    assert!(Scale::new(3, 2).is_none());
    assert!(Scale::new(0, 0).is_none());
    assert!(Scale::new(1, 1).is_some());
    assert!(Scale::new(385, 1000).is_some());
}

#[test]
fn to_window_rounds_to_nearest() {
    let s = Scale::new(385, 1000).unwrap();
    // 0.385 * 1080 = 415.8 rounds up; 0.385 * 2400 = 924.0 is exact.
    assert_eq!(s.to_window(1080), 416);
    assert_eq!(s.to_window(2400), 924);
    let half = Scale::new(1, 2).unwrap();
    assert_eq!(half.to_window(100), 50);
    // Ties round up: 0.5 * 5 = 2.5 -> 3.
    assert_eq!(half.to_window(5), 3);
    let unit = Scale::new(1, 1).unwrap();
    assert_eq!(unit.to_window(1234), 1234);
}

#[test]
fn to_device_scales_up() {
    let half = Scale::new(1, 2).unwrap();
    assert_eq!(half.to_device(50), 100);
    assert_eq!(half.to_device(0), 0);
    let s = Scale::new(385, 1000).unwrap();
    // 416 / 0.385 = 1080.5..., ties and rounding per round-to-nearest.
    assert_eq!(s.to_device(416), 1081);
    assert_eq!(s.to_device(924), 2400);
}

#[test]
fn to_device_clamps_negative_positions() {
    let half = Scale::new(1, 2).unwrap();
    assert_eq!(half.to_device(-1), 0);
    assert_eq!(half.to_device(i64::MIN), 0);
}

#[test]
fn to_device_saturates_huge_positions() {
    let tiny = Scale::new(1, 1000).unwrap();
    assert_eq!(tiny.to_device(i64::MAX), u32::MAX);
}

#[test]
fn round_trip_within_one_pixel() {
    for (num, den) in [(385u32, 1000u32), (1, 2), (1, 1), (2, 3), (999, 1000)] {
        let s = Scale::new(num, den).unwrap();
        for p in 0u32..3000 {
            let w = s.to_window(p);
            let back = s.to_device(w as i64);
            let diff = (back as i64) - (p as i64);
            assert!(
                diff.abs() <= 1,
                "scale {}/{}: pixel {} came back as {}",
                num,
                den,
                p,
                back
            );
        }
    }
}
