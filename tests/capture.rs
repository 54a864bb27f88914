use tile_bloom::capture::{ScreenshotCounter, CAPTURE_LIMIT};

#[test]
fn captures_first_thousand_frames() {
    let mut counter = ScreenshotCounter::new();
    assert_eq!(counter.count, 0);
    let mut captured = Vec::new();
    for frame in 0..2500u64 {
        let r = counter.tick();
        assert_eq!(counter.count, frame + 1);
        if let Some(n) = r {
            assert_eq!(n, frame);
            captured.push(n);
        }
    }
    assert_eq!(captured.len(), 1000);
    assert_eq!(captured, (0..1000u64).collect::<Vec<_>>());
    assert_eq!(counter.count, 2500);
}

#[test]
fn no_capture_after_limit() {
    let mut counter = ScreenshotCounter { count: CAPTURE_LIMIT - 1 };
    assert_eq!(counter.tick(), Some(999));
    assert_eq!(counter.tick(), None);
    assert_eq!(counter.count, 1001);
    let mut late = ScreenshotCounter { count: u64::MAX - 1 };
    assert_eq!(late.tick(), None);
    assert_eq!(late.count, u64::MAX);
}
