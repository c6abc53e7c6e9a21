use recorder_core::quality::{scale_dimensions, QualityTier};

#[test]
fn test_bitrates() {
    assert_eq!(QualityTier::Low.bitrate(), 4_000_000);
    assert_eq!(QualityTier::Medium.bitrate(), 8_000_000);
    assert_eq!(QualityTier::High.bitrate(), 15_000_000);
    assert_eq!(QualityTier::Ultra.bitrate(), 40_000_000);
}

#[test]
fn test_target_resolutions() {
    assert_eq!(QualityTier::Low.target_resolution(), Some((854, 480)));
    assert_eq!(QualityTier::Medium.target_resolution(), Some((1280, 720)));
    assert_eq!(QualityTier::High.target_resolution(), Some((1920, 1080)));
    assert_eq!(QualityTier::Ultra.target_resolution(), None);
}

#[test]
fn test_tier_from_name() {
    assert_eq!(QualityTier::from_name("low"), QualityTier::Low);
    assert_eq!(QualityTier::from_name("medium"), QualityTier::Medium);
    assert_eq!(QualityTier::from_name("high"), QualityTier::High);
    assert_eq!(QualityTier::from_name("ultra"), QualityTier::Ultra);
    assert_eq!(QualityTier::from_name("whatever"), QualityTier::High);
    assert_eq!(QualityTier::from_name(""), QualityTier::High);
}

#[test]
fn test_scale_exact_fit_is_kept() {
    // Already inside the Medium ceiling: dimensions pass through.
    assert_eq!(scale_dimensions(QualityTier::Medium, 640, 480), (640, 480));
}

#[test]
fn test_scale_height_limited() {
    // 1920x1080 against the Low ceiling 854x480 is height-limited:
    // floor(1920 * 480 / 1080) = 853, rounded down to even.
    assert_eq!(scale_dimensions(QualityTier::Low, 1920, 1080), (852, 480));
}

#[test]
fn test_scale_width_limited_extreme_aspect() {
    // A very wide source against Low: width capped at 854, the height
    // floor(100 * 854 / 2000) = 42 is lifted to the 240 floor.
    assert_eq!(scale_dimensions(QualityTier::Low, 2000, 100), (854, 240));
}

#[test]
fn test_scale_half_of_double() {
    assert_eq!(scale_dimensions(QualityTier::High, 3840, 2160), (1920, 1080));
}

#[test]
fn test_scale_ultra_rounds_down_to_even() {
    assert_eq!(scale_dimensions(QualityTier::Ultra, 1921, 1081), (1920, 1080));
    assert_eq!(scale_dimensions(QualityTier::Ultra, 321, 241), (320, 240));
}

#[test]
fn test_scale_small_source_clamped_to_floor() {
    assert_eq!(scale_dimensions(QualityTier::Low, 100, 100), (320, 240));
    assert_eq!(scale_dimensions(QualityTier::Ultra, 1, 1), (320, 240));
}

#[test]
fn test_scale_keeps_aspect_ratio_within_rounding() {
    // Cross-multiplied, the output ratio stays within two source widths
    // on one side and two source heights on the other, whenever the
    // 320x240 floor is not hit.
    for (tier, w, h) in [
        (QualityTier::Low, 1920u32, 1080u32),
        (QualityTier::Medium, 1920, 1080),
        (QualityTier::High, 3840, 2160),
        (QualityTier::Low, 1601, 1201),
        (QualityTier::Medium, 2560, 1440),
    ] {
        let (sw, sh) = scale_dimensions(tier, w, h);
        let (sw, sh, w, h) = (sw as i64, sh as i64, w as i64, h as i64);
        assert!(sw * h < sh * w + 2 * w, "{}x{} -> {}x{}", w, h, sw, sh);
        assert!(sh * w < sw * h + 2 * h, "{}x{} -> {}x{}", w, h, sw, sh);
    }
}

#[test]
fn test_scale_never_upscales_above_floor() {
    for (w, h) in [(1920u32, 1080u32), (1280, 720), (854, 480), (333, 250), (4096, 4096)] {
        for tier in [QualityTier::Low, QualityTier::Medium, QualityTier::High, QualityTier::Ultra]
        {
            let (sw, sh) = scale_dimensions(tier, w, h);
            assert_eq!(sw % 2, 0);
            assert_eq!(sh % 2, 0);
            assert!(sw >= 320 && sh >= 240);
            assert!(sw <= w.max(320) && sh <= h.max(240));
        }
    }
}
