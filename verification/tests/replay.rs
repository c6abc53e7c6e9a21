use recorder_core::replay::{
    detect_tech, frames_to_seconds, is_hitstun_state, is_neutral_state, TechStats,
};

#[test]
fn test_frames_to_seconds() {
    assert_eq!(frames_to_seconds(0), 0);
    assert_eq!(frames_to_seconds(59), 0);
    assert_eq!(frames_to_seconds(60), 1);
    assert_eq!(frames_to_seconds(3600), 60);
    assert_eq!(frames_to_seconds(-5), 0);
    assert_eq!(frames_to_seconds(i32::MAX), (i32::MAX / 60) as u64);
}

#[test]
fn test_hitstun_states() {
    for s in [26, 30, 35, 39, 75, 79, 91, 93] {
        assert!(is_hitstun_state(s), "{} should be hitstun", s);
    }
    for s in [0, 25, 31, 34, 40, 74, 80, 90, 94, 200] {
        assert!(!is_hitstun_state(s), "{} should not be hitstun", s);
    }
}

#[test]
fn test_neutral_states() {
    for s in [0, 6, 10, 21, 24, 28] {
        assert!(is_neutral_state(s), "{} should be neutral", s);
    }
    for s in [7, 9, 22, 23, 29, 197] {
        assert!(!is_neutral_state(s), "{} should not be neutral", s);
    }
}

#[test]
fn test_detect_tech_counts_successful() {
    let mut stats = TechStats::default();
    // Entering tech-in-place from tumble.
    detect_tech(197, Some(26), &mut stats);
    assert_eq!(stats.successful_techs, 1);
    assert_eq!(stats.missed_techs, 0);
    // Staying in a tech state does not count again.
    detect_tech(198, Some(197), &mut stats);
    assert_eq!(stats.successful_techs, 1);
}

#[test]
fn test_detect_tech_counts_missed() {
    let mut stats = TechStats::default();
    // Lying down entered from tumble is a missed tech.
    detect_tech(183, Some(28), &mut stats);
    assert_eq!(stats.missed_techs, 1);
    assert_eq!(stats.successful_techs, 0);
    // Lying down entered from a non-tumble state is not.
    detect_tech(183, Some(0), &mut stats);
    assert_eq!(stats.missed_techs, 1);
    // Staying down is not.
    detect_tech(183, Some(183), &mut stats);
    assert_eq!(stats.missed_techs, 1);
}

#[test]
fn test_detect_tech_first_frame_counts_nothing() {
    let mut stats = TechStats::default();
    detect_tech(197, None, &mut stats);
    assert_eq!(stats.successful_techs, 0);
    assert_eq!(stats.missed_techs, 0);
}

#[test]
fn test_tech_stats_default_is_zeroed() {
    let stats = TechStats::default();
    assert_eq!(stats.l_cancel_hit, 0);
    assert_eq!(stats.l_cancel_missed, 0);
    assert_eq!(stats.successful_techs, 0);
    assert_eq!(stats.missed_techs, 0);
    assert_eq!(stats.wavedash_count, 0);
    assert_eq!(stats.dashdance_count, 0);
}
