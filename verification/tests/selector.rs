use recorder_core::selector::{
    clamp_capture_size, find_target, find_window_handle, parse_target_hint, score_window,
};
use recorder_core::{CandidateWindow, CaptureTarget, Error, TargetSelectionHint};

fn window(handle: u64, title: &str, pid: u32, w: i32, h: i32) -> CandidateWindow {
    CandidateWindow {
        handle,
        title: title.to_string(),
        process_id: pid,
        width: w,
        height: h,
    }
}

#[test]
fn test_score_window_values() {
    let w = window(1, "Slippi Dolphin - Melee", 7, 1280, 960);
    // slippi 50 + dolphin 30 + melee 40 + area 10
    assert_eq!(score_window(&w, None), 130);
    // and +100 for a hint match
    assert_eq!(score_window(&w, Some("dolphin")), 230);
    let noisy = window(2, "Discord", 8, 200, 100);
    assert_eq!(score_window(&noisy, None), -50);
}

#[test]
fn test_score_window_is_case_insensitive() {
    let upper = window(1, "SLIPPI DOLPHIN", 7, 100, 100);
    assert_eq!(score_window(&upper, None), 80);
    assert_eq!(score_window(&upper, Some("Slippi")), 180);
}

#[test]
fn test_hint_matching_one_window_wins_regardless_of_score() {
    // The hint matches only the plain window; the other windows carry
    // every keyword bonus there is, and still lose.
    let hint = TargetSelectionHint {
        title: Some("obscure game".to_string()),
        pid: None,
    };
    let windows = vec![
        window(1, "Slippi Dolphin Melee faster", 5, 1920, 1080),
        window(2, "My Obscure Game", 6, 300, 200),
        window(3, "Slippi Dolphin Melee", 7, 1920, 1080),
    ];
    match find_target(&hint, &windows, 99).unwrap() {
        CaptureTarget::Window { handle, title } => {
            assert_eq!(handle, 2);
            assert_eq!(title, "My Obscure Game");
        }
        CaptureTarget::Display { .. } => panic!("expected the hinted window"),
    }
}

#[test]
fn test_no_hint_no_keyword_falls_back_to_display() {
    let hint = TargetSelectionHint { title: None, pid: None };
    let windows = vec![
        window(1, "Text Editor", 5, 1920, 1080),
        window(2, "Browser", 6, 1920, 1080),
    ];
    match find_target(&hint, &windows, 42).unwrap() {
        CaptureTarget::Display { handle } => assert_eq!(handle, 42),
        CaptureTarget::Window { .. } => panic!("expected the display fallback"),
    }
}

#[test]
fn test_pid_only_hint_filters_by_process() {
    let hint = TargetSelectionHint { title: None, pid: Some(6) };
    let windows = vec![
        window(1, "Slippi Dolphin", 5, 1920, 1080),
        window(2, "Plain Window", 6, 640, 480),
    ];
    match find_target(&hint, &windows, 42).unwrap() {
        CaptureTarget::Window { handle, .. } => assert_eq!(handle, 2),
        CaptureTarget::Display { .. } => panic!("expected the pid-matched window"),
    }
}

#[test]
fn test_keyword_tie_keeps_first_enumerated() {
    let hint = TargetSelectionHint { title: None, pid: None };
    let windows = vec![
        window(1, "Melee setup", 5, 100, 100),
        window(2, "Melee setup", 6, 100, 100),
    ];
    match find_target(&hint, &windows, 42).unwrap() {
        CaptureTarget::Window { handle, .. } => assert_eq!(handle, 1),
        CaptureTarget::Display { .. } => panic!("expected a window"),
    }
}

#[test]
fn test_empty_enumeration_is_fatal() {
    let hint = TargetSelectionHint { title: None, pid: None };
    let err = find_target(&hint, &Vec::new(), 42).unwrap_err();
    assert!(matches!(err, Error::TargetEnumerationFailed));
}

#[test]
fn test_clamp_capture_size() {
    assert_eq!(clamp_capture_size(1920, 1080), (1920, 1080));
    assert_eq!(clamp_capture_size(100, 2000), (640, 2000));
    assert_eq!(clamp_capture_size(-5, -5), (640, 480));
    assert_eq!(clamp_capture_size(640, 480), (640, 480));
}

#[test]
fn test_find_window_handle_by_title_and_pid() {
    let windows = vec![
        window(1, "Faster Melee", 5, 640, 480),
        window(2, "Faster Melee", 6, 640, 480),
    ];
    // Title plus process id selects the right duplicate.
    assert_eq!(
        find_window_handle("Faster Melee (PID: 6)", &windows),
        Some(2)
    );
    // A stale process id falls back to the title-only search: the first
    // title match wins.
    assert_eq!(
        find_window_handle("Faster Melee (PID: 99)", &windows),
        Some(1)
    );
    // Neither title nor process id names nothing.
    assert_eq!(find_window_handle("   ", &windows), None);
    // An unknown title finds nothing.
    assert_eq!(find_window_handle("chess", &windows), None);
}

#[test]
fn test_find_window_handle_skips_untitled_windows() {
    let windows = vec![window(1, "", 5, 640, 480), window(2, "anything", 5, 640, 480)];
    // A pid-only identifier matches the first *titled* window of that
    // process.
    assert_eq!(find_window_handle("(PID: 5)", &windows), Some(2));
}

#[test]
fn test_parse_target_hint_splits_pid_marker() {
    let hint = parse_target_hint(Some("  Faster Melee (PID: 4312)  "), None);
    assert_eq!(hint.title.as_deref(), Some("Faster Melee"));
    assert_eq!(hint.pid, Some(4312));
}

#[test]
fn test_parse_target_hint_explicit_pid_wins() {
    let hint = parse_target_hint(Some("Dolphin (PID: 10)"), Some(77));
    assert_eq!(hint.title.as_deref(), Some("Dolphin"));
    assert_eq!(hint.pid, Some(77));
}

#[test]
fn test_parse_target_hint_empty_title_is_none() {
    let hint = parse_target_hint(Some("   "), None);
    assert_eq!(hint.title, None);
    assert_eq!(hint.pid, None);
    let no_raw = parse_target_hint(None, Some(3));
    assert_eq!(no_raw.title, None);
    assert_eq!(no_raw.pid, Some(3));
}
