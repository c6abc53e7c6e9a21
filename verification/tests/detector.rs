use recorder_core::detector::{check_game_window_open, find_game_windows, parse_stored_identifier};
use recorder_core::GameWindow;

fn gw(title: &str, class: &str, pid: u32, w: i32, h: i32, cloaked: bool) -> GameWindow {
    GameWindow {
        process_name: format!("PID: {}", pid),
        window_title: title.to_string(),
        width: w,
        height: h,
        process_id: pid,
        class_name: class.to_string(),
        is_cloaked: cloaked,
        is_child: false,
        has_owner: false,
    }
}

#[test]
fn test_score_components() {
    // Keyword +3, size +3, 4:3 aspect +2, class +3.
    let w = gw("Slippi Dolphin", "wxWindowNR", 5, 640, 480, false);
    assert_eq!(w.score(), 11);
    // Launcher noise loses the keyword bonus and more.
    let launcher = gw("Slippi Launcher", "Chrome_WidgetWin", 5, 640, 480, false);
    assert_eq!(launcher.score(), 5);
    // A dialog class is penalised.
    let dialog = gw("Settings", "#32770 dialog", 5, 200, 100, false);
    assert_eq!(dialog.score(), -7);
}

#[test]
fn test_score_aspect_ratio_window() {
    // 16:9 within tolerance.
    let wide = gw("nothing", "plain", 5, 1920, 1080, false);
    assert_eq!(wide.score(), 5);
    // Far from both ratios: only the size bonus remains.
    let square = gw("nothing", "plain", 5, 1000, 1000, false);
    assert_eq!(square.score(), 3);
}

#[test]
fn test_matches_game_keywords() {
    assert!(gw("Faster Melee", "plain", 5, 10, 10, false).matches_game_keywords());
    assert!(gw("nothing", "wxWindowNR", 5, 10, 10, false).matches_game_keywords());
    assert!(!gw("nothing", "plain", 5, 10, 10, false).matches_game_keywords());
    let mut by_process = gw("nothing", "plain", 5, 10, 10, false);
    by_process.process_name = "Slippi Dolphin.exe".to_string();
    assert!(by_process.matches_game_keywords());
}

#[test]
fn test_is_valid_candidate() {
    assert!(gw("x", "y", 5, 640, 480, false).is_valid_candidate());
    assert!(!gw("x", "y", 5, 639, 480, false).is_valid_candidate());
    assert!(!gw("x", "y", 5, 640, 479, false).is_valid_candidate());
    assert!(!gw("x", "y", 5, 640, 480, true).is_valid_candidate());
}

#[test]
fn test_find_game_windows_sorts_by_score_descending() {
    let low = gw("Melee", "plain", 1, 640, 480, false); // 3+3+2(4:3)=8
    let high = gw("Slippi Dolphin", "wxWindowNR", 2, 640, 480, false); // 11
    let out = find_game_windows(vec![low, high]);
    assert_eq!(out.len(), 2);
    assert_eq!(out[0].process_id, 2);
    assert_eq!(out[1].process_id, 1);
}

#[test]
fn test_find_game_windows_drops_duplicates_keeping_first() {
    let a = gw("Slippi Dolphin", "wxWindowNR", 2, 640, 480, false);
    let b = gw("Slippi Dolphin", "wxWindowNR", 2, 640, 480, false);
    let out = find_game_windows(vec![a, b]);
    assert_eq!(out.len(), 1);
}

#[test]
fn test_find_game_windows_keeps_minimum_scoring_window() {
    // Keyword +3, size +3, square aspect 0, dialog class -4: exactly the
    // minimum score of 2, so the window is still kept.
    let w = gw("dolphin play", "#32770 x", 1, 700, 700, false);
    assert_eq!(w.score(), 2);
    let out = find_game_windows(vec![w]);
    assert_eq!(out.len(), 1);
    assert_eq!(out[0].window_title, "dolphin play");
}

#[test]
fn test_find_game_windows_drops_cloaked_window() {
    let hidden = gw("Slippi Dolphin", "wxWindowNR", 2, 640, 480, true);
    assert!(find_game_windows(vec![hidden]).is_empty());
}

#[test]
fn test_find_game_windows_empty_when_nothing_matches() {
    let out = find_game_windows(vec![gw("editor", "plain", 1, 1920, 1080, false)]);
    assert!(out.is_empty());
}

#[test]
fn test_check_game_window_open_by_title() {
    let windows = vec![gw("Slippi Dolphin", "wxWindowNR", 2, 640, 480, false)];
    assert!(check_game_window_open(Some("slippi"), &windows));
    assert!(!check_game_window_open(Some("chess"), &windows));
}

#[test]
fn test_check_game_window_open_by_pid() {
    let windows = vec![gw("Slippi Dolphin", "wxWindowNR", 2, 640, 480, false)];
    assert!(check_game_window_open(Some("PID: 2"), &windows));
    assert!(!check_game_window_open(Some("PID: 3"), &windows));
}

#[test]
fn test_check_game_window_open_needs_score() {
    // Passes the title filter but scores below 4.
    let weak = gw("slippi note", "plain", 2, 100, 80, false);
    assert!(weak.score() < 4);
    assert!(!check_game_window_open(Some("slippi"), &vec![weak]));
}

#[test]
fn test_check_game_window_open_keyword_default() {
    let mut w = gw("Game", "wxWindowNR", 2, 640, 480, false);
    w.process_name = "Dolphin.exe".to_string();
    assert!(check_game_window_open(None, &vec![w]));
}

#[test]
fn test_parse_stored_identifier_pid() {
    assert_eq!(parse_stored_identifier(Some("PID: 123")), (Some(123), None));
    assert_eq!(
        parse_stored_identifier(Some("Dolphin (PID: 77)")),
        (Some(77), None)
    );
    assert_eq!(parse_stored_identifier(Some("PID: abc")), (None, None));
}

#[test]
fn test_parse_stored_identifier_title() {
    assert_eq!(
        parse_stored_identifier(Some("Faster Melee")),
        (None, Some("faster melee".to_string()))
    );
    assert_eq!(parse_stored_identifier(None), (None, None));
}

#[test]
fn test_parse_stored_identifier_overflowing_pid_is_none() {
    assert_eq!(
        parse_stored_identifier(Some("PID: 99999999999999999999")),
        (None, None)
    );
}
