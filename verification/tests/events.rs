use recorder_core::events;
use recorder_core::events::GameState;

#[test]
fn test_event_names_are_consistent() {
    // Ensure event names follow the expected format
    assert!(events::FILE_CREATED.contains("slp"));
    assert!(events::FILE_MODIFIED.contains("slp"));
}

#[test]
fn test_game_state_default() {
    assert_eq!(GameState::default(), GameState::Idle);
}

#[test]
fn test_game_state_names() {
    assert_eq!(GameState::Idle.name(), "Idle");
    assert_eq!(GameState::InProgress.name(), "In Progress");
    assert_eq!(GameState::Ended.name(), "Ended");
}

#[test]
fn test_recording_event_names() {
    assert!(events::STARTED.contains("recording"));
    assert!(events::STOPPED.contains("recording"));
    assert!(events::CREATED.contains("clips"));
    assert!(events::LAST_REPLAY_UPDATED.contains("replay"));
}
