use recorder_core::{get_recorder, Error, QualityTier, Recorder};

#[test]
fn test_start_stop_roundtrip() {
    let mut rec = get_recorder();
    assert!(!rec.is_recording());
    rec.start_recording("clips/out.mp4").unwrap();
    assert!(rec.is_recording());
    let path = rec.stop_recording().unwrap();
    assert_eq!(path, "clips/out.mp4");
    assert!(!rec.is_recording());
}

#[test]
fn test_start_while_active_is_already_recording() {
    let mut rec = get_recorder();
    rec.start_recording("first.mp4").unwrap();
    let err = rec.start_recording("second.mp4").unwrap_err();
    assert!(matches!(err, Error::AlreadyRecording));
    // The first recording is untouched and still stops cleanly.
    assert!(rec.is_recording());
    assert_eq!(rec.stop_recording().unwrap(), "first.mp4");
}

#[test]
fn test_start_while_active_leaves_session_counters_alone() {
    let mut rec = get_recorder();
    let session = rec
        .start_with_options("first.mp4", QualityTier::High, true)
        .unwrap();
    let frames_before = session.state.frame_count;
    let err = rec
        .start_with_options("second.mp4", QualityTier::Low, false)
        .unwrap_err();
    assert!(matches!(err, Error::AlreadyRecording));
    assert_eq!(session.state.frame_count, frames_before);
    assert_eq!(session.state.frame_count, 0);
}

#[test]
fn test_stop_when_idle_is_not_recording() {
    let mut rec = get_recorder();
    let err = rec.stop_recording().unwrap_err();
    assert!(matches!(err, Error::NotRecording));
}

#[test]
fn test_start_with_options_wires_quality_into_config() {
    let mut rec = get_recorder();
    let session = rec
        .start_with_options("out.mp4", QualityTier::Medium, false)
        .unwrap();
    match session.slot {
        recorder_core::EncoderSlot::NotYetConfigured(config) => {
            assert_eq!(config.bitrate, 8_000_000);
            assert!(!config.audio_enabled);
            assert_eq!(config.output_path, "out.mp4");
        }
        _ => panic!("expected a deferred encoder"),
    }
}
