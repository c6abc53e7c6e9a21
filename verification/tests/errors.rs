use recorder_core::records::StatsFilter;
use recorder_core::Error;

#[test]
fn test_error_kind_names() {
    assert_eq!(Error::AlreadyRecording.kind_name(), "already-recording");
    assert_eq!(Error::NotRecording.kind_name(), "not-recording");
    assert_eq!(
        Error::TargetEnumerationFailed.kind_name(),
        "target-enumeration-failed"
    );
    assert_eq!(
        Error::EncoderInitFailed("no encoder".to_string()).kind_name(),
        "encoder-init-failed"
    );
    assert_eq!(
        Error::AudioDeviceUnavailable.kind_name(),
        "audio-device-unavailable"
    );
    assert_eq!(
        Error::AudioStreamError("xrun".to_string()).kind_name(),
        "audio-stream-error"
    );
    assert_eq!(
        Error::OutputDirectoryCreateFailed("denied".to_string()).kind_name(),
        "output-directory-create-failed"
    );
    assert_eq!(Error::Io("broken pipe".to_string()).kind_name(), "io");
    assert_eq!(Error::Utf8("bad byte".to_string()).kind_name(), "utf8");
    assert_eq!(Error::WatchError("gone".to_string()).kind_name(), "watch-error");
    assert_eq!(Error::InvalidPath("::".to_string()).kind_name(), "invalid-path");
    assert_eq!(Error::UnsupportedPlatform.kind_name(), "unsupported-platform");
    assert_eq!(
        Error::InitializationError("boom".to_string()).kind_name(),
        "initialization-error"
    );
    assert_eq!(Error::WindowNotFound.kind_name(), "window-not-found");
    assert_eq!(
        Error::RecordingFailed("disk full".to_string()).kind_name(),
        "recording-failed"
    );
}

#[test]
fn test_stats_filter_default_keeps_everything() {
    let filter = StatsFilter::default();
    assert!(filter.opponent_character_id.is_none());
    assert!(filter.player_character_id.is_none());
    assert!(filter.stage_id.is_none());
    assert!(filter.start_time.is_none());
    assert!(filter.end_time.is_none());
}
