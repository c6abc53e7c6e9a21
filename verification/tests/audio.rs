use recorder_core::audio::{
    audio_enabled_from_setting, pcm16_bytes, AUDIO_BITS_PER_SAMPLE, AUDIO_CHANNELS,
    AUDIO_SAMPLE_RATE,
};

#[test]
fn test_pcm16_bytes_little_endian() {
    let samples: Vec<i16> = vec![0, 1, -1, 256, i16::MIN, i16::MAX];
    let bytes = pcm16_bytes(&samples);
    assert_eq!(
        bytes,
        vec![
            0x00, 0x00, // 0
            0x01, 0x00, // 1
            0xff, 0xff, // -1
            0x00, 0x01, // 256
            0x00, 0x80, // -32768
            0xff, 0x7f, // 32767
        ]
    );
    // Matches the standard library's little-endian encoding sample for
    // sample.
    let mut expected = Vec::new();
    for s in &samples {
        expected.extend_from_slice(&s.to_le_bytes());
    }
    assert_eq!(bytes, expected);
}

#[test]
fn test_pcm16_bytes_empty() {
    assert!(pcm16_bytes(&Vec::new()).is_empty());
}

#[test]
fn test_audio_enabled_default_on() {
    assert!(audio_enabled_from_setting(None));
    assert!(audio_enabled_from_setting(Some("yes")));
    assert!(audio_enabled_from_setting(Some("TRUE")));
}

#[test]
fn test_audio_disabled_words() {
    assert!(!audio_enabled_from_setting(Some("false")));
    assert!(!audio_enabled_from_setting(Some("FALSE")));
    assert!(!audio_enabled_from_setting(Some("0")));
    assert!(!audio_enabled_from_setting(Some("none")));
    assert!(!audio_enabled_from_setting(Some("Disabled")));
}

#[test]
fn test_audio_format_constants() {
    assert_eq!(AUDIO_SAMPLE_RATE, 48000);
    assert_eq!(AUDIO_CHANNELS, 2);
    assert_eq!(AUDIO_BITS_PER_SAMPLE, 16);
}
