use recorder_core::session::{
    run_capture, CaptureEvent, CaptureSession, EncoderAction, EncoderConfig, EncoderSlot,
};

fn config() -> EncoderConfig {
    EncoderConfig {
        output_path: String::from("out.mp4"),
        audio_enabled: true,
        bitrate: 15_000_000,
    }
}

fn is_send_frame(a: &EncoderAction) -> bool {
    matches!(a, EncoderAction::SendFrame)
}

fn is_finish(a: &EncoderAction) -> bool {
    matches!(a, EncoderAction::Finish)
}

#[test]
fn test_first_frame_creates_encoder_with_physical_dimensions() {
    // The target was computed as 1280x720, but the first frame reports
    // 1280x718: the encoder must be built with the frame's own size.
    let events = vec![
        CaptureEvent::Frame { at: 10, width: 1280, height: 718 },
        CaptureEvent::Frame { at: 20, width: 1280, height: 718 },
        CaptureEvent::Frame { at: 30, width: 1280, height: 718 },
    ];
    let (session, trace) = run_capture(config(), events);
    match &trace[0] {
        EncoderAction::CreateEncoder { width, height, audio_enabled, bitrate, output_path } => {
            assert_eq!((*width, *height), (1280, 718));
            assert!(*audio_enabled);
            assert_eq!(*bitrate, 15_000_000);
            assert_eq!(output_path, "out.mp4");
        }
        other => panic!("expected encoder creation first, got {:?}", action_name(other)),
    }
    assert_eq!(trace.iter().filter(|a| is_send_frame(a)).count(), 3);
    assert_eq!(session.state.frame_count, 3);
    assert!(matches!(session.slot, EncoderSlot::Live { width: 1280, height: 718 }));
}

#[test]
fn test_preroll_audio_discarded_and_later_audio_forwarded() {
    // Two buffers arrive before the first frame and one between frame 1
    // and frame 2: only the later buffer reaches the encoder, with
    // frame 2.
    let events = vec![
        CaptureEvent::Audio { at: 1, data: vec![1, 1] },
        CaptureEvent::Audio { at: 2, data: vec![2, 2] },
        CaptureEvent::Frame { at: 10, width: 640, height: 480 },
        CaptureEvent::Audio { at: 15, data: vec![3, 3] },
        CaptureEvent::Frame { at: 20, width: 640, height: 480 },
    ];
    let (_, trace) = run_capture(config(), events);
    let audio: Vec<&Vec<u8>> = trace
        .iter()
        .filter_map(|a| match a {
            EncoderAction::SendAudio(d) => Some(d),
            _ => None,
        })
        .collect();
    assert_eq!(audio.len(), 1);
    assert_eq!(audio[0], &vec![3u8, 3u8]);
}

#[test]
fn test_no_audio_sent_before_first_frame() {
    let events = vec![
        CaptureEvent::Audio { at: 1, data: vec![9, 9, 9] },
        CaptureEvent::Frame { at: 5, width: 640, height: 480 },
    ];
    let (_, trace) = run_capture(config(), events);
    let mut seen_frame = false;
    for action in &trace {
        match action {
            EncoderAction::SendFrame => seen_frame = true,
            EncoderAction::SendAudio(_) => assert!(seen_frame),
            _ => {}
        }
    }
    assert!(!trace.iter().any(|a| matches!(a, EncoderAction::SendAudio(_))));
}

#[test]
fn test_stop_finishes_encoder_exactly_once() {
    // A stop requested mid-stream: the next frame callback finishes the
    // encoder once and stops the capture; later frames send nothing.
    let events = vec![
        CaptureEvent::Frame { at: 10, width: 640, height: 480 },
        CaptureEvent::Frame { at: 20, width: 640, height: 480 },
        CaptureEvent::StopRequest { at: 25 },
        CaptureEvent::Frame { at: 30, width: 640, height: 480 },
        CaptureEvent::Frame { at: 40, width: 640, height: 480 },
    ];
    let (session, trace) = run_capture(config(), events);
    assert_eq!(trace.iter().filter(|a| is_finish(a)).count(), 1);
    let finish_at = trace.iter().position(|a| is_finish(a)).unwrap();
    assert!(trace[finish_at + 1..].iter().all(|a| !is_send_frame(a)));
    assert_eq!(trace.iter().filter(|a| is_send_frame(a)).count(), 2);
    assert!(matches!(session.slot, EncoderSlot::Finished));
    assert_eq!(session.state.frame_count, 2);
}

#[test]
fn test_window_closed_finishes_encoder() {
    let events = vec![
        CaptureEvent::Frame { at: 10, width: 640, height: 480 },
        CaptureEvent::WindowClosed { at: 20 },
    ];
    let (session, trace) = run_capture(config(), events);
    assert_eq!(trace.iter().filter(|a| is_finish(a)).count(), 1);
    assert!(matches!(session.slot, EncoderSlot::Finished));
}

#[test]
fn test_stop_before_any_frame_never_creates_encoder() {
    let events = vec![
        CaptureEvent::StopRequest { at: 1 },
        CaptureEvent::Frame { at: 10, width: 640, height: 480 },
    ];
    let (session, trace) = run_capture(config(), events);
    assert!(!trace
        .iter()
        .any(|a| matches!(a, EncoderAction::CreateEncoder { .. })));
    assert_eq!(trace.iter().filter(|a| is_finish(a)).count(), 0);
    assert!(trace.iter().any(|a| matches!(a, EncoderAction::StopCapture)));
    assert!(matches!(session.slot, EncoderSlot::Finished));
}

#[test]
fn test_audio_batches_concatenate_in_order() {
    let events = vec![
        CaptureEvent::Frame { at: 10, width: 640, height: 480 },
        CaptureEvent::Audio { at: 11, data: vec![1, 2] },
        CaptureEvent::Audio { at: 12, data: vec![3] },
        CaptureEvent::Frame { at: 20, width: 640, height: 480 },
    ];
    let (_, trace) = run_capture(config(), events);
    let audio: Vec<&Vec<u8>> = trace
        .iter()
        .filter_map(|a| match a {
            EncoderAction::SendAudio(d) => Some(d),
            _ => None,
        })
        .collect();
    assert_eq!(audio.len(), 1);
    assert_eq!(audio[0], &vec![1u8, 2u8, 3u8]);
}

#[test]
fn test_direct_session_stop_flag_is_sticky() {
    let mut session = CaptureSession::new(config());
    session.request_stop();
    assert!(session.state.stop_requested);
    let actions = session.on_frame(5, 640, 480, Vec::new());
    assert!(session.state.stop_requested);
    assert_eq!(actions.len(), 1);
    assert!(matches!(actions[0], EncoderAction::StopCapture));
}

fn action_name(a: &EncoderAction) -> &'static str {
    match a {
        EncoderAction::CreateEncoder { .. } => "CreateEncoder",
        EncoderAction::SendFrame => "SendFrame",
        EncoderAction::SendAudio(_) => "SendAudio",
        EncoderAction::Finish => "Finish",
        EncoderAction::StopCapture => "StopCapture",
    }
}
