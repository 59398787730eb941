use capture_forge::error::RecordingError;
use capture_forge::messaging::RecordingMode;
use capture_forge::stream::{
    after_microphone_denied, check_tab_stream_id, needs_audio_mix, require_video_tracks,
    StreamAcquisitionService,
};

#[test]
fn test_new_service() {
    let svc = StreamAcquisitionService::new(RecordingMode::FullScreen, true);
    assert_eq!(svc.mode(), &RecordingMode::FullScreen);
    assert!(svc.mic_enabled());
}

#[test]
fn test_new_service_no_mic() {
    let svc = StreamAcquisitionService::new(RecordingMode::Tab, false);
    assert_eq!(svc.mode(), &RecordingMode::Tab);
    assert!(!svc.mic_enabled());
}

#[test]
fn test_context_validation_rule_exists() {
    let svc = StreamAcquisitionService::new(RecordingMode::FullScreen, true);
    assert_eq!(svc.mode(), &RecordingMode::FullScreen);
    assert!(svc.check_context(true).is_ok());
    assert!(matches!(svc.check_context(false), Err(RecordingError::StateViolation { .. })));
}

#[test]
fn test_stream_acquisition_error_messages() {
    let cases = [
        "Screen or tab selection was cancelled.",
        "Could not access tab. Check permissions in chrome://extensions and try again.",
        "No microphone found. Recording will continue without audio.",
        "Screen capture is not supported in this browser.",
        "Microphone access was denied. You can continue without mic.",
        "Acquired stream has no video tracks",
    ];

    for detail in cases {
        let err = RecordingError::StreamAcquisitionFailed {
            details: detail.to_string(),
        };
        assert!(
            err.details().contains(detail),
            "Error message should contain detail: {detail}"
        );
    }
}

#[test]
fn context_rule_for_each_mode() {
    let tab = StreamAcquisitionService::new(RecordingMode::Tab, false);
    assert!(tab.check_context(false).is_ok());
    match tab.check_context(true) {
        Err(RecordingError::StateViolation { details }) => assert_eq!(
            details,
            "Tab mode requires the service worker background context, but a window object is present"
        ),
        other => panic!("unexpected {other:?}"),
    }
    let full = StreamAcquisitionService::new(RecordingMode::FullScreen, false);
    match full.check_context(false) {
        Err(RecordingError::StateViolation { details }) => assert_eq!(
            details,
            "FullScreen mode requires a DOM context (offscreen doc or popup), but no window object is available"
        ),
        other => panic!("unexpected {other:?}"),
    }
}

#[test]
fn acquired_stream_checks() {
    assert!(require_video_tracks(1).is_ok());
    match require_video_tracks(0) {
        Err(RecordingError::StreamAcquisitionFailed { details }) => {
            assert_eq!(details, "Acquired stream has no video tracks")
        }
        other => panic!("unexpected {other:?}"),
    }
    assert!(after_microphone_denied(true).is_ok());
    match after_microphone_denied(false) {
        Err(RecordingError::StreamAcquisitionFailed { details }) => {
            assert_eq!(details, "Microphone access denied by user")
        }
        other => panic!("unexpected {other:?}"),
    }
    assert!(needs_audio_mix(true, 0));
    assert!(needs_audio_mix(false, 2));
    assert!(!needs_audio_mix(false, 0));
    assert!(check_tab_stream_id("abc").is_ok());
    assert!(matches!(
        check_tab_stream_id(""),
        Err(RecordingError::StreamAcquisitionFailed { .. })
    ));
}
