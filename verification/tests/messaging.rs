use capture_forge::messaging::{ExtensionMessage, RecordingMode};

#[test]
fn test_is_keepalive_new_variants_false() {
    assert!(!ExtensionMessage::RecoveryFound { session_id: "s".into(), chunk_count: 1 }.is_keepalive());
    assert!(!ExtensionMessage::RestoreRecording { session_id: "s".into() }.is_keepalive());
    assert!(!ExtensionMessage::DismissRecovery.is_keepalive());
}

#[test]
fn test_is_keepalive() {
    assert!(ExtensionMessage::KeepalivePing.is_keepalive());
    assert!(ExtensionMessage::KeepalivePong.is_keepalive());
    assert!(!ExtensionMessage::StopRecording.is_keepalive());
    assert!(!ExtensionMessage::CountdownComplete.is_keepalive());
    assert!(!ExtensionMessage::StartRecording { mode: RecordingMode::FullScreen }.is_keepalive());
}

#[test]
fn keepalive_is_false_for_every_other_variant() {
    let others = vec![
        ExtensionMessage::PauseRecording,
        ExtensionMessage::ResumeRecording,
        ExtensionMessage::CancelRecording,
        ExtensionMessage::VideoReady { session_id: "a".into() },
        ExtensionMessage::RecordingError { code: "c".into(), details: "d".into() },
        ExtensionMessage::GetStreamingData,
        ExtensionMessage::ApplyStreamingData { data: "x".into() },
        ExtensionMessage::PreviewClosed,
        ExtensionMessage::StartRecording { mode: RecordingMode::Tab },
    ];
    for m in others {
        assert!(!m.is_keepalive(), "{m:?}");
    }
}
