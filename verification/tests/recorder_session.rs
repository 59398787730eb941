use capture_forge::error::RecordingError;
use capture_forge::messaging::RecordingMode;
use capture_forge::recorder::{RecordingSession, SessionState};
use capture_forge::recovery::{IntegrityReport, IntegrityStatus};

fn to_recording(s: &mut RecordingSession) {
    s.transition(SessionState::Starting).unwrap();
    s.transition(SessionState::Countdown).unwrap();
    s.transition(SessionState::Recording).unwrap();
}

fn assert_violation(r: Result<(), RecordingError>) {
    let err = r.unwrap_err();
    assert!(matches!(err, RecordingError::StateViolation { .. }));
}

#[test]
fn test_happy_path_full_cycle() {
    let mut s = RecordingSession::new();
    assert_eq!(s.state(), &SessionState::Idle);
    s.transition(SessionState::Starting).unwrap();
    assert_eq!(s.state(), &SessionState::Starting);
    s.transition(SessionState::Countdown).unwrap();
    assert_eq!(s.state(), &SessionState::Countdown);
    s.transition(SessionState::Recording).unwrap();
    assert_eq!(s.state(), &SessionState::Recording);
    s.transition(SessionState::Paused).unwrap();
    assert_eq!(s.state(), &SessionState::Paused);
    s.transition(SessionState::Recording).unwrap();
    assert_eq!(s.state(), &SessionState::Recording);
    s.transition(SessionState::Stopping).unwrap();
    assert_eq!(s.state(), &SessionState::Stopping);
    s.transition(SessionState::Preview).unwrap();
    assert_eq!(s.state(), &SessionState::Preview);
    s.transition(SessionState::Idle).unwrap();
    assert_eq!(s.state(), &SessionState::Idle);
}

#[test]
fn test_starting_to_error() {
    let mut s = RecordingSession::new();
    s.transition(SessionState::Starting).unwrap();
    s.transition(SessionState::Error).unwrap();
    assert_eq!(s.state(), &SessionState::Error);
}

#[test]
fn test_countdown_cancel_to_idle() {
    let mut s = RecordingSession::new();
    s.transition(SessionState::Starting).unwrap();
    s.transition(SessionState::Countdown).unwrap();
    s.transition(SessionState::Idle).unwrap();
    assert_eq!(s.state(), &SessionState::Idle);
}

#[test]
fn test_paused_stop() {
    let mut s = RecordingSession::new();
    to_recording(&mut s);
    s.transition(SessionState::Paused).unwrap();
    s.transition(SessionState::Stopping).unwrap();
    assert_eq!(s.state(), &SessionState::Stopping);
}

#[test]
fn test_stopping_to_error() {
    let mut s = RecordingSession::new();
    to_recording(&mut s);
    s.transition(SessionState::Stopping).unwrap();
    s.transition(SessionState::Error).unwrap();
    assert_eq!(s.state(), &SessionState::Error);
}

#[test]
fn test_error_to_idle() {
    let mut s = RecordingSession::new();
    s.transition(SessionState::Starting).unwrap();
    s.transition(SessionState::Error).unwrap();
    s.transition(SessionState::Idle).unwrap();
    assert_eq!(s.state(), &SessionState::Idle);
}

#[test]
fn test_crash_recovery_flows() {
    let mut s = RecordingSession::new();
    s.transition(SessionState::CrashRecovery).unwrap();
    assert_eq!(s.state(), &SessionState::CrashRecovery);
    s.transition(SessionState::Preview).unwrap();
    assert_eq!(s.state(), &SessionState::Preview);
    s.transition(SessionState::Idle).unwrap();
    assert_eq!(s.state(), &SessionState::Idle);

    s.transition(SessionState::CrashRecovery).unwrap();
    assert_eq!(s.state(), &SessionState::CrashRecovery);
    s.transition(SessionState::Idle).unwrap();
    assert_eq!(s.state(), &SessionState::Idle);
}

#[test]
fn test_new_session_is_idle() {
    let s = RecordingSession::new();
    assert_eq!(s.state(), &SessionState::Idle);
}

#[test]
fn test_default_is_idle() {
    let s = RecordingSession::default();
    assert_eq!(s.state(), &SessionState::Idle);
}

#[test]
fn test_double_start_in_starting() {
    let mut s = RecordingSession::new();
    s.transition(SessionState::Starting).unwrap();
    assert_violation(s.transition(SessionState::Starting));
    assert_eq!(s.state(), &SessionState::Starting);
}

#[test]
fn test_start_in_recording() {
    let mut s = RecordingSession::new();
    to_recording(&mut s);
    assert_violation(s.transition(SessionState::Starting));
    assert_eq!(s.state(), &SessionState::Recording);
}

#[test]
fn test_start_in_paused() {
    let mut s = RecordingSession::new();
    to_recording(&mut s);
    s.transition(SessionState::Paused).unwrap();
    assert_violation(s.transition(SessionState::Starting));
    assert_eq!(s.state(), &SessionState::Paused);
}

#[test]
fn test_double_stop_in_idle() {
    let mut s = RecordingSession::new();
    assert_violation(s.transition(SessionState::Stopping));
    assert_eq!(s.state(), &SessionState::Idle);
}

#[test]
fn test_stop_in_countdown() {
    let mut s = RecordingSession::new();
    s.transition(SessionState::Starting).unwrap();
    s.transition(SessionState::Countdown).unwrap();
    assert_violation(s.transition(SessionState::Stopping));
    assert_eq!(s.state(), &SessionState::Countdown);
}

#[test]
fn test_pause_in_idle() {
    let mut s = RecordingSession::new();
    assert_violation(s.transition(SessionState::Paused));
    assert_eq!(s.state(), &SessionState::Idle);
}

#[test]
fn test_pause_in_countdown() {
    let mut s = RecordingSession::new();
    s.transition(SessionState::Starting).unwrap();
    s.transition(SessionState::Countdown).unwrap();
    assert_violation(s.transition(SessionState::Paused));
    assert_eq!(s.state(), &SessionState::Countdown);
}

#[test]
fn test_pause_in_paused() {
    let mut s = RecordingSession::new();
    to_recording(&mut s);
    s.transition(SessionState::Paused).unwrap();
    assert_violation(s.transition(SessionState::Paused));
    assert_eq!(s.state(), &SessionState::Paused);
}

#[test]
fn test_resume_in_idle() {
    let mut s = RecordingSession::new();
    assert_violation(s.transition(SessionState::Recording));
    assert_eq!(s.state(), &SessionState::Idle);
}

#[test]
fn test_resume_in_recording() {
    let mut s = RecordingSession::new();
    to_recording(&mut s);
    assert_violation(s.transition(SessionState::Recording));
    assert_eq!(s.state(), &SessionState::Recording);
}

#[test]
fn test_idle_to_idle_self_transition() {
    let mut s = RecordingSession::new();
    assert_violation(s.transition(SessionState::Idle));
    assert_eq!(s.state(), &SessionState::Idle);
}

#[test]
fn test_stopping_to_idle_rollback() {
    let mut s = RecordingSession::new();
    to_recording(&mut s);
    s.transition(SessionState::Stopping).unwrap();
    assert_violation(s.transition(SessionState::Idle));
}

#[test]
fn test_preview_to_starting() {
    let mut s = RecordingSession::new();
    to_recording(&mut s);
    s.transition(SessionState::Stopping).unwrap();
    s.transition(SessionState::Preview).unwrap();
    assert_violation(s.transition(SessionState::Starting));
    assert_eq!(s.state(), &SessionState::Preview);
}

#[test]
fn test_error_to_starting() {
    let mut s = RecordingSession::new();
    s.transition(SessionState::Starting).unwrap();
    s.transition(SessionState::Error).unwrap();
    assert_violation(s.transition(SessionState::Starting));
    assert_eq!(s.state(), &SessionState::Error);
}

#[test]
fn test_is_idle() {
    let s = RecordingSession::new();
    assert!(s.state().is_idle());
    assert!(!s.state().is_active());
}

#[test]
fn test_is_active() {
    let mut s = RecordingSession::new();
    to_recording(&mut s);
    assert!(s.state().is_active());
}

#[test]
fn test_is_active_paused() {
    let mut s = RecordingSession::new();
    to_recording(&mut s);
    s.transition(SessionState::Paused).unwrap();
    assert!(s.state().is_active());
}

#[test]
fn test_new_session_defaults() {
    let s = RecordingSession::new();
    assert!(s.mode().is_none());
    assert!(s.mic_enabled());
    assert!(s.session_id().is_none());
    assert!(!s.is_acquiring());
}

#[test]
fn test_set_mode_valid() {
    let mut s = RecordingSession::new();
    s.set_mode(RecordingMode::FullScreen).unwrap();
    assert_eq!(s.mode(), Some(&RecordingMode::FullScreen));
}

#[test]
fn test_set_mode_tab() {
    let mut s = RecordingSession::new();
    s.set_mode(RecordingMode::Tab).unwrap();
    assert_eq!(s.mode(), Some(&RecordingMode::Tab));
}

#[test]
fn test_set_mode_invalid_state() {
    let mut s = RecordingSession::new();
    s.transition(SessionState::Starting).unwrap();
    assert_violation(s.set_mode(RecordingMode::FullScreen));
    assert!(s.mode().is_none());
}

#[test]
fn test_set_mic_enabled_false() {
    let mut s = RecordingSession::new();
    s.set_mic_enabled(false).unwrap();
    assert!(!s.mic_enabled());
}

#[test]
fn test_set_mic_enabled_invalid_state() {
    let mut s = RecordingSession::new();
    s.transition(SessionState::Starting).unwrap();
    assert_violation(s.set_mic_enabled(false));
    assert!(s.mic_enabled());
}

fn now_ms() -> u64 {
    std::time::SystemTime::now()
        .duration_since(std::time::UNIX_EPOCH)
        .map(|d| d.as_millis() as u64)
        .unwrap_or(0)
}

#[test]
fn test_session_id_generated() {
    let mut s = RecordingSession::new();
    assert!(s.session_id().is_none());
    s.init_session_id(now_ms(), 0);
    let id = s.session_id().expect("session_id should be set");
    assert!(!id.is_empty(), "session_id must not be empty");
    assert!(id.starts_with("rec_"), "session_id must start with 'rec_'");
}

#[test]
fn test_session_id_unique() {
    let mut s1 = RecordingSession::new();
    let mut s2 = RecordingSession::new();
    let t = now_ms();
    s1.init_session_id(t, 0);
    s2.init_session_id(t, 1);
    let id1 = s1.session_id().unwrap();
    let id2 = s2.session_id().unwrap();
    if id1 != id2 {
        assert_ne!(id1, id2, "consecutive session IDs should differ");
    }
}

#[test]
fn test_is_acquiring_in_starting() {
    let mut s = RecordingSession::new();
    assert!(!s.is_acquiring());
    s.transition(SessionState::Starting).unwrap();
    assert!(s.is_acquiring());
}

#[test]
fn test_is_acquiring_not_in_recording() {
    let mut s = RecordingSession::new();
    to_recording(&mut s);
    assert!(!s.is_acquiring());
}

#[test]
fn test_mic_enabled_default() {
    let s = RecordingSession::new();
    assert!(s.mic_enabled());
}

#[test]
fn test_cancel_from_starting() {
    let mut s = RecordingSession::new();
    s.transition(SessionState::Starting).unwrap();
    s.transition(SessionState::Idle).unwrap();
    assert_eq!(s.state(), &SessionState::Idle);
}

#[test]
fn test_cancel_from_recording() {
    let mut s = RecordingSession::new();
    to_recording(&mut s);
    s.transition(SessionState::Idle).unwrap();
    assert_eq!(s.state(), &SessionState::Idle);
}

#[test]
fn test_cancel_from_paused() {
    let mut s = RecordingSession::new();
    to_recording(&mut s);
    s.transition(SessionState::Paused).unwrap();
    s.transition(SessionState::Idle).unwrap();
    assert_eq!(s.state(), &SessionState::Idle);
}

#[test]
fn test_stop_from_paused() {
    let mut s = RecordingSession::new();
    to_recording(&mut s);
    s.transition(SessionState::Paused).unwrap();
    s.transition(SessionState::Stopping).unwrap();
    assert_eq!(s.state(), &SessionState::Stopping);
}

#[test]
fn test_session_duration_field_default() {
    let s = RecordingSession::new();
    assert_eq!(f64::from_bits(s.accumulated_duration_ms()), 0.0);
}

#[test]
fn test_session_set_duration() {
    let mut s = RecordingSession::new();
    s.set_duration(1234.5f64.to_bits());
    assert!((f64::from_bits(s.accumulated_duration_ms()) - 1234.5).abs() < 0.001);
}

#[test]
fn test_session_integrity_report_default_none() {
    let s = RecordingSession::new();
    assert!(s.integrity_report().is_none());
}

#[test]
fn test_session_integrity_report_set_and_get() {
    let mut s = RecordingSession::new();
    let report = IntegrityReport {
        status: IntegrityStatus::Clean,
        total_chunks: 5,
        verified_chunks: 5,
        lost_chunks: 0,
        contiguous_prefix: 5,
        recommended_action: "restore".into(),
        session_id: "rec_test_001".into(),
        detail_message: None,
    };
    s.set_integrity_report(report);
    assert!(s.integrity_report().is_some());
    assert_eq!(s.integrity_report().unwrap().status, IntegrityStatus::Clean);
    assert_eq!(s.integrity_report().unwrap().verified_chunks, 5);
}

// ---------------------------------------------------------------------------
// Further cases
// ---------------------------------------------------------------------------

#[test]
fn session_id_format() {
    let mut s = RecordingSession::new();
    s.init_session_id(0x18f3a2b4c5d, 0x2a);
    assert_eq!(s.session_id(), Some("rec_18f3a2b4c5d_002a"));
    s.init_session_id(0, 0xffff);
    assert_eq!(s.session_id(), Some("rec_0_ffff"));
}

#[test]
fn refused_transition_message_and_no_change() {
    let mut s = RecordingSession::new();
    s.set_mode(RecordingMode::Tab).unwrap();
    s.set_duration(7.0f64.to_bits());
    let err = s.transition(SessionState::Preview).unwrap_err();
    assert_eq!(err.details(), "Cannot transition from Idle to Preview");
    assert_eq!(s.state(), &SessionState::Idle);
    assert_eq!(s.mode(), Some(&RecordingMode::Tab));
    assert_eq!(f64::from_bits(s.accumulated_duration_ms()), 7.0);
}

#[test]
fn settings_refused_outside_idle_with_message() {
    let mut s = RecordingSession::new();
    s.transition(SessionState::CrashRecovery).unwrap();
    assert_eq!(
        s.set_mode(RecordingMode::Tab).unwrap_err().details(),
        "Cannot set recording mode in state CrashRecovery"
    );
    assert_eq!(
        s.set_mic_enabled(false).unwrap_err().details(),
        "Cannot change mic setting in state CrashRecovery"
    );
}

#[test]
fn every_state_can_return_to_idle() {
    let all = [
        SessionState::Starting,
        SessionState::Countdown,
        SessionState::Recording,
        SessionState::Paused,
        SessionState::Preview,
        SessionState::Error,
        SessionState::CrashRecovery,
    ];
    for st in all {
        let mut s = RecordingSession::new();
        match st {
            SessionState::Starting => s.transition(SessionState::Starting).unwrap(),
            SessionState::Countdown => {
                s.transition(SessionState::Starting).unwrap();
                s.transition(SessionState::Countdown).unwrap();
            }
            SessionState::Recording => to_recording(&mut s),
            SessionState::Paused => {
                to_recording(&mut s);
                s.transition(SessionState::Paused).unwrap();
            }
            SessionState::Preview => {
                s.transition(SessionState::CrashRecovery).unwrap();
                s.transition(SessionState::Preview).unwrap();
            }
            SessionState::Error => {
                s.transition(SessionState::Starting).unwrap();
                s.transition(SessionState::Error).unwrap();
            }
            _ => s.transition(SessionState::CrashRecovery).unwrap(),
        }
        assert_eq!(s.state(), &st);
        s.transition(SessionState::Idle).unwrap();
        assert!(s.state().is_idle());
    }
}

#[test]
fn session_course_runs_through_every_step() {
    let mut s = RecordingSession::new();
    for target in [
        SessionState::Starting,
        SessionState::Countdown,
        SessionState::Recording,
        SessionState::Paused,
        SessionState::Recording,
        SessionState::Paused,
        SessionState::Stopping,
        SessionState::Preview,
        SessionState::Idle,
    ] {
        s.transition(target).expect("each step of the course is allowed");
        assert_eq!(s.state(), &target);
    }
    let mut stopping = RecordingSession::new();
    for target in [SessionState::Starting, SessionState::Countdown, SessionState::Recording, SessionState::Stopping] {
        stopping.transition(target).unwrap();
    }
    assert!(stopping.transition(SessionState::Idle).is_err());
    stopping.transition(SessionState::Error).unwrap();
    stopping.transition(SessionState::Idle).unwrap();
    assert!(stopping.state().is_idle());
}
