use capture_forge::background::{
    handle_background_request, propose_recovery, BackgroundReply, OrphanSession, PreviewStore,
};
use capture_forge::error::RecordingError;
use capture_forge::recorder::{RecordingSession, SessionState};
use capture_forge::recovery::{is_lock_stale, LOCK_STALE_AFTER_MS};

fn session_in(path: &[SessionState]) -> RecordingSession {
    let mut s = RecordingSession::new();
    for st in path {
        s.transition(*st).expect("allowed transition");
    }
    s
}

#[test]
fn preview_store_reads_back_what_was_stored() {
    let mut store = PreviewStore::new();
    assert!(store.get("a").is_none());
    store.store("a", &[1, 2, 3], "Clean", None);
    store.store("b", &[9], "Partial", Some("Clean — up to chunk 1 of 2".into()));
    let a = store.get("a").unwrap();
    assert_eq!(a.session_id, "a");
    assert_eq!(a.webm_data, vec![1, 2, 3]);
    assert_eq!(a.integrity, "Clean");
    assert!(a.detail_message.is_none());
    let b = store.get("b").unwrap();
    assert_eq!(b.integrity, "Partial");
    assert_eq!(b.detail_message.as_deref(), Some("Clean — up to chunk 1 of 2"));

    // Storing again replaces the earlier entry.
    store.store("a", &[7], "Incomplete", None);
    let a = store.get("a").unwrap();
    assert_eq!(a.webm_data, vec![7]);
    assert_eq!(a.integrity, "Incomplete");

    store.remove("a");
    assert!(store.get("a").is_none());
    assert!(store.get("b").is_some());
    store.remove("missing");
    assert!(store.get("b").is_some());
}

#[test]
fn background_get_preview_data() {
    let mut store = PreviewStore::new();
    store.store("rec_1", &[1], "Clean", None);
    let mut session = RecordingSession::new();
    let found = handle_background_request("GET_PREVIEW_DATA", Some("rec_1"), &mut session, &mut store);
    assert_eq!(found.reply, BackgroundReply::Preview);
    assert!(!found.clear_toast);
    let missing = handle_background_request("GET_PREVIEW_DATA", Some("rec_2"), &mut session, &mut store);
    assert_eq!(missing.reply, BackgroundReply::NotFound);
    let none = handle_background_request("GET_PREVIEW_DATA", None, &mut session, &mut store);
    assert_eq!(none.reply, BackgroundReply::NotFound);
    assert_eq!(session.state(), &SessionState::Idle);
}

#[test]
fn background_delete_forgets_preview_and_idles_session() {
    let mut store = PreviewStore::new();
    store.store("rec_1", &[1], "Clean", None);
    let mut session = session_in(&[
        SessionState::Starting,
        SessionState::Countdown,
        SessionState::Recording,
        SessionState::Stopping,
        SessionState::Preview,
    ]);
    let out = handle_background_request("DELETE_RECORDING", Some("rec_1"), &mut session, &mut store);
    assert_eq!(out.reply, BackgroundReply::NoAnswer);
    assert!(out.transition_error.is_none());
    assert!(store.get("rec_1").is_none());
    assert_eq!(session.state(), &SessionState::Idle);
}

#[test]
fn background_refused_transition_is_reported() {
    let mut store = PreviewStore::new();
    let mut session = session_in(&[
        SessionState::Starting,
        SessionState::Countdown,
        SessionState::Recording,
        SessionState::Stopping,
    ]);
    let out = handle_background_request("PREVIEW_CLOSED", None, &mut session, &mut store);
    assert!(matches!(out.transition_error, Some(RecordingError::StateViolation { .. })));
    assert_eq!(session.state(), &SessionState::Stopping);
}

#[test]
fn background_recovery_answers_clear_toast() {
    let mut store = PreviewStore::new();
    for kind in ["RESTORE_RECORDING", "DISMISS_RECOVERY"] {
        let mut session = session_in(&[SessionState::CrashRecovery]);
        let out = handle_background_request(kind, Some("rec_9"), &mut session, &mut store);
        assert!(out.clear_toast);
        assert!(out.transition_error.is_none());
        assert_eq!(session.state(), &SessionState::Idle);
    }
    let mut session = RecordingSession::new();
    let other = handle_background_request("SOMETHING_ELSE", None, &mut session, &mut store);
    assert_eq!(other.reply, BackgroundReply::NoAnswer);
    assert!(!other.clear_toast);
}

#[test]
fn recovery_is_proposed_only_from_idle() {
    let orphans = vec![
        OrphanSession { session_id: "rec_a".into(), chunk_files: 4 },
        OrphanSession { session_id: "rec_b".into(), chunk_files: 2 },
    ];
    let mut idle = RecordingSession::new();
    let p = propose_recovery(&mut idle, &orphans).expect("proposal");
    assert_eq!(p.session_id, "rec_a");
    assert_eq!(p.chunk_count, 4);
    assert_eq!(idle.state(), &SessionState::CrashRecovery);

    let mut recording =
        session_in(&[SessionState::Starting, SessionState::Countdown, SessionState::Recording]);
    assert!(propose_recovery(&mut recording, &orphans).is_none());
    assert_eq!(recording.state(), &SessionState::Recording);

    let mut fresh = RecordingSession::new();
    assert!(propose_recovery(&mut fresh, &[]).is_none());
    assert_eq!(fresh.state(), &SessionState::Idle);
}

#[test]
fn lock_staleness_threshold() {
    assert_eq!(LOCK_STALE_AFTER_MS, 30_000);
    assert!(!is_lock_stale(None, 1_000_000));
    assert!(!is_lock_stale(Some(1_000), 31_000));
    assert!(is_lock_stale(Some(1_000), 31_001));
    assert!(!is_lock_stale(Some(50_000), 10_000));
}
