use capture_forge::preview::{
    date_stamp, init_preview_page, EscapeOutcome, IntegrityState, PreviewPage,
};

#[test]
fn test_preview_page_creation() {
    let page = PreviewPage::new();
    assert_eq!(page.integrity_state(), &IntegrityState::Clean);
    assert_eq!(page.integrity_text(), "Clean");
    assert!(!page.is_dialog_visible());
    assert!(page.session_id().is_none());
    assert!(page.error_message().is_none());
    assert!(!page.is_rendered());
}

#[test]
fn test_preview_integrity_badge_clean() {
    let mut page = PreviewPage::new();
    page.set_integrity(IntegrityState::Clean);
    assert_eq!(page.integrity_state(), &IntegrityState::Clean);
    assert_eq!(page.integrity_text(), "Clean");
}

#[test]
fn test_preview_integrity_badge_partial() {
    let mut page = PreviewPage::new();
    page.set_integrity(IntegrityState::Partial);
    assert_eq!(page.integrity_state(), &IntegrityState::Partial);
    assert_eq!(page.integrity_text(), "Partial");
}

#[test]
fn test_preview_integrity_badge_incomplete() {
    let mut page = PreviewPage::new();
    page.set_integrity(IntegrityState::Incomplete);
    assert_eq!(page.integrity_state(), &IntegrityState::Incomplete);
    assert_eq!(page.integrity_text(), "Incomplete");
}

#[test]
fn test_preview_integrity_colors() {
    assert_eq!(IntegrityState::Clean.css_class(), "integrity-clean");
    assert_eq!(IntegrityState::Partial.css_class(), "integrity-partial");
    assert_eq!(IntegrityState::Incomplete.css_class(), "integrity-incomplete");

    assert_eq!(IntegrityState::Clean.aria_label(), "Clean");
    assert_eq!(IntegrityState::Partial.aria_label(), "Partial");
    assert_eq!(IntegrityState::Incomplete.aria_label(), "Incomplete");
}

#[test]
fn test_preview_integrity_playback_not_blocked() {
    let mut page = PreviewPage::new();
    page.set_webm_data(vec![0x1A, 0x45, 0xDF, 0xA3]);

    page.set_integrity(IntegrityState::Partial);
    assert!(page.webm_data.is_some());

    page.set_integrity(IntegrityState::Incomplete);
    assert!(page.webm_data.is_some());

    page.set_integrity(IntegrityState::Clean);
    assert!(page.webm_data.is_some());
}

#[test]
fn test_preview_delete_confirmation() {
    let mut page = PreviewPage::new();
    assert!(!page.is_dialog_visible());

    page.show_delete_dialog();
    assert!(page.is_dialog_visible());

    page.hide_delete_dialog();
    assert!(!page.is_dialog_visible());
}

#[test]
fn test_preview_delete_confirmed() {
    let mut page = PreviewPage::new();
    page.set_session_id("test-session-1".into());
    page.set_webm_data(vec![0x1A, 0x45, 0xDF, 0xA3]);

    page.show_delete_dialog();
    assert!(page.is_dialog_visible());

    let deleted_id = page.confirm_delete();
    assert!(!page.is_dialog_visible());
    assert_eq!(deleted_id.as_deref(), Some("test-session-1"));
}

#[test]
fn test_preview_delete_cancelled() {
    let mut page = PreviewPage::new();
    page.set_session_id("test-session-1".into());

    page.show_delete_dialog();
    assert!(page.is_dialog_visible());

    // Cancelling only hides the dialog: nothing is handed to a delete handler.
    page.hide_delete_dialog();
    assert!(!page.is_dialog_visible());
    assert_eq!(page.session_id(), Some("test-session-1"));
}

#[test]
fn test_preview_escape_closes() {
    let mut page = PreviewPage::new();
    assert!(!page.is_dialog_visible());
    assert_eq!(page.handle_escape(), EscapeOutcome::ClosePage);
}

#[test]
fn test_preview_escape_during_dialog() {
    let mut page = PreviewPage::new();
    page.show_delete_dialog();
    assert!(page.is_dialog_visible());

    let outcome = page.handle_escape();
    assert!(!page.is_dialog_visible(), "dialog should close on Escape");
    assert_ne!(outcome, EscapeOutcome::ClosePage, "page should NOT close when dialog is visible");
    assert_eq!(outcome, EscapeOutcome::DialogClosed);
}

#[test]
fn test_preview_space_toggle_playback() {
    let mut page = PreviewPage::new();
    page.handle_space();
    assert!(!page.is_dialog_visible());
}

#[test]
fn test_preview_focus_on_load() {
    let mut page = PreviewPage::new();
    page.render().expect("render should succeed");
    assert!(page.is_rendered());
}

#[test]
fn test_preview_error_state_export_failure() {
    let mut page = PreviewPage::new();

    assert!(page.error_message().is_none());
    assert!(page.error_suggestion().is_none());

    page.show_error(
        "Could not create WebM file.",
        "Check available disk space and try again.",
    );
    assert_eq!(page.error_message(), Some("Could not create WebM file."));
    assert_eq!(
        page.error_suggestion(),
        Some("Check available disk space and try again.")
    );

    page.render().expect("render with error should succeed");
    assert!(page.is_rendered());

    page.hide_error();
    assert!(page.error_message().is_none());
}

#[test]
fn test_preview_aria_labels() {
    let _page = PreviewPage::new();
    assert_eq!(IntegrityState::Clean.aria_label(), "Clean");
    assert_eq!(IntegrityState::Partial.aria_label(), "Partial");
    assert_eq!(IntegrityState::Incomplete.aria_label(), "Incomplete");
}

#[test]
fn test_preview_filename_format() {
    let mut page = PreviewPage::new();
    page.set_session_id("rec_abc_1234".into());
    let filename = page.download_filename("unknown-date");
    assert_eq!(filename, "CaptureForge-rec_abc_1234.webm");
}

#[test]
fn test_preview_filename_format_no_session_id() {
    let page = PreviewPage::new();
    let filename = page.download_filename("unknown-date");
    assert!(filename.starts_with("Recording-"));
    assert!(filename.ends_with(".webm"));
}

#[test]
fn test_preview_set_session_id() {
    let mut page = PreviewPage::new();
    assert!(page.session_id().is_none());
    page.set_session_id("rec_xxx_0001".into());
    assert_eq!(page.session_id(), Some("rec_xxx_0001"));
}

#[test]
fn test_preview_set_webm_data() {
    let mut page = PreviewPage::new();
    page.set_webm_data(vec![0x1A, 0x45, 0xDF, 0xA3]);
    assert!(page.webm_data.is_some());
}

#[test]
fn test_preview_detail_message_default_none() {
    let page = PreviewPage::new();
    assert!(page.detail_message().is_none());
}

#[test]
fn test_preview_detail_message_partial() {
    let mut page = PreviewPage::new();
    page.set_integrity(IntegrityState::Partial);
    page.set_detail_message(Some("Clean — up to chunk 7 of 10".into()));
    assert_eq!(page.detail_message(), Some("Clean — up to chunk 7 of 10"));
}

#[test]
fn test_preview_detail_message_incomplete() {
    let mut page = PreviewPage::new();
    page.set_integrity(IntegrityState::Incomplete);
    page.set_detail_message(Some("This recording could not be fully recovered.".into()));
    assert_eq!(
        page.detail_message(),
        Some("This recording could not be fully recovered.")
    );
}

#[test]
fn test_preview_detail_message_clear() {
    let mut page = PreviewPage::new();
    page.set_detail_message(Some("Some message".into()));
    assert!(page.detail_message().is_some());
    page.set_detail_message(None);
    assert!(page.detail_message().is_none());
}

#[test]
fn test_preview_playback_available_with_partial_integrity() {
    let mut page = PreviewPage::new();
    page.set_webm_data(vec![0x1A, 0x45, 0xDF, 0xA3]);
    page.set_integrity(IntegrityState::Partial);
    page.set_detail_message(Some("Clean — up to chunk 5 of 10".into()));

    assert!(page.webm_data.is_some());
    assert_eq!(page.integrity_state(), &IntegrityState::Partial);
}

#[test]
fn test_preview_render_and_destroy() {
    let mut page = PreviewPage::new();
    assert!(!page.is_rendered());

    page.render().expect("render should succeed");
    assert!(page.is_rendered());

    page.destroy();
    assert!(!page.is_rendered());
}

#[test]
fn test_preview_render_twice_noop() {
    let mut page = PreviewPage::new();
    page.render().expect("first render");
    assert!(page.is_rendered());

    page.render().expect("second render should be no-op");
    assert!(page.is_rendered());
}

#[test]
fn test_preview_destroy_twice_noop() {
    let mut page = PreviewPage::new();
    page.render().expect("render");
    page.destroy();
    page.destroy();
    assert!(!page.is_rendered());
}

#[test]
fn test_preview_default() {
    let page = PreviewPage::default();
    assert_eq!(page.integrity_state(), &IntegrityState::Clean);
    assert!(!page.is_dialog_visible());
    assert!(!page.is_rendered());
}

#[test]
fn preview_integrity_label_roundtrip() {
    for state in [IntegrityState::Clean, IntegrityState::Partial, IntegrityState::Incomplete] {
        assert_eq!(IntegrityState::from_label(state.as_label()), state);
    }
    assert_eq!(IntegrityState::from_label("whatever"), IntegrityState::Clean);
}

#[test]
fn preview_date_stamp_is_zero_padded() {
    assert_eq!(date_stamp(2026, 5, 20), "2026-06-20");
    assert_eq!(date_stamp(2026, 0, 1), "2026-01-01");
    assert_eq!(date_stamp(987, 11, 31), "0987-12-31");
    let page = PreviewPage::new();
    assert_eq!(page.download_filename(&date_stamp(2026, 5, 20)), "Recording-2026-06-20.webm");
}

#[test]
fn preview_destroyed_page_is_not_rendered_again() {
    let mut page = PreviewPage::new();
    assert!(page.needs_render());
    page.render().unwrap();
    page.destroy();
    assert!(!page.needs_render());
    page.render().unwrap();
    assert!(!page.is_rendered());
}

#[test]
fn preview_init_from_stored_data() {
    let page = init_preview_page("rec_1", &[1, 2, 3], "Partial", Some("Clean — up to chunk 2 of 3".into()));
    assert_eq!(page.session_id(), Some("rec_1"));
    assert_eq!(page.webm_data.as_deref(), Some(&[1u8, 2, 3][..]));
    assert_eq!(page.integrity_state(), &IntegrityState::Partial);
    assert_eq!(page.detail_message(), Some("Clean — up to chunk 2 of 3"));

    let plain = init_preview_page("rec_2", &[], "Clean", Some(String::new()));
    assert!(plain.detail_message().is_none());
    assert_eq!(plain.integrity_state(), &IntegrityState::Clean);
}
