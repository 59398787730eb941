use capture_forge::status_bar::{format_duration, RecorderStatusBar};

/// Whole seconds of an elapsed time in milliseconds, negative times counting
/// as zero, as the toolbar's timer reads them.
fn whole_secs(ms: f64) -> u64 {
    (ms / 1000.0).max(0.0) as u64
}

fn format_ms(ms: f64) -> String {
    format_duration(whole_secs(ms))
}

#[test]
fn test_format_duration_zero() {
    assert_eq!(format_ms(0.0), "00:00");
}

#[test]
fn test_format_duration_mmss() {
    assert_eq!(format_ms(30_000.0), "00:30");
    assert_eq!(format_ms(222_000.0), "03:42");
    assert_eq!(format_ms(3_500_000.0), "58:20");
}

#[test]
fn test_format_duration_hhmmss() {
    assert_eq!(format_ms(3_733_000.0), "01:02:13");
    assert_eq!(format_ms(7_200_000.0), "02:00:00");
    assert_eq!(format_ms(366_1000.0), "01:01:01");
}

#[test]
fn test_format_duration_edge_cases() {
    assert_eq!(format_ms(3_599_000.0), "59:59");
    assert_eq!(format_ms(3_600_000.0), "01:00:00");
    assert_eq!(format_ms(-1000.0), "00:00");
    assert_eq!(format_ms(100_000_000.0), "27:46:40");
}

#[test]
fn test_format_duration_millisecond_truncation() {
    assert_eq!(format_ms(123_456.789), "02:03");
}

#[test]
fn test_new_status_bar_not_paused() {
    let bar = RecorderStatusBar::new();
    assert!(!bar.is_paused());
}

#[test]
fn test_set_paused_true() {
    let mut bar = RecorderStatusBar::new();
    bar.set_paused(true);
    assert!(bar.is_paused());
}

#[test]
fn test_set_paused_false() {
    let mut bar = RecorderStatusBar::new();
    bar.set_paused(true);
    assert!(bar.is_paused());
    bar.set_paused(false);
    assert!(!bar.is_paused());
}

#[test]
fn test_new_default_not_paused() {
    let bar = RecorderStatusBar::default();
    assert!(!bar.is_paused());
}

#[test]
fn test_show_and_remove_cycles() {
    let mut bar = RecorderStatusBar::new();
    assert!(bar.show().is_ok());
    bar.set_paused(true);
    assert!(bar.is_paused());
    bar.remove();
    assert!(!bar.is_paused());
}

#[test]
fn test_update_no_panic() {
    let bar = RecorderStatusBar::new();
    assert_eq!(bar.update(whole_secs(42_000.0)), "00:42");
    assert_eq!(bar.update(whole_secs(3_600_000.0)), "01:00:00");
}

#[test]
fn status_bar_labels_follow_paused_state() {
    let mut bar = RecorderStatusBar::new();
    let running = bar.labels();
    assert_eq!(running.button_icon, "⏸");
    assert_eq!(running.button_label, "Pause recording");
    assert_eq!(running.announcement, "Recording resumed");
    assert!(!running.paused_look);
    bar.set_paused(true);
    let paused = bar.labels();
    assert_eq!(paused.button_icon, "▶");
    assert_eq!(paused.button_label, "Resume recording");
    assert_eq!(paused.announcement, "Recording paused");
    assert!(paused.paused_look);
}

#[test]
fn clock_text_has_fixed_width() {
    for secs in [0u64, 1, 59, 60, 599, 3599] {
        assert_eq!(format_duration(secs).len(), 5);
    }
    for secs in [3600u64, 3661, 86_399, 359_999] {
        assert_eq!(format_duration(secs).len(), 8);
    }
    assert_eq!(format_duration(360_000), "100:00:00");
}
