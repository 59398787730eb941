use capture_forge::countdown::{interval_action, ring_thirds, CountdownAction, CountdownOverlay};

#[test]
fn test_new_overlay_starts_at_three() {
    let overlay = CountdownOverlay::new();
    assert_eq!(overlay.current(), 3);
    assert!(!overlay.is_complete());
}

#[test]
fn test_countdown_sequence() {
    let mut overlay = CountdownOverlay::new();
    assert_eq!(overlay.current(), 3);

    assert!(!overlay.tick());
    assert_eq!(overlay.current(), 2);
    assert!(!overlay.is_complete());

    assert!(!overlay.tick());
    assert_eq!(overlay.current(), 1);
    assert!(!overlay.is_complete());

    assert!(overlay.tick());
    assert!(overlay.is_complete());
}

#[test]
fn test_countdown_complete_returns_true() {
    let mut overlay = CountdownOverlay::new();
    overlay.tick();
    overlay.tick();
    assert!(overlay.tick());
    assert!(overlay.is_complete());
}

#[test]
fn test_countdown_tick_past_complete() {
    let mut overlay = CountdownOverlay::new();
    overlay.tick();
    overlay.tick();
    overlay.tick();
    assert!(overlay.is_complete());
    assert!(overlay.tick());
    assert!(overlay.is_complete());
}

#[test]
fn test_reset_restores_state() {
    let mut overlay = CountdownOverlay::new();
    overlay.tick();
    overlay.tick();
    overlay.tick();
    assert!(overlay.is_complete());

    overlay.reset();
    assert_eq!(overlay.current(), 3);
    assert!(!overlay.is_complete());
}

#[test]
fn test_remove_resets_state() {
    let mut overlay = CountdownOverlay::new();
    overlay.tick();
    overlay.tick();
    overlay.remove();
    assert_eq!(overlay.current(), 3);
    assert!(!overlay.is_complete());
}

#[test]
fn test_countdown_default() {
    let overlay = CountdownOverlay::default();
    assert_eq!(overlay.current(), 3);
    assert!(!overlay.is_complete());
}

#[test]
fn test_full_cycle_new_remove_new() {
    let mut overlay = CountdownOverlay::new();
    overlay.tick();
    overlay.tick();
    overlay.tick();
    assert!(overlay.is_complete());
    overlay.remove();
    assert_eq!(overlay.current(), 3);
    assert!(!overlay.is_complete());
}

#[test]
fn countdown_show_restarts_from_three() {
    let mut overlay = CountdownOverlay::new();
    overlay.tick();
    assert!(overlay.show().is_ok());
    assert_eq!(overlay.current(), 3);
    assert!(!overlay.is_complete());
}

#[test]
fn countdown_timer_steps_one_number_per_second() {
    let steps: Vec<CountdownAction> = (0..6).map(interval_action).collect();
    assert_eq!(
        steps,
        vec![
            CountdownAction::SetNumber(2),
            CountdownAction::SetNumber(1),
            CountdownAction::Finish,
            CountdownAction::Nothing,
            CountdownAction::Nothing,
            CountdownAction::Nothing,
        ]
    );
    // The timer's numbers are the ones the overlay's ticks move to.
    let mut overlay = CountdownOverlay::new();
    for tick in 0..3 {
        let done = overlay.tick();
        match interval_action(tick) {
            CountdownAction::SetNumber(n) => {
                assert!(!done);
                assert_eq!(overlay.current(), n);
            }
            CountdownAction::Finish => assert!(done && overlay.is_complete()),
            CountdownAction::Nothing => panic!("no step is empty before the end"),
        }
    }
}

#[test]
fn countdown_ring_fills_in_thirds() {
    assert_eq!(ring_thirds(0), Some(1));
    assert_eq!(ring_thirds(1), Some(2));
    assert_eq!(ring_thirds(2), Some(3));
    assert_eq!(ring_thirds(3), None);
    assert_eq!(ring_thirds(7), None);
}
