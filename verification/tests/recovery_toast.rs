use capture_forge::recovery_toast::RecoveryToast;

#[test]
fn test_toast_initial_state() {
    let toast = RecoveryToast::new();
    assert!(!toast.is_rendered());
    assert!(!toast.is_destroyed());
}

#[test]
fn test_toast_show_sets_visible() {
    let mut toast = RecoveryToast::new();
    toast.render().expect("render should succeed");
    assert!(toast.is_rendered());
    assert!(!toast.is_destroyed());
}

#[test]
fn test_toast_dismiss_hides() {
    let mut toast = RecoveryToast::new();
    toast.render().expect("render should succeed");
    assert!(toast.is_rendered());

    toast.remove();
    assert!(!toast.is_rendered());
    assert!(toast.is_destroyed());
}

#[test]
fn test_toast_no_double_render() {
    let mut toast = RecoveryToast::new();
    toast.render().expect("first render should succeed");
    assert!(toast.is_rendered());

    toast.render().expect("second render should be no-op");
    assert!(toast.is_rendered());
}

#[test]
fn test_toast_remove_twice_noop() {
    let mut toast = RecoveryToast::new();
    toast.render().expect("render");
    toast.remove();
    assert!(toast.is_destroyed());

    toast.remove();
    assert!(toast.is_destroyed());
}

#[test]
fn test_toast_default() {
    let toast = RecoveryToast::default();
    assert!(!toast.is_rendered());
    assert!(!toast.is_destroyed());
}

#[test]
fn test_toast_render_after_remove_allowed() {
    let mut toast = RecoveryToast::new();
    toast.render().expect("first render");
    toast.remove();
    assert!(toast.is_destroyed());

    toast.render().expect("render after remove should be no-op");
    assert!(!toast.is_rendered(), "should not re-render after destroy");
}

#[test]
fn toast_needs_render_only_when_fresh() {
    let mut toast = RecoveryToast::new();
    assert!(toast.needs_render());
    toast.render().unwrap();
    assert!(!toast.needs_render());
    toast.remove();
    assert!(!toast.needs_render());
}
