use wgpu_raytrace::state::{FramePlan, KeyCode, Recovery, State, SurfaceConfig, SurfaceError};

fn configured(w: u32, h: u32) -> State {
    let mut s = State::new(w, h);
    assert!(s.resize(w, h));
    s
}

#[test]
fn new_state_is_unconfigured() {
    let s = State::new(800, 600);
    assert_eq!(s.config, SurfaceConfig { width: 800, height: 600 });
    assert!(!s.is_surface_configured);
    assert_eq!(s.render(), None);
}

#[test]
fn zero_resize_is_a_no_op() {
    for (w, h) in [(0u32, 600u32), (800, 0), (0, 0)] {
        let mut s = configured(640, 480);
        let before = s;
        assert!(!s.resize(w, h));
        assert_eq!(s, before);
        assert!(!s.resize(w, h));
        assert_eq!(s, before);
    }
    let mut fresh = State::new(800, 600);
    assert!(!fresh.resize(0, 10));
    assert!(!fresh.is_surface_configured);
}

#[test]
fn positive_resize_sets_size() {
    let mut s = State::new(800, 600);
    assert!(s.resize(1024, 768));
    assert_eq!(s.config, SurfaceConfig { width: 1024, height: 768 });
    assert!(s.is_surface_configured);
    assert!(s.resize(1, u32::MAX));
    assert_eq!(s.config, SurfaceConfig { width: 1, height: u32::MAX });
}

#[test]
fn only_escape_press_exits() {
    let s = configured(800, 600);
    assert!(s.handle_key(KeyCode::Escape, true));
    assert!(!s.handle_key(KeyCode::Escape, false));
    assert!(!s.handle_key(KeyCode::Other, true));
    assert!(!s.handle_key(KeyCode::Other, false));
}

#[test]
fn update_keeps_state() {
    let mut s = configured(320, 200);
    let before = s;
    s.update();
    assert_eq!(s, before);
}

#[test]
fn render_plans_compute_then_blit() {
    let s = configured(1280, 720);
    assert_eq!(
        s.render(),
        Some(FramePlan { workgroups: (100, 75, 1), width: 1280, height: 720 })
    );
}

#[test]
fn lost_or_outdated_reconfigures() {
    for e in [SurfaceError::Lost, SurfaceError::Outdated] {
        let mut s = configured(800, 600);
        assert_eq!(s.recover(e, 1000, 500), Recovery::Reconfigure { width: 1000, height: 500 });
        assert_eq!(s.config, SurfaceConfig { width: 1000, height: 500 });
        assert!(s.render().is_some());
        let before = s;
        assert_eq!(s.recover(e, 0, 500), Recovery::Skip);
        assert_eq!(s, before);
    }
}

#[test]
fn other_errors_are_reported() {
    for e in [SurfaceError::Timeout, SurfaceError::OutOfMemory, SurfaceError::Other] {
        let mut s = configured(800, 600);
        let before = s;
        assert_eq!(s.recover(e, 1000, 500), Recovery::Report(e));
        assert_eq!(s, before);
    }
}
