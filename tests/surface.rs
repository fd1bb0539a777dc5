use apphost::{select_format, AcquireAction, AcquireStatus, SurfaceConfig, SurfaceState, FRAME_LATENCY};

fn config(width: u32, height: u32) -> SurfaceConfig {
    SurfaceConfig { width, height, vsync: true, frame_latency: FRAME_LATENCY, extra_view_format: false }
}

#[test]
fn new_surface_is_unconfigured() {
    let s = SurfaceState::new(false);
    assert!(!s.is_configured());
    assert_eq!(s.surface_size(), None);
}

#[test]
fn configure_same_size_twice_reconfigures_once() {
    let mut s = SurfaceState::new(false);
    let mut reconfigurations = 0;
    for _ in 0..2 {
        if s.configure(640, 480).is_some() {
            reconfigurations += 1;
        }
    }
    assert_eq!(reconfigurations, 1);
    assert_eq!(s.surface_size(), Some((640, 480)));
}

#[test]
fn configure_returns_vsync_config_with_two_frames_in_flight() {
    let mut s = SurfaceState::new(true);
    let c = s.configure(1024, 768).unwrap();
    assert_eq!(c.width, 1024);
    assert_eq!(c.height, 768);
    assert!(c.vsync);
    assert_eq!(c.frame_latency, 2);
    assert!(c.extra_view_format);
}

#[test]
fn zero_dimension_never_configures() {
    let mut s = SurfaceState::new(false);
    assert_eq!(s.configure(0, 480), None);
    assert_eq!(s.configure(640, 0), None);
    assert_eq!(s.configure(0, 0), None);
    assert!(!s.is_configured());
    for status in [
        AcquireStatus::Acquired,
        AcquireStatus::Lost,
        AcquireStatus::Outdated,
        AcquireStatus::Timeout,
        AcquireStatus::OutOfMemory,
        AcquireStatus::Other,
    ] {
        assert_eq!(s.acquire_frame(status), AcquireAction::Skip);
    }
}

#[test]
fn resize_sequence() {
    let mut s = SurfaceState::new(false);
    let mut reconfigurations = 0;
    let mut apply = |s: &mut SurfaceState, w: u32, h: u32| {
        if s.configure(w, h).is_some() {
            reconfigurations += 1;
        }
    };
    apply(&mut s, 0, 0);
    assert!(!s.is_configured());
    apply(&mut s, 800, 600);
    assert_eq!(s.surface_size(), Some((800, 600)));
    apply(&mut s, 800, 600);
    apply(&mut s, 0, 300);
    // A zero dimension is a no-op: the size applied last stays in force.
    assert_eq!(s.surface_size(), Some((800, 600)));
    assert_eq!(reconfigurations, 1);
}

#[test]
fn new_size_reconfigures_again() {
    let mut s = SurfaceState::new(false);
    assert_eq!(s.configure(800, 600), Some(config(800, 600)));
    assert_eq!(s.configure(1280, 720), Some(config(1280, 720)));
    assert_eq!(s.configure(800, 600), Some(config(800, 600)));
    assert_eq!(s.surface_size(), Some((800, 600)));
}

#[test]
fn acquire_classification_when_configured() {
    let mut s = SurfaceState::new(false);
    s.configure(320, 200);
    assert_eq!(s.acquire_frame(AcquireStatus::Acquired), AcquireAction::Render);
    assert_eq!(s.acquire_frame(AcquireStatus::Lost), AcquireAction::Reconfigure(config(320, 200)));
    assert_eq!(s.acquire_frame(AcquireStatus::Outdated), AcquireAction::Reconfigure(config(320, 200)));
    assert_eq!(s.acquire_frame(AcquireStatus::Timeout), AcquireAction::Fail);
    assert_eq!(s.acquire_frame(AcquireStatus::OutOfMemory), AcquireAction::Fail);
    assert_eq!(s.acquire_frame(AcquireStatus::Other), AcquireAction::Fail);
    assert_eq!(s.surface_size(), Some((320, 200)));
}

#[test]
fn select_format_prefers_first_srgb() {
    assert_eq!(select_format(&vec![false, true, true]), 1);
    assert_eq!(select_format(&vec![true, false]), 0);
    assert_eq!(select_format(&vec![false, false, false]), 0);
    assert_eq!(select_format(&vec![false]), 0);
    assert_eq!(select_format(&vec![false, false, false, true]), 3);
}
