use apphost::{at_least_one, Controller, LifecycleError, Route, WindowSignal};

#[derive(Debug, PartialEq)]
struct App {
    seed: u32,
    frames: u32,
}

#[test]
fn start_launches_bootstrap_once() {
    let mut c: Controller<App, u32> = Controller::new(7);
    assert!(!c.start(false));
    assert!(c.start(true));
    assert!(!c.start(true));
    assert!(!c.is_running());
}

#[test]
fn init_complete_runs_app_from_payload() {
    let mut c: Controller<App, u32> = Controller::new(7);
    c.start(true);
    assert_eq!(c.init_complete(|seed| App { seed, frames: 0 }), Ok(()));
    assert!(c.is_running());
    assert_eq!(c.app_mut().seed, 7);
}

#[test]
fn second_init_complete_is_rejected() {
    let mut c: Controller<App, u32> = Controller::new(7);
    c.start(true);
    assert_eq!(c.init_complete(|seed| App { seed, frames: 0 }), Ok(()));
    c.app_mut().frames = 3;
    let mut called = false;
    let r = c.init_complete(|seed| {
        called = true;
        App { seed: seed + 100, frames: 0 }
    });
    assert_eq!(r, Err(LifecycleError::AlreadyRunning));
    assert!(!called);
    assert_eq!(*c.app_mut(), App { seed: 7, frames: 3 });
}

#[test]
fn events_before_init_are_ignored() {
    let c: Controller<App, u32> = Controller::new(1);
    assert_eq!(c.route(WindowSignal::RedrawRequested), Route::Ignore);
    assert_eq!(c.route(WindowSignal::Resized(800, 600)), Route::Ignore);
    assert_eq!(c.route(WindowSignal::Input), Route::Ignore);
}

#[test]
fn routes_while_running() {
    let mut c: Controller<App, u32> = Controller::new(1);
    c.init_complete(|seed| App { seed, frames: 0 }).unwrap();
    assert_eq!(c.route(WindowSignal::RedrawRequested), Route::Frame);
    assert_eq!(c.route(WindowSignal::Input), Route::Translate);
    assert_eq!(c.route(WindowSignal::Resized(800, 600)), Route::Configure(800, 600));
    assert_eq!(c.route(WindowSignal::Resized(0, 300)), Route::Configure(1, 300));
    assert_eq!(c.route(WindowSignal::Resized(0, 0)), Route::Configure(1, 1));
}

#[test]
fn clamp_dimension() {
    assert_eq!(at_least_one(0), 1);
    assert_eq!(at_least_one(1), 1);
    assert_eq!(at_least_one(1920), 1920);
    assert_eq!(at_least_one(u32::MAX), u32::MAX);
}

#[test]
fn shutdown_hands_back_app_once() {
    let mut c: Controller<App, u32> = Controller::new(5);
    c.init_complete(|seed| App { seed, frames: 0 }).unwrap();
    assert_eq!(c.shutdown(), Ok(App { seed: 5, frames: 0 }));
    assert!(!c.is_running());
    assert_eq!(c.shutdown(), Err(LifecycleError::ShutDown));
    assert_eq!(c.route(WindowSignal::RedrawRequested), Route::Ignore);
    assert_eq!(c.init_complete(|seed| App { seed, frames: 0 }), Err(LifecycleError::ShutDown));
}

#[test]
fn shutdown_before_init_is_an_error() {
    let mut c: Controller<App, u32> = Controller::new(5);
    assert_eq!(c.shutdown(), Err(LifecycleError::NotRunning));
    assert!(!c.is_running());
}
