use apphost::{map_key, CursorCommand, HardwareEvent, Input, Key, KeyCode, MouseButton, RawButton, RawEvent};

type Pos = (f32, f32);

fn key_event(code: KeyCode, pressed: bool, text: Option<char>) -> RawEvent<Pos> {
    RawEvent::Keyboard { code: Some(code), pressed, text }
}

#[test]
fn new_input_is_idle() {
    let input: Input<Pos> = Input::new((0.0, 0.0));
    assert!(!input.cam_mode());
    assert_eq!(input.pointer_pos(), (0.0, 0.0));
    assert!(input.events().is_empty());
}

#[test]
fn cursor_move_reports_position_and_origin() {
    let mut input: Input<Pos> = Input::new((0.0, 0.0));
    input.event(RawEvent::CursorMoved { position: (10.0, 20.0) });
    input.event(RawEvent::CursorMoved { position: (15.0, 18.0) });
    assert_eq!(input.pointer_pos(), (15.0, 18.0));
    assert_eq!(
        input.events(),
        &[
            HardwareEvent::PointerMoved { pos: (10.0, 20.0), from: (0.0, 0.0) },
            HardwareEvent::PointerMoved { pos: (15.0, 18.0), from: (10.0, 20.0) },
        ]
    );
}

#[test]
fn mouse_motion_reported_only_in_capture_mode() {
    let mut input: Input<Pos> = Input::new((0.0, 0.0));
    input.event(RawEvent::MouseMotion { delta: (1.0, 2.0) });
    assert!(input.events().is_empty());
    assert_eq!(input.mouse_cam_mode(true), CursorCommand::Capture);
    input.event(RawEvent::MouseMotion { delta: (3.0, -4.0) });
    assert_eq!(input.events(), &[HardwareEvent::RawMouseDelta((3.0, -4.0))]);
}

#[test]
fn cursor_moves_suppressed_in_capture_mode() {
    let mut input: Input<Pos> = Input::new((0.0, 0.0));
    input.event(RawEvent::CursorMoved { position: (100.0, 50.0) });
    input.clear();
    input.mouse_cam_mode(true);
    input.event(RawEvent::CursorMoved { position: (7.0, 7.0) });
    assert!(input.events().is_empty());
    assert_eq!(input.pointer_pos(), (100.0, 50.0));
}

#[test]
fn capture_round_trip_restores_pointer() {
    let mut input: Input<Pos> = Input::new((0.0, 0.0));
    input.event(RawEvent::CursorMoved { position: (42.0, 24.0) });
    assert_eq!(input.mouse_cam_mode(true), CursorCommand::Capture);
    assert!(input.cam_mode());
    assert_eq!(input.mouse_cam_mode(false), CursorCommand::Release { warp_to: (42.0, 24.0) });
    assert!(!input.cam_mode());
    assert_eq!(input.pointer_pos(), (42.0, 24.0));
}

#[test]
fn capture_round_trip_with_motion_restores_pointer() {
    let mut input: Input<Pos> = Input::new((0.0, 0.0));
    input.event(RawEvent::CursorMoved { position: (5.0, 6.0) });
    input.mouse_cam_mode(true);
    input.event(RawEvent::MouseMotion { delta: (30.0, 1.0) });
    input.event(RawEvent::CursorMoved { position: (300.0, 200.0) });
    assert_eq!(input.mouse_cam_mode(false), CursorCommand::Release { warp_to: (5.0, 6.0) });
    assert_eq!(input.pointer_pos(), (5.0, 6.0));
}

#[test]
fn clicks_and_scroll_use_pointer_position() {
    let mut input: Input<Pos> = Input::new((0.0, 0.0));
    input.event(RawEvent::CursorMoved { position: (3.0, 4.0) });
    input.clear();
    input.event(RawEvent::MouseInput { button: RawButton::Left, pressed: true });
    input.event(RawEvent::MouseInput { button: RawButton::Right, pressed: false });
    input.event(RawEvent::MouseInput { button: RawButton::Middle, pressed: true });
    input.event(RawEvent::MouseInput { button: RawButton::Back, pressed: true });
    input.event(RawEvent::MouseInput { button: RawButton::Other(9), pressed: false });
    input.event(RawEvent::LineScroll { delta: (0.0, -1.0) });
    assert_eq!(
        input.events(),
        &[
            HardwareEvent::PointerClicked { pos: (3.0, 4.0), button: MouseButton::Primary, pressed: true },
            HardwareEvent::PointerClicked { pos: (3.0, 4.0), button: MouseButton::Secondary, pressed: false },
            HardwareEvent::PointerClicked { pos: (3.0, 4.0), button: MouseButton::Tertiary, pressed: true },
            HardwareEvent::PointerClicked { pos: (3.0, 4.0), button: MouseButton::Tertiary, pressed: true },
            HardwareEvent::PointerClicked { pos: (3.0, 4.0), button: MouseButton::Tertiary, pressed: false },
            HardwareEvent::Scroll { pos: (3.0, 4.0), delta: (0.0, -1.0) },
        ]
    );
}

#[test]
fn close_and_leave_and_other() {
    let mut input: Input<Pos> = Input::new((0.0, 0.0));
    input.event(RawEvent::CloseRequested);
    input.event(RawEvent::CursorLeft);
    input.event(RawEvent::Other);
    assert_eq!(input.events(), &[HardwareEvent::CloseWindow, HardwareEvent::PointerGone]);
}

#[test]
fn mapped_key_press_and_release_give_one_event_each() {
    let mut input: Input<Pos> = Input::new((0.0, 0.0));
    input.event(key_event(KeyCode::KeyW, true, None));
    input.event(key_event(KeyCode::KeyW, false, None));
    assert_eq!(
        input.events(),
        &[HardwareEvent::Key { key: Key::W, pressed: true }, HardwareEvent::Key { key: Key::W, pressed: false }]
    );
    assert_eq!(input.pointer_pos(), (0.0, 0.0));
}

#[test]
fn unmapped_key_gives_no_event() {
    let mut input: Input<Pos> = Input::new((0.0, 0.0));
    input.event(key_event(KeyCode::CapsLock, true, None));
    input.event(key_event(KeyCode::CapsLock, false, None));
    input.event(key_event(KeyCode::F25, true, None));
    input.event(RawEvent::Keyboard { code: None, pressed: true, text: None });
    assert!(input.events().is_empty());
    assert_eq!(input.pointer_pos(), (0.0, 0.0));
}

#[test]
fn unidentified_key_with_text_gives_char() {
    let mut input: Input<Pos> = Input::new((0.0, 0.0));
    input.event(RawEvent::Keyboard { code: None, pressed: true, text: Some('x') });
    input.event(key_event(KeyCode::CapsLock, true, Some('y')));
    assert_eq!(input.events(), &[HardwareEvent::Char('x'), HardwareEvent::Char('y')]);
}

#[test]
fn key_with_text_gives_key_then_char() {
    let mut input: Input<Pos> = Input::new((0.0, 0.0));
    input.event(key_event(KeyCode::KeyA, true, Some('a')));
    input.event(key_event(KeyCode::Semicolon, true, Some(';')));
    assert_eq!(
        input.events(),
        &[
            HardwareEvent::Key { key: Key::A, pressed: true },
            HardwareEvent::Char('a'),
            HardwareEvent::Char(';'),
        ]
    );
}

#[test]
fn key_table_entries() {
    assert_eq!(map_key(KeyCode::Digit0), Some(Key::Key0));
    assert_eq!(map_key(KeyCode::Digit7), Some(Key::Key7));
    assert_eq!(map_key(KeyCode::KeyZ), Some(Key::Z));
    assert_eq!(map_key(KeyCode::Escape), Some(Key::Escape));
    assert_eq!(map_key(KeyCode::F24), Some(Key::F24));
    assert_eq!(map_key(KeyCode::ArrowLeft), Some(Key::Left));
    assert_eq!(map_key(KeyCode::Backspace), Some(Key::Back));
    assert_eq!(map_key(KeyCode::Enter), Some(Key::Return));
    assert_eq!(map_key(KeyCode::NumLock), Some(Key::Numlock));
    assert_eq!(map_key(KeyCode::NumpadEqual), Some(Key::NumpadEquals));
    assert_eq!(map_key(KeyCode::ControlRight), Some(Key::RControl));
    assert_eq!(map_key(KeyCode::Tab), Some(Key::Tab));
    assert_eq!(map_key(KeyCode::F25), None);
    assert_eq!(map_key(KeyCode::SuperLeft), None);
    assert_eq!(map_key(KeyCode::Backquote), None);
    assert_eq!(map_key(KeyCode::NumpadStar), None);
}

#[test]
fn queue_is_empty_after_clear_and_holds_only_the_frame_events() {
    let mut input: Input<Pos> = Input::new((0.0, 0.0));
    input.event(RawEvent::CloseRequested);
    input.event(key_event(KeyCode::Space, true, None));
    assert_eq!(input.events().len(), 2);
    input.clear();
    assert!(input.events().is_empty());
    input.event(RawEvent::CursorLeft);
    assert_eq!(input.events(), &[HardwareEvent::PointerGone]);
    input.clear();
    assert!(input.events().is_empty());
}
