use fly_camera::controls::{HeldKeys, Movement, Turn};
use fly_camera::frame::{plan_frame, ControllerConfig, FrameInput, Step};

fn no_keys() -> HeldKeys {
    HeldKeys {
        up: false,
        down: false,
        forward: false,
        backward: false,
        left: false,
        right: false,
        turn_left: false,
        turn_right: false,
    }
}

fn input(keys: HeldKeys, motion_events: usize, window_count: usize, click: bool) -> FrameInput {
    FrameInput { keys, motion_events, window_count, left_just_pressed: click }
}

#[test]
fn default_config_enables_everything() {
    let c = ControllerConfig::default();
    assert!(c.mouse_look);
    assert!(c.cursor_capture);
    assert_eq!(ControllerConfig::new(false, true), ControllerConfig { mouse_look: false, cursor_capture: true });
}

#[test]
fn empty_frame_has_no_steps() {
    let r = plan_frame(&ControllerConfig::default(), &input(no_keys(), 0, 1, false));
    assert!(r.is_empty());
}

#[test]
fn frame_orders_translation_turn_look_capture() {
    let keys = HeldKeys { backward: true, up: true, turn_left: true, ..no_keys() };
    let r = plan_frame(&ControllerConfig::default(), &input(keys, 3, 1, true));
    assert_eq!(
        r,
        vec![
            Step::Move(Movement::Up),
            Step::Move(Movement::Backward),
            Step::Turn(Turn::Left),
            Step::Look(0),
            Step::Look(1),
            Step::Look(2),
            Step::Capture
        ]
    );
}

#[test]
fn missing_window_skips_look_and_capture() {
    let keys = HeldKeys { forward: true, ..no_keys() };
    let r = plan_frame(&ControllerConfig::default(), &input(keys, 2, 0, true));
    assert_eq!(r, vec![Step::Move(Movement::Forward)]);
}

#[test]
fn several_windows_skip_look_and_capture() {
    let r = plan_frame(&ControllerConfig::default(), &input(no_keys(), 2, 2, true));
    assert!(r.is_empty());
}

#[test]
fn disabled_mouse_look_keeps_capture() {
    let cfg = ControllerConfig::new(false, true);
    let r = plan_frame(&cfg, &input(no_keys(), 4, 1, true));
    assert_eq!(r, vec![Step::Capture]);
}

#[test]
fn disabled_capture_keeps_mouse_look() {
    let cfg = ControllerConfig::new(true, false);
    let r = plan_frame(&cfg, &input(no_keys(), 1, 1, true));
    assert_eq!(r, vec![Step::Look(0)]);
}

#[test]
fn single_key_frame_moves_once_along_it() {
    let keys = HeldKeys { right: true, ..no_keys() };
    let r = plan_frame(&ControllerConfig::default(), &input(keys, 0, 1, false));
    assert_eq!(r, vec![Step::Move(Movement::Right)]);
}
