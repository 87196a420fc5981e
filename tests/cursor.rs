use fly_camera::cursor::{grab_mouse, CursorState, GrabMode};

fn free() -> CursorState {
    CursorState { visible: true, grab_mode: GrabMode::Free }
}

fn locked() -> CursorState {
    CursorState { visible: false, grab_mode: GrabMode::Locked }
}

#[test]
fn left_click_captures_pointer() {
    assert_eq!(grab_mouse(free(), true), locked());
}

#[test]
fn no_click_keeps_pointer() {
    assert_eq!(grab_mouse(free(), false), free());
    let confined = CursorState { visible: true, grab_mode: GrabMode::Confined };
    assert_eq!(grab_mouse(confined, false), confined);
}

#[test]
fn repeated_clicks_after_capture_change_nothing() {
    let mut state = grab_mouse(free(), true);
    for click in [true, false, true, true, false] {
        state = grab_mouse(state, click);
        assert_eq!(state, locked());
    }
}
