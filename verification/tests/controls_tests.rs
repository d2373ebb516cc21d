use the_code::controls::{
    handle_event, initial_input_state, requests_redraw, Action, InputEvent, InputState, KeyName,
    PointerButton, StepDirection,
};

fn press(button: PointerButton, pressed: bool) -> InputEvent {
    InputEvent::Button { button, pressed }
}

#[test]
fn close_exits_even_before_ready() {
    let s = initial_input_state();
    assert_eq!(handle_event(s, false, InputEvent::CloseRequested), (s, Action::Exit));
    assert_eq!(handle_event(s, true, InputEvent::CloseRequested), (s, Action::Exit));
}

#[test]
fn events_are_ignored_before_ready() {
    let s = initial_input_state();
    for e in [
        press(PointerButton::Left, true),
        InputEvent::Wheel,
        InputEvent::Key { key: KeyName::ArrowRight, pressed: true },
        InputEvent::RedrawRequested,
        InputEvent::Resized,
        InputEvent::PointerMotion,
    ] {
        assert_eq!(handle_event(s, false, e), (s, Action::Nothing));
    }
}

#[test]
fn left_button_drags_and_rotates() {
    let s = initial_input_state();
    let (s, a) = handle_event(s, true, press(PointerButton::Left, true));
    assert_eq!(a, Action::Nothing);
    assert_eq!(s, InputState { is_dragging: true, is_panning: false });
    assert_eq!(handle_event(s, true, InputEvent::PointerMotion).1, Action::Rotate);
    let (s, _) = handle_event(s, true, press(PointerButton::Left, false));
    assert_eq!(s, initial_input_state());
    assert_eq!(handle_event(s, true, InputEvent::PointerMotion).1, Action::Nothing);
}

#[test]
fn right_button_pans_unless_dragging() {
    let s = initial_input_state();
    let (s, _) = handle_event(s, true, press(PointerButton::Right, true));
    assert_eq!(s, InputState { is_dragging: false, is_panning: true });
    assert_eq!(handle_event(s, true, InputEvent::PointerMotion).1, Action::Pan);
    let (s, _) = handle_event(s, true, press(PointerButton::Left, true));
    assert_eq!(s, InputState { is_dragging: true, is_panning: true });
    assert_eq!(handle_event(s, true, InputEvent::PointerMotion).1, Action::Rotate);
}

#[test]
fn other_button_changes_nothing() {
    let s = InputState { is_dragging: true, is_panning: false };
    assert_eq!(handle_event(s, true, press(PointerButton::Other, false)), (s, Action::Nothing));
}

#[test]
fn wheel_zooms_and_arrows_step() {
    let s = initial_input_state();
    assert_eq!(handle_event(s, true, InputEvent::Wheel).1, Action::Zoom);
    assert_eq!(
        handle_event(s, true, InputEvent::Key { key: KeyName::ArrowRight, pressed: true }).1,
        Action::StepTransition(StepDirection::Forward)
    );
    assert_eq!(
        handle_event(s, true, InputEvent::Key { key: KeyName::ArrowLeft, pressed: true }).1,
        Action::StepTransition(StepDirection::Backward)
    );
    assert_eq!(
        handle_event(s, true, InputEvent::Key { key: KeyName::ArrowLeft, pressed: false }).1,
        Action::Nothing
    );
    assert_eq!(
        handle_event(s, true, InputEvent::Key { key: KeyName::Other, pressed: true }).1,
        Action::Nothing
    );
}

#[test]
fn redraw_and_resize() {
    let s = initial_input_state();
    assert_eq!(handle_event(s, true, InputEvent::RedrawRequested).1, Action::Render);
    assert_eq!(handle_event(s, true, InputEvent::Resized).1, Action::Resize);
    assert_eq!(handle_event(s, true, InputEvent::Other).1, Action::Nothing);
}

#[test]
fn redraw_follows_camera_and_transition_changes() {
    assert!(requests_redraw(Action::Rotate));
    assert!(requests_redraw(Action::Pan));
    assert!(requests_redraw(Action::Zoom));
    assert!(requests_redraw(Action::StepTransition(StepDirection::Forward)));
    assert!(!requests_redraw(Action::Nothing));
    assert!(!requests_redraw(Action::Render));
    assert!(!requests_redraw(Action::Resize));
    assert!(!requests_redraw(Action::Exit));
}
