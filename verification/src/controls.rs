use vstd::prelude::*;

verus! {

/// A pointer button, as far as the viewer tells them apart.
#[derive(Clone, Copy, Debug, PartialEq, Eq, Structural)]
pub enum PointerButton {
    Left,
    Right,
    Other,
}

/// A key, as far as the viewer tells them apart.
#[derive(Clone, Copy, Debug, PartialEq, Eq, Structural)]
pub enum KeyName {
    ArrowRight,
    ArrowLeft,
    Other,
}

/// An event of the viewer window, stripped of the amounts that travel with
/// it (the scroll distance, the pointer offset, the new size).
#[derive(Clone, Copy, Debug, PartialEq, Eq, Structural)]
pub enum InputEvent {
    /// The window is asked to close.
    CloseRequested,
    /// A pointer button went down (`pressed`) or up.
    Button { button: PointerButton, pressed: bool },
    /// The mouse wheel turned.
    Wheel,
    /// A key went down (`pressed`) or up.
    Key { key: KeyName, pressed: bool },
    /// The window asks to be drawn.
    RedrawRequested,
    /// The window changed size.
    Resized,
    /// The pointer moved.
    PointerMotion,
    /// Anything else.
    Other,
}

/// Which way a transition step goes.
#[derive(Clone, Copy, Debug, PartialEq, Eq, Structural)]
pub enum StepDirection {
    /// Towards the second mesh.
    Forward,
    /// Towards the first mesh.
    Backward,
}

/// What the viewer does in answer to an event.
#[derive(Clone, Copy, Debug, PartialEq, Eq, Structural)]
pub enum Action {
    /// Nothing.
    Nothing,
    /// Leave the event loop.
    Exit,
    /// Orbit the camera by the pointer offset.
    Rotate,
    /// Move the camera sideways by the pointer offset.
    Pan,
    /// Move the camera closer or further by the scroll distance.
    Zoom,
    /// Move the transition one step.
    StepTransition(StepDirection),
    /// Draw a frame.
    Render,
    /// Adapt the surface and the camera to the new size.
    Resize,
}

/// Which pointer buttons are held.
#[derive(Clone, Copy, Debug, PartialEq, Eq, Structural)]
pub struct InputState {
    /// The left button is held: pointer motion orbits the camera.
    pub is_dragging: bool,
    /// The right button is held: pointer motion pans the camera.
    pub is_panning: bool,
}

/// The state after `event`, and what the viewer does. Until the viewer is
/// `ready` (its window and GPU state exist) every event but a close request
/// is ignored.
pub open spec fn step(state: InputState, ready: bool, event: InputEvent) -> (InputState, Action) {
    match event {
        InputEvent::CloseRequested => (state, Action::Exit),
        _ => if !ready {
            (state, Action::Nothing)
        } else {
            match event {
                InputEvent::Button { button: PointerButton::Left, pressed } => (
                    InputState { is_dragging: pressed, is_panning: state.is_panning },
                    Action::Nothing,
                ),
                InputEvent::Button { button: PointerButton::Right, pressed } => (
                    InputState { is_dragging: state.is_dragging, is_panning: pressed },
                    Action::Nothing,
                ),
                InputEvent::Wheel => (state, Action::Zoom),
                InputEvent::Key { key: KeyName::ArrowRight, pressed: true } => (
                    state,
                    Action::StepTransition(StepDirection::Forward),
                ),
                InputEvent::Key { key: KeyName::ArrowLeft, pressed: true } => (
                    state,
                    Action::StepTransition(StepDirection::Backward),
                ),
                InputEvent::RedrawRequested => (state, Action::Render),
                InputEvent::Resized => (state, Action::Resize),
                InputEvent::PointerMotion => if state.is_dragging {
                    (state, Action::Rotate)
                } else if state.is_panning {
                    (state, Action::Pan)
                } else {
                    (state, Action::Nothing)
                },
                _ => (state, Action::Nothing),
            }
        },
    }
}

/// No button is held.
pub fn initial_input_state() -> (r: InputState)
    ensures
        r == (InputState { is_dragging: false, is_panning: false }),
{
    InputState { is_dragging: false, is_panning: false }
}

/// Answers one window event: the left button orbits and the right button
/// pans while held, the wheel zooms, the arrow keys step the transition.
pub fn handle_event(state: InputState, ready: bool, event: InputEvent) -> (r: (InputState, Action))
    ensures
        r == step(state, ready, event),
{
    match event {
        InputEvent::CloseRequested => (state, Action::Exit),
        _ => {
            if !ready {
                return (state, Action::Nothing);
            }
            match event {
                InputEvent::Button { button: PointerButton::Left, pressed } => (
                    InputState { is_dragging: pressed, is_panning: state.is_panning },
                    Action::Nothing,
                ),
                InputEvent::Button { button: PointerButton::Right, pressed } => (
                    InputState { is_dragging: state.is_dragging, is_panning: pressed },
                    Action::Nothing,
                ),
                InputEvent::Wheel => (state, Action::Zoom),
                InputEvent::Key { key: KeyName::ArrowRight, pressed: true } => (
                    state,
                    Action::StepTransition(StepDirection::Forward),
                ),
                InputEvent::Key { key: KeyName::ArrowLeft, pressed: true } => (
                    state,
                    Action::StepTransition(StepDirection::Backward),
                ),
                InputEvent::RedrawRequested => (state, Action::Render),
                InputEvent::Resized => (state, Action::Resize),
                InputEvent::PointerMotion => {
                    if state.is_dragging {
                        (state, Action::Rotate)
                    } else if state.is_panning {
                        (state, Action::Pan)
                    } else {
                        (state, Action::Nothing)
                    }
                },
                _ => (state, Action::Nothing),
            }
        },
    }
}

/// The actions after which the window is asked to draw again: those that
/// move the camera or the transition.
pub open spec fn spec_requests_redraw(action: Action) -> bool {
    match action {
        Action::Rotate | Action::Pan | Action::Zoom | Action::StepTransition(_) => true,
        _ => false,
    }
}

/// Whether the window is asked to draw again after `action`.
pub fn requests_redraw(action: Action) -> (r: bool)
    ensures
        r == spec_requests_redraw(action),
{
    match action {
        Action::Rotate | Action::Pan | Action::Zoom | Action::StepTransition(_) => true,
        _ => false,
    }
}

/// Only pointer buttons change which buttons are held.
pub proof fn only_buttons_change_state(state: InputState, ready: bool, event: InputEvent)
    requires
        !(event is Button),
    ensures
        step(state, ready, event).0 == state,
{
}

/// A button event sets its own button's flag to whether it was pressed and
/// leaves the other one alone; so a press followed by a release of the same
/// button leaves that button released and the other as it was.
pub proof fn button_sets_its_flag(state: InputState, button: PointerButton, pressed: bool)
    ensures
        ({
            let after = step(state, true, InputEvent::Button { button, pressed }).0;
            &&& button == PointerButton::Left ==> after.is_dragging == pressed && after.is_panning
                == state.is_panning
            &&& button == PointerButton::Right ==> after.is_panning == pressed && after.is_dragging
                == state.is_dragging
            &&& button == PointerButton::Other ==> after == state
        }),
        ({
            let pressed_state = step(state, true, InputEvent::Button { button, pressed: true }).0;
            let released = step(
                pressed_state,
                true,
                InputEvent::Button { button, pressed: false },
            ).0;
            &&& button == PointerButton::Left ==> !released.is_dragging && released.is_panning
                == state.is_panning
            &&& button == PointerButton::Right ==> !released.is_panning && released.is_dragging
                == state.is_dragging
        }),
{
}

/// Pointer motion orbits exactly while the left button is held, pans while
/// only the right one is, and does nothing otherwise.
pub proof fn motion_follows_held_buttons(state: InputState)
    ensures
        ({
            let action = step(state, true, InputEvent::PointerMotion).1;
            &&& (action == Action::Rotate) == state.is_dragging
            &&& (action == Action::Pan) == (!state.is_dragging && state.is_panning)
            &&& (action == Action::Nothing) == (!state.is_dragging && !state.is_panning)
        }),
{
}

/// Before the viewer is ready, only a close request does anything.
pub proof fn idle_until_ready(state: InputState, event: InputEvent)
    ensures
        step(state, false, event).0 == state,
        step(state, false, event).1 == (if event is CloseRequested {
            Action::Exit
        } else {
            Action::Nothing
        }),
{
}

/// A close request always ends the loop.
pub proof fn close_always_exits(state: InputState, ready: bool)
    ensures
        step(state, ready, InputEvent::CloseRequested).1 == Action::Exit,
{
}

/// Releasing any key, the arrow keys included, does nothing: only a press
/// steps the transition, so one tap of an arrow key moves it one step.
pub proof fn key_release_does_nothing(state: InputState, key: KeyName)
    ensures
        step(state, true, InputEvent::Key { key, pressed: false }) == (state, Action::Nothing),
{
}

/// Pressing the right arrow steps the transition forward, the left arrow
/// backward; pressing any other key does nothing. No key changes the state.
pub proof fn arrow_presses_step_the_transition(state: InputState, key: KeyName)
    ensures
        step(state, true, InputEvent::Key { key: KeyName::ArrowRight, pressed: true }) == (
            state,
            Action::StepTransition(StepDirection::Forward),
        ),
        step(state, true, InputEvent::Key { key: KeyName::ArrowLeft, pressed: true }) == (
            state,
            Action::StepTransition(StepDirection::Backward),
        ),
        step(state, true, InputEvent::Key { key: KeyName::Other, pressed: true }) == (
            state,
            Action::Nothing,
        ),
        step(state, true, InputEvent::Key { key, pressed: true }).1 is StepTransition <==> key
            != KeyName::Other,
{
}

/// Once ready, the wheel always zooms, a redraw request always draws, a
/// resize always resizes, a button never acts by itself, and an unknown
/// event does nothing; none of these changes the held buttons except the
/// button event.
pub proof fn ready_events_and_their_actions(state: InputState, button: PointerButton, pressed: bool)
    ensures
        step(state, true, InputEvent::Wheel) == (state, Action::Zoom),
        step(state, true, InputEvent::RedrawRequested) == (state, Action::Render),
        step(state, true, InputEvent::Resized) == (state, Action::Resize),
        step(state, true, InputEvent::Other) == (state, Action::Nothing),
        step(state, true, InputEvent::Button { button, pressed }).1 == Action::Nothing,
{
}

/// An event asks for a redraw exactly when it moves the camera or the
/// transition: the wheel, a pressed arrow key, or pointer motion while a
/// button is held.
pub proof fn redraw_exactly_after_view_changes(state: InputState, event: InputEvent)
    ensures
        spec_requests_redraw(step(state, true, event).1) <==> ({
            ||| event is Wheel
            ||| event == InputEvent::Key { key: KeyName::ArrowRight, pressed: true }
            ||| event == InputEvent::Key { key: KeyName::ArrowLeft, pressed: true }
            ||| event is PointerMotion && (state.is_dragging || state.is_panning)
        }),
        !spec_requests_redraw(step(state, false, event).1),
{
}

} // verus!
