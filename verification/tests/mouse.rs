use bevy::input::ButtonInput;
use bevy_tui::input::motion_delta;
use bevy_tui::input::mouse_input_system;
use bevy_tui::input::ButtonState;
use bevy_tui::input::MouseButton;
use bevy_tui::input::MouseInput;
use bevy_tui::input::MouseMotion;
use bevy_tui::input::MouseState;

#[test]
fn the_mouse_has_no_location_at_first() {
    assert_eq!(MouseState::default().last_location(), None);
}

#[test]
fn movement_reports_the_way_from_the_last_location() {
    let mut buttons = ButtonInput::<u16>::default();
    let mut state = MouseState::default();
    let first = mouse_input_system(&mut buttons, &mut state, &vec![MouseInput::Movement([10, 5])]);
    assert!(first.is_empty());
    assert_eq!(state.last_location(), Some([10, 5]));
    let second = mouse_input_system(&mut buttons, &mut state, &vec![MouseInput::Movement([12, 5])]);
    assert_eq!(second, vec![MouseMotion { delta_x: 2, delta_y: 0 }]);
    assert_eq!(state.last_location(), Some([12, 5]));
}

#[test]
fn motions_follow_the_events_of_a_frame() {
    let mut buttons = ButtonInput::<u16>::default();
    let mut state = MouseState::default();
    let events = vec![
        MouseInput::Movement([1, 1]),
        MouseInput::Button(MouseButton::Left, ButtonState::Pressed, [4, 0]),
        MouseInput::Movement([0, 9]),
    ];
    let motions = mouse_input_system(&mut buttons, &mut state, &events);
    assert_eq!(
        motions,
        vec![
            MouseMotion { delta_x: 3, delta_y: -1 },
            MouseMotion { delta_x: -4, delta_y: 9 },
        ]
    );
    assert_eq!(state.last_location(), Some([0, 9]));
    assert!(buttons.pressed(MouseButton::Left.code()));
}

#[test]
fn the_way_between_far_corners() {
    assert_eq!(motion_delta([0, 0], [65535, 65535]), MouseMotion { delta_x: 65535, delta_y: 65535 });
    assert_eq!(motion_delta([65535, 65535], [0, 0]), MouseMotion { delta_x: -65535, delta_y: -65535 });
    assert_eq!(motion_delta([10, 5], [12, 5]), MouseMotion { delta_x: 2, delta_y: 0 });
    assert_eq!(motion_delta([7, 7], [7, 7]), MouseMotion { delta_x: 0, delta_y: 0 });
}

#[test]
fn a_frame_without_events_keeps_location_and_buttons() {
    let mut buttons = ButtonInput::<u16>::default();
    let mut state = MouseState::default();
    let down = vec![MouseInput::Button(MouseButton::Right, ButtonState::Pressed, [2, 3])];
    mouse_input_system(&mut buttons, &mut state, &down);
    assert!(buttons.just_pressed(MouseButton::Right.code()));
    let motions = mouse_input_system(&mut buttons, &mut state, &Vec::new());
    assert!(motions.is_empty());
    assert_eq!(state.last_location(), Some([2, 3]));
    assert!(buttons.pressed(MouseButton::Right.code()));
    assert!(!buttons.just_pressed(MouseButton::Right.code()));
}

#[test]
fn a_button_stays_down_until_it_is_released() {
    let mut buttons = ButtonInput::<u16>::default();
    let mut state = MouseState::default();
    let events = vec![
        MouseInput::Button(MouseButton::Left, ButtonState::Pressed, [0, 0]),
        MouseInput::Button(MouseButton::Middle, ButtonState::Pressed, [0, 0]),
        MouseInput::Button(MouseButton::Left, ButtonState::Released, [0, 0]),
    ];
    let motions = mouse_input_system(&mut buttons, &mut state, &events);
    assert_eq!(motions, vec![MouseMotion { delta_x: 0, delta_y: 0 }; 2]);
    assert!(!buttons.pressed(MouseButton::Left.code()));
    assert!(buttons.just_released(MouseButton::Left.code()));
    assert!(buttons.pressed(MouseButton::Middle.code()));
    let up = vec![MouseInput::Button(MouseButton::Middle, ButtonState::Released, [1, 0])];
    mouse_input_system(&mut buttons, &mut state, &up);
    assert_eq!(buttons.get_pressed().count(), 0);
    assert!(buttons.just_released(MouseButton::Middle.code()));
    assert!(!buttons.just_released(MouseButton::Left.code()));
}

#[test]
fn mouse_buttons_have_distinct_codes() {
    let all = [
        MouseButton::Left,
        MouseButton::Right,
        MouseButton::Middle,
        MouseButton::Back,
        MouseButton::Forward,
    ];
    for (i, a) in all.iter().enumerate() {
        assert_eq!(usize::from(a.code()), i);
    }
    assert_eq!(MouseInput::Movement([3, 9]).location(), [3, 9]);
    assert_eq!(MouseInput::Button(MouseButton::Back, ButtonState::Pressed, [8, 2]).location(), [8, 2]);
}
