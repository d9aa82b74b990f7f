use pronto_graphics::input::InputState;
use pronto_graphics::key::{Button, Event, Key};

fn frame(state: &mut InputState, events: &[Event]) {
    state.clear();
    for event in events {
        state.handle_event(*event);
    }
}

#[test]
fn new_input_state_is_at_rest() {
    let state = InputState::new();
    assert!(!state.key_pressed(Key::Space));
    assert!(!state.key_just_pressed(Key::Space));
    assert!(!state.mouse_pressed(Button::Left));
    assert!(!state.mouse_just_pressed(Button::Left));
    assert_eq!(state.mouse_position(), (0, 0));
    assert_eq!(state.mouse_wheel(), 0);
    assert_eq!(state.mouse_wheel_delta(), 0);
}

#[test]
fn key_press_sets_both_marks() {
    let mut state = InputState::new();
    state.handle_event(Event::KeyPressed { code: Key::Space });
    assert!(state.key_pressed(Key::Space));
    assert!(state.key_just_pressed(Key::Space));
    assert!(!state.key_pressed(Key::A));
    assert!(!state.key_just_pressed(Key::A));
}

#[test]
fn key_release_takes_both_marks() {
    let mut state = InputState::new();
    state.handle_event(Event::KeyPressed { code: Key::Space });
    state.handle_event(Event::KeyPressed { code: Key::A });
    state.handle_event(Event::KeyReleased { code: Key::Space });
    assert!(!state.key_pressed(Key::Space));
    assert!(!state.key_just_pressed(Key::Space));
    assert!(state.key_pressed(Key::A));
    assert!(state.key_just_pressed(Key::A));
}

#[test]
fn key_just_pressed_lasts_one_frame() {
    let mut state = InputState::new();
    frame(&mut state, &[Event::KeyPressed { code: Key::W }]);
    assert!(state.key_pressed(Key::W));
    assert!(state.key_just_pressed(Key::W));
    // the key is still held in the next frame, but no longer just pressed
    frame(&mut state, &[]);
    assert!(state.key_pressed(Key::W));
    assert!(!state.key_just_pressed(Key::W));
    frame(&mut state, &[Event::MouseMoved { x: 1, y: 1 }, Event::KeyPressed { code: Key::S }]);
    assert!(state.key_pressed(Key::W));
    assert!(!state.key_just_pressed(Key::W));
    assert!(state.key_just_pressed(Key::S));
    frame(&mut state, &[Event::KeyReleased { code: Key::W }]);
    assert!(!state.key_pressed(Key::W));
    assert!(!state.key_just_pressed(Key::W));
    assert!(state.key_pressed(Key::S));
}

#[test]
fn key_pressed_and_released_within_a_frame() {
    let mut state = InputState::new();
    frame(
        &mut state,
        &[Event::KeyPressed { code: Key::Q }, Event::KeyReleased { code: Key::Q }],
    );
    assert!(!state.key_pressed(Key::Q));
    assert!(!state.key_just_pressed(Key::Q));
    frame(
        &mut state,
        &[
            Event::KeyPressed { code: Key::Q },
            Event::KeyReleased { code: Key::Q },
            Event::KeyPressed { code: Key::Q },
        ],
    );
    assert!(state.key_pressed(Key::Q));
    assert!(state.key_just_pressed(Key::Q));
}

#[test]
fn every_key_has_its_own_state() {
    let keys = [
        Key::Unknown, Key::A, Key::Z, Key::Num0, Key::Num9, Key::Escape, Key::LControl,
        Key::RSystem, Key::Menu, Key::Tilde, Key::Space, Key::Enter, Key::Delete, Key::Add,
        Key::Divide, Key::Left, Key::Right, Key::Up, Key::Down, Key::Numpad0, Key::Numpad9,
        Key::F1, Key::F15, Key::Pause,
    ];
    for (i, pressed) in keys.iter().enumerate() {
        let mut state = InputState::new();
        state.handle_event(Event::KeyPressed { code: *pressed });
        for (j, other) in keys.iter().enumerate() {
            assert_eq!(state.key_pressed(*other), i == j);
            assert_eq!(state.key_just_pressed(*other), i == j);
        }
    }
}

#[test]
fn key_codes_are_distinct_and_in_range() {
    assert_eq!(Key::Unknown.code(), 0);
    assert_eq!(Key::A.code(), 1);
    assert_eq!(Key::Pause.code(), 101);
    assert_eq!(pronto_graphics::key::KEY_COUNT, 102);
    assert_ne!(Key::Left.code(), Key::Right.code());
    assert_eq!(Button::Left.code(), 0);
    assert_eq!(Button::Unknown.code(), 5);
    assert_eq!(pronto_graphics::key::BUTTON_COUNT, 6);
}

#[test]
fn mouse_button_press_and_release() {
    let mut state = InputState::new();
    frame(&mut state, &[Event::MouseButtonPressed { button: Button::Right }]);
    assert!(state.mouse_pressed(Button::Right));
    assert!(state.mouse_just_pressed(Button::Right));
    assert!(!state.mouse_pressed(Button::Left));
    assert!(!state.mouse_just_pressed(Button::Left));
    frame(&mut state, &[]);
    assert!(state.mouse_pressed(Button::Right));
    assert!(!state.mouse_just_pressed(Button::Right));
    frame(&mut state, &[Event::MouseButtonReleased { button: Button::Right }]);
    assert!(!state.mouse_pressed(Button::Right));
    assert!(!state.mouse_just_pressed(Button::Right));
}

#[test]
fn unknown_button_is_not_the_left_button() {
    let mut state = InputState::new();
    state.handle_event(Event::MouseButtonPressed { button: Button::Unknown });
    assert!(state.mouse_pressed(Button::Unknown));
    assert!(state.mouse_just_pressed(Button::Unknown));
    assert!(!state.mouse_pressed(Button::Left));
    assert!(!state.mouse_just_pressed(Button::Left));
    for button in [Button::Right, Button::Middle, Button::XButton1, Button::XButton2] {
        assert!(!state.mouse_pressed(button));
    }
}

#[test]
fn keys_and_buttons_do_not_mix() {
    let mut state = InputState::new();
    // the key and the button with the same code
    state.handle_event(Event::KeyPressed { code: Key::Unknown });
    assert!(!state.mouse_pressed(Button::Left));
    state.handle_event(Event::MouseButtonPressed { button: Button::Right });
    assert!(!state.key_pressed(Key::A));
}

#[test]
fn mouse_move_overwrites_position() {
    let mut state = InputState::new();
    state.handle_event(Event::MouseMoved { x: 10, y: -20 });
    assert_eq!(state.mouse_position(), (10, -20));
    state.handle_event(Event::MouseMoved { x: 300, y: 400 });
    assert_eq!(state.mouse_position(), (300, 400));
    state.clear();
    assert_eq!(state.mouse_position(), (300, 400));
}

#[test]
fn wheel_total_adds_up_and_delta_is_the_last_turn() {
    let mut state = InputState::new();
    frame(
        &mut state,
        &[
            Event::MouseWheelScrolled { delta: 3 },
            Event::MouseWheelScrolled { delta: -1 },
            Event::MouseWheelScrolled { delta: 5 },
        ],
    );
    assert_eq!(state.mouse_wheel(), 7);
    assert_eq!(state.mouse_wheel_delta(), 5);
    // the next frame forgets the delta and keeps the total
    frame(&mut state, &[]);
    assert_eq!(state.mouse_wheel(), 7);
    assert_eq!(state.mouse_wheel_delta(), 0);
    frame(&mut state, &[Event::MouseWheelScrolled { delta: -10 }]);
    assert_eq!(state.mouse_wheel(), -3);
    assert_eq!(state.mouse_wheel_delta(), -10);
}

#[test]
fn wheel_total_is_wider_than_a_turn() {
    let mut state = InputState::new();
    for _ in 0..3 {
        state.handle_event(Event::MouseWheelScrolled { delta: i32::MAX });
    }
    assert_eq!(state.mouse_wheel(), 3 * 2_147_483_647);
    assert_eq!(state.mouse_wheel_delta(), i32::MAX);
    for _ in 0..5 {
        state.handle_event(Event::MouseWheelScrolled { delta: i32::MIN });
    }
    assert_eq!(state.mouse_wheel(), 3 * 2_147_483_647 - 5 * 2_147_483_648);
    assert_eq!(state.mouse_wheel_delta(), i32::MIN);
}

#[test]
fn other_events_change_nothing() {
    let mut state = InputState::new();
    frame(
        &mut state,
        &[
            Event::KeyPressed { code: Key::A },
            Event::MouseMoved { x: 4, y: 5 },
            Event::MouseWheelScrolled { delta: 2 },
        ],
    );
    state.handle_event(Event::Other);
    state.handle_event(Event::Closed);
    assert!(state.key_pressed(Key::A));
    assert!(state.key_just_pressed(Key::A));
    assert_eq!(state.mouse_position(), (4, 5));
    assert_eq!(state.mouse_wheel(), 2);
    assert_eq!(state.mouse_wheel_delta(), 2);
}

#[test]
fn clear_keeps_what_is_held() {
    let mut state = InputState::new();
    state.handle_event(Event::KeyPressed { code: Key::A });
    state.handle_event(Event::MouseButtonPressed { button: Button::Middle });
    state.handle_event(Event::MouseWheelScrolled { delta: 4 });
    state.clear();
    assert!(state.key_pressed(Key::A));
    assert!(!state.key_just_pressed(Key::A));
    assert!(state.mouse_pressed(Button::Middle));
    assert!(!state.mouse_just_pressed(Button::Middle));
    assert_eq!(state.mouse_wheel(), 4);
    assert_eq!(state.mouse_wheel_delta(), 0);
}

#[test]
fn exit_requests() {
    assert!(Event::Closed.requests_exit());
    assert!(Event::KeyPressed { code: Key::Escape }.requests_exit());
    assert!(!Event::KeyReleased { code: Key::Escape }.requests_exit());
    assert!(!Event::KeyPressed { code: Key::Space }.requests_exit());
    assert!(!Event::Other.requests_exit());
    assert!(!Event::MouseMoved { x: 0, y: 0 }.requests_exit());
}
