use wormhole::input::keyboard::{KEY_A, KEY_D, KEY_S, KEY_W};
use wormhole::input::mouse::Buttons;
use wormhole::input::state::{close_requested, keyboard, mouse, window_resize};
use wormhole::input::{
    CloseRequested, ElementState, Keyboard, KeyboardEvent, Mouse, MouseButton, MouseButtonEvent, PhysicalSize,
    State, WindowResized,
};

fn key(code: u32, state: ElementState) -> KeyboardEvent {
    KeyboardEvent { key_code: code, state }
}

#[test]
fn keyboard_press_is_seen_for_one_frame() {
    let mut k = Keyboard::new();
    k.start_frame();
    k.process(key(KEY_W, ElementState::Pressed));
    assert!(k.pressed(KEY_W));
    assert!(k.held(KEY_W));
    assert!(!k.released(KEY_W));
    k.start_frame();
    assert!(!k.pressed(KEY_W));
    assert!(k.held(KEY_W));
    k.process(key(KEY_W, ElementState::Released));
    assert!(k.released(KEY_W));
    assert!(!k.held(KEY_W));
    k.start_frame();
    assert!(!k.released(KEY_W));
}

#[test]
fn keyboard_press_and_release_in_one_frame_leaves_no_edge() {
    let mut k = Keyboard::new();
    k.process(key(KEY_A, ElementState::Pressed));
    k.process(key(KEY_A, ElementState::Released));
    assert!(!k.pressed(KEY_A));
    assert!(!k.released(KEY_A));
    assert!(!k.held(KEY_A));
}

#[test]
fn keyboard_keys_are_independent() {
    let mut k = Keyboard::new();
    k.process(key(KEY_A, ElementState::Pressed));
    assert!(!k.held(KEY_D));
    assert!(k.pressed(KEY_A));
}

#[test]
fn mouse_buttons_follow_frames() {
    let mut m = Mouse::new();
    m.process_button(MouseButtonEvent { button: MouseButton::Left, state: ElementState::Pressed });
    assert!(m.pressed(MouseButton::Left));
    assert!(m.held(MouseButton::Left));
    assert!(!m.held(MouseButton::Right));
    m.start_frame();
    assert!(!m.pressed(MouseButton::Left));
    m.process_button(MouseButtonEvent { button: MouseButton::Left, state: ElementState::Released });
    assert!(m.released(MouseButton::Left));
    assert!(!m.held(MouseButton::Left));
}

#[test]
fn mouse_untracked_buttons_never_count() {
    let mut m = Mouse::new();
    m.process_button(MouseButtonEvent { button: MouseButton::Back, state: ElementState::Pressed });
    m.process_button(MouseButtonEvent { button: MouseButton::Other(9), state: ElementState::Pressed });
    assert!(!m.held(MouseButton::Back));
    assert!(!m.pressed(MouseButton::Other(9)));
    assert_eq!(m.current, Buttons { left: false, right: false, middle: false });
}

#[test]
fn mouse_middle_and_right() {
    let mut m = Mouse::new();
    m.process_button(MouseButtonEvent { button: MouseButton::Middle, state: ElementState::Pressed });
    m.process_button(MouseButtonEvent { button: MouseButton::Right, state: ElementState::Pressed });
    m.start_frame();
    m.process_button(MouseButtonEvent { button: MouseButton::Right, state: ElementState::Released });
    assert!(m.held(MouseButton::Middle));
    assert!(m.released(MouseButton::Right));
}

#[test]
fn move_direction_from_wasd() {
    let mut s = State::new();
    assert_eq!(s.move_direction(), (0, 0));
    s.keyboard.process(key(KEY_W, ElementState::Pressed));
    assert_eq!(s.move_direction(), (0, 1));
    s.keyboard.process(key(KEY_S, ElementState::Pressed));
    assert_eq!(s.move_direction(), (0, 0));
    s.keyboard.process(key(KEY_A, ElementState::Pressed));
    assert_eq!(s.move_direction(), (-1, 0));
    // D also counts towards the left.
    s.keyboard.process(key(KEY_D, ElementState::Pressed));
    assert_eq!(s.move_direction(), (-2, 0));
}

#[test]
fn window_requests_last_one_frame() {
    let mut s = State::new();
    assert!(!s.close_requested());
    assert_eq!(s.new_window_size(), None);
    s.process_close_requsted();
    s.process_resize(WindowResized { size: PhysicalSize { width: 800, height: 600 } });
    assert!(s.close_requested());
    assert_eq!(s.new_window_size(), Some(PhysicalSize { width: 800, height: 600 }));
    s.start_frame();
    assert!(!s.close_requested());
    assert_eq!(s.new_window_size(), None);
}

#[test]
fn window_requests_reset_one_at_a_time() {
    let mut s = State::new();
    s.process_close_requsted();
    s.process_resize(WindowResized { size: PhysicalSize { width: 1, height: 2 } });
    s.reset_close_requested();
    assert!(!s.close_requested());
    assert!(s.new_window_size().is_some());
    s.reset_window_size();
    assert_eq!(s.new_window_size(), None);
}

#[test]
fn state_start_frame_moves_keyboard_and_mouse() {
    let mut s = State::new();
    s.keyboard.process(key(KEY_W, ElementState::Pressed));
    s.mouse.process_button(MouseButtonEvent { button: MouseButton::Left, state: ElementState::Pressed });
    s.start_frame();
    assert!(s.keyboard.held(KEY_W));
    assert!(!s.keyboard.pressed(KEY_W));
    assert!(s.mouse.held(MouseButton::Left));
    assert!(!s.mouse.pressed(MouseButton::Left));
}

#[test]
fn keyboard_system_applies_events_in_order() {
    let mut state = State::new();
    keyboard(&mut state, &[key(KEY_S, ElementState::Pressed)]);
    assert!(state.keyboard.pressed(KEY_S));
    keyboard(
        &mut state,
        &[
            key(KEY_W, ElementState::Pressed),
            key(KEY_A, ElementState::Pressed),
            key(KEY_W, ElementState::Released),
            key(KEY_S, ElementState::Released),
            key(KEY_S, ElementState::Pressed),
        ],
    );
    assert!(!state.keyboard.held(KEY_W));
    assert!(state.keyboard.held(KEY_A));
    assert!(state.keyboard.pressed(KEY_A));
    assert!(state.keyboard.held(KEY_S));
    assert!(!state.keyboard.pressed(KEY_S));
    assert!(!state.keyboard.held(KEY_D));
    keyboard(&mut state, &[]);
    assert!(state.keyboard.held(KEY_A));
    assert!(!state.keyboard.pressed(KEY_A));
}

#[test]
fn mouse_system_applies_button_events_in_order() {
    let mut state = State::new();
    let press = |button| MouseButtonEvent { button, state: ElementState::Pressed };
    let release = |button| MouseButtonEvent { button, state: ElementState::Released };
    mouse(&mut state, &[press(MouseButton::Left), press(MouseButton::Right), release(MouseButton::Left)]);
    assert!(!state.mouse.held(MouseButton::Left));
    assert!(state.mouse.held(MouseButton::Right));
    assert!(state.mouse.pressed(MouseButton::Right));
    mouse(&mut state, &[press(MouseButton::Other(7))]);
    assert!(state.mouse.held(MouseButton::Right));
    assert!(!state.mouse.pressed(MouseButton::Right));
    assert!(!state.mouse.held(MouseButton::Other(7)));
}

#[test]
fn close_requested_system_reports_only_this_frame() {
    let mut state = State::new();
    close_requested(&mut state, &[CloseRequested, CloseRequested]);
    assert!(state.close_requested());
    close_requested(&mut state, &[]);
    assert!(!state.close_requested());
}

#[test]
fn window_resize_system_keeps_the_last_size() {
    let mut state = State::new();
    let size = |width, height| WindowResized { size: PhysicalSize { width, height } };
    window_resize(&mut state, &[size(800, 600), size(1024, 768)]);
    assert_eq!(state.new_window_size(), Some(PhysicalSize { width: 1024, height: 768 }));
    window_resize(&mut state, &[]);
    assert_eq!(state.new_window_size(), None);
}
