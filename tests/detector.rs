use aeonium::detector::InputState;
use aeonium::events::{scroll_sign, InputEvent, KeyState};
use aeonium::keys::KeyCode;
use aeonium::raw_input;

fn press(k: KeyCode) -> InputEvent {
    InputEvent::Key { code: k.code(), state: KeyState::Pressed }
}

fn release(k: KeyCode) -> InputEvent {
    InputEvent::Key { code: k.code(), state: KeyState::Released }
}

const MODS: [KeyCode; 2] = [KeyCode::KEY_LEFTCTRL, KeyCode::KEY_LEFTSHIFT];

#[test]
fn pressed_keys_follow_presses_and_releases() {
    let mut s = InputState::new();
    s.update(&[press(KeyCode::KEY_A), press(KeyCode::KEY_B), release(KeyCode::KEY_A)]);
    assert!(s.key_bind_pressed(&[KeyCode::KEY_B], KeyCode::KEY_B));
    assert!(!s.key_bind_pressed(&[KeyCode::KEY_A], KeyCode::KEY_B));
    s.update(&[release(KeyCode::KEY_B), press(KeyCode::KEY_C)]);
    assert!(!s.key_bind_pressed(&[KeyCode::KEY_B], KeyCode::KEY_C));
    assert!(s.key_bind_pressed(&[KeyCode::KEY_C], KeyCode::KEY_C));
}

#[test]
fn chord_fires_once_on_the_main_key_edge() {
    let mut s = InputState::new();
    s.update(&[press(KeyCode::KEY_LEFTCTRL), press(KeyCode::KEY_LEFTSHIFT)]);
    assert!(!s.key_bind_pressed(&MODS, KeyCode::KEY_F10));
    s.update(&[press(KeyCode::KEY_F10)]);
    assert!(s.key_bind_pressed(&MODS, KeyCode::KEY_F10));
    // Held over the next cycle: no new edge.
    s.update(&[]);
    assert!(!s.key_bind_pressed(&MODS, KeyCode::KEY_F10));
    // A repeated press of the held key is no edge either.
    s.update(&[press(KeyCode::KEY_F10)]);
    assert!(!s.key_bind_pressed(&MODS, KeyCode::KEY_F10));
    s.update(&[release(KeyCode::KEY_F10), press(KeyCode::KEY_F10)]);
    assert!(s.key_bind_pressed(&MODS, KeyCode::KEY_F10));
}

#[test]
fn chord_needs_every_modifier() {
    let mut s = InputState::new();
    s.update(&[press(KeyCode::KEY_LEFTCTRL), press(KeyCode::KEY_F9)]);
    assert!(!s.key_bind_pressed(&MODS, KeyCode::KEY_F9));
    assert!(s.key_bind_pressed(&[], KeyCode::KEY_F9));
}

#[test]
fn scroll_is_signed_and_cycle_scoped() {
    let mut s = InputState::new();
    s.update(&[press(KeyCode::KEY_LEFTCTRL), press(KeyCode::KEY_LEFTSHIFT), InputEvent::Scroll { value: 15 }]);
    assert_eq!(s.scrolled(&MODS), 1);
    s.update(&[InputEvent::Scroll { value: 3 }, InputEvent::Scroll { value: -40 }]);
    assert_eq!(s.scrolled(&MODS), -1);
    s.update(&[]);
    assert_eq!(s.scrolled(&MODS), 0);
    s.update(&[release(KeyCode::KEY_LEFTSHIFT), InputEvent::Scroll { value: 2 }]);
    assert_eq!(s.scrolled(&MODS), 0);
    assert_eq!(s.scrolled(&[KeyCode::KEY_LEFTCTRL]), 1);
}

#[test]
fn unknown_codes_are_ignored() {
    let mut s = InputState::new();
    s.update(&[InputEvent::Key { code: 5000, state: KeyState::Pressed }]);
    assert!(s.key_bind_pressed(&[], KeyCode::KEY_RESERVED) == false);
    assert_eq!(KeyCode::from_code(5000), None);
    assert_eq!(KeyCode::from_code(84), None);
}

#[test]
fn key_codes_round_trip() {
    assert_eq!(KeyCode::from_code(29), Some(KeyCode::KEY_LEFTCTRL));
    assert_eq!(KeyCode::from_code(194), Some(KeyCode::KEY_F24));
    assert_eq!(KeyCode::KEY_F10.code(), 68);
    assert_eq!(KeyCode::KEY_F9.code(), 67);
    for c in 0..300u32 {
        if let Some(k) = KeyCode::from_code(c) {
            assert_eq!(k.code(), c);
        }
    }
}

#[test]
fn scroll_sign_values() {
    assert_eq!(scroll_sign(-7), -1);
    assert_eq!(scroll_sign(0), 0);
    assert_eq!(scroll_sign(i32::MAX), 1);
    assert_eq!(scroll_sign(i32::MIN), -1);
}

#[test]
fn raw_state_tracks_every_code() {
    let mut s = raw_input::InputState::new();
    let ev = |c: u32, p: bool| InputEvent::Key {
        code: c,
        state: if p { KeyState::Pressed } else { KeyState::Released },
    };
    s.update(&[ev(29, true), ev(5000, true), InputEvent::Scroll { value: -2 }]);
    assert!(s.keys_fully_pressed(&[29, 5000]));
    assert_eq!(s.mouse_wheel_scrolled(&[29]), -1);
    assert_eq!(s.mouse_wheel_scrolled(&[29, 42]), 0);
    s.update(&[ev(5000, false)]);
    assert!(!s.keys_fully_pressed(&[29, 5000]));
    assert!(s.keys_fully_pressed(&[29]));
    assert_eq!(s.mouse_wheel_scrolled(&[29]), 0);
}

#[test]
fn chord_reached_at_some_point() {
    let ev = |c: u32, p: bool| InputEvent::Key {
        code: c,
        state: if p { KeyState::Pressed } else { KeyState::Released },
    };
    assert!(raw_input::keys_fully_pressed(vec![29, 42], &[ev(29, true), ev(42, true), ev(29, false)]));
    assert!(!raw_input::keys_fully_pressed(vec![29, 42], &[ev(29, true), ev(29, false), ev(42, true)]));
    assert!(!raw_input::keys_fully_pressed(vec![], &[InputEvent::Scroll { value: 1 }]));
    assert!(raw_input::keys_fully_pressed(vec![], &[ev(1, false)]));
}
