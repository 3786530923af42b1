use chudtendo::input::{JoypadButton, JoypadState, Keybindings};

#[test]
fn fresh_joypad_reads_all_released() {
    let joypad = JoypadState::new();
    assert_eq!(joypad.read(0x00), 0xcf);
    assert_eq!(joypad.read(0x30), 0xff);
    assert!(!joypad.any_pressed(0x00));
}

#[test]
fn pressed_button_shows_in_its_group_only() {
    let mut joypad = JoypadState::new();
    joypad.press(JoypadButton::A);
    // Buttons selected (bit 5 low): A is bit 0.
    assert_eq!(joypad.read(0x10), 0xde);
    // D-pad selected (bit 4 low): A does not show.
    assert_eq!(joypad.read(0x20), 0xef);
    assert!(joypad.any_pressed(0x10));
    assert!(!joypad.any_pressed(0x20));
    joypad.release(JoypadButton::A);
    assert_eq!(joypad.packed, 0xff);
}

#[test]
fn dpad_down_reads_on_bit_three() {
    let mut joypad = JoypadState::new();
    joypad.press(JoypadButton::Down);
    assert_eq!(joypad.read(0x20), 0xe7);
}

#[test]
fn default_bindings_are_case_insensitive() {
    let bindings = Keybindings::default();
    assert_eq!(bindings.lookup("Z"), Some(JoypadButton::A));
    assert_eq!(bindings.lookup("return"), Some(JoypadButton::Start));
    assert_eq!(bindings.lookup("BackSpace"), Some(JoypadButton::Select));
    assert_eq!(bindings.lookup("q"), None);
}

#[test]
fn later_binding_wins() {
    let bindings = Keybindings::from_pairs(vec![
        ("K".to_owned(), JoypadButton::A),
        ("k".to_owned(), JoypadButton::B),
    ]);
    assert_eq!(bindings.lookup("K"), Some(JoypadButton::B));
}
