use rboy_desktop::keypad::{glutin_to_keypad, KeypadKey, VirtualKeyCode};

#[test]
fn keys_of_the_keypad() {
    assert_eq!(glutin_to_keypad(VirtualKeyCode::Z), Some(KeypadKey::A));
    assert_eq!(glutin_to_keypad(VirtualKeyCode::X), Some(KeypadKey::B));
    assert_eq!(glutin_to_keypad(VirtualKeyCode::Up), Some(KeypadKey::Up));
    assert_eq!(glutin_to_keypad(VirtualKeyCode::Down), Some(KeypadKey::Down));
    assert_eq!(glutin_to_keypad(VirtualKeyCode::Left), Some(KeypadKey::Left));
    assert_eq!(glutin_to_keypad(VirtualKeyCode::Right), Some(KeypadKey::Right));
    assert_eq!(glutin_to_keypad(VirtualKeyCode::Space), Some(KeypadKey::Select));
    assert_eq!(glutin_to_keypad(VirtualKeyCode::Return), Some(KeypadKey::Start));
}

#[test]
fn other_keys_are_not_on_the_keypad() {
    let others = vec![
        VirtualKeyCode::Escape,
        VirtualKeyCode::Key1,
        VirtualKeyCode::R,
        VirtualKeyCode::T,
        VirtualKeyCode::LShift,
        VirtualKeyCode::Other,
    ];
    for key in others {
        assert_eq!(glutin_to_keypad(key), None);
    }
}
