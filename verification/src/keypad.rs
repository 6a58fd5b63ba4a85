//! Keyboard keys, the buttons of the emulated keypad, and the messages that tell the emulator
//! what the player did.
use vstd::prelude::*;

verus! {

/// A button of the emulated keypad.
#[derive(Clone, Copy, Debug, PartialEq, Eq, Structural)]
pub enum KeypadKey {
    Right,
    Left,
    Up,
    Down,
    A,
    B,
    Select,
    Start,
}

/// A key of the keyboard. The keys that the front end does not react to are all `Other`.
#[derive(Clone, Copy, Debug, PartialEq, Eq, Structural)]
pub enum VirtualKeyCode {
    Escape,
    Key1,
    R,
    T,
    LShift,
    Z,
    X,
    Up,
    Down,
    Left,
    Right,
    Space,
    Return,
    Other,
}

/// A message from the window to the thread that runs the emulator.
#[derive(Clone, Copy, Debug, PartialEq, Eq, Structural)]
pub enum GBEvent {
    KeyUp(KeypadKey),
    KeyDown(KeypadKey),
    SpeedUp,
    SpeedDown,
}

/// The keypad button that `key` plays the part of, if it plays one.
pub open spec fn button_of(key: VirtualKeyCode) -> Option<KeypadKey> {
    match key {
        VirtualKeyCode::Z => Some(KeypadKey::A),
        VirtualKeyCode::X => Some(KeypadKey::B),
        VirtualKeyCode::Up => Some(KeypadKey::Up),
        VirtualKeyCode::Down => Some(KeypadKey::Down),
        VirtualKeyCode::Left => Some(KeypadKey::Left),
        VirtualKeyCode::Right => Some(KeypadKey::Right),
        VirtualKeyCode::Space => Some(KeypadKey::Select),
        VirtualKeyCode::Return => Some(KeypadKey::Start),
        _ => None,
    }
}

/// The keyboard key that plays the part of a keypad button.
pub open spec fn key_for(button: KeypadKey) -> VirtualKeyCode {
    match button {
        KeypadKey::A => VirtualKeyCode::Z,
        KeypadKey::B => VirtualKeyCode::X,
        KeypadKey::Up => VirtualKeyCode::Up,
        KeypadKey::Down => VirtualKeyCode::Down,
        KeypadKey::Left => VirtualKeyCode::Left,
        KeypadKey::Right => VirtualKeyCode::Right,
        KeypadKey::Select => VirtualKeyCode::Space,
        KeypadKey::Start => VirtualKeyCode::Return,
    }
}

/// Every keypad button has a key of its own: there is one key that stands for it, no other key
/// does, and that key stands for no other button.
pub proof fn each_button_has_its_own_key(button: KeypadKey, key: VirtualKeyCode)
    ensures
        button_of(key) == Some(button) <==> key == key_for(button),
{
}

/// The four arrows are the arrows of the keypad, Z and X are its letters, and space and return are
/// its two small buttons. No other key is on the keypad.
pub proof fn layout_of_the_keypad(key: VirtualKeyCode)
    ensures
        button_of(key) == Some(KeypadKey::Up) <==> key is Up,
        button_of(key) == Some(KeypadKey::Down) <==> key is Down,
        button_of(key) == Some(KeypadKey::Left) <==> key is Left,
        button_of(key) == Some(KeypadKey::Right) <==> key is Right,
        button_of(key) == Some(KeypadKey::A) <==> key is Z,
        button_of(key) == Some(KeypadKey::B) <==> key is X,
        button_of(key) == Some(KeypadKey::Select) <==> key is Space,
        button_of(key) == Some(KeypadKey::Start) <==> key is Return,
{
}

/// Finds the keypad button that a keyboard key stands for.
pub fn glutin_to_keypad(key: VirtualKeyCode) -> (res: Option<KeypadKey>)
    ensures
        res == button_of(key),
        res == Some(KeypadKey::A) <==> key is Z,
        res == Some(KeypadKey::B) <==> key is X,
        res == Some(KeypadKey::Up) <==> key is Up,
        res == Some(KeypadKey::Down) <==> key is Down,
        res == Some(KeypadKey::Left) <==> key is Left,
        res == Some(KeypadKey::Right) <==> key is Right,
        res == Some(KeypadKey::Select) <==> key is Space,
        res == Some(KeypadKey::Start) <==> key is Return,
{
    match key {
        VirtualKeyCode::Z => Some(KeypadKey::A),
        VirtualKeyCode::X => Some(KeypadKey::B),
        VirtualKeyCode::Up => Some(KeypadKey::Up),
        VirtualKeyCode::Down => Some(KeypadKey::Down),
        VirtualKeyCode::Left => Some(KeypadKey::Left),
        VirtualKeyCode::Right => Some(KeypadKey::Right),
        VirtualKeyCode::Space => Some(KeypadKey::Select),
        VirtualKeyCode::Return => Some(KeypadKey::Start),
        _ => None,
    }
}

} // verus!
