use rboy_desktop::keypad::{GBEvent, KeypadKey, VirtualKeyCode};
use rboy_desktop::screen::{MagnifySamplerFilter, Rect, Size};
use rboy_desktop::window::{ElementState, Event, EventLoop, FrameAction, WindowAction};

const SCREEN: Size = Size { width: 160, height: 144 };

fn press(key: VirtualKeyCode) -> Event {
    Event::KeyboardInput { state: ElementState::Pressed, virtual_keycode: Some(key) }
}

fn release(key: VirtualKeyCode) -> Event {
    Event::KeyboardInput { state: ElementState::Released, virtual_keycode: Some(key) }
}

fn window() -> EventLoop {
    EventLoop::new(SCREEN, 3)
}

#[test]
fn closes_on_request_and_on_escape() {
    assert_eq!(window().handle(Event::CloseRequested), WindowAction::Stop);
    assert_eq!(window().handle(press(VirtualKeyCode::Escape)), WindowAction::Stop);
    assert_eq!(window().handle(release(VirtualKeyCode::Escape)), WindowAction::Nothing);
}

#[test]
fn sets_the_size() {
    assert_eq!(
        window().handle(press(VirtualKeyCode::Key1)),
        WindowAction::SetWindowSize(SCREEN)
    );
    assert_eq!(
        window().handle(press(VirtualKeyCode::R)),
        WindowAction::SetWindowSize(Size { width: 480, height: 432 })
    );
    assert_eq!(window().handle(release(VirtualKeyCode::Key1)), WindowAction::Nothing);
    assert_eq!(window().handle(release(VirtualKeyCode::R)), WindowAction::Nothing);
}

#[test]
fn shift_sets_the_speed() {
    assert_eq!(
        window().handle(press(VirtualKeyCode::LShift)),
        WindowAction::Send(GBEvent::SpeedUp)
    );
    assert_eq!(
        window().handle(release(VirtualKeyCode::LShift)),
        WindowAction::Send(GBEvent::SpeedDown)
    );
}

#[test]
fn keypad_keys_go_down_and_up() {
    let keys = vec![
        (VirtualKeyCode::Z, KeypadKey::A),
        (VirtualKeyCode::X, KeypadKey::B),
        (VirtualKeyCode::Up, KeypadKey::Up),
        (VirtualKeyCode::Down, KeypadKey::Down),
        (VirtualKeyCode::Left, KeypadKey::Left),
        (VirtualKeyCode::Right, KeypadKey::Right),
        (VirtualKeyCode::Space, KeypadKey::Select),
        (VirtualKeyCode::Return, KeypadKey::Start),
    ];
    for (key, button) in keys {
        assert_eq!(window().handle(press(key)), WindowAction::Send(GBEvent::KeyDown(button)));
        assert_eq!(window().handle(release(key)), WindowAction::Send(GBEvent::KeyUp(button)));
    }
}

#[test]
fn interpolation_is_toggled() {
    let mut window = window();
    assert!(!window.renderoptions.linear_interpolation);
    assert_eq!(window.handle(press(VirtualKeyCode::T)), WindowAction::Nothing);
    assert!(window.renderoptions.linear_interpolation);
    assert_eq!(window.handle(release(VirtualKeyCode::T)), WindowAction::Nothing);
    assert!(window.renderoptions.linear_interpolation);
    window.handle(press(VirtualKeyCode::Z));
    window.handle(press(VirtualKeyCode::T));
    assert!(!window.renderoptions.linear_interpolation);
}

#[test]
fn the_rest_is_ignored() {
    let mut window = window();
    let unknown = Event::KeyboardInput { state: ElementState::Pressed, virtual_keycode: None };
    assert_eq!(window.handle(unknown), WindowAction::Nothing);
    assert_eq!(window.handle(press(VirtualKeyCode::Other)), WindowAction::Nothing);
    assert_eq!(window.handle(release(VirtualKeyCode::Other)), WindowAction::Nothing);
    assert_eq!(window.handle(Event::Other), WindowAction::Nothing);
}

#[test]
fn waits_for_a_frame_when_idle() {
    assert_eq!(window().handle(Event::MainEventsCleared), WindowAction::ReceiveFrame);
}

#[test]
fn draws_a_frame() {
    let mut window = window();
    let whole = Rect { left: 0, bottom: 0, width: 160, height: 144 };
    match window.frame_received(Some(vec![1, 2, 3])) {
        FrameAction::Draw { data, rect, filter } => {
            assert_eq!(data, vec![1, 2, 3]);
            assert_eq!(rect, whole);
            assert_eq!(filter, MagnifySamplerFilter::Nearest);
        }
        FrameAction::Stop => panic!(),
    }
    window.handle(press(VirtualKeyCode::T));
    match window.frame_received(Some(vec![])) {
        FrameAction::Draw { filter, .. } => assert_eq!(filter, MagnifySamplerFilter::Linear),
        FrameAction::Stop => panic!(),
    }
}

#[test]
fn closes_when_the_emulator_hangs_up() {
    assert!(matches!(window().frame_received(None), FrameAction::Stop));
}
