use rboy_desktop::cpu::{CpuAction, CpuEvent, ReceiveOutcome, RunCpu, WAITTICKS};
use rboy_desktop::keypad::{KeypadKey, VirtualKeyCode};
use rboy_desktop::screen::Size;
use rboy_desktop::window::{ElementState, Event, EventLoop, WindowAction};

#[test]
fn input_goes_from_the_keyboard_to_the_machine() {
    let keys = vec![
        (ElementState::Pressed, VirtualKeyCode::Z),
        (ElementState::Pressed, VirtualKeyCode::LShift),
        (ElementState::Pressed, VirtualKeyCode::T),
        (ElementState::Pressed, VirtualKeyCode::Up),
        (ElementState::Released, VirtualKeyCode::Z),
        (ElementState::Released, VirtualKeyCode::LShift),
    ];
    let mut window = EventLoop::new(Size { width: 160, height: 144 }, 2);
    let mut run = RunCpu::new();
    run.step(CpuEvent::Cycled { ticks: WAITTICKS, gpu_updated: false });
    let mut applied: Vec<CpuAction> = Vec::new();
    let mut limited: Vec<bool> = Vec::new();
    let mut syncs: u32 = 0;
    for (state, key) in keys {
        let event = Event::KeyboardInput { state, virtual_keycode: Some(key) };
        if let WindowAction::Send(message) = window.handle(event) {
            run.step(CpuEvent::Received(ReceiveOutcome::Message(message)));
            match run.action() {
                CpuAction::SyncAudio => {
                    syncs += 1;
                    run.step(CpuEvent::AudioSynced);
                }
                CpuAction::TryReceive => {}
                action => {
                    applied.push(action);
                    run.step(CpuEvent::KeyApplied);
                }
            }
        }
        limited.push(run.limit_speed);
    }
    assert_eq!(
        applied,
        vec![
            CpuAction::KeyDown(KeypadKey::A),
            CpuAction::KeyDown(KeypadKey::Up),
            CpuAction::KeyUp(KeypadKey::A),
        ]
    );
    assert_eq!(limited, vec![true, false, false, false, false, true]);
    assert_eq!(syncs, 1);
}
