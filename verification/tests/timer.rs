use rboy_desktop::timer::{Timer, TimerAction, TimerEvent};

fn answer(timer: &mut Timer, event: TimerEvent) {
    assert!(timer.accepts(&event));
    timer.step(event);
}

#[test]
fn sleeps_and_ticks_in_turn() {
    let mut timer = Timer::timer_periodic(16);
    for _ in 0..3 {
        assert_eq!(timer.action(), TimerAction::Sleep(16));
        answer(&mut timer, TimerEvent::Slept);
        assert_eq!(timer.action(), TimerAction::Send);
        answer(&mut timer, TimerEvent::Sent);
    }
}

#[test]
fn stops_when_nobody_listens() {
    let mut timer = Timer::timer_periodic(5);
    answer(&mut timer, TimerEvent::Slept);
    answer(&mut timer, TimerEvent::Disconnected);
    assert_eq!(timer.action(), TimerAction::Stop);
    assert!(!timer.accepts(&TimerEvent::Slept));
}

#[test]
fn timer_takes_answers_only() {
    let timer = Timer::timer_periodic(5);
    assert!(timer.accepts(&TimerEvent::Slept));
    assert!(!timer.accepts(&TimerEvent::Sent));
    assert!(!timer.accepts(&TimerEvent::Disconnected));
}
