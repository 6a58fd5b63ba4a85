use rboy_desktop::cpu::{
    CpuAction, CpuEvent, ReceiveOutcome, RunCpu, SendOutcome, CLOCK_HZ, PERIOD_MS, WAITTICKS,
};
use rboy_desktop::keypad::{GBEvent, KeypadKey};

fn cycled(ticks: u32) -> CpuEvent {
    CpuEvent::Cycled { ticks, gpu_updated: false }
}

fn message(event: GBEvent) -> CpuEvent {
    CpuEvent::Received(ReceiveOutcome::Message(event))
}

fn answer(run: &mut RunCpu, event: CpuEvent) {
    assert!(run.accepts(&event));
    run.step(event);
}

/// A loop that has executed one full period and is about to read messages.
fn reading() -> RunCpu {
    let mut run = RunCpu::new();
    answer(&mut run, cycled(WAITTICKS));
    assert_eq!(run.action(), CpuAction::TryReceive);
    run
}

#[test]
fn ticks_of_a_period() {
    assert_eq!(WAITTICKS, 67109);
    assert_eq!(WAITTICKS, (4194304f64 / 1000.0 * 16.0).round() as u32);
    assert_eq!(CLOCK_HZ, 4194304);
    assert_eq!(PERIOD_MS, 16);
}

#[test]
fn starts_at_limited_speed() {
    let run = RunCpu::new();
    assert_eq!(run.ticks, 0);
    assert!(run.limit_speed);
    assert_eq!(run.action(), CpuAction::DoCycle);
}

#[test]
fn runs_until_the_period_is_full() {
    let mut run = RunCpu::new();
    answer(&mut run, cycled(WAITTICKS - 1));
    assert_eq!(run.action(), CpuAction::DoCycle);
    assert_eq!(run.ticks, WAITTICKS - 1);
    answer(&mut run, cycled(12));
    assert_eq!(run.action(), CpuAction::TryReceive);
    assert_eq!(run.ticks, 11);
}

#[test]
fn waits_for_the_timer_when_limited() {
    let mut run = reading();
    answer(&mut run, CpuEvent::Received(ReceiveOutcome::Empty));
    assert_eq!(run.action(), CpuAction::WaitPeriod);
    answer(&mut run, CpuEvent::Waited);
    assert_eq!(run.action(), CpuAction::DoCycle);
}

#[test]
fn does_not_wait_at_full_speed() {
    let mut run = reading();
    answer(&mut run, message(GBEvent::SpeedUp));
    assert!(!run.limit_speed);
    assert_eq!(run.action(), CpuAction::TryReceive);
    answer(&mut run, CpuEvent::Received(ReceiveOutcome::Empty));
    assert_eq!(run.action(), CpuAction::DoCycle);
}

#[test]
fn the_last_speed_message_decides() {
    let mut run = reading();
    answer(&mut run, message(GBEvent::SpeedUp));
    answer(&mut run, message(GBEvent::SpeedDown));
    assert!(run.limit_speed);
    assert_eq!(run.action(), CpuAction::SyncAudio);
    answer(&mut run, CpuEvent::AudioSynced);
    assert_eq!(run.action(), CpuAction::TryReceive);
    answer(&mut run, message(GBEvent::SpeedUp));
    assert!(!run.limit_speed);
}

#[test]
fn keys_are_applied_in_order() {
    let mut run = reading();
    answer(&mut run, message(GBEvent::KeyDown(KeypadKey::A)));
    assert_eq!(run.action(), CpuAction::KeyDown(KeypadKey::A));
    answer(&mut run, CpuEvent::KeyApplied);
    answer(&mut run, message(GBEvent::KeyUp(KeypadKey::A)));
    assert_eq!(run.action(), CpuAction::KeyUp(KeypadKey::A));
    answer(&mut run, CpuEvent::KeyApplied);
    assert_eq!(run.action(), CpuAction::TryReceive);
}

#[test]
fn frames_are_offered_once() {
    let mut run = RunCpu::new();
    answer(&mut run, CpuEvent::Cycled { ticks: 4, gpu_updated: true });
    assert_eq!(run.action(), CpuAction::SendFrame);
    answer(&mut run, CpuEvent::Sent(SendOutcome::Accepted));
    assert_eq!(run.action(), CpuAction::DoCycle);
    answer(&mut run, CpuEvent::Cycled { ticks: 4, gpu_updated: true });
    answer(&mut run, CpuEvent::Sent(SendOutcome::Full));
    assert_eq!(run.action(), CpuAction::DoCycle);
    assert_eq!(run.ticks, 8);
}

#[test]
fn a_frame_at_the_end_of_a_period() {
    let mut run = RunCpu::new();
    answer(&mut run, CpuEvent::Cycled { ticks: WAITTICKS + 3, gpu_updated: true });
    assert_eq!(run.action(), CpuAction::SendFrame);
    answer(&mut run, CpuEvent::Sent(SendOutcome::Full));
    assert_eq!(run.action(), CpuAction::TryReceive);
    assert_eq!(run.ticks, 3);
}

#[test]
fn stops_when_the_window_is_gone() {
    let mut run = RunCpu::new();
    answer(&mut run, CpuEvent::Cycled { ticks: 4, gpu_updated: true });
    answer(&mut run, CpuEvent::Sent(SendOutcome::Disconnected));
    assert_eq!(run.action(), CpuAction::Stop);
}

#[test]
fn stops_when_the_player_is_gone() {
    let mut run = reading();
    answer(&mut run, CpuEvent::Received(ReceiveOutcome::Disconnected));
    assert_eq!(run.action(), CpuAction::Stop);
    assert!(!run.accepts(&CpuEvent::Waited));
}

#[test]
fn a_very_long_cycle_fills_several_periods() {
    let mut run = RunCpu::new();
    answer(&mut run, cycled(2 * WAITTICKS + 5));
    assert_eq!(run.action(), CpuAction::TryReceive);
    answer(&mut run, CpuEvent::Received(ReceiveOutcome::Empty));
    answer(&mut run, CpuEvent::Waited);
    assert_eq!(run.action(), CpuAction::TryReceive);
    assert_eq!(run.ticks, 5);
    answer(&mut run, CpuEvent::Received(ReceiveOutcome::Empty));
    answer(&mut run, CpuEvent::Waited);
    assert_eq!(run.action(), CpuAction::DoCycle);
}

#[test]
fn accepts_only_answers() {
    let mut run = RunCpu::new();
    assert!(!run.accepts(&CpuEvent::Waited));
    assert!(!run.accepts(&CpuEvent::Sent(SendOutcome::Accepted)));
    assert!(run.accepts(&cycled(u32::MAX)));
    answer(&mut run, cycled(1));
    assert!(!run.accepts(&cycled(u32::MAX)));
    assert!(run.accepts(&cycled(u32::MAX - 1)));
}

#[test]
fn no_tick_is_lost_over_many_periods() {
    let lengths: Vec<u32> = vec![4, 8, 12, 16, 20, 24];
    let mut run = RunCpu::new();
    let mut executed: u64 = 0;
    let mut periods: u64 = 0;
    let mut waits: u64 = 0;
    let mut i: usize = 0;
    while periods < 5 {
        match run.action() {
            CpuAction::DoCycle => {
                let ticks = lengths[i % lengths.len()];
                executed += ticks as u64;
                i += 1;
                answer(&mut run, cycled(ticks));
            }
            CpuAction::TryReceive => {
                periods += 1;
                assert!(run.ticks < 24);
                answer(&mut run, CpuEvent::Received(ReceiveOutcome::Empty));
            }
            CpuAction::WaitPeriod => {
                waits += 1;
                answer(&mut run, CpuEvent::Waited);
            }
            _ => unreachable!(),
        }
    }
    assert_eq!(run.action(), CpuAction::WaitPeriod);
    assert_eq!(waits, 4);
    assert_eq!(executed, 5 * 67109 + run.ticks as u64);
}
