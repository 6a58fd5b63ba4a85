//! The loop that runs the emulated machine at the right speed.
//!
//! The machine runs in periods of `PERIOD_MS` milliseconds. In each period it executes
//! `WAITTICKS` clock ticks; what it executes beyond that is carried over to the next period.
//! Between two periods the messages of the player are read until there are none left, and then
//! the loop waits for the timer, unless the speed limit is off.
//!
//! `RunCpu` holds the state of the loop and the one thing it wants done next. The caller does
//! it and reports back what came of it with `step`.
use vstd::prelude::*;
use crate::keypad::{GBEvent, KeypadKey};

verus! {

/// Clock ticks of the emulated machine in one second.
pub const CLOCK_HZ: u32 = 4194304;

/// The length of a period in milliseconds.
pub const PERIOD_MS: u32 = 16;

/// Clock ticks in one period, rounded to the nearest whole number.
pub const WAITTICKS: u32 = (CLOCK_HZ * PERIOD_MS + 500) / 1000;

/// What came of handing a frame to the window without waiting for it.
#[derive(Clone, Copy, Debug, PartialEq, Eq, Structural)]
pub enum SendOutcome {
    Accepted,
    /// The window has not taken the last frame yet: this one is dropped.
    Full,
    Disconnected,
}

/// What came of asking for a message without waiting for it.
#[derive(Clone, Copy, Debug, PartialEq, Eq, Structural)]
pub enum ReceiveOutcome {
    Message(GBEvent),
    Empty,
    Disconnected,
}

/// What the loop wants done next.
#[derive(Clone, Copy, Debug, PartialEq, Eq, Structural)]
pub enum CpuAction {
    /// Let the machine execute one cycle.
    DoCycle,
    /// Hand the current frame to the window.
    SendFrame,
    /// Look for a message of the player.
    TryReceive,
    KeyUp(KeypadKey),
    KeyDown(KeypadKey),
    SyncAudio,
    /// Wait for the periodic timer.
    WaitPeriod,
    Stop,
}

/// What came of the action that was wanted.
#[derive(Clone, Copy, Debug, PartialEq, Eq, Structural)]
pub enum CpuEvent {
    /// The machine executed a cycle of `ticks` clock ticks. `gpu_updated` says that there is a
    /// new frame.
    Cycled { ticks: u32, gpu_updated: bool },
    Sent(SendOutcome),
    Received(ReceiveOutcome),
    KeyApplied,
    AudioSynced,
    Waited,
}

/// The state of the loop.
#[derive(Clone, Copy, Debug, PartialEq, Eq, Structural)]
pub struct RunCpu {
    /// Ticks executed in this period.
    pub ticks: u32,
    /// Whether the loop waits for the timer after each period.
    pub limit_speed: bool,
    /// What is to be done next.
    pub pending: CpuAction,
}

impl RunCpu {
    /// The machine is only run on while the period is not full.
    pub open spec fn wf(self) -> bool {
        self.pending is DoCycle ==> self.ticks < WAITTICKS
    }

    /// `event` is an answer to the pending action.
    pub open spec fn answered_by(self, event: CpuEvent) -> bool {
        match self.pending {
            CpuAction::DoCycle => event matches CpuEvent::Cycled { ticks, .. }
                && self.ticks + ticks <= u32::MAX,
            CpuAction::SendFrame => event is Sent,
            CpuAction::TryReceive => event is Received,
            CpuAction::KeyUp(_) => event is KeyApplied,
            CpuAction::KeyDown(_) => event is KeyApplied,
            CpuAction::SyncAudio => event is AudioSynced,
            CpuAction::WaitPeriod => event is Waited,
            CpuAction::Stop => false,
        }
    }

    /// The same state with another pending action.
    pub open spec fn with_pending(self, pending: CpuAction) -> RunCpu {
        RunCpu { pending, ..self }
    }

    /// The state at the head of the loop: a period that is not full goes on, and a full one is
    /// taken off the count, after which the messages are read.
    pub open spec fn resumed(self) -> RunCpu {
        if self.ticks < WAITTICKS {
            self.with_pending(CpuAction::DoCycle)
        } else {
            RunCpu {
                ticks: (self.ticks - WAITTICKS) as u32,
                pending: CpuAction::TryReceive,
                ..self
            }
        }
    }

    /// The state after a message of the player.
    pub open spec fn told(self, message: GBEvent) -> RunCpu {
        match message {
            GBEvent::KeyUp(key) => self.with_pending(CpuAction::KeyUp(key)),
            GBEvent::KeyDown(key) => self.with_pending(CpuAction::KeyDown(key)),
            GBEvent::SpeedUp => RunCpu { limit_speed: false, ..self },
            GBEvent::SpeedDown => RunCpu {
                limit_speed: true,
                pending: CpuAction::SyncAudio,
                ..self
            },
        }
    }

    /// The state after `event` has answered the pending action.
    pub open spec fn stepped(self, event: CpuEvent) -> RunCpu {
        match event {
            CpuEvent::Cycled { ticks, gpu_updated } => {
                let run = RunCpu { ticks: (self.ticks + ticks) as u32, ..self };
                if gpu_updated {
                    run.with_pending(CpuAction::SendFrame)
                } else {
                    run.resumed()
                }
            },
            CpuEvent::Sent(SendOutcome::Disconnected) => self.with_pending(CpuAction::Stop),
            CpuEvent::Sent(_) => self.resumed(),
            CpuEvent::Received(ReceiveOutcome::Message(message)) => self.told(message),
            CpuEvent::Received(ReceiveOutcome::Empty) => if self.limit_speed {
                self.with_pending(CpuAction::WaitPeriod)
            } else {
                self.resumed()
            },
            CpuEvent::Received(ReceiveOutcome::Disconnected) => self.with_pending(CpuAction::Stop),
            CpuEvent::KeyApplied => self.with_pending(CpuAction::TryReceive),
            CpuEvent::AudioSynced => self.with_pending(CpuAction::TryReceive),
            CpuEvent::Waited => self.resumed(),
        }
    }

    /// The state in which the loop starts: nothing executed, at limited speed.
    pub open spec fn fresh() -> RunCpu {
        RunCpu { ticks: 0, limit_speed: true, pending: CpuAction::DoCycle }
    }

    /// Starts the loop.
    pub fn new() -> (res: RunCpu)
        ensures
            res == RunCpu::fresh(),
            res.wf(),
            res.ticks == 0 && res.limit_speed && res.pending is DoCycle,
    {
        RunCpu { ticks: 0, limit_speed: true, pending: CpuAction::DoCycle }
    }

    /// The action that is to be done next.
    pub fn action(&self) -> (res: CpuAction)
        ensures
            res == self.pending,
    {
        self.pending
    }

    /// Tells whether `step` can take `event` now.
    pub fn accepts(&self, event: &CpuEvent) -> (res: bool)
        ensures
            res == self.answered_by(*event),
    {
        match (self.pending, event) {
            (CpuAction::DoCycle, CpuEvent::Cycled { ticks, .. }) => {
                *ticks <= u32::MAX - self.ticks
            },
            (CpuAction::SendFrame, CpuEvent::Sent(_)) => true,
            (CpuAction::TryReceive, CpuEvent::Received(_)) => true,
            (CpuAction::KeyUp(_), CpuEvent::KeyApplied) => true,
            (CpuAction::KeyDown(_), CpuEvent::KeyApplied) => true,
            (CpuAction::SyncAudio, CpuEvent::AudioSynced) => true,
            (CpuAction::WaitPeriod, CpuEvent::Waited) => true,
            _ => false,
        }
    }

    /// Goes on after the pending action has been done with the outcome `event`.
    pub fn step(&mut self, event: CpuEvent)
        requires
            old(self).wf(),
            old(self).answered_by(event),
        ensures
            *final(self) == old(self).stepped(event),
            final(self).wf(),
    {
        match event {
            CpuEvent::Cycled { ticks, gpu_updated } => {
                self.ticks = self.ticks + ticks;
                if gpu_updated {
                    self.pending = CpuAction::SendFrame;
                } else {
                    self.resume();
                }
            },
            CpuEvent::Sent(outcome) => match outcome {
                SendOutcome::Disconnected => self.pending = CpuAction::Stop,
                _ => self.resume(),
            },
            CpuEvent::Received(outcome) => match outcome {
                ReceiveOutcome::Message(message) => self.tell(message),
                ReceiveOutcome::Empty => {
                    if self.limit_speed {
                        self.pending = CpuAction::WaitPeriod;
                    } else {
                        self.resume();
                    }
                },
                ReceiveOutcome::Disconnected => self.pending = CpuAction::Stop,
            },
            CpuEvent::KeyApplied => self.pending = CpuAction::TryReceive,
            CpuEvent::AudioSynced => self.pending = CpuAction::TryReceive,
            CpuEvent::Waited => self.resume(),
        }
    }

    /// Goes back to the head of the loop.
    fn resume(&mut self)
        ensures
            *final(self) == old(self).resumed(),
    {
        if self.ticks < WAITTICKS {
            self.pending = CpuAction::DoCycle;
        } else {
            self.ticks = self.ticks - WAITTICKS;
            self.pending = CpuAction::TryReceive;
        }
    }

    /// Takes a message of the player.
    fn tell(&mut self, message: GBEvent)
        ensures
            *final(self) == old(self).told(message),
    {
        match message {
            GBEvent::KeyUp(key) => self.pending = CpuAction::KeyUp(key),
            GBEvent::KeyDown(key) => self.pending = CpuAction::KeyDown(key),
            GBEvent::SpeedUp => self.limit_speed = false,
            GBEvent::SpeedDown => {
                self.limit_speed = true;
                self.pending = CpuAction::SyncAudio;
            },
        }
    }
}

/// A period takes the whole number of ticks that is nearest to its length.
pub proof fn waitticks_is_nearest()
    ensures
        -500 < 1000 * WAITTICKS - CLOCK_HZ * PERIOD_MS < 500,
        WAITTICKS == 67109,
{
}

/// Every outcome of the pending action can be reported, and no outcome of another action. Only a
/// cycle that would overflow the count is left out. After a stop there is nothing to report.
pub proof fn every_outcome_can_be_reported(run: RunCpu, event: CpuEvent)
    ensures
        event matches CpuEvent::Cycled { ticks, .. } ==> (run.answered_by(event) <==> run.pending
            is DoCycle && run.ticks + ticks <= 0xffff_ffff),
        event is Sent ==> (run.answered_by(event) <==> run.pending is SendFrame),
        event is Received ==> (run.answered_by(event) <==> run.pending is TryReceive),
        event is KeyApplied ==> (run.answered_by(event) <==> run.pending is KeyUp || run.pending
            is KeyDown),
        event is AudioSynced ==> (run.answered_by(event) <==> run.pending is SyncAudio),
        event is Waited ==> (run.answered_by(event) <==> run.pending is WaitPeriod),
        run.pending is Stop ==> !run.answered_by(event),
{
}

/// The loop goes on running the machine, with the count as it is, or ends the period, with exactly
/// one period taken off the count. Which of the two it is follows from the count.
pub open spec fn goes_on(run: RunCpu, next: RunCpu, added: int) -> bool {
    &&& next.limit_speed == run.limit_speed
    &&& {
        ||| next.pending is DoCycle && next.ticks < 67109 && next.ticks == run.ticks + added
        ||| next.pending is TryReceive && next.ticks + 67109 == run.ticks + added
    }
}

/// What `goes_on` says leaves no choice: below a period's count the machine is run on, and from
/// there on the messages are read.
pub proof fn going_on_leaves_no_choice(run: RunCpu, next: RunCpu, added: int)
    requires
        goes_on(run, next, added),
    ensures
        next.limit_speed == run.limit_speed,
        run.ticks + added < 67109 <==> next.pending is DoCycle,
        run.ticks + added >= 67109 <==> next.pending is TryReceive,
        run.ticks + added == next.ticks + (if next.pending is TryReceive {
            67109int
        } else {
            0int
        }),
{
}

/// Every tick of a cycle is counted, and no other. A new frame is sent before anything else; without
/// one the loop goes on.
pub proof fn cycles_are_counted(run: RunCpu, ticks: u32, gpu_updated: bool)
    requires
        run.answered_by(CpuEvent::Cycled { ticks, gpu_updated }),
    ensures
        ({
            let next = run.stepped(CpuEvent::Cycled { ticks, gpu_updated });
            &&& gpu_updated ==> next.pending is SendFrame && next.ticks == run.ticks + ticks
                && next.limit_speed == run.limit_speed
            &&& !gpu_updated ==> goes_on(run, next, ticks as int)
        }),
{
    waitticks_is_nearest();
}

/// A frame that was taken, a frame that was dropped, a wait that is over, and an empty queue at full
/// speed all let the loop go on with its count as it was.
pub proof fn nothing_else_is_counted(run: RunCpu)
    ensures
        goes_on(run, run.stepped(CpuEvent::Sent(SendOutcome::Accepted)), 0),
        goes_on(run, run.stepped(CpuEvent::Sent(SendOutcome::Full)), 0),
        goes_on(run, run.stepped(CpuEvent::Waited), 0),
        !run.limit_speed ==> goes_on(
            run,
            run.stepped(CpuEvent::Received(ReceiveOutcome::Empty)),
            0,
        ),
{
    waitticks_is_nearest();
}

/// At limited speed an empty queue means to wait, and changes nothing else.
pub proof fn limited_speed_waits_when_all_is_read(run: RunCpu)
    requires
        run.limit_speed,
    ensures
        run.stepped(CpuEvent::Received(ReceiveOutcome::Empty)) == (RunCpu {
            ticks: run.ticks,
            limit_speed: true,
            pending: CpuAction::WaitPeriod,
        }),
{
}

/// A key that the player pressed or released is pressed or released on the machine, the same key and
/// in the same direction, and then the next message is looked for. Neither changes the count or the
/// speed.
pub proof fn keys_are_passed_on_unchanged(run: RunCpu, key: KeypadKey)
    ensures
        run.stepped(CpuEvent::Received(ReceiveOutcome::Message(GBEvent::KeyUp(key)))) == (RunCpu {
            ticks: run.ticks,
            limit_speed: run.limit_speed,
            pending: CpuAction::KeyUp(key),
        }),
        run.stepped(CpuEvent::Received(ReceiveOutcome::Message(GBEvent::KeyDown(key)))) == (RunCpu {
            ticks: run.ticks,
            limit_speed: run.limit_speed,
            pending: CpuAction::KeyDown(key),
        }),
        run.stepped(CpuEvent::KeyApplied) == (RunCpu {
            ticks: run.ticks,
            limit_speed: run.limit_speed,
            pending: CpuAction::TryReceive,
        }),
{
}

/// Speeding up lifts the limit at once and reads on. Slowing down sets it again, and the audio is
/// synchronised before the reading goes on. Neither changes the count.
pub proof fn speed_messages_set_the_limit(run: RunCpu)
    requires
        run.pending is TryReceive,
    ensures
        run.stepped(CpuEvent::Received(ReceiveOutcome::Message(GBEvent::SpeedUp))) == (RunCpu {
            ticks: run.ticks,
            limit_speed: false,
            pending: CpuAction::TryReceive,
        }),
        run.stepped(CpuEvent::Received(ReceiveOutcome::Message(GBEvent::SpeedDown))) == (RunCpu {
            ticks: run.ticks,
            limit_speed: true,
            pending: CpuAction::SyncAudio,
        }),
        run.stepped(CpuEvent::AudioSynced) == (RunCpu {
            ticks: run.ticks,
            limit_speed: run.limit_speed,
            pending: CpuAction::TryReceive,
        }),
{
}

/// The loop stops at once when the other end of a channel is gone.
pub proof fn disconnects_stop_the_loop(run: RunCpu)
    ensures
        run.stepped(CpuEvent::Sent(SendOutcome::Disconnected)).pending is Stop,
        run.stepped(CpuEvent::Received(ReceiveOutcome::Disconnected)).pending is Stop,
{
}

} // verus!
