//! The timer that sets the pace of the emulator: it sleeps, ticks, and sleeps again, until
//! nobody listens any more.
use vstd::prelude::*;

verus! {

/// What the timer is to do next.
#[derive(Clone, Copy, Debug, PartialEq, Eq, Structural)]
pub enum TimerAction {
    /// Sleep for a number of milliseconds.
    Sleep(u64),
    /// Send a tick, and wait until it is taken.
    Send,
    Stop,
}

/// What came of it.
#[derive(Clone, Copy, Debug, PartialEq, Eq, Structural)]
pub enum TimerEvent {
    Slept,
    Sent,
    /// The tick could not be sent: nobody listens.
    Disconnected,
}

/// The state of the timer.
#[derive(Clone, Copy, Debug, PartialEq, Eq, Structural)]
pub struct Timer {
    /// The time between two ticks in milliseconds.
    pub ms: u64,
    /// What is to be done next.
    pub pending: TimerAction,
}

impl Timer {
    /// The timer sleeps for as long as it was set up for.
    pub open spec fn wf(self) -> bool {
        self.pending matches TimerAction::Sleep(ms) ==> ms == self.ms
    }

    /// `event` is an answer to the pending action.
    pub open spec fn answered_by(self, event: TimerEvent) -> bool {
        match self.pending {
            TimerAction::Sleep(_) => event is Slept,
            TimerAction::Send => event is Sent || event is Disconnected,
            TimerAction::Stop => false,
        }
    }

    /// The state after `event` has answered the pending action.
    pub open spec fn stepped(self, event: TimerEvent) -> Timer {
        Timer {
            ms: self.ms,
            pending: match event {
                TimerEvent::Slept => TimerAction::Send,
                TimerEvent::Sent => TimerAction::Sleep(self.ms),
                TimerEvent::Disconnected => TimerAction::Stop,
            },
        }
    }

    /// The state in which the timer starts: it sleeps before the first tick.
    pub open spec fn started(ms: u64) -> Timer {
        Timer { ms, pending: TimerAction::Sleep(ms) }
    }

    /// Starts a timer that ticks every `ms` milliseconds.
    pub fn timer_periodic(ms: u64) -> (res: Timer)
        ensures
            res == Timer::started(ms),
            res.wf(),
    {
        Timer { ms, pending: TimerAction::Sleep(ms) }
    }

    /// The action that is to be done next.
    pub fn action(&self) -> (res: TimerAction)
        ensures
            res == self.pending,
    {
        self.pending
    }

    /// Tells whether `step` can take `event` now.
    pub fn accepts(&self, event: &TimerEvent) -> (res: bool)
        ensures
            res == self.answered_by(*event),
    {
        match (self.pending, event) {
            (TimerAction::Sleep(_), TimerEvent::Slept) => true,
            (TimerAction::Send, TimerEvent::Sent) => true,
            (TimerAction::Send, TimerEvent::Disconnected) => true,
            _ => false,
        }
    }

    /// Goes on after the pending action has been done with the outcome `event`.
    pub fn step(&mut self, event: TimerEvent)
        requires
            old(self).wf(),
            old(self).answered_by(event),
        ensures
            *final(self) == old(self).stepped(event),
            final(self).wf(),
    {
        self.pending = match event {
            TimerEvent::Slept => TimerAction::Send,
            TimerEvent::Sent => TimerAction::Sleep(self.ms),
            TimerEvent::Disconnected => TimerAction::Stop,
        };
    }
}

/// The state after all of `events`.
pub open spec fn after(ms: u64, events: Seq<TimerEvent>) -> Timer
    decreases events.len(),
{
    if events.len() == 0 {
        Timer::started(ms)
    } else {
        after(ms, events.drop_last()).stepped(events.last())
    }
}

/// Each of `events` answers the action that was pending when it came.
pub open spec fn is_run(ms: u64, events: Seq<TimerEvent>) -> bool
    decreases events.len(),
{
    events.len() == 0 || {
        &&& is_run(ms, events.drop_last())
        &&& after(ms, events.drop_last()).answered_by(events.last())
    }
}

/// The timer sleeps its full time before every tick, and only then: the events are sleeps and
/// ticks in turn. It goes on until a tick finds nobody listening, and then stops.
pub proof fn ticks_after_every_sleep(ms: u64, events: Seq<TimerEvent>)
    requires
        is_run(ms, events),
    ensures
        forall|i: int|
            0 <= i < events.len() ==> (i % 2 == 0 <==> #[trigger] events[i] is Slept),
        forall|i: int|
            0 <= i < events.len() - 1 ==> !(#[trigger] events[i] is Disconnected),
        after(ms, events).pending == (if events.len() > 0 && events.last() is Disconnected {
            TimerAction::Stop
        } else if events.len() % 2 == 0 {
            TimerAction::Sleep(ms)
        } else {
            TimerAction::Send
        }),
        after(ms, events).ms == ms,
    decreases events.len(),
{
    if events.len() > 0 {
        let before = events.drop_last();
        ticks_after_every_sleep(ms, before);
        assert forall|i: int| 0 <= i < before.len() implies #[trigger] events[i] == before[i] by {}
        if before.len() > 0 {
            assert(events[before.len() - 1] == before.last());
        }
    }
}

/// Every outcome of the pending action can be reported, and no outcome of another action.
pub proof fn every_outcome_can_be_reported(timer: Timer, event: TimerEvent)
    ensures
        event is Slept ==> (timer.answered_by(event) <==> timer.pending is Sleep),
        event is Sent || event is Disconnected ==> (timer.answered_by(event) <==> timer.pending
            is Send),
{
}

} // verus!
