//! What holds of every run of the loop in `cpu`, however long it is and whatever happens in it.
//!
//! A run is a state and the sequence of events that answered the pending actions, one after
//! the other.
use vstd::prelude::*;
use crate::cpu::{CpuAction, CpuEvent, ReceiveOutcome, RunCpu, SendOutcome, WAITTICKS};
use crate::keypad::GBEvent;

verus! {

/// The state after all of `events`.
pub open spec fn after(start: RunCpu, events: Seq<CpuEvent>) -> RunCpu
    decreases events.len(),
{
    if events.len() == 0 {
        start
    } else {
        after(start, events.drop_last()).stepped(events.last())
    }
}

/// Each of `events` answers the action that was pending when it came.
pub open spec fn is_run(start: RunCpu, events: Seq<CpuEvent>) -> bool
    decreases events.len(),
{
    events.len() == 0 || {
        &&& is_run(start, events.drop_last())
        &&& after(start, events.drop_last()).answered_by(events.last())
    }
}

/// How many of `events` are of a kind.
pub open spec fn count(events: Seq<CpuEvent>, kind: spec_fn(CpuEvent) -> bool) -> nat
    decreases events.len(),
{
    if events.len() == 0 {
        0
    } else {
        count(events.drop_last(), kind) + if kind(events.last()) {
            1nat
        } else {
            0nat
        }
    }
}

/// The clock ticks that the machine executed during `events`.
pub open spec fn executed(events: Seq<CpuEvent>) -> nat
    decreases events.len(),
{
    if events.len() == 0 {
        0
    } else {
        executed(events.drop_last()) + match events.last() {
            CpuEvent::Cycled { ticks, .. } => ticks as nat,
            _ => 0nat,
        }
    }
}

/// The messages about keys among `events`, in the order in which they came.
pub open spec fn keys_received(events: Seq<CpuEvent>) -> Seq<GBEvent>
    decreases events.len(),
{
    if events.len() == 0 {
        seq![]
    } else {
        let before = keys_received(events.drop_last());
        match events.last() {
            CpuEvent::Received(ReceiveOutcome::Message(GBEvent::KeyUp(key))) => before.push(
                GBEvent::KeyUp(key),
            ),
            CpuEvent::Received(ReceiveOutcome::Message(GBEvent::KeyDown(key))) => before.push(
                GBEvent::KeyDown(key),
            ),
            _ => before,
        }
    }
}

/// The message about a key that `action` passes on to the machine, if it passes one on.
pub open spec fn key_in_hand(action: CpuAction) -> Seq<GBEvent> {
    match action {
        CpuAction::KeyUp(key) => seq![GBEvent::KeyUp(key)],
        CpuAction::KeyDown(key) => seq![GBEvent::KeyDown(key)],
        _ => seq![],
    }
}

/// What was passed on to the machine during `events`: the key actions that were done.
pub open spec fn keys_applied(start: RunCpu, events: Seq<CpuEvent>) -> Seq<GBEvent>
    decreases events.len(),
{
    if events.len() == 0 {
        seq![]
    } else {
        let before = keys_applied(start, events.drop_last());
        if events.last() is KeyApplied {
            before + key_in_hand(after(start, events.drop_last()).pending)
        } else {
            before
        }
    }
}

/// The messages are being read: `action` is one of those between two periods.
pub open spec fn is_reading(action: CpuAction) -> bool {
    action is TryReceive || action is KeyUp || action is KeyDown || action is SyncAudio
}

/// No message was left: the reading between two periods is over.
pub open spec fn reading_done() -> spec_fn(CpuEvent) -> bool {
    |event: CpuEvent| event == CpuEvent::Received(ReceiveOutcome::Empty)
}

/// A message that sets the speed.
pub open spec fn is_speed_message(event: CpuEvent) -> bool {
    ||| event == CpuEvent::Received(ReceiveOutcome::Message(GBEvent::SpeedUp))
    ||| event == CpuEvent::Received(ReceiveOutcome::Message(GBEvent::SpeedDown))
}

/// The other end of a channel is gone.
pub open spec fn is_disconnect(event: CpuEvent) -> bool {
    ||| event == CpuEvent::Sent(SendOutcome::Disconnected)
    ||| event == CpuEvent::Received(ReceiveOutcome::Disconnected)
}

/// If `event` is a cycle of the machine, it is at most `most` ticks long.
pub open spec fn takes_at_most(event: CpuEvent, most: int) -> bool {
    event matches CpuEvent::Cycled { ticks, .. } ==> ticks <= most
}

/// Every state of a run is well formed.
pub proof fn a_run_stays_well_formed(start: RunCpu, events: Seq<CpuEvent>)
    requires
        start.wf(),
        is_run(start, events),
    ensures
        after(start, events).wf(),
    decreases events.len(),
{
    if events.len() > 0 {
        a_run_stays_well_formed(start, events.drop_last());
    }
}

/// No tick is lost or invented: the ticks executed are those of the periods that are over,
/// together with those counted in the current period. A period is over when the machine has
/// executed it; the reading of messages that follows it may still be going on, or may have been
/// cut short.
pub proof fn ticks_are_conserved(events: Seq<CpuEvent>)
    requires
        is_run(RunCpu::fresh(), events),
    ensures
        ({
            let end = after(RunCpu::fresh(), events);
            let cut_short = events.len() > 0 && events.last() == CpuEvent::Received(
                ReceiveOutcome::Disconnected,
            );
            let periods = count(events, reading_done()) + if is_reading(end.pending) || cut_short {
                1int
            } else {
                0int
            };
            executed(events) == WAITTICKS * periods + end.ticks
        }),
    decreases events.len(),
{
    crate::cpu::waitticks_is_nearest();
    if events.len() > 0 {
        stops_on_disconnect_only(RunCpu::fresh(), events.drop_last());
        ticks_are_conserved(events.drop_last());
    }
}

/// At limited speed the machine keeps to the timer: as long as the player asks for nothing
/// else, each period is followed by exactly one wait.
pub proof fn limited_speed_waits_every_period(start: RunCpu, events: Seq<CpuEvent>)
    requires
        is_run(start, events),
        start.limit_speed,
        !(start.pending is WaitPeriod),
        forall|i: int|
            0 <= i < events.len() ==> events[i] != CpuEvent::Received(
                ReceiveOutcome::Message(GBEvent::SpeedUp),
            ),
    ensures
        after(start, events).limit_speed,
        count(events, reading_done()) == count(events, |event: CpuEvent| event is Waited) + if after(
            start,
            events,
        ).pending is WaitPeriod {
            1int
        } else {
            0int
        },
    decreases events.len(),
{
    if events.len() > 0 {
        assert(events.last() == events[events.len() - 1]);
        limited_speed_waits_every_period(start, events.drop_last());
    }
}

/// Without the speed limit the loop never waits.
pub proof fn full_speed_never_waits(start: RunCpu, events: Seq<CpuEvent>)
    requires
        is_run(start, events),
        !start.limit_speed,
        !(start.pending is WaitPeriod),
        forall|i: int|
            0 <= i < events.len() ==> events[i] != CpuEvent::Received(
                ReceiveOutcome::Message(GBEvent::SpeedDown),
            ),
    ensures
        !after(start, events).limit_speed,
        !(after(start, events).pending is WaitPeriod),
        count(events, |event: CpuEvent| event is Waited) == 0,
    decreases events.len(),
{
    if events.len() > 0 {
        assert(events.last() == events[events.len() - 1]);
        full_speed_never_waits(start, events.drop_last());
    }
}

/// The last message about the speed decides whether the speed is limited.
pub proof fn last_speed_message_wins(start: RunCpu, events: Seq<CpuEvent>, last: int)
    requires
        is_run(start, events),
        0 <= last < events.len(),
        is_speed_message(events[last]),
        forall|i: int| last < i < events.len() ==> !is_speed_message(events[i]),
    ensures
        after(start, events).limit_speed == (events[last] == CpuEvent::Received(
            ReceiveOutcome::Message(GBEvent::SpeedDown),
        )),
    decreases events.len(),
{
    if last < events.len() - 1 {
        assert(!is_speed_message(events[events.len() - 1]));
        last_speed_message_wins(start, events.drop_last(), last);
    }
}

/// The speed limit only changes when a message about the speed comes.
pub proof fn speed_is_kept_without_message(start: RunCpu, events: Seq<CpuEvent>)
    requires
        is_run(start, events),
        forall|i: int| 0 <= i < events.len() ==> !is_speed_message(events[i]),
    ensures
        after(start, events).limit_speed == start.limit_speed,
    decreases events.len(),
{
    if events.len() > 0 {
        assert(!is_speed_message(events[events.len() - 1]));
        speed_is_kept_without_message(start, events.drop_last());
    }
}

/// Every key that the player pressed or released reaches the machine exactly once, in order.
/// At most the last one may still be in hand.
pub proof fn keys_arrive_once_in_order(start: RunCpu, events: Seq<CpuEvent>)
    requires
        is_run(start, events),
        key_in_hand(start.pending) == Seq::<GBEvent>::empty(),
    ensures
        keys_received(events) == keys_applied(start, events) + key_in_hand(
            after(start, events).pending,
        ),
    decreases events.len(),
{
    if events.len() > 0 {
        keys_arrive_once_in_order(start, events.drop_last());
    }
}

/// Each return to limited speed resynchronises the audio once.
pub proof fn slowing_down_syncs_audio(start: RunCpu, events: Seq<CpuEvent>)
    requires
        is_run(start, events),
        !(start.pending is SyncAudio),
    ensures
        count(
            events,
            |event: CpuEvent|
                event == CpuEvent::Received(ReceiveOutcome::Message(GBEvent::SpeedDown)),
        ) == count(events, |event: CpuEvent| event is AudioSynced) + if after(
            start,
            events,
        ).pending is SyncAudio {
            1int
        } else {
            0int
        },
    decreases events.len(),
{
    if events.len() > 0 {
        slowing_down_syncs_audio(start, events.drop_last());
    }
}

/// Each new frame is offered to the window once.
pub proof fn each_frame_is_offered_once(start: RunCpu, events: Seq<CpuEvent>)
    requires
        is_run(start, events),
        !(start.pending is SendFrame),
    ensures
        count(
            events,
            |event: CpuEvent| event matches CpuEvent::Cycled { gpu_updated: true, .. },
        ) == count(events, |event: CpuEvent| event is Sent) + if after(
            start,
            events,
        ).pending is SendFrame {
            1int
        } else {
            0int
        },
    decreases events.len(),
{
    if events.len() > 0 {
        each_frame_is_offered_once(start, events.drop_last());
    }
}

/// The loop stops when the other end of a channel is gone, and for no other reason.
pub proof fn stops_on_disconnect_only(start: RunCpu, events: Seq<CpuEvent>)
    requires
        is_run(start, events),
        !(start.pending is Stop),
    ensures
        after(start, events).pending is Stop <==> events.len() > 0 && is_disconnect(events.last()),
        forall|i: int| 0 <= i < events.len() - 1 ==> !is_disconnect(events[i]),
    decreases events.len(),
{
    if events.len() > 0 {
        let before = events.drop_last();
        stops_on_disconnect_only(start, before);
        assert forall|i: int| 0 <= i < events.len() - 1 implies !is_disconnect(events[i]) by {
            assert(before[i] == events[i]);
            if i == before.len() - 1 {
                assert(before.last() == events[i]);
            }
        }
    }
}

/// The count never runs far ahead: if no cycle is longer than `most` ticks, a period is
/// exceeded by less than `most` ticks.
pub proof fn overshoot_is_less_than_a_cycle(events: Seq<CpuEvent>, most: int)
    requires
        is_run(RunCpu::fresh(), events),
        0 < most,
        forall|i: int| 0 <= i < events.len() ==> #[trigger] takes_at_most(events[i], most),
    ensures
        after(RunCpu::fresh(), events).ticks < WAITTICKS + most,
        ({
            let end = after(RunCpu::fresh(), events);
            is_reading(end.pending) || end.pending is WaitPeriod ==> end.ticks < most
        }),
    decreases events.len(),
{
    if events.len() > 0 {
        assert(takes_at_most(events[events.len() - 1], most));
        a_run_stays_well_formed(RunCpu::fresh(), events.drop_last());
        overshoot_is_less_than_a_cycle(events.drop_last(), most);
    }
}

} // verus!
