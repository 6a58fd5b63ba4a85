//! From the keyboard to the machine: what holds when the messages that the window sends are the
//! messages that the loop in `cpu` receives.
use vstd::prelude::*;
use crate::cpu::{CpuEvent, ReceiveOutcome, RunCpu};
use crate::keypad::{GBEvent, VirtualKeyCode};
use crate::window::Event;

verus! {

/// The messages that the window sends about `inputs`, in order.
pub open spec fn messages_sent(inputs: Seq<Event>) -> Seq<GBEvent>
    decreases inputs.len(),
{
    if inputs.len() == 0 {
        seq![]
    } else {
        let before = messages_sent(inputs.drop_last());
        match crate::window::message_of(inputs.last()) {
            Some(message) => before.push(message),
            None => before,
        }
    }
}

/// The messages that the loop received during `events`, in order.
pub open spec fn messages_received(events: Seq<CpuEvent>) -> Seq<GBEvent>
    decreases events.len(),
{
    if events.len() == 0 {
        seq![]
    } else {
        let before = messages_received(events.drop_last());
        match events.last() {
            CpuEvent::Received(ReceiveOutcome::Message(message)) => before.push(message),
            _ => before,
        }
    }
}

/// Those of `messages` that are about keys, in order.
pub open spec fn about_keys(messages: Seq<GBEvent>) -> Seq<GBEvent>
    decreases messages.len(),
{
    if messages.len() == 0 {
        seq![]
    } else {
        let before = about_keys(messages.drop_last());
        if messages.last() is KeyUp || messages.last() is KeyDown {
            before.push(messages.last())
        } else {
            before
        }
    }
}

/// Whether the speed is limited after `messages`, if `before` says whether it was before.
pub open spec fn limited_after(before: bool, messages: Seq<GBEvent>) -> bool
    decreases messages.len(),
{
    if messages.len() == 0 {
        before
    } else {
        match messages.last() {
            GBEvent::SpeedUp => false,
            GBEvent::SpeedDown => true,
            _ => limited_after(before, messages.drop_last()),
        }
    }
}

/// Whether shift is down after `inputs`, if it was up before.
pub open spec fn shift_is_down(inputs: Seq<Event>) -> bool
    decreases inputs.len(),
{
    if inputs.len() == 0 {
        false
    } else if inputs.last() == crate::window::pressed(VirtualKeyCode::LShift) {
        true
    } else if inputs.last() == crate::window::released(VirtualKeyCode::LShift) {
        false
    } else {
        shift_is_down(inputs.drop_last())
    }
}

/// The keys that a run receives are those among its messages.
proof fn keys_are_among_messages(events: Seq<CpuEvent>)
    ensures
        crate::pacing::keys_received(events) == about_keys(messages_received(events)),
    decreases events.len(),
{
    if events.len() > 0 {
        let before = messages_received(events.drop_last());
        keys_are_among_messages(events.drop_last());
        if let CpuEvent::Received(ReceiveOutcome::Message(message)) = events.last() {
            assert(before.push(message).drop_last() =~= before);
        }
    }
}

/// The speed limit of a run is what its messages make of it.
proof fn limit_follows_messages(start: RunCpu, events: Seq<CpuEvent>)
    requires
        crate::pacing::is_run(start, events),
    ensures
        crate::pacing::after(start, events).limit_speed == limited_after(
            start.limit_speed,
            messages_received(events),
        ),
    decreases events.len(),
{
    if events.len() > 0 {
        let before = messages_received(events.drop_last());
        limit_follows_messages(start, events.drop_last());
        if let CpuEvent::Received(ReceiveOutcome::Message(message)) = events.last() {
            assert(before.push(message).drop_last() =~= before);
        }
    }
}

/// The messages that the window sends limit the speed exactly while shift is up.
proof fn messages_follow_shift(inputs: Seq<Event>)
    ensures
        limited_after(true, messages_sent(inputs)) == !shift_is_down(inputs),
    decreases inputs.len(),
{
    if inputs.len() > 0 {
        let before = messages_sent(inputs.drop_last());
        messages_follow_shift(inputs.drop_last());
        if let Some(message) = crate::window::message_of(inputs.last()) {
            assert(before.push(message).drop_last() =~= before);
        }
    }
}

/// What the player does with the keypad reaches the machine exactly once and in order; at most
/// the last of it may still be in hand.
pub proof fn keypad_reaches_the_machine(start: RunCpu, events: Seq<CpuEvent>, inputs: Seq<Event>)
    requires
        crate::pacing::is_run(start, events),
        crate::pacing::key_in_hand(start.pending) == Seq::<GBEvent>::empty(),
        messages_received(events) == messages_sent(inputs),
    ensures
        crate::pacing::keys_applied(start, events) + crate::pacing::key_in_hand(
            crate::pacing::after(start, events).pending,
        ) == about_keys(messages_sent(inputs)),
{
    keys_are_among_messages(events);
    crate::pacing::keys_arrive_once_in_order(start, events);
}

/// The machine runs without the speed limit exactly while the player holds shift.
pub proof fn shift_controls_the_speed(start: RunCpu, events: Seq<CpuEvent>, inputs: Seq<Event>)
    requires
        crate::pacing::is_run(start, events),
        start.limit_speed,
        messages_received(events) == messages_sent(inputs),
    ensures
        crate::pacing::after(start, events).limit_speed == !shift_is_down(inputs),
{
    limit_follows_messages(start, events);
    messages_follow_shift(inputs);
}

} // verus!
