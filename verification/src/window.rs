//! What the window does about its events.
//!
//! `EventLoop` is told each event and answers with what is to be done about it.
use vstd::prelude::*;
use crate::keypad::{glutin_to_keypad, GBEvent, KeypadKey, VirtualKeyCode};
use crate::screen::{interpolation_type, physical_size, texture_rect, MagnifySamplerFilter, Rect, RenderOptions, Size};

verus! {

/// Whether a key went down or up.
#[derive(Clone, Copy, Debug, PartialEq, Eq, Structural)]
pub enum ElementState {
    Pressed,
    Released,
}

/// An event of the window.
#[derive(Clone, Copy, Debug, PartialEq, Eq, Structural)]
pub enum Event {
    CloseRequested,
    /// A key went down or up. The key is missing if the keyboard does not tell what it means.
    KeyboardInput { state: ElementState, virtual_keycode: Option<VirtualKeyCode> },
    /// There are no more events for now.
    MainEventsCleared,
    Other,
}

/// What is to be done about an event.
#[derive(Clone, Copy, Debug, PartialEq, Eq, Structural)]
pub enum WindowAction {
    /// Close the window.
    Stop,
    /// Give the window this size, in physical pixels.
    SetWindowSize(Size),
    /// Send a message to the emulator.
    Send(GBEvent),
    /// Wait for the next frame of the emulator.
    ReceiveFrame,
    Nothing,
}

/// What is to be done after waiting for a frame.
#[derive(Debug)]
pub enum FrameAction {
    /// Write `data` to the part `rect` of the texture, and draw it enlarged with `filter`.
    Draw { data: Vec<u8>, rect: Rect, filter: MagnifySamplerFilter },
    /// Close the window.
    Stop,
}

/// The state of the window.
#[derive(Clone, Copy, Debug, PartialEq, Eq, Structural)]
pub struct EventLoop {
    /// The screen of the emulated machine.
    pub screen: Size,
    /// The scale that the command line asks for.
    pub scale: u32,
    pub renderoptions: RenderOptions,
}

/// The key `key` went down.
pub open spec fn pressed(key: VirtualKeyCode) -> Event {
    Event::KeyboardInput { state: ElementState::Pressed, virtual_keycode: Some(key) }
}

/// The key `key` went up.
pub open spec fn released(key: VirtualKeyCode) -> Event {
    Event::KeyboardInput { state: ElementState::Released, virtual_keycode: Some(key) }
}

/// The message that `event` gives rise to, if it gives rise to one: shift sets the speed, and the
/// keys of the keypad are passed on.
pub open spec fn message_of(event: Event) -> Option<GBEvent> {
    match event {
        Event::KeyboardInput { state, virtual_keycode: Some(key) } => {
            let down = state is Pressed;
            if key is LShift {
                Some(
                    if down {
                        GBEvent::SpeedUp
                    } else {
                        GBEvent::SpeedDown
                    },
                )
            } else {
                match crate::keypad::button_of(key) {
                    Some(button) => Some(
                        if down {
                            GBEvent::KeyDown(button)
                        } else {
                            GBEvent::KeyUp(button)
                        },
                    ),
                    None => None,
                }
            }
        },
        _ => None,
    }
}

/// `event` closes the window.
pub open spec fn closes(event: Event) -> bool {
    event is CloseRequested || event == pressed(VirtualKeyCode::Escape)
}

/// Whether frames are smoothed after `event`, if `before` says whether they were before: the key
/// T turns it on and off.
pub open spec fn interpolates_after(before: bool, event: Event) -> bool {
    if event == pressed(VirtualKeyCode::T) {
        !before
    } else {
        before
    }
}

impl EventLoop {
    /// The window can be given the size that its scale asks for.
    pub open spec fn wf(self) -> bool {
        self.screen.can_scale(self.scale)
    }

    /// Opens a window that draws sharp pixels.
    pub fn new(screen: Size, scale: u32) -> (res: EventLoop)
        requires
            screen.can_scale(scale),
        ensures
            res.screen == screen,
            res.scale == scale,
            !res.renderoptions.linear_interpolation,
            res.wf(),
    {
        EventLoop { screen, scale, renderoptions: RenderOptions::default() }
    }

    /// Decides what is to be done about an event.
    pub fn handle(&mut self, event: Event) -> (res: WindowAction)
        requires
            old(self).wf(),
        ensures
            final(self).wf(),
            final(self).screen == old(self).screen,
            final(self).scale == old(self).scale,
            final(self).renderoptions.linear_interpolation == interpolates_after(
                old(self).renderoptions.linear_interpolation,
                event,
            ),
            res is Stop <==> closes(event),
            res is ReceiveFrame <==> event is MainEventsCleared,
            res is SetWindowSize <==> event == pressed(VirtualKeyCode::Key1) || event == pressed(
                VirtualKeyCode::R,
            ),
            event == pressed(VirtualKeyCode::Key1) ==> res->SetWindowSize_0.is_scaled(
                old(self).screen,
                1,
            ),
            event == pressed(VirtualKeyCode::R) ==> res->SetWindowSize_0.is_scaled(
                old(self).screen,
                old(self).scale,
            ),
            res is Send <==> message_of(event) is Some,
            message_of(event) matches Some(message) ==> res->Send_0 == message,
            event == (Event::KeyboardInput {
                state: ElementState::Pressed,
                virtual_keycode: Some(VirtualKeyCode::R),
            }) ==> {
                &&& res->SetWindowSize_0.width == old(self).screen.width * old(self).scale
                &&& res->SetWindowSize_0.height == old(self).screen.height * old(self).scale
            },
            event == (Event::KeyboardInput {
                state: ElementState::Pressed,
                virtual_keycode: Some(VirtualKeyCode::Key1),
            }) ==> res->SetWindowSize_0 == old(self).screen,
    {
        match event {
            Event::CloseRequested => WindowAction::Stop,
            Event::KeyboardInput { state, virtual_keycode } => match virtual_keycode {
                Some(key) => self.handle_key(state, key),
                None => WindowAction::Nothing,
            },
            Event::MainEventsCleared => WindowAction::ReceiveFrame,
            Event::Other => WindowAction::Nothing,
        }
    }

    /// Decides what is to be done about a key that went down or up.
    fn handle_key(&mut self, state: ElementState, key: VirtualKeyCode) -> (res: WindowAction)
        requires
            old(self).wf(),
        ensures
            final(self).screen == old(self).screen,
            final(self).scale == old(self).scale,
            final(self).renderoptions.linear_interpolation == interpolates_after(
                old(self).renderoptions.linear_interpolation,
                Event::KeyboardInput { state, virtual_keycode: Some(key) },
            ),
            res is Stop <==> state is Pressed && key is Escape,
            !(res is ReceiveFrame),
            res is SetWindowSize <==> state is Pressed && (key is Key1 || key is R),
            state is Pressed && key is Key1 ==> res->SetWindowSize_0.is_scaled(old(self).screen, 1),
            state is Pressed && key is R ==> res->SetWindowSize_0.is_scaled(
                old(self).screen,
                old(self).scale,
            ),
            ({
                let event = Event::KeyboardInput { state, virtual_keycode: Some(key) };
                &&& res is Send <==> message_of(event) is Some
                &&& message_of(event) matches Some(message) ==> res->Send_0 == message
            }),
    {
        match (state, key) {
            (ElementState::Pressed, VirtualKeyCode::Escape) => WindowAction::Stop,
            (ElementState::Pressed, VirtualKeyCode::Key1) => WindowAction::SetWindowSize(
                physical_size(self.screen, 1),
            ),
            (ElementState::Pressed, VirtualKeyCode::R) => WindowAction::SetWindowSize(
                physical_size(self.screen, self.scale),
            ),
            (ElementState::Pressed, VirtualKeyCode::LShift) => WindowAction::Send(
                GBEvent::SpeedUp,
            ),
            (ElementState::Released, VirtualKeyCode::LShift) => WindowAction::Send(
                GBEvent::SpeedDown,
            ),
            (ElementState::Pressed, VirtualKeyCode::T) => {
                self.renderoptions = RenderOptions {
                    linear_interpolation: !self.renderoptions.linear_interpolation,
                };
                WindowAction::Nothing
            },
            (ElementState::Pressed, key) => match glutin_to_keypad(key) {
                Some(button) => WindowAction::Send(GBEvent::KeyDown(button)),
                None => WindowAction::Nothing,
            },
            (ElementState::Released, key) => match glutin_to_keypad(key) {
                Some(button) => WindowAction::Send(GBEvent::KeyUp(button)),
                None => WindowAction::Nothing,
            },
        }
    }

    /// Decides what is to be done after waiting for a frame. There is none if the emulator has
    /// hung up.
    pub fn frame_received(&self, frame: Option<Vec<u8>>) -> (res: FrameAction)
        ensures
            frame is None ==> res is Stop,
            frame matches Some(data) ==> {
                &&& res is Draw
                &&& res->data == data
                &&& res->rect == (Rect {
                    left: 0,
                    bottom: 0,
                    width: self.screen.width,
                    height: self.screen.height,
                })
                &&& res->filter is Linear <==> self.renderoptions.linear_interpolation
            },
    {
        match frame {
            Some(data) => FrameAction::Draw {
                data,
                rect: texture_rect(self.screen),
                filter: interpolation_type(&self.renderoptions),
            },
            None => FrameAction::Stop,
        }
    }
}

/// Whether frames are smoothed after all of `events`.
pub open spec fn interpolates_after_all(before: bool, events: Seq<Event>) -> bool
    decreases events.len(),
{
    if events.len() == 0 {
        before
    } else {
        interpolates_after(interpolates_after_all(before, events.drop_last()), events.last())
    }
}

/// How often the key T went down.
pub open spec fn toggles(events: Seq<Event>) -> nat
    decreases events.len(),
{
    if events.len() == 0 {
        0
    } else {
        toggles(events.drop_last()) + if events.last() == pressed(VirtualKeyCode::T) {
            1nat
        } else {
            0nat
        }
    }
}

/// Pressing T twice changes nothing, whatever happens in between: frames are drawn as before if
/// and only if T went down an even number of times.
pub proof fn two_toggles_cancel(before: bool, events: Seq<Event>)
    ensures
        interpolates_after_all(before, events) == before <==> toggles(events) % 2 == 0,
    decreases events.len(),
{
    if events.len() > 0 {
        two_toggles_cancel(before, events.drop_last());
    }
}

/// The window closes when that is asked for and when escape goes down, and at no other time.
pub proof fn what_closes_the_window(event: Event)
    ensures
        closes(event) <==> match event {
            Event::CloseRequested => true,
            Event::KeyboardInput { state, virtual_keycode } => state is Pressed && virtual_keycode
                == Some(VirtualKeyCode::Escape),
            _ => false,
        },
{
}

/// Smoothing changes exactly when T goes down, and then to its opposite.
pub proof fn only_t_toggles_smoothing(before: bool, event: Event)
    ensures
        interpolates_after(before, event) != before <==> (event matches Event::KeyboardInput {
            state,
            virtual_keycode,
        } && state is Pressed && virtual_keycode == Some(VirtualKeyCode::T)),
{
}

/// A message is sent for the keys of the keypad and for shift, and for nothing else. Going down is
/// told as such, and so is going up.
pub proof fn what_a_key_sends(state: ElementState, key: VirtualKeyCode)
    ensures
        ({
            let sent = message_of(Event::KeyboardInput { state, virtual_keycode: Some(key) });
            &&& sent is None <==> key is Escape || key is Key1 || key is R || key is T || key
                is Other
            &&& sent == Some(GBEvent::SpeedUp) <==> state is Pressed && key is LShift
            &&& sent == Some(GBEvent::SpeedDown) <==> state is Released && key is LShift
            &&& sent matches Some(GBEvent::KeyDown(_)) ==> state is Pressed
            &&& sent matches Some(GBEvent::KeyUp(_)) ==> state is Released
            &&& sent == Some(GBEvent::KeyDown(KeypadKey::A)) || sent == Some(
                GBEvent::KeyUp(KeypadKey::A),
            ) <==> key is Z
            &&& sent == Some(GBEvent::KeyDown(KeypadKey::B)) || sent == Some(
                GBEvent::KeyUp(KeypadKey::B),
            ) <==> key is X
            &&& sent == Some(GBEvent::KeyDown(KeypadKey::Up)) || sent == Some(
                GBEvent::KeyUp(KeypadKey::Up),
            ) <==> key is Up
            &&& sent == Some(GBEvent::KeyDown(KeypadKey::Down)) || sent == Some(
                GBEvent::KeyUp(KeypadKey::Down),
            ) <==> key is Down
            &&& sent == Some(GBEvent::KeyDown(KeypadKey::Left)) || sent == Some(
                GBEvent::KeyUp(KeypadKey::Left),
            ) <==> key is Left
            &&& sent == Some(GBEvent::KeyDown(KeypadKey::Right)) || sent == Some(
                GBEvent::KeyUp(KeypadKey::Right),
            ) <==> key is Right
            &&& sent == Some(GBEvent::KeyDown(KeypadKey::Select)) || sent == Some(
                GBEvent::KeyUp(KeypadKey::Select),
            ) <==> key is Space
            &&& sent == Some(GBEvent::KeyDown(KeypadKey::Start)) || sent == Some(
                GBEvent::KeyUp(KeypadKey::Start),
            ) <==> key is Return
        }),
{
}

/// Nothing is sent about an event that is not about a known key.
pub proof fn other_events_send_nothing(event: Event)
    requires
        !(event matches Event::KeyboardInput { virtual_keycode: Some(_), .. }),
    ensures
        message_of(event) is None,
{
}

/// An event has at most one effect: a key that closes the window, sets its size or toggles smoothing
/// sends nothing.
pub proof fn an_event_has_one_effect(event: Event)
    requires
        message_of(event) is Some,
    ensures
        !closes(event),
        forall|before: bool| interpolates_after(before, event) == before,
        event != pressed(VirtualKeyCode::Key1),
        event != pressed(VirtualKeyCode::R),
{
}

/// Going down and going up are told apart by the state, and by nothing else.
pub proof fn pressed_and_released_are_key_events(key: VirtualKeyCode)
    ensures
        pressed(key) == (Event::KeyboardInput {
            state: ElementState::Pressed,
            virtual_keycode: Some(key),
        }),
        released(key) == (Event::KeyboardInput {
            state: ElementState::Released,
            virtual_keycode: Some(key),
        }),
{
}

/// No key has two meanings: the keys of the keypad are passed on to the emulator, down and up,
/// whatever other keys are bound to.
pub proof fn keypad_keys_are_passed_on(button: KeypadKey)
    ensures
        message_of(pressed(crate::keypad::key_for(button))) == Some(GBEvent::KeyDown(button)),
        message_of(released(crate::keypad::key_for(button))) == Some(GBEvent::KeyUp(button)),
        !closes(pressed(crate::keypad::key_for(button))),
        !closes(released(crate::keypad::key_for(button))),
{
    crate::keypad::each_button_has_its_own_key(button, crate::keypad::key_for(button));
}

/// What a key sends when it goes down it takes back when it goes up: a button that was pressed is
/// released, and the speed that was raised is lowered.
pub proof fn release_takes_back_press(key: VirtualKeyCode)
    ensures
        match message_of(pressed(key)) {
            Some(GBEvent::KeyDown(button)) => message_of(released(key)) == Some(
                GBEvent::KeyUp(button),
            ),
            Some(GBEvent::SpeedUp) => message_of(released(key)) == Some(GBEvent::SpeedDown),
            Some(_) => false,
            None => message_of(released(key)) is None,
        },
{
}

} // verus!
