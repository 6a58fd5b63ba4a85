//! The way from the command line to the running emulator, and the exit code at the end of it.
//!
//! `Startup` holds the one thing that is to be done next. The caller does it and reports back
//! what came of it with `step`.
use vstd::prelude::*;

verus! {

/// The exit code when everything went well.
pub const EXITCODE_SUCCESS: i32 = 0;

/// The exit code when the emulator could not be set up.
pub const EXITCODE_CPULOADFAILS: i32 = 2;

/// The switches on the command line.
#[derive(Clone, Copy, Debug, PartialEq, Eq, Structural)]
pub struct Options {
    /// Print the data from the serial port.
    pub serial: bool,
    /// Emulate a printer on the serial port.
    pub printer: bool,
    /// Force the machine without colours.
    pub classic: bool,
    pub audio: bool,
    /// Do not verify the checksum of the cartridge.
    pub skip_checksum: bool,
}

/// The machine that is emulated.
#[derive(Clone, Copy, Debug, PartialEq, Eq, Structural)]
pub enum DeviceKind {
    Classic,
    Color,
}

/// Why the emulator could not be set up.
#[derive(Debug)]
pub enum Warning {
    /// The cartridge could not be loaded, for the reason that the machine gives.
    LoadFailed(String),
    NoAudioDevice,
}

/// What is to be done next.
#[derive(Debug)]
pub enum StartupAction {
    /// Load the cartridge into a machine.
    Load { kind: DeviceKind, skip_checksum: bool },
    AttachPrinter,
    /// Print the data from the serial port, or do not.
    SetStdout(bool),
    OpenAudio,
    /// Open the window and run until it closes.
    Run,
    /// Tell the player why it does not go on.
    Warn(Warning),
    Exit(i32),
}

/// What came of the action that was wanted.
#[derive(Debug)]
pub enum StartupEvent {
    Loaded,
    LoadFailed(String),
    SerialConnected,
    AudioOpened,
    AudioMissing,
    Finished,
    Warned,
}

/// How far the start has come.
#[derive(Debug)]
pub struct Startup {
    pub options: Options,
    /// What is to be done next.
    pub pending: StartupAction,
}

/// The words that the player is shown.
pub open spec fn warning_words(warning: Warning) -> Seq<char> {
    match warning {
        Warning::LoadFailed(reason) => reason@,
        Warning::NoAudioDevice => "Could not open audio device"@,
    }
}

impl Warning {
    /// The words that the player is shown.
    pub fn message(&self) -> (res: String)
        ensures
            res@ == warning_words(*self),
    {
        match self {
            Warning::LoadFailed(reason) => reason.clone(),
            Warning::NoAudioDevice => "Could not open audio device".to_owned(),
        }
    }
}

impl Options {
    /// The machine is loaded as the switches say.
    pub open spec fn load_action(self) -> StartupAction {
        StartupAction::Load {
            kind: if self.classic {
                DeviceKind::Classic
            } else {
                DeviceKind::Color
            },
            skip_checksum: self.skip_checksum,
        }
    }

    /// The serial port goes to the printer if there is one, and else is printed or not.
    pub open spec fn serial_action(self) -> StartupAction {
        if self.printer {
            StartupAction::AttachPrinter
        } else {
            StartupAction::SetStdout(self.serial)
        }
    }

    /// Sound is only set up where it is asked for.
    pub open spec fn audio_action(self) -> StartupAction {
        if self.audio {
            StartupAction::OpenAudio
        } else {
            StartupAction::Run
        }
    }
}

impl Startup {
    /// `event` is an answer to the pending action.
    pub open spec fn answered_by(self, event: StartupEvent) -> bool {
        match self.pending {
            StartupAction::Load { .. } => event is Loaded || event is LoadFailed,
            StartupAction::AttachPrinter => event is SerialConnected,
            StartupAction::SetStdout(_) => event is SerialConnected,
            StartupAction::OpenAudio => event is AudioOpened || event is AudioMissing,
            StartupAction::Run => event is Finished,
            StartupAction::Warn(_) => event is Warned,
            StartupAction::Exit(_) => false,
        }
    }

    /// What is to be done after `event`.
    pub open spec fn action_after(options: Options, event: StartupEvent) -> StartupAction {
        match event {
            StartupEvent::Loaded => options.serial_action(),
            StartupEvent::LoadFailed(reason) => StartupAction::Warn(Warning::LoadFailed(reason)),
            StartupEvent::SerialConnected => options.audio_action(),
            StartupEvent::AudioOpened => StartupAction::Run,
            StartupEvent::AudioMissing => StartupAction::Warn(Warning::NoAudioDevice),
            StartupEvent::Finished => StartupAction::Exit(EXITCODE_SUCCESS),
            StartupEvent::Warned => StartupAction::Exit(EXITCODE_CPULOADFAILS),
        }
    }

    /// The state after `event` has answered the pending action.
    pub open spec fn stepped(self, event: StartupEvent) -> Startup {
        Startup { pending: Self::action_after(self.options, event), ..self }
    }

    /// The state in which the start begins.
    pub open spec fn begun(options: Options) -> Startup {
        Startup { options, pending: options.load_action() }
    }

    /// Begins the start.
    pub fn new(options: Options) -> (res: Startup)
        ensures
            res == Startup::begun(options),
            res.pending == (StartupAction::Load {
                kind: if options.classic {
                    DeviceKind::Classic
                } else {
                    DeviceKind::Color
                },
                skip_checksum: options.skip_checksum,
            }),
    {
        let kind = if options.classic {
            DeviceKind::Classic
        } else {
            DeviceKind::Color
        };
        Startup {
            options,
            pending: StartupAction::Load { kind, skip_checksum: options.skip_checksum },
        }
    }

    /// The action that is to be done next.
    pub fn action(&self) -> (res: &StartupAction)
        ensures
            *res == self.pending,
    {
        &self.pending
    }

    /// Tells whether `step` can take `event` now.
    pub fn accepts(&self, event: &StartupEvent) -> (res: bool)
        ensures
            res == self.answered_by(*event),
    {
        match (&self.pending, event) {
            (StartupAction::Load { .. }, StartupEvent::Loaded) => true,
            (StartupAction::Load { .. }, StartupEvent::LoadFailed(_)) => true,
            (StartupAction::AttachPrinter, StartupEvent::SerialConnected) => true,
            (StartupAction::SetStdout(_), StartupEvent::SerialConnected) => true,
            (StartupAction::OpenAudio, StartupEvent::AudioOpened) => true,
            (StartupAction::OpenAudio, StartupEvent::AudioMissing) => true,
            (StartupAction::Run, StartupEvent::Finished) => true,
            (StartupAction::Warn(_), StartupEvent::Warned) => true,
            _ => false,
        }
    }

    /// Goes on after the pending action has been done with the outcome `event`.
    pub fn step(&mut self, event: StartupEvent)
        requires
            old(self).answered_by(event),
        ensures
            *final(self) == old(self).stepped(event),
    {
        self.pending = match event {
            StartupEvent::Loaded => {
                if self.options.printer {
                    StartupAction::AttachPrinter
                } else {
                    StartupAction::SetStdout(self.options.serial)
                }
            },
            StartupEvent::LoadFailed(reason) => StartupAction::Warn(Warning::LoadFailed(reason)),
            StartupEvent::SerialConnected => {
                if self.options.audio {
                    StartupAction::OpenAudio
                } else {
                    StartupAction::Run
                }
            },
            StartupEvent::AudioOpened => StartupAction::Run,
            StartupEvent::AudioMissing => StartupAction::Warn(Warning::NoAudioDevice),
            StartupEvent::Finished => StartupAction::Exit(EXITCODE_SUCCESS),
            StartupEvent::Warned => StartupAction::Exit(EXITCODE_CPULOADFAILS),
        };
    }
}

/// The state after all of `events`.
pub open spec fn after(options: Options, events: Seq<StartupEvent>) -> Startup
    decreases events.len(),
{
    if events.len() == 0 {
        Startup::begun(options)
    } else {
        after(options, events.drop_last()).stepped(events.last())
    }
}

/// Each of `events` answers the action that was pending when it came.
pub open spec fn is_run(options: Options, events: Seq<StartupEvent>) -> bool
    decreases events.len(),
{
    events.len() == 0 || {
        &&& is_run(options, events.drop_last())
        &&& after(options, events.drop_last()).answered_by(events.last())
    }
}

/// Something needed for the emulator was not to be had.
pub open spec fn is_failure(event: StartupEvent) -> bool {
    event is LoadFailed || event is AudioMissing
}

/// Something among `events` failed.
pub open spec fn failed(events: Seq<StartupEvent>) -> bool {
    exists|i: int| 0 <= i < events.len() && is_failure(#[trigger] events[i])
}

/// `depth` actions can have been done before `action` is pending.
pub open spec fn is_depth(action: StartupAction, depth: nat) -> bool {
    match action {
        StartupAction::Load { .. } => depth == 0,
        StartupAction::AttachPrinter => depth == 1,
        StartupAction::SetStdout(_) => depth == 1,
        StartupAction::OpenAudio => depth == 2,
        StartupAction::Run => 2 <= depth <= 3,
        StartupAction::Warn(_) => depth == 1 || depth == 3,
        StartupAction::Exit(_) => 2 <= depth <= 4,
    }
}

/// The start comes to an end: after at most four actions there is nothing left but to exit.
pub proof fn start_comes_to_an_end(options: Options, events: Seq<StartupEvent>)
    requires
        is_run(options, events),
    ensures
        events.len() <= 4,
        events.len() == 4 ==> after(options, events).pending is Exit,
        is_depth(after(options, events).pending, events.len()),
    decreases events.len(),
{
    if events.len() > 0 {
        start_comes_to_an_end(options, events.drop_last());
        options_are_kept(options, events.drop_last());
    }
}

/// The switches stay as they were given.
pub proof fn options_are_kept(options: Options, events: Seq<StartupEvent>)
    ensures
        after(options, events).options == options,
    decreases events.len(),
{
    if events.len() > 0 {
        options_are_kept(options, events.drop_last());
    }
}

/// The exit code tells whether the emulator was set up: it is `EXITCODE_SUCCESS` if nothing
/// failed and `EXITCODE_CPULOADFAILS` if something did. What failed is told before the exit, and
/// nothing is run after it.
pub proof fn exit_code_tells_of_failure(options: Options, events: Seq<StartupEvent>)
    requires
        is_run(options, events),
    ensures
        match after(options, events).pending {
            StartupAction::Exit(code) => code == (if failed(events) {
                EXITCODE_CPULOADFAILS
            } else {
                EXITCODE_SUCCESS
            }),
            StartupAction::Warn(_) => is_failure(events.last()) && failed(events),
            _ => !failed(events),
        },
    decreases events.len(),
{
    if events.len() > 0 {
        let before = events.drop_last();
        exit_code_tells_of_failure(options, before);
        assert(failed(events) == (failed(before) || is_failure(events.last()))) by {
            assert(events[events.len() - 1] == events.last());
            assert(forall|i: int| 0 <= i < before.len() ==> before[i] == #[trigger] events[i]);
            if failed(before) {
                let i = choose|i: int| 0 <= i < before.len() && is_failure(#[trigger] before[i]);
                assert(is_failure(events[i]));
            }
        }
    }
}

/// The emulator is set up as the switches say: the printer and the sound only where they are
/// asked for, and the data from the serial port printed only where there is no printer.
pub proof fn switches_are_obeyed(options: Options, events: Seq<StartupEvent>)
    requires
        is_run(options, events),
    ensures
        match after(options, events).pending {
            StartupAction::Load { kind, skip_checksum } => {
                &&& kind is Classic <==> options.classic
                &&& skip_checksum == options.skip_checksum
            },
            StartupAction::AttachPrinter => options.printer,
            StartupAction::SetStdout(on) => !options.printer && on == options.serial,
            StartupAction::OpenAudio => options.audio,
            StartupAction::Run => options.audio <==> exists|i: int|
                0 <= i < events.len() && #[trigger] events[i] is AudioOpened,
            _ => true,
        },
    decreases events.len(),
{
    if events.len() > 0 {
        let before = events.drop_last();
        switches_are_obeyed(options, before);
        options_are_kept(options, before);
        no_audio_before_its_turn(options, before);
        assert(events[events.len() - 1] == events.last());
        assert(forall|i: int| 0 <= i < before.len() ==> before[i] == #[trigger] events[i]);
    }
}

/// Sound is only opened when its turn comes.
proof fn no_audio_before_its_turn(options: Options, events: Seq<StartupEvent>)
    requires
        is_run(options, events),
    ensures
        ({
            let pending = after(options, events).pending;
            pending is Load || pending is AttachPrinter || pending is SetStdout || pending
                is OpenAudio ==> forall|i: int|
                0 <= i < events.len() ==> !(#[trigger] events[i] is AudioOpened)
        }),
    decreases events.len(),
{
    if events.len() > 0 {
        let before = events.drop_last();
        no_audio_before_its_turn(options, before);
        assert(forall|i: int| 0 <= i < before.len() ==> before[i] == #[trigger] events[i]);
    }
}

/// Each outcome leads to one thing, whatever else happened before and whatever the other switches
/// say. The start begins with the load.
pub proof fn each_outcome_leads_to_one_thing(options: Options, events: Seq<StartupEvent>)
    ensures
        ({
            let pending = after(options, events).pending;
            if events.len() == 0 {
                &&& pending matches StartupAction::Load { kind, skip_checksum } && (kind
                    is Classic <==> options.classic) && skip_checksum == options.skip_checksum
            } else {
                match events.last() {
                    StartupEvent::Loaded => pending == if options.printer {
                        StartupAction::AttachPrinter
                    } else {
                        StartupAction::SetStdout(options.serial)
                    },
                    StartupEvent::LoadFailed(reason) => pending == StartupAction::Warn(
                        Warning::LoadFailed(reason),
                    ),
                    StartupEvent::SerialConnected => pending == if options.audio {
                        StartupAction::OpenAudio
                    } else {
                        StartupAction::Run
                    },
                    StartupEvent::AudioOpened => pending == StartupAction::Run,
                    StartupEvent::AudioMissing => pending == StartupAction::Warn(
                        Warning::NoAudioDevice,
                    ),
                    StartupEvent::Finished => pending == StartupAction::Exit(0),
                    StartupEvent::Warned => pending == StartupAction::Exit(2),
                }
            }
        }),
{
    options_are_kept(options, events);
    if events.len() > 0 {
        options_are_kept(options, events.drop_last());
    }
}

/// An exit with success comes only after the emulator was run to its end, and an exit with any
/// other code only after a warning.
pub proof fn success_comes_only_after_running(options: Options, events: Seq<StartupEvent>)
    requires
        is_run(options, events),
        after(options, events).pending is Exit,
    ensures
        events.len() > 0,
        after(options, events).pending == StartupAction::Exit(0) <==> {
            &&& events.last() is Finished
            &&& after(options, events.drop_last()).pending is Run
        },
        after(options, events).pending == StartupAction::Exit(2) <==> {
            &&& events.last() is Warned
            &&& after(options, events.drop_last()).pending is Warn
        },
        events.last() is Finished || events.last() is Warned,
{
    each_outcome_leads_to_one_thing(options, events);
    each_outcome_leads_to_one_thing(options, events.drop_last());
}

/// A start that ends well has done everything: the cartridge was loaded, then the serial port was
/// connected, then the sound was opened if it was asked for, and then the emulator was run.
pub proof fn a_good_start_does_everything(options: Options, events: Seq<StartupEvent>)
    requires
        is_run(options, events),
        after(options, events).pending == StartupAction::Exit(0),
    ensures
        events.len() == (if options.audio {
            4int
        } else {
            3int
        }),
        events[0] is Loaded,
        events[1] is SerialConnected,
        options.audio ==> events[2] is AudioOpened,
        events.last() is Finished,
{
    reveal_with_fuel(after, 6);
    reveal_with_fuel(is_run, 6);
    start_comes_to_an_end(options, events);
    success_comes_only_after_running(options, events);
    let ran = events.drop_last();
    let connected = if options.audio {
        ran.drop_last()
    } else {
        ran
    };
    each_outcome_leads_to_one_thing(options, ran);
    each_outcome_leads_to_one_thing(options, ran.drop_last());
    each_outcome_leads_to_one_thing(options, connected.drop_last());
    each_outcome_leads_to_one_thing(options, connected.drop_last().drop_last());
    start_comes_to_an_end(options, ran);
    start_comes_to_an_end(options, connected);
    start_comes_to_an_end(options, connected.drop_last());
    options_are_kept(options, ran);
    options_are_kept(options, connected);
}

/// As long as nothing fails the start goes on to run the emulator: in a run without a failure the
/// only exit is the one after running.
pub proof fn nothing_but_failure_prevents_running(options: Options, events: Seq<StartupEvent>)
    requires
        is_run(options, events),
        !failed(events),
        events.len() >= 1,
    ensures
        after(options, events).pending is Exit ==> events.last() is Finished,
        !(after(options, events).pending is Warn),
        events.last() is SerialConnected && !options.audio ==> after(options, events).pending is Run,
        events.last() is AudioOpened ==> after(options, events).pending is Run,
{
    each_outcome_leads_to_one_thing(options, events);
    exit_code_tells_of_failure(options, events);
    assert(events[events.len() - 1] == events.last());
    if after(options, events).pending is Exit {
        success_comes_only_after_running(options, events);
        if events.last() is Warned {
            exit_code_tells_of_failure(options, events.drop_last());
            let before = events.drop_last();
            let i = choose|i: int| 0 <= i < before.len() && is_failure(#[trigger] before[i]);
            assert(is_failure(events[i]));
        }
    }
}

/// Every outcome of the pending action can be reported, and no outcome of another action.
pub proof fn every_outcome_can_be_reported(startup: Startup, event: StartupEvent)
    ensures
        event is Loaded || event is LoadFailed ==> (startup.answered_by(event) <==> startup.pending
            is Load),
        event is SerialConnected ==> (startup.answered_by(event) <==> startup.pending
            is AttachPrinter || startup.pending is SetStdout),
        event is AudioOpened || event is AudioMissing ==> (startup.answered_by(event)
            <==> startup.pending is OpenAudio),
        event is Finished ==> (startup.answered_by(event) <==> startup.pending is Run),
        event is Warned ==> (startup.answered_by(event) <==> startup.pending is Warn),
{
}

/// What the player is told of a load that failed is the reason that the machine gave, word for word.
pub proof fn the_reason_is_told(reason: String)
    ensures
        warning_words(Warning::LoadFailed(reason)) == reason@,
        warning_words(Warning::NoAudioDevice) == "Could not open audio device"@,
{
}

} // verus!
