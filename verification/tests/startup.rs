use rboy_desktop::startup::{
    DeviceKind, Options, Startup, StartupAction, StartupEvent, Warning, EXITCODE_CPULOADFAILS,
    EXITCODE_SUCCESS,
};

const PLAIN: Options = Options {
    serial: false,
    printer: false,
    classic: false,
    audio: false,
    skip_checksum: false,
};

fn answer(startup: &mut Startup, event: StartupEvent) {
    assert!(startup.accepts(&event));
    startup.step(event);
}

#[test]
fn plain_start() {
    let mut startup = Startup::new(PLAIN);
    assert!(matches!(
        startup.action(),
        StartupAction::Load { kind: DeviceKind::Color, skip_checksum: false }
    ));
    answer(&mut startup, StartupEvent::Loaded);
    assert!(matches!(startup.action(), StartupAction::SetStdout(false)));
    answer(&mut startup, StartupEvent::SerialConnected);
    assert!(matches!(startup.action(), StartupAction::Run));
    answer(&mut startup, StartupEvent::Finished);
    assert!(matches!(startup.action(), StartupAction::Exit(0)));
    assert_eq!(EXITCODE_SUCCESS, 0);
}

#[test]
fn classic_without_checksum() {
    let startup = Startup::new(Options { classic: true, skip_checksum: true, ..PLAIN });
    assert!(matches!(
        startup.action(),
        StartupAction::Load { kind: DeviceKind::Classic, skip_checksum: true }
    ));
}

#[test]
fn serial_port_is_printed() {
    let mut startup = Startup::new(Options { serial: true, ..PLAIN });
    answer(&mut startup, StartupEvent::Loaded);
    assert!(matches!(startup.action(), StartupAction::SetStdout(true)));
}

#[test]
fn printer_goes_before_serial() {
    let mut startup = Startup::new(Options { serial: true, printer: true, ..PLAIN });
    answer(&mut startup, StartupEvent::Loaded);
    assert!(matches!(startup.action(), StartupAction::AttachPrinter));
    answer(&mut startup, StartupEvent::SerialConnected);
    assert!(matches!(startup.action(), StartupAction::Run));
}

#[test]
fn load_fails() {
    let mut startup = Startup::new(PLAIN);
    answer(&mut startup, StartupEvent::LoadFailed("Invalid checksum".to_owned()));
    match startup.action() {
        StartupAction::Warn(warning) => assert_eq!(warning.message(), "Invalid checksum"),
        _ => panic!(),
    }
    answer(&mut startup, StartupEvent::Warned);
    assert!(matches!(startup.action(), StartupAction::Exit(2)));
    assert_eq!(EXITCODE_CPULOADFAILS, 2);
}

#[test]
fn audio_opens() {
    let mut startup = Startup::new(Options { audio: true, ..PLAIN });
    answer(&mut startup, StartupEvent::Loaded);
    answer(&mut startup, StartupEvent::SerialConnected);
    assert!(matches!(startup.action(), StartupAction::OpenAudio));
    answer(&mut startup, StartupEvent::AudioOpened);
    assert!(matches!(startup.action(), StartupAction::Run));
}

#[test]
fn audio_fails() {
    let mut startup = Startup::new(Options { audio: true, ..PLAIN });
    answer(&mut startup, StartupEvent::Loaded);
    answer(&mut startup, StartupEvent::SerialConnected);
    answer(&mut startup, StartupEvent::AudioMissing);
    assert!(matches!(startup.action(), StartupAction::Warn(Warning::NoAudioDevice)));
    assert_eq!(Warning::NoAudioDevice.message(), "Could not open audio device");
    answer(&mut startup, StartupEvent::Warned);
    assert!(matches!(startup.action(), StartupAction::Exit(2)));
}

#[test]
fn startup_takes_answers_only() {
    let startup = Startup::new(PLAIN);
    assert!(!startup.accepts(&StartupEvent::Finished));
    assert!(!startup.accepts(&StartupEvent::AudioOpened));
    assert!(startup.accepts(&StartupEvent::LoadFailed(String::new())));
}
