use rtc_calendar::audio::{audio_startup, AudioAction, AudioCommand, AudioEvent, AudioStartup};
use rtc_calendar::led::Level;
use rtc_calendar::vs1053::{ClockPhase, Polarity, Pull, Speed, VS1053Hardware};

/// The end of a start, and whether the patches were loaded.
fn start(ok: bool, version: Option<u16>) -> (AudioStartup, bool) {
    let mut startup = AudioStartup::Initialising;
    assert_eq!(startup.request(), AudioAction::Initialise);
    assert_eq!(audio_startup(&mut startup, AudioEvent::Initialised(true)), AudioAction::EnableMp3);
    assert_eq!(audio_startup(&mut startup, AudioEvent::Mp3Enabled(ok)), AudioAction::ReadVersion);
    let mut action = audio_startup(&mut startup, AudioEvent::Version(version));
    let patched = action == AudioAction::LoadPatches;
    if patched {
        action = audio_startup(&mut startup, AudioEvent::PatchesLoaded(ok));
    }
    assert_eq!(action, AudioAction::SetVolume(80));
    assert_eq!(audio_startup(&mut startup, AudioEvent::VolumeSet(ok)), AudioAction::Finish);
    (startup, patched)
}

#[test]
fn a_decoder_that_is_initialised_gets_ready() {
    let ready = AudioStartup::Finished { ready: true };
    assert_eq!(start(true, Some(4)), (ready, true));
    assert_eq!(start(false, Some(4)), (ready, true));
    assert_eq!(start(true, Some(3)), (ready, false));
    assert_eq!(start(false, None), (ready, false));
}

#[test]
fn a_decoder_that_fails_is_left_alone() {
    let mut startup = AudioStartup::Initialising;
    assert_eq!(audio_startup(&mut startup, AudioEvent::Initialised(false)), AudioAction::Finish);
    assert_eq!(startup, AudioStartup::Finished { ready: false });
}

#[test]
fn commands_carry_their_volume() {
    assert_ne!(AudioCommand::SetVolume(10), AudioCommand::SetVolume(20));
    assert_ne!(AudioCommand::Play8BitMusic, AudioCommand::Stop);
}

#[test]
fn the_decoder_starts_on_a_slow_bus() {
    let hardware = VS1053Hardware::init();
    assert_eq!(hardware.spi.frequency_hz, 250_000);
    assert_eq!(hardware.spi.polarity, Polarity::IdleLow);
    assert_eq!(hardware.spi.phase, ClockPhase::CaptureOnFirstTransition);
    for output in [hardware.cs, hardware.dc, hardware.reset] {
        assert_eq!((output.level, output.speed), (Level::High, Speed::Low));
    }
    assert_eq!(hardware.req, Pull::Up);
}
