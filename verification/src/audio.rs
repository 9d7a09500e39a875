//! The start of the audio decoder.
//!
//! The task that starts the decoder asks for one command at a time, is told
//! whether it went well, and goes on.
use vstd::prelude::*;

verus! {

/// The volume that the decoder starts with, of 100.
pub const INITIAL_VOLUME: u8 = 80;

/// The chip version that the patches are for.
pub const PATCHED_VERSION: u16 = 4;

/// A command for the audio player.
#[derive(Clone, Copy, Debug, PartialEq, Eq, Structural)]
pub enum AudioCommand {
    Play8BitMusic,
    Stop,
    /// The volume, from 0 to 100.
    SetVolume(u8),
}

/// What the start of the decoder is waiting for.
#[derive(Clone, Copy, Debug, PartialEq, Eq, Structural)]
pub enum AudioStartup {
    Initialising,
    EnablingMp3,
    ReadingVersion,
    LoadingPatches,
    SettingVolume,
    /// The start has ended; the decoder is ready if it could be initialised.
    Finished { ready: bool },
}

/// What the start of the decoder asks for.
#[derive(Clone, Copy, Debug, PartialEq, Eq, Structural)]
pub enum AudioAction {
    Initialise,
    EnableMp3,
    ReadVersion,
    LoadPatches,
    SetVolume(u8),
    Finish,
}

/// What the start of the decoder is told: whether a command went well, or the
/// version of the chip where it could be read.
#[derive(Clone, Copy, Debug, PartialEq, Eq, Structural)]
pub enum AudioEvent {
    Initialised(bool),
    Mp3Enabled(bool),
    Version(Option<u16>),
    PatchesLoaded(bool),
    VolumeSet(bool),
}

impl AudioStartup {
    /// What the start asks for.
    pub open spec fn wanted(self) -> AudioAction {
        match self {
            AudioStartup::Initialising => AudioAction::Initialise,
            AudioStartup::EnablingMp3 => AudioAction::EnableMp3,
            AudioStartup::ReadingVersion => AudioAction::ReadVersion,
            AudioStartup::LoadingPatches => AudioAction::LoadPatches,
            AudioStartup::SettingVolume => AudioAction::SetVolume(INITIAL_VOLUME),
            AudioStartup::Finished { ready } => AudioAction::Finish,
        }
    }

    /// Whether an event answers what the start asks for.
    pub open spec fn awaits(self, event: AudioEvent) -> bool {
        match self {
            AudioStartup::Initialising => event is Initialised,
            AudioStartup::EnablingMp3 => event is Mp3Enabled,
            AudioStartup::ReadingVersion => event is Version,
            AudioStartup::LoadingPatches => event is PatchesLoaded,
            AudioStartup::SettingVolume => event is VolumeSet,
            AudioStartup::Finished { ready } => false,
        }
    }

    /// The start after an event. Only a decoder that cannot be initialised stops
    /// it; whatever else fails is passed over.
    pub open spec fn after(self, event: AudioEvent) -> AudioStartup {
        match event {
            AudioEvent::Initialised(ok) => if ok {
                AudioStartup::EnablingMp3
            } else {
                AudioStartup::Finished { ready: false }
            },
            AudioEvent::Mp3Enabled(ok) => AudioStartup::ReadingVersion,
            AudioEvent::Version(version) => if version == Some(PATCHED_VERSION) {
                AudioStartup::LoadingPatches
            } else {
                AudioStartup::SettingVolume
            },
            AudioEvent::PatchesLoaded(ok) => AudioStartup::SettingVolume,
            AudioEvent::VolumeSet(ok) => AudioStartup::Finished { ready: true },
        }
    }

    /// What the start asks for.
    pub fn request(&self) -> (action: AudioAction)
        ensures
            action == self.wanted(),
    {
        match self {
            AudioStartup::Initialising => AudioAction::Initialise,
            AudioStartup::EnablingMp3 => AudioAction::EnableMp3,
            AudioStartup::ReadingVersion => AudioAction::ReadVersion,
            AudioStartup::LoadingPatches => AudioAction::LoadPatches,
            AudioStartup::SettingVolume => AudioAction::SetVolume(INITIAL_VOLUME),
            AudioStartup::Finished { .. } => AudioAction::Finish,
        }
    }
}

/// Takes in the answer to what the start of the decoder asks for, and returns
/// what it asks for next.
pub fn audio_startup(startup: &mut AudioStartup, event: AudioEvent) -> (action: AudioAction)
    requires
        old(startup).awaits(event),
    ensures
        *final(startup) == old(startup).after(event),
        action == final(startup).wanted(),
{
    *startup = match event {
        AudioEvent::Initialised(ok) => if ok {
            AudioStartup::EnablingMp3
        } else {
            AudioStartup::Finished { ready: false }
        },
        AudioEvent::Mp3Enabled(_) => AudioStartup::ReadingVersion,
        AudioEvent::Version(version) => {
            let version: u16 = match version {
                Some(read) => read,
                None => 0,
            };
            if version == PATCHED_VERSION {
                AudioStartup::LoadingPatches
            } else {
                AudioStartup::SettingVolume
            }
        },
        AudioEvent::PatchesLoaded(_) => AudioStartup::SettingVolume,
        AudioEvent::VolumeSet(_) => AudioStartup::Finished { ready: true },
    };
    startup.request()
}

/// A decoder that is initialised gets its volume set and is ready, whatever else
/// fails, and the patches are loaded exactly for the version that they are for.
pub proof fn law_initialised_decoder_is_ready(
    mp3: bool,
    version: Option<u16>,
    patches: bool,
    volume: bool,
)
    ensures
        ({
            let mode = AudioStartup::Initialising.after(AudioEvent::Initialised(true));
            let reading = mode.after(AudioEvent::Mp3Enabled(mp3));
            let read = reading.after(AudioEvent::Version(version));
            let last = if version == Some(4u16) {
                read.after(AudioEvent::PatchesLoaded(patches))
            } else {
                read
            };
            &&& AudioStartup::Initialising.wanted() is Initialise
            &&& mode.wanted() is EnableMp3
            &&& reading.wanted() is ReadVersion
            &&& read.wanted() is LoadPatches <==> version == Some(4u16)
            &&& last.wanted() == AudioAction::SetVolume(80)
            &&& last.after(AudioEvent::VolumeSet(volume)) == (AudioStartup::Finished {
                ready: true,
            })
            &&& last.after(AudioEvent::VolumeSet(volume)).wanted() is Finish
        }),
{
}

/// A decoder that cannot be initialised is left alone: nothing more is asked of it,
/// and it is not ready.
pub proof fn law_failed_decoder_is_left_alone()
    ensures
        ({
            let end = AudioStartup::Initialising.after(AudioEvent::Initialised(false));
            &&& end.wanted() is Finish
            &&& end == (AudioStartup::Finished { ready: false })
        }),
{
}

/// The start takes in what answers its request, and nothing else.
pub proof fn law_audio_takes_its_answer(startup: AudioStartup, event: AudioEvent)
    ensures
        startup.awaits(event) <==> match startup.wanted() {
            AudioAction::Initialise => event is Initialised,
            AudioAction::EnableMp3 => event is Mp3Enabled,
            AudioAction::ReadVersion => event is Version,
            AudioAction::LoadPatches => event is PatchesLoaded,
            AudioAction::SetVolume(volume) => event is VolumeSet,
            AudioAction::Finish => false,
        },
{
}

} // verus!
