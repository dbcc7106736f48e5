//! The audio element of a toast.

use vstd::prelude::*;

verus! {

/// The looping sounds available to a toast.
///
/// A looping sound repeats until the toast is dismissed.
#[derive(Debug, Clone, Copy, PartialEq, Eq)]
#[allow(missing_docs)]
pub enum LoopingSound {
    Alarm,
    Alarm2,
    Alarm3,
    Alarm4,
    Alarm5,
    Alarm6,
    Alarm7,
    Alarm8,
    Alarm9,
    Alarm10,
    Call,
    Call2,
    Call3,
    Call4,
    Call5,
    Call6,
    Call7,
    Call8,
    Call9,
    Call10,
}

/// The name of a looping sound, as it appears in the serialized `src` attribute.
pub open spec fn spec_looping_sound_str(s: LoopingSound) -> Seq<char> {
    match s {
        LoopingSound::Alarm => "Alarm"@,
        LoopingSound::Alarm2 => "Alarm2"@,
        LoopingSound::Alarm3 => "Alarm3"@,
        LoopingSound::Alarm4 => "Alarm4"@,
        LoopingSound::Alarm5 => "Alarm5"@,
        LoopingSound::Alarm6 => "Alarm6"@,
        LoopingSound::Alarm7 => "Alarm7"@,
        LoopingSound::Alarm8 => "Alarm8"@,
        LoopingSound::Alarm9 => "Alarm9"@,
        LoopingSound::Alarm10 => "Alarm10"@,
        LoopingSound::Call => "Call"@,
        LoopingSound::Call2 => "Call2"@,
        LoopingSound::Call3 => "Call3"@,
        LoopingSound::Call4 => "Call4"@,
        LoopingSound::Call5 => "Call5"@,
        LoopingSound::Call6 => "Call6"@,
        LoopingSound::Call7 => "Call7"@,
        LoopingSound::Call8 => "Call8"@,
        LoopingSound::Call9 => "Call9"@,
        LoopingSound::Call10 => "Call10"@,
    }
}

impl LoopingSound {
    /// The name of the sound, as it appears in the serialized `src` attribute.
    pub fn as_str(&self) -> (r: &'static str)
        ensures
            r@ == spec_looping_sound_str(*self),
    {
        match self {
            LoopingSound::Alarm => "Alarm",
            LoopingSound::Alarm2 => "Alarm2",
            LoopingSound::Alarm3 => "Alarm3",
            LoopingSound::Alarm4 => "Alarm4",
            LoopingSound::Alarm5 => "Alarm5",
            LoopingSound::Alarm6 => "Alarm6",
            LoopingSound::Alarm7 => "Alarm7",
            LoopingSound::Alarm8 => "Alarm8",
            LoopingSound::Alarm9 => "Alarm9",
            LoopingSound::Alarm10 => "Alarm10",
            LoopingSound::Call => "Call",
            LoopingSound::Call2 => "Call2",
            LoopingSound::Call3 => "Call3",
            LoopingSound::Call4 => "Call4",
            LoopingSound::Call5 => "Call5",
            LoopingSound::Call6 => "Call6",
            LoopingSound::Call7 => "Call7",
            LoopingSound::Call8 => "Call8",
            LoopingSound::Call9 => "Call9",
            LoopingSound::Call10 => "Call10",
        }
    }
}

/// The sounds available to a toast.
#[derive(Debug, Clone, Copy, PartialEq, Eq)]
pub enum Sound {
    /// The default system sound.
    Default,
    /// A sound typically used for instant messages.
    IM,
    /// A sound typically used for incoming mail.
    Mail,
    /// A sound typically used for reminders.
    Reminder,
    /// A sound typically used for incoming SMS messages.
    SMS,
    /// A looping sound. See [`LoopingSound`] for the available sounds.
    Looping(LoopingSound),
    /// No sound. Serializing this forces the `silent` attribute to `"true"`.
    NoSound,
}

/// The name of a sound, as it appears in the serialized `src` attribute.
///
/// [`Sound::NoSound`] has no name: no `src` attribute is emitted for it.
pub open spec fn spec_sound_str(s: Sound) -> Seq<char> {
    match s {
        Sound::Default => "Default"@,
        Sound::IM => "IM"@,
        Sound::Mail => "Mail"@,
        Sound::Reminder => "Reminder"@,
        Sound::SMS => "SMS"@,
        Sound::Looping(l) => spec_looping_sound_str(l),
        Sound::NoSound => ""@,
    }
}

impl Sound {
    /// The name of the sound, as it appears in the serialized `src` attribute.
    pub fn as_str(&self) -> (r: &'static str)
        ensures
            r@ == spec_sound_str(*self),
    {
        match self {
            Sound::Default => "Default",
            Sound::IM => "IM",
            Sound::Mail => "Mail",
            Sound::Reminder => "Reminder",
            Sound::SMS => "SMS",
            Sound::Looping(l) => l.as_str(),
            Sound::NoSound => "",
        }
    }
}

/// The audio element of a toast.
#[derive(Debug, Clone, Copy, PartialEq, Eq)]
pub struct Audio {
    /// The sound played when the toast is shown.
    pub src: Sound,
    /// Whether the sound repeats for as long as the toast is shown.
    pub looping: bool,
    /// Whether the sound is muted. Forced when the source is [`Sound::NoSound`].
    pub silent: bool,
}

impl Audio {
    /// Create a new audio element that plays `src` once, not silenced.
    pub fn new(src: Sound) -> (r: Audio)
        ensures
            r == (Audio { src, looping: false, silent: false }),
    {
        Audio { src, looping: false, silent: false }
    }

    /// Set the audio to loop.
    pub fn with_looping(self) -> (r: Audio)
        ensures
            r == (Audio { looping: true, ..self }),
    {
        Audio { looping: true, ..self }
    }

    /// Set the audio to be silent.
    pub fn with_silent(self) -> (r: Audio)
        ensures
            r == (Audio { silent: true, ..self }),
    {
        Audio { silent: true, ..self }
    }
}

} // verus!
