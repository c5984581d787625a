//! Where audio comes from.
use vstd::prelude::*;

verus! {

/// Samples per second of the audio that is transcribed.
pub const TARGET_SAMPLE_RATE: u32 = 16_000;

/// Where audio comes from: what the machine plays, or the microphone.
#[derive(Debug, Clone, Copy, PartialEq, Eq, Structural)]
pub enum AudioSource {
    SystemAudio,
    Microphone,
}

/// The name of a source in messages to other processes.
pub open spec fn source_name(source: AudioSource) -> Seq<char> {
    match source {
        AudioSource::SystemAudio => "SYSTEM_AUDIO"@,
        AudioSource::Microphone => "MICROPHONE"@,
    }
}

impl AudioSource {
    /// The name of the source in messages to other processes.
    pub fn wire_name(self) -> (r: &'static str)
        ensures
            r@ == source_name(self),
    {
        match self {
            AudioSource::SystemAudio => "SYSTEM_AUDIO",
            AudioSource::Microphone => "MICROPHONE",
        }
    }
}

} // verus!
