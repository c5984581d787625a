//! What the transcription reports.
use vstd::prelude::*;
use vstd::string::*;

use crate::audio::AudioSource;

verus! {

#[derive(Debug, Clone, Copy, PartialEq, Eq, Structural)]
pub enum SttEventKind {
    Partial,
    Final,
}

/// One piece of transcribed speech. The times are seconds on the process's own
/// clock, each as the bits of its double.
#[derive(Debug, Clone)]
pub struct SttEvent {
    pub kind: SttEventKind,
    pub text: String,
    pub source: AudioSource,
    pub start_time: Option<u64>,
    pub end_time: Option<u64>,
}

/// The view of an event.
pub struct SttEventView {
    pub kind: SttEventKind,
    pub text: Seq<char>,
    pub source: AudioSource,
    pub start_time: Option<u64>,
    pub end_time: Option<u64>,
}

impl SttEvent {
    pub open spec fn view(&self) -> SttEventView {
        SttEventView {
            kind: self.kind,
            text: self.text@,
            source: self.source,
            start_time: self.start_time,
            end_time: self.end_time,
        }
    }
}

/// One line of the process that finds the ends of utterances.
#[derive(Debug)]
pub enum SidecarLine {
    Ready,
    Partial { text: String, source: AudioSource },
    Final { text: String, source: AudioSource, start_time: u64, end_time: u64 },
    Error { message: String },
}

/// What the contracts say of a value is said of its fields, each under its own name.
pub proof fn each_field_is_seen_as_it_is(event: SttEvent)
    ensures
        event@.kind == event.kind,
        event@.text == event.text@,
        event@.source == event.source,
        event@.start_time == event.start_time,
        event@.end_time == event.end_time,
{
}

} // verus!
