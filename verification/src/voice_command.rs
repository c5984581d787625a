//! Listening to the user: what becomes of each piece of sound from the
//! microphone while the assistant may be speaking itself.
//!
//! There is no echo cancellation: what the microphone hears while the assistant
//! speaks is withheld from the recogniser, unless it is loud for long enough to
//! be the user talking over the assistant.
use vstd::prelude::*;
use vstd::string::*;

use crate::json::opt_view;
use crate::state::{MicMuteSignal, MuteFlags};
use crate::text::{millis_setting, setting_or};

verus! {

/// How long the user has to be loud to interrupt the assistant, in nanoseconds.
pub const BARGE_IN_SUSTAIN_NS: u128 = 180_000_000;

/// How long the microphone stays withheld after the assistant has spoken, if no
/// other time is set, in milliseconds.
pub const DEFAULT_SETTLE_MS: u64 = 150;

/// How much sound makes an utterance, if no other time is set, in milliseconds.
pub const DEFAULT_MIN_FLUSH_MS: u64 = 350;

/// A time that is set in milliseconds, in nanoseconds.
pub open spec fn time_set(value: Option<Seq<char>>, default: u64) -> int {
    setting_or(value, default) * 1_000_000
}

fn nanos(ms: u64) -> (r: u128)
    ensures
        r == ms * 1_000_000,
{
    (ms as u128) * 1_000_000
}

/// How long the microphone stays withheld after the assistant has spoken, in
/// nanoseconds.
pub fn tts_settle_duration(setting: &Option<String>) -> (r: u128)
    ensures
        r == time_set(opt_view(*setting), DEFAULT_SETTLE_MS),
{
    nanos(millis_setting(setting, DEFAULT_SETTLE_MS))
}

/// How much sound makes an utterance, in nanoseconds.
pub fn min_flush_worthy_audio(setting: &Option<String>) -> (r: u128)
    ensures
        r == time_set(opt_view(*setting), DEFAULT_MIN_FLUSH_MS),
{
    nanos(millis_setting(setting, DEFAULT_MIN_FLUSH_MS))
}

/// A piece of sound, and how things stand when it comes. Times are in
/// nanoseconds.
#[derive(Debug, Clone, Copy, PartialEq, Eq, Structural)]
pub struct MicChunk {
    /// The user has muted the microphone.
    pub user_muted: bool,
    /// The assistant is speaking.
    pub speaking: bool,
    /// The piece is loud enough to be the user talking over the assistant.
    pub loud: bool,
    pub now: u128,
    /// How much sound the recogniser holds of an utterance that has not ended.
    pub pending: u128,
}

/// What becomes of a piece of sound.
#[derive(Debug, Clone, Copy, PartialEq, Eq, Structural)]
pub struct MicDecision {
    /// The recogniser is told that the utterance it holds has ended.
    pub flush: bool,
    /// The recogniser forgets what it holds.
    pub discard: bool,
    /// The assistant is interrupted: it falls silent, and its turn is
    /// cancelled.
    pub interrupt: bool,
    /// It is shown that the assistant speaks, or that it no longer does.
    pub speaking_changed: Option<bool>,
    /// The piece goes to the recogniser.
    pub send: bool,
}

/// Nothing becomes of a piece of sound.
pub open spec fn withheld() -> MicDecision {
    MicDecision {
        flush: false,
        discard: false,
        interrupt: false,
        speaking_changed: None,
        send: false,
    }
}

/// How long ago a time was.
pub open spec fn since(start: u128, now: u128) -> int {
    if now < start {
        0
    } else {
        now - start
    }
}

fn elapsed(start: u128, now: u128) -> (r: u128)
    ensures
        r == since(start, now),
{
    if now < start {
        0
    } else {
        now - start
    }
}

/// How the microphone is listened to.
#[derive(Debug, Clone, Copy, PartialEq, Eq, Structural)]
pub struct MicPump {
    /// The microphone is withheld because the assistant speaks, or has just
    /// spoken.
    pub was_muted: bool,
    /// Since when the user has been loud over the assistant.
    pub loud_since: Option<u128>,
    /// The user had muted the microphone when the last piece came.
    pub was_user_muted: bool,
    /// Since when the assistant has been silent, while the microphone is still
    /// withheld.
    pub settling_since: Option<u128>,
    pub settle: u128,
    pub min_flush: u128,
}

impl MicPump {
    /// While the user has muted the microphone nothing is listened to. What was
    /// heard before is an utterance.
    pub open spec fn user_muted(self) -> (MicPump, MicDecision) {
        if self.was_user_muted {
            (self, withheld())
        } else {
            (
                MicPump { was_user_muted: true, loud_since: None, ..self },
                MicDecision { flush: true, ..withheld() },
            )
        }
    }

    /// The assistant has begun to speak. What was heard before is an utterance
    /// if there is enough of it, and else nothing.
    pub open spec fn entered(self, pending: u128) -> (MicPump, MicDecision) {
        (
            MicPump { was_muted: true, loud_since: None, settling_since: None, ..self },
            MicDecision {
                flush: pending >= self.min_flush,
                discard: pending < self.min_flush && pending > 0,
                speaking_changed: Some(true),
                ..withheld()
            },
        )
    }

    /// The assistant speaks, and the piece is loud. If the user has been loud
    /// for long enough, the assistant is interrupted, and the piece is the
    /// user's.
    pub open spec fn loud(self, now: u128, so_far: MicDecision) -> (MicPump, MicDecision) {
        let start = match self.loud_since {
            Some(t) => t,
            None => now,
        };
        if since(start, now) >= BARGE_IN_SUSTAIN_NS {
            (
                MicPump { was_muted: false, loud_since: None, ..self },
                MicDecision {
                    interrupt: true,
                    speaking_changed: Some(false),
                    send: true,
                    ..so_far
                },
            )
        } else {
            (MicPump { loud_since: Some(start), ..self }, so_far)
        }
    }

    /// The assistant speaks.
    pub open spec fn over_speech(self, chunk: MicChunk) -> (MicPump, MicDecision) {
        let (pump, so_far) = if self.was_muted {
            (MicPump { settling_since: None, ..self }, withheld())
        } else {
            self.entered(chunk.pending)
        };
        if chunk.loud {
            pump.loud(chunk.now, so_far)
        } else {
            (MicPump { loud_since: None, ..pump }, so_far)
        }
    }

    /// The assistant has spoken: the microphone stays withheld until its voice
    /// has died away.
    pub open spec fn after_speech(self, now: u128) -> (MicPump, MicDecision) {
        let start = match self.settling_since {
            Some(t) => t,
            None => now,
        };
        if since(start, now) < self.settle {
            (MicPump { settling_since: Some(start), ..self }, withheld())
        } else {
            (
                MicPump { was_muted: false, settling_since: None, loud_since: None, ..self },
                MicDecision { speaking_changed: Some(false), send: true, ..withheld() },
            )
        }
    }

    /// What becomes of a piece of sound.
    pub open spec fn next(self, chunk: MicChunk) -> (MicPump, MicDecision) {
        if chunk.user_muted {
            self.user_muted()
        } else {
            let pump = MicPump { was_user_muted: false, ..self };
            if chunk.speaking {
                pump.over_speech(chunk)
            } else if pump.was_muted {
                pump.after_speech(chunk.now)
            } else {
                (pump, MicDecision { send: true, ..withheld() })
            }
        }
    }

    /// Begins to listen.
    pub fn new(settle: u128, min_flush: u128) -> (r: MicPump)
        ensures
            r == (MicPump {
                was_muted: false,
                loud_since: None,
                was_user_muted: false,
                settling_since: None,
                settle,
                min_flush,
            }),
    {
        MicPump {
            was_muted: false,
            loud_since: None,
            was_user_muted: false,
            settling_since: None,
            settle,
            min_flush,
        }
    }

    /// Decides what becomes of a piece of sound.
    pub fn take(&mut self, chunk: MicChunk) -> (r: MicDecision)
        ensures
            (*final(self), r) == old(self).next(chunk),
    {
        let mut decision = MicDecision {
            flush: false,
            discard: false,
            interrupt: false,
            speaking_changed: None,
            send: false,
        };
        if chunk.user_muted {
            if !self.was_user_muted {
                decision.flush = true;
                self.was_user_muted = true;
                self.loud_since = None;
            }
            return decision;
        }
        self.was_user_muted = false;
        if chunk.speaking {
            self.settling_since = None;
            if !self.was_muted {
                if chunk.pending >= self.min_flush {
                    decision.flush = true;
                } else if chunk.pending > 0 {
                    decision.discard = true;
                }
                self.was_muted = true;
                self.loud_since = None;
                decision.speaking_changed = Some(true);
            }
            if chunk.loud {
                let start: u128 = match self.loud_since {
                    Some(t) => t,
                    None => chunk.now,
                };
                if elapsed(start, chunk.now) >= BARGE_IN_SUSTAIN_NS {
                    self.loud_since = None;
                    self.was_muted = false;
                    decision.interrupt = true;
                    decision.speaking_changed = Some(false);
                    decision.send = true;
                } else {
                    self.loud_since = Some(start);
                }
            } else {
                self.loud_since = None;
            }
            return decision;
        }
        if self.was_muted {
            let start: u128 = match self.settling_since {
                Some(t) => t,
                None => chunk.now,
            };
            if elapsed(start, chunk.now) < self.settle {
                self.settling_since = Some(start);
                return decision;
            }
            self.was_muted = false;
            self.settling_since = None;
            self.loud_since = None;
            decision.speaking_changed = Some(false);
        }
        decision.send = true;
        decision
    }
}

/// The pump after some pieces of sound.
pub open spec fn pump_after(start: MicPump, chunks: Seq<MicChunk>) -> MicPump
    decreases chunks.len(),
{
    if chunks.len() == 0 {
        start
    } else {
        pump_after(start, chunks.drop_last()).next(chunks.last()).0
    }
}

/// While the user has muted the microphone nothing is sent and nobody is
/// interrupted, however loud it is; and what was heard before is taken for an
/// utterance once.
pub proof fn a_muted_microphone_is_not_heard(pump: MicPump, chunk: MicChunk, next: MicChunk)
    requires
        chunk.user_muted,
        next.user_muted,
    ensures
        !pump.next(chunk).1.send,
        !pump.next(chunk).1.interrupt,
        pump.next(chunk).0.next(next).1 == withheld(),
{
}

/// While the assistant speaks, a piece is sent only if the user has been loud
/// for long enough, and then the assistant is interrupted.
pub proof fn the_assistant_does_not_hear_itself(pump: MicPump, chunk: MicChunk)
    requires
        chunk.speaking,
    ensures
        ({
            let decision = pump.next(chunk).1;
            &&& decision.send == decision.interrupt
            &&& decision.interrupt ==> {
                &&& chunk.loud
                &&& pump.was_muted
                &&& pump.loud_since matches Some(t) && since(t, chunk.now) >= BARGE_IN_SUSTAIN_NS
            }
        }),
{
}

/// Every one of some pieces of sound is loud.
pub open spec fn all_loud(chunks: Seq<MicChunk>) -> bool {
    forall|i: int| 0 <= i < chunks.len() ==> (#[trigger] chunks[i]).loud
}

/// As long as the assistant speaks without a pause, the time since which the
/// user has been loud is that of a piece from which on every piece was loud:
/// one that was not makes the user start anew.
pub proof fn loudness_is_sustained(start: MicPump, chunks: Seq<MicChunk>)
    requires
        start.loud_since is None,
        forall|i: int|
            0 <= i < chunks.len() ==> (#[trigger] chunks[i]).speaking && !chunks[i].user_muted,
    ensures
        pump_after(start, chunks).loud_since matches Some(t) ==> exists|k: int|
            #![trigger chunks.skip(k)]
            0 <= k < chunks.len() && chunks[k].now == t && all_loud(chunks.skip(k)),
    decreases chunks.len(),
{
    if chunks.len() > 0 {
        let before = chunks.drop_last();
        assert forall|i: int| 0 <= i < before.len() implies (#[trigger] before[i]).speaking
            && !before[i].user_muted by {
            assert(before[i] == chunks[i]);
        }
        loudness_is_sustained(start, before);
        let last = chunks.last();
        assert(last == chunks[chunks.len() - 1]);
        let pump = pump_after(start, before);
        match pump.next(last).0.loud_since {
            Some(t) => {
                if pump.was_muted && pump.loud_since is Some {
                    let k = choose|k: int|
                        #![trigger before.skip(k)]
                        0 <= k < before.len() && before[k].now == t && all_loud(before.skip(k));
                    let row = chunks.skip(k);
                    assert forall|i: int| 0 <= i < row.len() implies (#[trigger] row[i]).loud by {
                        if i < row.len() - 1 {
                            assert(row[i] == before.skip(k)[i]);
                        }
                    }
                    assert(chunks[k].now == t);
                } else {
                    let k = chunks.len() - 1;
                    assert(chunks.skip(k) =~= seq![last]);
                    assert(all_loud(chunks.skip(k)));
                    assert(chunks[k].now == t);
                }
            },
            None => {},
        }
    }
}

/// After the assistant has spoken the microphone is withheld until its voice
/// has died away, and what it hears from then on is sent.
pub proof fn the_voice_dies_away_first(pump: MicPump, chunk: MicChunk)
    requires
        pump.was_muted,
        !chunk.speaking,
        !chunk.user_muted,
    ensures
        ({
            let start = match pump.settling_since {
                Some(t) => t,
                None => chunk.now,
            };
            pump.next(chunk).1.send <==> since(start, chunk.now) >= pump.settle
        }),
{
}

/// The session of listening to the user: there is one at a time.
#[derive(Debug)]
pub struct MicAssistantSession {
    running: bool,
}

impl MicAssistantSession {
    /// The session runs.
    pub closed spec fn running(&self) -> bool {
        self.running
    }

    /// Whether a session can be started.
    pub fn check_start(&self) -> (r: Result<(), String>)
        ensures
            if self.running() {
                r matches Err(e) && e@ == "mic assistant already running"@
            } else {
                r is Ok
            },
    {
        if self.running {
            Err("mic assistant already running".to_owned())
        } else {
            Ok(())
        }
    }

    /// The session has been started.
    pub fn started(&mut self)
        ensures
            final(self).running(),
    {
        self.running = true;
    }

    /// Stops the session. The next one begins with the microphone not muted.
    pub fn stop(&mut self, mute: MicMuteSignal, flags: &mut MuteFlags) -> (r: Result<(), String>)
        requires
            mute@ < old(flags)@.len(),
        ensures
            !final(self).running(),
            if old(self).running() {
                r is Ok && final(flags)@ == old(flags)@.update(mute@ as int, false)
            } else {
                r matches Err(e) && e@ == "mic assistant is not running"@ && final(flags)@
                    == old(flags)@
            },
    {
        if !self.running {
            return Err("mic assistant is not running".to_owned());
        }
        self.running = false;
        mute.set_muted(flags, false);
        Ok(())
    }
}

impl Default for MicAssistantSession {
    fn default() -> (r: MicAssistantSession)
        ensures
            !r.running(),
    {
        MicAssistantSession { running: false }
    }
}

/// Loudness that lasts interrupts the assistant: a loud piece while it speaks,
/// when the user has been loud for long enough, interrupts it, is heard, and is
/// shown as the end of its speaking; one that comes before is only counted.
pub proof fn lasting_loudness_interrupts(pump: MicPump, chunk: MicChunk, start: u128)
    requires
        !chunk.user_muted,
        chunk.speaking,
        chunk.loud,
        pump.was_muted,
        pump.loud_since == Some(start),
        start <= chunk.now,
    ensures
        ({
            let (after, decision) = pump.next(chunk);
            &&& decision.interrupt <==> chunk.now - start >= BARGE_IN_SUSTAIN_NS
            &&& decision.interrupt ==> decision.send && decision.speaking_changed == Some(false)
                && !after.was_muted && after.loud_since is None
            &&& !decision.interrupt ==> after.loud_since == Some(start)
                && decision.speaking_changed is None && after.was_muted
            &&& !decision.flush && !decision.discard
        }),
{
}

/// The first loud piece starts the count, and a quiet one while the assistant
/// speaks ends it.
pub proof fn a_quiet_piece_ends_the_count(pump: MicPump, chunk: MicChunk)
    requires
        !chunk.user_muted,
        chunk.speaking,
        pump.was_muted,
    ensures
        !chunk.loud ==> pump.next(chunk).0.loud_since is None,
        chunk.loud && pump.loud_since is None ==> pump.next(chunk).0.loud_since == Some(chunk.now),
{
}

/// When the assistant begins to speak, what was heard before is not lost where it
/// is enough to be an utterance, and is forgotten where it is not; it is shown
/// once that the assistant speaks, and nothing is heard meanwhile.
pub proof fn speech_before_the_assistant_is_kept(pump: MicPump, chunk: MicChunk, next: MicChunk)
    requires
        !chunk.user_muted && !next.user_muted,
        chunk.speaking && next.speaking,
        !chunk.loud && !next.loud,
        !pump.was_muted,
    ensures
        ({
            let (after, decision) = pump.next(chunk);
            &&& decision.flush <==> chunk.pending >= pump.min_flush
            &&& decision.discard <==> 0 < chunk.pending < pump.min_flush
            &&& decision.speaking_changed == Some(true)
            &&& !decision.send && !decision.interrupt
            &&& after.was_muted
            &&& after.next(next).1 == (MicDecision {
                flush: false,
                discard: false,
                interrupt: false,
                speaking_changed: None,
                send: false,
            })
        }),
{
}

/// With nobody muted and nobody speaking everything is heard, and nothing else is
/// done.
pub proof fn the_user_is_heard(pump: MicPump, chunk: MicChunk)
    requires
        !chunk.user_muted,
        !chunk.speaking,
        !pump.was_muted,
    ensures
        ({
            let (after, decision) = pump.next(chunk);
            &&& decision.send
            &&& !decision.flush && !decision.discard && !decision.interrupt
            &&& decision.speaking_changed is None
            &&& !after.was_muted && !after.was_user_muted
        }),
{
}

/// Muting ends the utterance once, and the microphone that is no longer muted is
/// heard at once where the assistant is silent.
pub proof fn muting_ends_the_utterance_once(
    pump: MicPump,
    muted: MicChunk,
    again: MicChunk,
    free: MicChunk,
)
    requires
        muted.user_muted && again.user_muted && !free.user_muted && !free.speaking,
        !pump.was_user_muted && !pump.was_muted,
    ensures
        ({
            let first = pump.next(muted);
            let second = first.0.next(again);
            &&& first.1.flush && !first.1.send && !first.1.discard
            &&& !second.1.flush && !second.1.send
            &&& second.0.next(free).1.send
        }),
{
}

/// When the assistant has fallen silent and its voice has died away, it is shown
/// once that it no longer speaks, and the user is heard from then on.
pub proof fn silence_is_shown_once(pump: MicPump, chunk: MicChunk, next: MicChunk)
    requires
        pump.was_muted,
        !chunk.user_muted && !next.user_muted,
        !chunk.speaking && !next.speaking,
        pump.next(chunk).1.send,
    ensures
        pump.next(chunk).1.speaking_changed == Some(false),
        pump.next(chunk).0.next(next).1.speaking_changed is None,
        pump.next(chunk).0.next(next).1.send,
        !pump.next(chunk).1.interrupt && !pump.next(chunk).1.flush && !pump.next(chunk).1.discard,
{
}

} // verus!
