//! The speaking session across turns, and the signal that mutes the
//! microphone while the assistant is audible.
use vstd::prelude::*;
use vstd::string::*;

use crate::tts::player::{PlaybackHandle, PlayerCommand};

verus! {

/// What a signal says of the assistant's own voice: whether an answer's session
/// is open, and whether the sink still has something to play.
#[derive(Debug, Clone, Copy)]
pub struct SpeakingState {
    pub session_open: bool,
    pub sink_active: bool,
}

impl SpeakingState {
    /// The assistant is audible, or may be at any moment.
    pub open spec fn speaking(self) -> bool {
        self.session_open || self.sink_active
    }

    /// Neither condition holds.
    pub open spec fn silent() -> SpeakingState {
        SpeakingState { session_open: false, sink_active: false }
    }
}

/// What all speaking signals say. It is kept in one place, so that everyone who
/// holds a signal sees the same.
#[derive(Debug)]
pub struct SpeakingFlags {
    states: Vec<SpeakingState>,
}

impl SpeakingFlags {
    /// What each of the signals says, in the order in which they were made.
    pub closed spec fn view(&self) -> Seq<SpeakingState> {
        self.states@
    }
}

impl Default for SpeakingFlags {
    fn default() -> (r: SpeakingFlags)
        ensures
            r@ == Seq::<SpeakingState>::empty(),
    {
        SpeakingFlags { states: Vec::new() }
    }
}

/// The flags with the open-session condition of a signal changed.
pub open spec fn with_open(flags: Seq<SpeakingState>, signal: nat, open: bool) -> Seq<
    SpeakingState,
> {
    flags.update(signal as int, SpeakingState { session_open: open, ..flags[signal as int] })
}

/// The flags with the active-sink condition of a signal changed.
pub open spec fn with_active(flags: Seq<SpeakingState>, signal: nat, active: bool) -> Seq<
    SpeakingState,
> {
    flags.update(signal as int, SpeakingState { sink_active: active, ..flags[signal as int] })
}

/// The flags with both conditions of a signal clear.
pub open spec fn cleared(flags: Seq<SpeakingState>, signal: nat) -> Seq<SpeakingState> {
    flags.update(signal as int, SpeakingState::silent())
}

/// Whether the assistant's own voice is coming out of the speakers: the name of
/// the conditions that say so. A copy names the same conditions, so that the
/// microphone hears of what the speaking session does.
#[derive(Debug, Clone, Copy)]
pub struct TtsSpeakingSignal {
    place: usize,
}

impl TtsSpeakingSignal {
    /// The place of the conditions.
    pub closed spec fn view(&self) -> nat {
        self.place as nat
    }

    /// A signal with conditions of its own, both clear.
    pub fn new(flags: &mut SpeakingFlags) -> (r: TtsSpeakingSignal)
        ensures
            final(flags)@ == old(flags)@.push(SpeakingState::silent()),
            r@ == old(flags)@.len(),
    {
        let place: usize = flags.states.len();
        flags.states.push(SpeakingState { session_open: false, sink_active: false });
        TtsSpeakingSignal { place }
    }

    pub fn set_session_open(&self, flags: &mut SpeakingFlags, open: bool)
        requires
            self@ < old(flags)@.len(),
        ensures
            final(flags)@ == with_open(old(flags)@, self@, open),
    {
        let state: SpeakingState = flags.states[self.place];
        flags.states.set(self.place, SpeakingState { session_open: open, ..state });
    }

    pub fn set_sink_active(&self, flags: &mut SpeakingFlags, active: bool)
        requires
            self@ < old(flags)@.len(),
        ensures
            final(flags)@ == with_active(old(flags)@, self@, active),
    {
        let state: SpeakingState = flags.states[self.place];
        flags.states.set(self.place, SpeakingState { sink_active: active, ..state });
    }

    /// Whether the microphone is to be kept from the transcription.
    pub fn is_speaking(&self, flags: &SpeakingFlags) -> (r: bool)
        requires
            self@ < flags@.len(),
        ensures
            r == flags@[self@ as int].speaking(),
    {
        let state: SpeakingState = flags.states[self.place];
        state.session_open || state.sink_active
    }

    /// Clears both conditions at once.
    pub fn force_clear(&self, flags: &mut SpeakingFlags)
        requires
            self@ < old(flags)@.len(),
        ensures
            final(flags)@ == cleared(old(flags)@, self@),
    {
        flags.states.set(self.place, SpeakingState { session_open: false, sink_active: false });
    }
}

/// A signal is silent exactly when the session is closed and the sink is idle;
/// forcing it clear makes it silent whatever it was.
pub proof fn silent_when_both_conditions_are_clear(flags: Seq<SpeakingState>, signal: nat)
    requires
        signal < flags.len(),
    ensures
        ({
            let state = flags[signal as int];
            &&& !state.speaking() <==> !state.session_open && !state.sink_active
            &&& state.session_open ==> with_active(flags, signal, false)[signal as int].speaking()
            &&& state.sink_active ==> with_open(flags, signal, false)[signal as int].speaking()
            &&& !cleared(flags, signal)[signal as int].speaking()
        }),
{
}

/// A call that concerns speaking signals; the signals are given by the places
/// of their conditions.
pub enum SignalCall {
    New,
    SetSessionOpen(nat, bool),
    SetSinkActive(nat, bool),
    ForceClear(nat),
}

/// The signal that a call changes, where it changes one.
pub open spec fn changed_signal(call: SignalCall) -> Option<nat> {
    match call {
        SignalCall::New => None,
        SignalCall::SetSessionOpen(signal, _) => Some(signal),
        SignalCall::SetSinkActive(signal, _) => Some(signal),
        SignalCall::ForceClear(signal) => Some(signal),
    }
}

/// The flags after a call on a signal that there is.
pub open spec fn after_signal_call(flags: Seq<SpeakingState>, call: SignalCall) -> Seq<
    SpeakingState,
> {
    match call {
        SignalCall::New => flags.push(SpeakingState::silent()),
        SignalCall::SetSessionOpen(signal, open) => with_open(flags, signal, open),
        SignalCall::SetSinkActive(signal, active) => with_active(flags, signal, active),
        SignalCall::ForceClear(signal) => cleared(flags, signal),
    }
}

/// The flags after several calls. Nothing can be called on a signal that there
/// is not.
pub open spec fn after_signal_calls(flags: Seq<SpeakingState>, calls: Seq<SignalCall>) -> Seq<
    SpeakingState,
>
    decreases calls.len(),
{
    if calls.len() == 0 {
        flags
    } else {
        let before = after_signal_calls(flags, calls.drop_last());
        match changed_signal(calls.last()) {
            Some(signal) if signal >= before.len() => before,
            _ => after_signal_call(before, calls.last()),
        }
    }
}

/// The value last given to the open-session condition of a signal.
pub open spec fn last_open(first: bool, signal: nat, calls: Seq<SignalCall>) -> bool
    decreases calls.len(),
{
    if calls.len() == 0 {
        first
    } else {
        match calls.last() {
            SignalCall::SetSessionOpen(s, open) if s == signal => open,
            SignalCall::ForceClear(s) if s == signal => false,
            _ => last_open(first, signal, calls.drop_last()),
        }
    }
}

/// The value last given to the active-sink condition of a signal.
pub open spec fn last_active(first: bool, signal: nat, calls: Seq<SignalCall>) -> bool
    decreases calls.len(),
{
    if calls.len() == 0 {
        first
    } else {
        match calls.last() {
            SignalCall::SetSinkActive(s, active) if s == signal => active,
            SignalCall::ForceClear(s) if s == signal => false,
            _ => last_active(first, signal, calls.drop_last()),
        }
    }
}

/// A signal speaks exactly when one of the two values last given is true,
/// whoever gave them, by the signal or by a copy of it; what was called on
/// other signals does not matter.
pub proof fn the_values_last_given_count(
    flags: Seq<SpeakingState>,
    signal: TtsSpeakingSignal,
    copy: TtsSpeakingSignal,
    calls: Seq<SignalCall>,
)
    requires
        signal@ == copy@,
        signal@ < flags.len(),
    ensures
        ({
            let after = after_signal_calls(flags, calls);
            let open = last_open(flags[signal@ as int].session_open, signal@, calls);
            let active = last_active(flags[signal@ as int].sink_active, signal@, calls);
            &&& signal@ < after.len()
            &&& after[signal@ as int] == (SpeakingState {
                session_open: open,
                sink_active: active,
            })
            &&& after[copy@ as int].speaking() == (open || active)
        }),
    decreases calls.len(),
{
    if calls.len() > 0 {
        the_values_last_given_count(flags, signal, copy, calls.drop_last());
    }
}

/// The speaking session: kept across turns, with one player and at most one
/// connection to the speech service.
#[derive(Debug)]
pub struct TtsSession {
    player: PlaybackHandle,
    stopped: bool,
    connected: bool,
    first_audio_hook: bool,
    speaking: TtsSpeakingSignal,
}

/// The view of the speaking session.
pub struct TtsSessionView {
    /// What the player has still to do, oldest first.
    pub player: Seq<PlayerCommand>,
    /// The answer was interrupted: nothing more of it is spoken.
    pub stopped: bool,
    /// A connection was opened and not given up.
    pub connected: bool,
    /// Someone waits for the first audio of this turn.
    pub first_audio_hook: bool,
    /// The signal that mutes the microphone.
    pub speaking: nat,
}

/// What to do with a text to speak.
#[derive(Debug, Clone, Copy, PartialEq, Eq, Structural)]
pub enum SpeakAction {
    /// Nothing: the answer was interrupted.
    Drop,
    /// Send it over the connection that is open.
    Send,
    /// Open a connection, report how that went, and then send it.
    ConnectFirst,
}

/// What to do with audio that came in.
#[derive(Debug, Clone, Copy, PartialEq, Eq, Structural)]
pub enum AudioAction {
    /// Nothing: the answer was interrupted.
    Drop,
    /// It was handed to the player.
    Play,
    /// It was handed to the player; tell whoever waits for this turn's first
    /// audio.
    AnnounceAndPlay,
}

impl TtsSessionView {
    /// A session that has just been created, with the signal that it is given.
    pub open spec fn fresh(speaking: nat) -> TtsSessionView {
        TtsSessionView {
            player: Seq::empty(),
            stopped: false,
            connected: false,
            first_audio_hook: false,
            speaking,
        }
    }

    /// Speaking a text: nothing once stopped; otherwise a connection is opened
    /// unless the present one is alive.
    pub open spec fn speak(self, alive: bool) -> (TtsSessionView, SpeakAction) {
        if self.stopped {
            (self, SpeakAction::Drop)
        } else if self.connected && alive {
            (self, SpeakAction::Send)
        } else {
            (TtsSessionView { connected: false, ..self }, SpeakAction::ConnectFirst)
        }
    }

    /// What the signals say once a text is spoken: the session counts as open,
    /// unless it was stopped.
    pub open spec fn speak_flags(self, flags: Seq<SpeakingState>) -> Seq<SpeakingState> {
        if self.stopped {
            flags
        } else {
            with_open(flags, self.speaking, true)
        }
    }

    /// A connection was asked for and opened, or could not be.
    pub open spec fn connect_result(self, opened: bool) -> TtsSessionView {
        TtsSessionView { connected: opened, ..self }
    }

    /// The session with one more thing for the player to do.
    pub open spec fn with_command(self, command: PlayerCommand) -> TtsSessionView {
        TtsSessionView { player: self.player.push(command), ..self }
    }

    /// The start of a turn: the output device is opened afresh.
    pub open spec fn begin_turn(self) -> TtsSessionView {
        TtsSessionView {
            stopped: false,
            first_audio_hook: false,
            ..self.with_command(PlayerCommand::Reopen)
        }
    }

    /// Audio came in.
    pub open spec fn audio(self, bytes: Vec<u8>) -> (TtsSessionView, AudioAction) {
        if self.stopped {
            (self, AudioAction::Drop)
        } else if self.first_audio_hook {
            (
                TtsSessionView {
                    first_audio_hook: false,
                    ..self.with_command(PlayerCommand::Chunk(bytes))
                },
                AudioAction::AnnounceAndPlay,
            )
        } else {
            (self.with_command(PlayerCommand::Chunk(bytes)), AudioAction::Play)
        }
    }

    /// The answer is interrupted: the connection is given up and the player is
    /// told to stop.
    pub open spec fn stop(self) -> TtsSessionView {
        TtsSessionView {
            player: self.player.push(PlayerCommand::Stop),
            stopped: true,
            connected: false,
            ..self
        }
    }
}

/// What the user is told when speaking fails.
pub open spec fn voice_failure(message: Seq<char>) -> Seq<char> {
    "Voice output failed: "@ + message
}

/// The words for a failure of the speech service.
pub fn voice_failure_message(message: &str) -> (r: String)
    ensures
        r@ == voice_failure(message@),
{
    let mut text: String = "Voice output failed: ".to_owned();
    text.append(message);
    text
}

impl TtsSession {
    pub closed spec fn view(&self) -> TtsSessionView {
        TtsSessionView {
            player: self.player@,
            stopped: self.stopped,
            connected: self.connected,
            first_audio_hook: self.first_audio_hook,
            speaking: self.speaking@,
        }
    }

    /// A session on an output device that was opened. No connection is made
    /// before there is something to speak.
    pub fn start(speaking: TtsSpeakingSignal) -> (r: TtsSession)
        ensures
            r@ == TtsSessionView::fresh(speaking@),
    {
        TtsSession {
            player: PlaybackHandle::new(),
            stopped: false,
            connected: false,
            first_audio_hook: false,
            speaking,
        }
    }

    /// The signal that mutes the microphone.
    pub fn signal(&self) -> (r: TtsSpeakingSignal)
        ensures
            r@ == self@.speaking,
    {
        self.speaking
    }

    /// Takes the oldest thing for the player to do.
    pub fn take_player_command(&mut self) -> (r: Option<PlayerCommand>)
        ensures
            match r {
                Some(c) => {
                    &&& old(self)@.player.len() > 0
                    &&& c == old(self)@.player[0]
                    &&& final(self)@ == (TtsSessionView {
                        player: old(self)@.player.drop_first(),
                        ..old(self)@
                    })
                },
                None => old(self)@.player.len() == 0 && final(self)@ == old(self)@,
            },
    {
        self.player.take()
    }

    /// Someone waits for the first audio of this turn.
    pub fn set_turn_audio_hook(&mut self)
        ensures
            final(self)@ == (TtsSessionView { first_audio_hook: true, ..old(self)@ }),
    {
        self.first_audio_hook = true;
    }

    /// A text is to be spoken; `alive` says whether the present connection
    /// still stands.
    pub fn speak(&mut self, flags: &mut SpeakingFlags, alive: bool) -> (r: SpeakAction)
        requires
            old(self)@.speaking < old(flags)@.len(),
        ensures
            (final(self)@, r) == old(self)@.speak(alive),
            final(flags)@ == old(self)@.speak_flags(old(flags)@),
    {
        if self.stopped {
            return SpeakAction::Drop;
        }
        self.speaking.set_session_open(flags, true);
        if self.connected && alive {
            SpeakAction::Send
        } else {
            self.connected = false;
            SpeakAction::ConnectFirst
        }
    }

    /// Whether the connection that was asked for could be opened.
    pub fn connect_result(&mut self, opened: bool)
        ensures
            final(self)@ == old(self)@.connect_result(opened),
    {
        self.connected = opened;
    }

    /// The end of an answer's text. Whether the connection is to be flushed:
    /// only where there is one. It stays open for the next turn.
    pub fn finish(&self, flags: &mut SpeakingFlags) -> (r: bool)
        requires
            self@.speaking < old(flags)@.len(),
        ensures
            final(flags)@ == with_open(old(flags)@, self@.speaking, false),
            r == self@.connected,
    {
        self.speaking.set_session_open(flags, false);
        self.connected
    }

    /// The start of a turn. An interruption of an earlier turn no longer
    /// counts, nobody waits for audio any more, and the output device is to be
    /// opened afresh: one that was idle between two turns may have gone mute.
    pub fn begin_turn(&mut self)
        ensures
            final(self)@ == old(self)@.begin_turn(),
    {
        self.stopped = false;
        self.first_audio_hook = false;
        self.player.reopen();
    }

    /// Audio came in over the connection: it is played unless the answer was
    /// interrupted.
    pub fn on_audio(&mut self, bytes: Vec<u8>) -> (r: AudioAction)
        ensures
            (final(self)@, r) == old(self)@.audio(bytes),
    {
        if self.stopped {
            return AudioAction::Drop;
        }
        self.player.enqueue(bytes);
        if self.first_audio_hook {
            self.first_audio_hook = false;
            AudioAction::AnnounceAndPlay
        } else {
            AudioAction::Play
        }
    }

    /// The connection failed in the middle of an answer.
    pub fn on_error(&self, flags: &mut SpeakingFlags)
        requires
            self@.speaking < old(flags)@.len(),
        ensures
            final(flags)@ == with_open(old(flags)@, self@.speaking, false),
    {
        self.speaking.set_session_open(flags, false);
    }

    /// Interrupts the answer; the microphone is free at once. Whether a
    /// connection is to be interrupted: where there was one.
    pub fn stop(&mut self, flags: &mut SpeakingFlags) -> (r: bool)
        requires
            old(self)@.speaking < old(flags)@.len(),
        ensures
            final(self)@ == old(self)@.stop(),
            final(flags)@ == cleared(old(flags)@, old(self)@.speaking),
            r == old(self)@.connected,
    {
        let had: bool = self.connected;
        self.stopped = true;
        self.connected = false;
        self.player.stop();
        self.speaking.force_clear(flags);
        had
    }
}

/// An interruption silences the rest of its turn and no other: the player is
/// told to stop and gets nothing more to play until the next turn begins, the
/// microphone stays free, and then speaking works again.
pub proof fn an_interruption_ends_with_its_turn(
    session: TtsSessionView,
    flags: Seq<SpeakingState>,
    alive: bool,
    bytes: Vec<u8>,
)
    ensures
        session.stop().speak(alive) == (session.stop(), SpeakAction::Drop),
        session.stop().audio(bytes) == (session.stop(), AudioAction::Drop),
        session.stop().player == session.player.push(PlayerCommand::Stop),
        session.speaking < flags.len() ==> !cleared(
            flags,
            session.speaking,
        )[session.speaking as int].speaking(),
        session.stop().speak_flags(flags) == flags,
        session.stop().begin_turn().speak(alive).1 == SpeakAction::ConnectFirst,
        session.stop().begin_turn().audio(bytes).1 == AudioAction::Play,
        session.stop().begin_turn().audio(bytes).0.player == session.player + seq![
            PlayerCommand::Stop,
            PlayerCommand::Reopen,
            PlayerCommand::Chunk(bytes),
        ],
{
    assert(session.stop().begin_turn().audio(bytes).0.player =~= session.player + seq![
        PlayerCommand::Stop,
        PlayerCommand::Reopen,
        PlayerCommand::Chunk(bytes),
    ]);
}

/// A turn's first audio is announced once, and only where someone waits for it;
/// a wait that was never met does not carry over into the next turn.
pub proof fn first_audio_is_announced_once(
    session: TtsSessionView,
    first: Vec<u8>,
    second: Vec<u8>,
)
    requires
        !session.stopped,
    ensures
        session.audio(first).1 == AudioAction::AnnounceAndPlay <==> session.first_audio_hook,
        session.audio(first).0.audio(second).1 == AudioAction::Play,
        session.begin_turn().audio(first).1 == AudioAction::Play,
{
}

/// Speaking mutes the microphone, for everyone who holds the session's signal,
/// whether or not a connection is already open, until the answer's text ends
/// and the sink has run dry.
pub proof fn speaking_mutes_the_microphone(
    session: TtsSessionView,
    flags: Seq<SpeakingState>,
    signal: nat,
)
    requires
        !session.stopped,
        session.speaking < flags.len(),
        signal == session.speaking,
    ensures
        ({
            let spoken = session.speak_flags(flags);
            let ended = with_open(spoken, session.speaking, false);
            &&& spoken[signal as int].speaking()
            &&& ended[signal as int].speaking() <==> flags[signal as int].sink_active
        }),
{
}

/// A connection that stands is used again in the next turn; a new one is only
/// opened where there is none that is alive.
pub proof fn a_living_connection_is_reused(session: TtsSessionView)
    requires
        !session.stopped,
    ensures
        session.connected ==> session.begin_turn().speak(true).1 == SpeakAction::Send,
        session.speak(false).1 == SpeakAction::ConnectFirst,
        session.speak(true).1 == SpeakAction::ConnectFirst <==> !session.connected,
{
}

} // verus!
