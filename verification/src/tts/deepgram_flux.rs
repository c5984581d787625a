//! Speech synthesis over a streaming connection: the messages that are sent,
//! the loop that sends and reads them, and the attempts to connect.
use std::collections::VecDeque;
use vstd::prelude::*;
use vstd::string::*;

use crate::json::{
    distinct_keys_are_all_found, entry_views, json_render, object_view, opt_view, render_json,
    Json, JsonView,
};
use crate::text::{contains, decimal, decimal_text, has, trim, trimmed};

verus! {

pub const SPEAK_URL: &'static str = "wss://api.deepgram.com/v2/speak";

pub const MODEL: &'static str = "flux-sienna-en";

/// Samples per second of the audio that is asked for.
pub const SAMPLE_RATE: u32 = 24_000;

/// How lively the voice is.
pub const EXPRESSIVITY: u32 = 1;

/// How often a connection is tried.
pub const MAX_CONNECT_ATTEMPTS: u32 = 3;

/// How long to wait between two attempts, in milliseconds.
pub const RETRY_DELAY_MS: u64 = 500;

/// Why speaking failed.
#[derive(Debug)]
pub enum FluxError {
    MissingKey,
    ConnectFailed(String),
    Send(String),
}

/// The view of an error.
pub enum FluxErrorView {
    MissingKey,
    ConnectFailed(Seq<char>),
    Send(Seq<char>),
}

impl FluxErrorView {
    /// The words for the error.
    pub open spec fn message(self) -> Seq<char> {
        match self {
            FluxErrorView::MissingKey => "no Deepgram API key configured (Settings -> API Keys)"@,
            FluxErrorView::ConnectFailed(e) => "failed to connect to Deepgram Flux after "@
                + decimal(MAX_CONNECT_ATTEMPTS as nat) + " attempts: "@ + e,
            FluxErrorView::Send(e) => "Deepgram Flux connection lost: "@ + e,
        }
    }
}

impl FluxError {
    pub open spec fn view(&self) -> FluxErrorView {
        match *self {
            FluxError::MissingKey => FluxErrorView::MissingKey,
            FluxError::ConnectFailed(e) => FluxErrorView::ConnectFailed(e@),
            FluxError::Send(e) => FluxErrorView::Send(e@),
        }
    }

    /// The words for the error.
    pub fn message(&self) -> (r: String)
        ensures
            r@ == self@.message(),
    {
        match self {
            FluxError::MissingKey => {
                "no Deepgram API key configured (Settings -> API Keys)".to_owned()
            },
            FluxError::ConnectFailed(e) => {
                let mut m: String = "failed to connect to Deepgram Flux after ".to_owned();
                let n: String = decimal_text(MAX_CONNECT_ATTEMPTS as u64);
                m.append(n.as_str());
                m.append(" attempts: ");
                m.append(e.as_str());
                m
            },
            FluxError::Send(e) => {
                let mut m: String = "Deepgram Flux connection lost: ".to_owned();
                m.append(e.as_str());
                m
            },
        }
    }
}

/// The key to use: the stored one without the whitespace around it, unless
/// nothing is left of it.
pub fn api_key(stored: &Option<String>) -> (r: Result<String, FluxError>)
    ensures
        match opt_view(*stored) {
            Some(k) if trim(k).len() > 0 => r matches Ok(key) && key@ == trim(k),
            _ => r matches Err(e) && e is MissingKey,
        },
{
    match stored {
        Some(key) => {
            let t: String = trimmed(key.as_str());
            if t.as_str().is_empty() {
                Err(FluxError::MissingKey)
            } else {
                Ok(t)
            }
        },
        None => Err(FluxError::MissingKey),
    }
}

/// The address to connect to.
pub open spec fn connect_url_text() -> Seq<char> {
    SPEAK_URL@ + "?model="@ + MODEL@ + "&encoding=linear16&sample_rate="@ + decimal(
        SAMPLE_RATE as nat,
    ) + "&expressivity="@ + decimal(EXPRESSIVITY as nat)
}

/// The address to connect to.
pub fn connect_url() -> (r: String)
    ensures
        r@ == connect_url_text(),
{
    let mut url: String = SPEAK_URL.to_owned();
    url.append("?model=");
    url.append(MODEL);
    url.append("&encoding=linear16&sample_rate=");
    let rate: String = decimal_text(SAMPLE_RATE as u64);
    url.append(rate.as_str());
    url.append("&expressivity=");
    let lively: String = decimal_text(EXPRESSIVITY as u64);
    url.append(lively.as_str());
    url
}

/// What to do after an attempt to connect has failed.
#[derive(Debug)]
pub enum RetryAction {
    /// Wait for `RETRY_DELAY_MS` and try again.
    TryAgain,
    /// Give up, with the last error.
    GiveUp(String),
}

/// The attempts to connect, counted.
#[derive(Debug)]
pub struct ConnectAttempts {
    failed: u32,
}

impl ConnectAttempts {
    /// How many attempts have failed.
    pub closed spec fn view(&self) -> nat {
        self.failed as nat
    }

    pub fn new() -> (r: ConnectAttempts)
        ensures
            r@ == 0,
    {
        ConnectAttempts { failed: 0 }
    }

    /// One more attempt has failed. There are `MAX_CONNECT_ATTEMPTS` in all;
    /// the count stops there.
    pub fn attempt_failed(&mut self, error: String) -> (r: RetryAction)
        ensures
            final(self)@ == (if old(self)@ < MAX_CONNECT_ATTEMPTS {
                old(self)@ + 1
            } else {
                old(self)@
            }),
            if final(self)@ < MAX_CONNECT_ATTEMPTS {
                r is TryAgain
            } else {
                r matches RetryAction::GiveUp(e) && e@ == error@
            },
    {
        if self.failed < MAX_CONNECT_ATTEMPTS {
            self.failed = self.failed + 1;
        }
        if self.failed < MAX_CONNECT_ATTEMPTS {
            RetryAction::TryAgain
        } else {
            RetryAction::GiveUp(error)
        }
    }
}

/// What the connection's thread is asked to do.
#[derive(Debug)]
pub enum FluxCommand {
    Speak(String),
    Flush,
    Interrupt,
}

/// The view of a command.
pub enum FluxCommandView {
    Speak(Seq<char>),
    Flush,
    Interrupt,
}

impl FluxCommand {
    pub open spec fn view(&self) -> FluxCommandView {
        match *self {
            FluxCommand::Speak(t) => FluxCommandView::Speak(t@),
            FluxCommand::Flush => FluxCommandView::Flush,
            FluxCommand::Interrupt => FluxCommandView::Interrupt,
        }
    }
}

/// A message that is nothing but its type.
pub open spec fn bare_message(kind: Seq<char>) -> Seq<char> {
    json_render(JsonView::Object(seq![("type"@, JsonView::Text(kind))]))
}

/// The message that asks for a text to be spoken.
pub open spec fn speak_message(text: Seq<char>) -> Seq<char> {
    json_render(
        JsonView::Object(
            seq![("type"@, JsonView::Text("Speak"@)), ("text"@, JsonView::Text(text))],
        ),
    )
}

fn bare_text(kind: &str) -> (r: String)
    ensures
        r@ == bare_message(kind@),
{
    let entries: Vec<(String, Json)> = vec![("type".to_owned(), Json::Text(kind.to_owned()))];
    proof {
        object_view(entries);
        assert(entry_views(entries@) =~= seq![("type"@, JsonView::Text(kind@))]);
    }
    render_json(&Json::Object(entries))
}

fn speak_text(text: &str) -> (r: String)
    ensures
        r@ == speak_message(text@),
{
    let entries: Vec<(String, Json)> = vec![
        ("type".to_owned(), Json::Text("Speak".to_owned())),
        ("text".to_owned(), Json::Text(text.to_owned())),
    ];
    proof {
        object_view(entries);
        assert(entry_views(entries@) =~= seq![
            ("type"@, JsonView::Text("Speak"@)),
            ("text"@, JsonView::Text(text@)),
        ]);
    }
    render_json(&Json::Object(entries))
}

/// The sender's side of a connection: the commands not yet taken, and whether
/// the connection's thread is still running.
#[derive(Debug)]
pub struct FluxSession {
    queue: VecDeque<FluxCommand>,
    alive: bool,
}

/// The view of the sender's side.
pub struct FluxSessionView {
    pub queue: Seq<FluxCommandView>,
    pub alive: bool,
}

/// The views of a sequence of commands.
pub open spec fn command_views(commands: Seq<FluxCommand>) -> Seq<FluxCommandView> {
    commands.map_values(|c: FluxCommand| c@)
}

impl FluxSessionView {
    /// A command is queued; one for a connection that is gone is lost.
    pub open spec fn with(self, command: FluxCommandView) -> FluxSessionView {
        if self.alive {
            FluxSessionView { queue: self.queue.push(command), ..self }
        } else {
            self
        }
    }
}

impl FluxSession {
    pub closed spec fn view(&self) -> FluxSessionView {
        FluxSessionView { queue: command_views(self.queue@), alive: self.alive }
    }

    /// A session whose thread has just been started.
    pub fn new() -> (r: FluxSession)
        ensures
            r@ == (FluxSessionView { queue: Seq::empty(), alive: true }),
    {
        let r = FluxSession { queue: VecDeque::new(), alive: true };
        proof {
            assert(r@.queue =~= Seq::empty());
        }
        r
    }

    /// Whether the connection's thread is still running.
    pub fn is_alive(&self) -> (r: bool)
        ensures
            r == self@.alive,
    {
        self.alive
    }

    fn queue_command(&mut self, command: FluxCommand)
        ensures
            final(self)@ == old(self)@.with(command@),
    {
        if self.alive {
            self.queue.push_back(command);
            proof {
                assert(self@.queue =~= old(self)@.queue.push(command@));
            }
        }
    }

    /// Asks for a text to be spoken.
    pub fn speak(&mut self, text: &str)
        ensures
            final(self)@ == old(self)@.with(FluxCommandView::Speak(text@)),
    {
        self.queue_command(FluxCommand::Speak(text.to_owned()));
    }

    /// Marks the end of an answer.
    pub fn flush(&mut self)
        ensures
            final(self)@ == old(self)@.with(FluxCommandView::Flush),
    {
        self.queue_command(FluxCommand::Flush);
    }

    /// Asks for the synthesis to be broken off.
    pub fn interrupt(&mut self)
        ensures
            final(self)@ == old(self)@.with(FluxCommandView::Interrupt),
    {
        self.queue_command(FluxCommand::Interrupt);
    }

    /// Takes the oldest command.
    pub fn take(&mut self) -> (r: Option<FluxCommand>)
        ensures
            match r {
                Some(c) => {
                    &&& old(self)@.queue.len() > 0
                    &&& c@ == old(self)@.queue[0]
                    &&& final(self)@ == (FluxSessionView {
                        queue: old(self)@.queue.drop_first(),
                        ..old(self)@
                    })
                },
                None => old(self)@.queue.len() == 0 && final(self)@ == old(self)@,
            },
    {
        let r = self.queue.pop_front();
        proof {
            if old(self)@.queue.len() > 0 {
                assert(self@.queue =~= old(self)@.queue.drop_first());
            }
        }
        r
    }

    /// The connection's thread has ended.
    pub fn mark_ended(&mut self)
        ensures
            final(self)@ == (FluxSessionView { alive: false, ..old(self)@ }),
    {
        self.alive = false;
    }
}

/// What the connection's thread learns.
#[derive(Debug)]
pub enum FluxInput {
    Command(FluxCommand),
    /// No command waits.
    NoCommand,
    /// No command can come any more.
    HandleDropped,
    /// A message could not be sent, for this reason.
    SendFailed(String),
    /// Audio was read.
    Audio(Vec<u8>),
    /// A text message was read.
    Text(String),
    /// The service closed the connection.
    Closed,
    /// Nothing of interest was read, or nothing within the time limit.
    NothingRead,
    /// Reading failed, for this reason.
    ReadFailed(String),
}

/// What the connection's thread is to do.
#[derive(Debug)]
pub enum FluxAction {
    /// Send the message; report a failure; then take the next command.
    Send(String),
    /// Send both messages, whatever comes of it; then close and leave.
    SendLast(String, String),
    /// Send both messages, whatever comes of it; then read.
    SendThenRead(String, String),
    /// Read from the connection.
    Read,
    /// Hand the audio on; then take the next command.
    Deliver(Vec<u8>),
    /// Log the text, as a warning where the flag is set; then take the next
    /// command.
    Log { warning: bool, text: String },
    /// Take the next command.
    TakeCommand,
    /// Report the error, close and leave.
    Fail(FluxError),
    /// Close and leave.
    Leave,
}

/// The view of what the connection's thread is to do.
pub enum FluxActionView {
    Send(Seq<char>),
    SendLast(Seq<char>, Seq<char>),
    SendThenRead(Seq<char>, Seq<char>),
    Read,
    Deliver(Seq<u8>),
    Log { warning: bool, text: Seq<char> },
    TakeCommand,
    Fail(FluxErrorView),
    Leave,
}

impl FluxAction {
    pub open spec fn view(&self) -> FluxActionView {
        match *self {
            FluxAction::Send(m) => FluxActionView::Send(m@),
            FluxAction::SendLast(a, b) => FluxActionView::SendLast(a@, b@),
            FluxAction::SendThenRead(a, b) => FluxActionView::SendThenRead(a@, b@),
            FluxAction::Read => FluxActionView::Read,
            FluxAction::Deliver(b) => FluxActionView::Deliver(b@),
            FluxAction::Log { warning, text } => FluxActionView::Log { warning, text: text@ },
            FluxAction::TakeCommand => FluxActionView::TakeCommand,
            FluxAction::Fail(e) => FluxActionView::Fail(e@),
            FluxAction::Leave => FluxActionView::Leave,
        }
    }
}

/// A text in which the service reports a problem.
pub open spec fn reports_problem(text: Seq<char>) -> bool {
    contains(text, "\"Warning\""@) || contains(text, "\"Error\""@)
}

/// What the connection's thread does with an input; `told` says whether the
/// service was already told that no more text will come. Gives the new value
/// of `told` and the action.
pub open spec fn flux_step(told: bool, input: FluxInput) -> (bool, FluxActionView) {
    match input {
        FluxInput::Command(FluxCommand::Speak(text)) => (
            told,
            FluxActionView::Send(speak_message(text@)),
        ),
        FluxInput::Command(FluxCommand::Flush) => (
            told,
            FluxActionView::Send(bare_message("Flush"@)),
        ),
        FluxInput::Command(FluxCommand::Interrupt) => (
            told,
            FluxActionView::SendLast(bare_message("Interrupt"@), bare_message("Close"@)),
        ),
        FluxInput::NoCommand => (told, FluxActionView::Read),
        FluxInput::HandleDropped => (
            true,
            if told {
                FluxActionView::Read
            } else {
                FluxActionView::SendThenRead(bare_message("Flush"@), bare_message("Close"@))
            },
        ),
        FluxInput::SendFailed(e) => (told, FluxActionView::Fail(FluxErrorView::Send(e@))),
        FluxInput::Audio(bytes) => (told, FluxActionView::Deliver(bytes@)),
        FluxInput::Text(text) => (
            told,
            FluxActionView::Log { warning: reports_problem(text@), text: text@ },
        ),
        FluxInput::Closed => (told, FluxActionView::Leave),
        FluxInput::NothingRead => (told, FluxActionView::TakeCommand),
        FluxInput::ReadFailed(e) => (told, FluxActionView::Fail(FluxErrorView::Send(e@))),
    }
}

/// The loop of the connection's thread.
#[derive(Debug)]
pub struct FluxLoop {
    told: bool,
}

impl FluxLoop {
    /// Whether the service was told that no more text will come.
    pub closed spec fn view(&self) -> bool {
        self.told
    }

    pub fn new() -> (r: FluxLoop)
        ensures
            !r@,
    {
        FluxLoop { told: false }
    }

    /// One step: all waiting commands are sent before anything is read; an
    /// interruption and a failure end the loop.
    pub fn step(&mut self, input: FluxInput) -> (r: FluxAction)
        ensures
            (final(self)@, r@) == flux_step(old(self)@, input),
    {
        match input {
            FluxInput::Command(FluxCommand::Speak(text)) => FluxAction::Send(
                speak_text(text.as_str()),
            ),
            FluxInput::Command(FluxCommand::Flush) => FluxAction::Send(bare_text("Flush")),
            FluxInput::Command(FluxCommand::Interrupt) => FluxAction::SendLast(
                bare_text("Interrupt"),
                bare_text("Close"),
            ),
            FluxInput::NoCommand => FluxAction::Read,
            FluxInput::HandleDropped => if self.told {
                FluxAction::Read
            } else {
                self.told = true;
                FluxAction::SendThenRead(bare_text("Flush"), bare_text("Close"))
            },
            FluxInput::SendFailed(e) => FluxAction::Fail(FluxError::Send(e)),
            FluxInput::Audio(bytes) => FluxAction::Deliver(bytes),
            FluxInput::Text(text) => {
                let warning: bool = has(text.as_str(), "\"Warning\"") || has(
                    text.as_str(),
                    "\"Error\"",
                );
                FluxAction::Log { warning, text }
            },
            FluxInput::Closed => FluxAction::Leave,
            FluxInput::NothingRead => FluxAction::TakeCommand,
            FluxInput::ReadFailed(e) => FluxAction::Fail(FluxError::Send(e)),
        }
    }
}

/// The service is told once that no more text will come, however often the
/// loop finds the handle dropped.
pub proof fn the_end_is_told_once(told: bool)
    ensures
        flux_step(told, FluxInput::HandleDropped).0,
        flux_step(true, FluxInput::HandleDropped).1 is Read,
{
}

/// The order of speaking is the order of asking: commands are taken as they
/// were queued, and none is taken twice.
pub proof fn commands_are_taken_in_order(
    session: FluxSessionView,
    first: FluxCommandView,
    second: FluxCommandView,
)
    requires
        session.alive,
    ensures
        session.with(first).with(second).queue == session.queue + seq![first, second],
        session.queue.len() == 0 ==> session.with(first).with(second).queue.drop_first() == seq![
            second,
        ],
{
    assert(session.with(first).with(second).queue =~= session.queue + seq![first, second]);
    if session.queue.len() == 0 {
        assert(session.with(first).with(second).queue.drop_first() =~= seq![second]);
    }
}

proof fn message_fields_differ()
    ensures
        "type"@ != "text"@,
{
    reveal_strlit("type");
    reveal_strlit("text");
    assert("type"@.len() == 4);
    assert("text"@.len() == 4);
    assert("type"@[1] != "text"@[1]);
}

/// What the service is told is an object that names what is wanted, and the text
/// that is to be spoken as it is.
pub proof fn the_service_is_told_what_is_wanted(text: Seq<char>, kind: Seq<char>)
    ensures
        exists|v: JsonView| #[trigger]
            json_render(v) == speak_message(text) && v.get("type"@) == Some(
                JsonView::Text("Speak"@),
            ) && v.get("text"@) == Some(JsonView::Text(text)),
        exists|v: JsonView| #[trigger]
            json_render(v) == bare_message(kind) && v.get("type"@) == Some(JsonView::Text(kind)),
{
    message_fields_differ();
    let spoken = JsonView::Object(
        seq![("type"@, JsonView::Text("Speak"@)), ("text"@, JsonView::Text(text))],
    );
    distinct_keys_are_all_found(spoken->Object_0);
    assert(spoken->Object_0[0].0 == "type"@);
    assert(spoken->Object_0[1].0 == "text"@);
    assert(json_render(spoken) == speak_message(text));
    let bare = JsonView::Object(seq![("type"@, JsonView::Text(kind))]);
    distinct_keys_are_all_found(bare->Object_0);
    assert(bare->Object_0[0].0 == "type"@);
    assert(json_render(bare) == bare_message(kind));
}

/// Every command is sent to the service, audio is handed on as it came, a failure
/// is told in its own words, and only then, or when the connection is closed, is
/// it left.
pub proof fn every_input_is_acted_on(told: bool, input: FluxInput)
    ensures
        match input {
            FluxInput::Command(FluxCommand::Speak(text)) => flux_step(told, input).1
                == FluxActionView::Send(speak_message(text@)),
            FluxInput::Command(FluxCommand::Flush) => flux_step(told, input).1
                == FluxActionView::Send(bare_message("Flush"@)),
            FluxInput::Audio(bytes) => flux_step(told, input).1 == FluxActionView::Deliver(bytes@),
            FluxInput::Text(text) => flux_step(told, input).1 is Log && flux_step(
                told,
                input,
            ).1->text == text@,
            FluxInput::SendFailed(e) => flux_step(told, input).1 == FluxActionView::Fail(
                FluxErrorView::Send(e@),
            ),
            FluxInput::ReadFailed(e) => flux_step(told, input).1 == FluxActionView::Fail(
                FluxErrorView::Send(e@),
            ),
            _ => true,
        },
        flux_step(told, input).1 is Deliver <==> input is Audio,
        flux_step(told, input).1 is Leave <==> input is Closed,
        flux_step(told, input).1 is Fail <==> input is SendFailed || input is ReadFailed,
        flux_step(told, input).0 == (told || input is HandleDropped),
{
}

} // verus!
