//! The agent loop as a state machine: ask the model, run the tools it asks
//! for, feed the results back, and ask again, at most `MAX_ITERATIONS` times.
//!
//! The host performs what each `LoopAction` says and hands back a `LoopInput`.
use vstd::prelude::*;
use vstd::string::*;

use crate::actions::{Capability, RiskLevel};
use crate::agent::tool_schema::{parse_tool_call, progress, progress_message, tool_call};
use crate::agent::types::{
    content_views, copy_messages, message_views, AgentContent, AgentContentView, AgentEvent,
    AgentEventView, AgentMessage, AgentMessageView, AgentRole, StopReason,
};
use crate::json::{json_render, render_json, Json, JsonView};
use crate::text::views;
use crate::working_state::WorkingState;
use base64::Engine;

verus! {

/// How often the model is asked in one turn, at most.
pub const MAX_ITERATIONS: usize = 6;

/// What running a capability gave.
#[derive(Debug)]
pub enum ToolOutcome {
    Text(String),
    Image { media_type: &'static str, png_bytes: Vec<u8> },
    NeedsConfirmation { capability: Capability<String>, risk: RiskLevel, voice_prompt: String },
}

/// What a tool call came to.
#[derive(Debug)]
pub enum ToolCallOutcome {
    Done { text: String, image: Option<(&'static str, String)>, is_error: bool },
    NeedsConfirmation { capability: Capability<String>, risk: RiskLevel, voice_prompt: String },
}

/// The view of what a tool call came to.
pub enum ToolCallOutcomeView {
    Done { text: Seq<char>, image: Option<(Seq<char>, Seq<char>)>, is_error: bool },
    NeedsConfirmation {
        capability: Capability<Seq<char>>,
        risk: RiskLevel,
        voice_prompt: Seq<char>,
    },
}

impl ToolCallOutcome {
    pub open spec fn view(&self) -> ToolCallOutcomeView {
        match *self {
            ToolCallOutcome::Done { text, image, is_error } => ToolCallOutcomeView::Done {
                text: text@,
                image: crate::agent::types::image_view(image),
                is_error,
            },
            ToolCallOutcome::NeedsConfirmation { capability, risk, voice_prompt } => {
                ToolCallOutcomeView::NeedsConfirmation {
                    capability: capability@,
                    risk,
                    voice_prompt: voice_prompt@,
                }
            },
        }
    }
}

/// What the base64 engine `general_purpose::STANDARD` writes for some bytes.
pub uninterp spec fn base64_standard(bytes: Seq<u8>) -> Seq<char>;

/// `base64::engine::general_purpose::STANDARD.encode`: the standard alphabet
/// with padding. The result depends on the bytes alone and is named; it has
/// four characters for every three bytes begun.
#[verifier::external_body]
fn encode_base64(bytes: &Vec<u8>) -> (r: String)
    ensures
        r@ == base64_standard(bytes@),
        r@.len() == (bytes@.len() + 2) / 3 * 4,
{
    base64::engine::general_purpose::STANDARD.encode(bytes)
}

/// A tool call, before anything is run.
#[derive(Debug)]
pub enum PreparedCall {
    /// Run this capability and hand its outcome to `finish_tool_call`.
    Run(Capability<String>),
    /// The call is malformed: this is its outcome.
    Answer(ToolCallOutcome),
}

/// A failed call, with its message.
pub open spec fn failed_call(message: Seq<char>) -> ToolCallOutcomeView {
    ToolCallOutcomeView::Done { text: message, image: None, is_error: true }
}

/// Reads a tool call. A malformed one is answered with its message as an
/// error; nothing is run for it.
pub fn prepare_tool_call(name: &str, input: &Json, context: &WorkingState) -> (r: PreparedCall)
    ensures
        match tool_call(name@, input@, context@) {
            Ok(c) => r matches PreparedCall::Run(capability) && capability@ == c,
            Err(e) => r matches PreparedCall::Answer(outcome) && outcome@ == failed_call(e),
        },
{
    match parse_tool_call(name, input, context) {
        Ok(capability) => PreparedCall::Run(capability),
        Err(e) => PreparedCall::Answer(
            ToolCallOutcome::Done { text: e, image: None, is_error: true },
        ),
    }
}

/// What a tool call comes to, given what running its capability gave.
pub open spec fn call_outcome(outcome: Result<ToolOutcome, String>) -> ToolCallOutcomeView {
    match outcome {
        Ok(ToolOutcome::Text(text)) => ToolCallOutcomeView::Done {
            text: text@,
            image: None,
            is_error: false,
        },
        Ok(ToolOutcome::Image { media_type, png_bytes }) => ToolCallOutcomeView::Done {
            text: "Screenshot captured."@,
            image: Some((media_type@, base64_standard(png_bytes@))),
            is_error: false,
        },
        Ok(ToolOutcome::NeedsConfirmation { capability, risk, voice_prompt }) => {
            ToolCallOutcomeView::NeedsConfirmation {
                capability: capability@,
                risk,
                voice_prompt: voice_prompt@,
            }
        },
        Err(e) => failed_call(e@),
    }
}

/// Turns the outcome of a capability into the outcome of its tool call.
pub fn finish_tool_call(outcome: Result<ToolOutcome, String>) -> (r: ToolCallOutcome)
    ensures
        r@ == call_outcome(outcome),
{
    match outcome {
        Ok(ToolOutcome::Text(text)) => ToolCallOutcome::Done { text, image: None, is_error: false },
        Ok(ToolOutcome::Image { media_type, png_bytes }) => {
            let data: String = encode_base64(&png_bytes);
            ToolCallOutcome::Done {
                text: "Screenshot captured.".to_owned(),
                image: Some((media_type, data)),
                is_error: false,
            }
        },
        Ok(ToolOutcome::NeedsConfirmation { capability, risk, voice_prompt }) => {
            ToolCallOutcome::NeedsConfirmation { capability, risk, voice_prompt }
        },
        Err(e) => ToolCallOutcome::Done { text: e, image: None, is_error: true },
    }
}

/// A call that waits for the user's consent.
#[derive(Debug, Clone)]
pub struct PendingToolConfirmation {
    pub capability: Capability<String>,
    pub risk: RiskLevel,
    pub voice_prompt: String,
    pub tool_use_id: String,
    pub tool_name: String,
}

/// The view of a call that waits for consent.
pub struct PendingView {
    pub capability: Capability<Seq<char>>,
    pub risk: RiskLevel,
    pub voice_prompt: Seq<char>,
    pub tool_use_id: Seq<char>,
    pub tool_name: Seq<char>,
}

impl PendingToolConfirmation {
    pub open spec fn view(&self) -> PendingView {
        PendingView {
            capability: self.capability@,
            risk: self.risk,
            voice_prompt: self.voice_prompt@,
            tool_use_id: self.tool_use_id@,
            tool_name: self.tool_name@,
        }
    }
}

/// What one turn of the loop came to.
#[derive(Debug)]
pub struct AgentOutcome {
    pub final_text: String,
    /// One summary per tool call that was run, in order.
    pub actions_taken: Vec<String>,
    pub iterations_used: usize,
    /// The call that stopped the loop, where one needs consent. Its result is
    /// not among `messages`.
    pub pending_confirmation: Option<PendingToolConfirmation>,
    /// The history when the loop stopped.
    pub messages: Vec<AgentMessage>,
}

/// The view of an outcome.
pub struct AgentOutcomeView {
    pub final_text: Seq<char>,
    pub actions_taken: Seq<Seq<char>>,
    pub iterations_used: nat,
    pub pending_confirmation: Option<PendingView>,
    pub messages: Seq<AgentMessageView>,
}

impl AgentOutcome {
    pub open spec fn view(&self) -> AgentOutcomeView {
        AgentOutcomeView {
            final_text: self.final_text@,
            actions_taken: views(self.actions_taken@),
            iterations_used: self.iterations_used as nat,
            pending_confirmation: match self.pending_confirmation {
                Some(p) => Some(p@),
                None => None,
            },
            messages: message_views(self.messages@),
        }
    }
}

/// A tool call that the model asked for.
#[derive(Debug)]
pub struct ToolCall {
    pub id: String,
    pub name: String,
    pub input: Json,
}

/// The view of a tool call.
pub struct ToolCallView {
    pub id: Seq<char>,
    pub name: Seq<char>,
    pub input: JsonView,
}

impl ToolCall {
    pub open spec fn view(&self) -> ToolCallView {
        ToolCallView { id: self.id@, name: self.name@, input: self.input@ }
    }

    /// A call equal to this one.
    fn copy(&self) -> (r: ToolCall)
        ensures
            r@ == self@,
    {
        ToolCall { id: self.id.clone(), name: self.name.clone(), input: self.input.copy() }
    }
}

/// The views of a sequence of calls.
pub open spec fn call_views(calls: Seq<ToolCall>) -> Seq<ToolCallView> {
    calls.map_values(|c: ToolCall| c@)
}

/// Where the loop stands.
#[derive(Debug)]
enum Phase {
    /// About to ask the model.
    Ready,
    /// The model's answer is coming in.
    Streaming { text: String, calls: Vec<ToolCall>, stop_reason: StopReason },
    /// About to run the call `next`; or running it.
    Calling { calls: Vec<ToolCall>, next: usize, results: Vec<AgentContent>, running: bool },
    Ended,
}

/// The view of where the loop stands.
pub enum PhaseView {
    Ready,
    Streaming { text: Seq<char>, calls: Seq<ToolCallView>, stop_reason: StopReason },
    Calling {
        calls: Seq<ToolCallView>,
        next: nat,
        results: Seq<AgentContentView>,
        running: bool,
    },
    Ended,
}

/// One turn of the agent loop.
#[derive(Debug)]
pub struct AgentRun {
    messages: Vec<AgentMessage>,
    actions_taken: Vec<String>,
    final_text: String,
    iterations_used: usize,
    phase: Phase,
}

/// The view of a turn.
pub struct AgentRunView {
    pub messages: Seq<AgentMessageView>,
    pub actions_taken: Seq<Seq<char>>,
    pub final_text: Seq<char>,
    pub iterations_used: nat,
    pub phase: PhaseView,
}

/// What the host reports to the loop.
#[derive(Debug)]
pub enum LoopInput {
    /// Go on; `cancelled` says whether the turn was cancelled meanwhile.
    Proceed { cancelled: bool },
    /// One event of the model's answer.
    Event(AgentEvent),
    /// The model's answer is over, or failed.
    StreamEnded(Result<(), String>),
    /// What the tool call that was run came to.
    ToolDone(ToolCallOutcome),
}

/// The view of what the host reports.
pub enum LoopInputView {
    Proceed { cancelled: bool },
    Event(AgentEventView),
    StreamEnded(Result<(), Seq<char>>),
    ToolDone(ToolCallOutcomeView),
}

impl LoopInput {
    pub open spec fn view(&self) -> LoopInputView {
        match *self {
            LoopInput::Proceed { cancelled } => LoopInputView::Proceed { cancelled },
            LoopInput::Event(e) => LoopInputView::Event(e@),
            LoopInput::StreamEnded(Ok(_)) => LoopInputView::StreamEnded(Ok(())),
            LoopInput::StreamEnded(Err(e)) => LoopInputView::StreamEnded(Err(e@)),
            LoopInput::ToolDone(o) => LoopInputView::ToolDone(o@),
        }
    }
}

/// What the host is to do.
#[derive(Debug)]
pub enum LoopAction {
    /// Send the messages to the model and report its events, then the end of
    /// its answer.
    AskModel,
    /// Hand this text to the user; the answer goes on.
    Deliver(String),
    /// Wait for the next input of the same kind.
    Wait,
    /// Report whether the turn was cancelled.
    CheckCancelled,
    /// Show the progress line, run the call and report what it came to.
    RunTool { progress: String, call: ToolCall },
    /// The turn is over.
    Finish(Result<AgentOutcome, String>),
}

/// The view of what the host is to do.
pub enum LoopActionView {
    AskModel,
    Deliver(Seq<char>),
    Wait,
    CheckCancelled,
    RunTool { progress: Seq<char>, call: ToolCallView },
    Finish(Result<AgentOutcomeView, Seq<char>>),
}

impl LoopAction {
    pub open spec fn view(&self) -> LoopActionView {
        match *self {
            LoopAction::AskModel => LoopActionView::AskModel,
            LoopAction::Deliver(t) => LoopActionView::Deliver(t@),
            LoopAction::Wait => LoopActionView::Wait,
            LoopAction::CheckCancelled => LoopActionView::CheckCancelled,
            LoopAction::RunTool { progress, call } => LoopActionView::RunTool {
                progress: progress@,
                call: call@,
            },
            LoopAction::Finish(Ok(o)) => LoopActionView::Finish(Ok(o@)),
            LoopAction::Finish(Err(e)) => LoopActionView::Finish(Err(e@)),
        }
    }
}

/// The summary of a tool call that was run.
pub open spec fn action_summary(call: ToolCallView, text: Seq<char>) -> Seq<char> {
    call.name + "("@ + json_render(call.input) + ") -> "@ + text
}

/// The assistant's message for an answer that asks for tools: its text, where
/// there is one, and then every call.
pub open spec fn tool_use_message(text: Seq<char>, calls: Seq<ToolCallView>) -> AgentMessageView {
    let uses = calls.map_values(
        |c: ToolCallView|
            AgentContentView::ToolUse { id: c.id, name: c.name, input: c.input },
    );
    AgentMessageView {
        role: AgentRole::Assistant,
        content: if text.len() == 0 {
            uses
        } else {
            seq![AgentContentView::Text(text)] + uses
        },
    }
}

impl AgentRunView {
    /// The turn at its start.
    pub open spec fn start(messages: Seq<AgentMessageView>) -> AgentRunView {
        AgentRunView {
            messages,
            actions_taken: Seq::empty(),
            final_text: Seq::empty(),
            iterations_used: 0,
            phase: PhaseView::Ready,
        }
    }

    /// What holds between any two steps.
    pub open spec fn wf(self) -> bool {
        &&& self.iterations_used <= MAX_ITERATIONS
        &&& match self.phase {
            PhaseView::Ready => self.iterations_used < MAX_ITERATIONS,
            PhaseView::Streaming { .. } => self.iterations_used > 0,
            PhaseView::Calling { calls, next, results, .. } => {
                &&& self.iterations_used > 0
                &&& next < calls.len()
                &&& results.len() == next
                &&& forall|i: int|
                    0 <= i < results.len() ==> #[trigger] answers(results[i], calls[i])
                &&& self.messages.len() > 0
                &&& asks_for(self.messages.last(), calls)
            },
            PhaseView::Ended => true,
        }
    }

    /// The turn over, with the given result.
    pub open spec fn finished(self, result: Result<AgentOutcomeView, Seq<char>>) -> (
        AgentRunView,
        LoopActionView,
    ) {
        (AgentRunView { phase: PhaseView::Ended, ..self }, LoopActionView::Finish(result))
    }

    /// What the turn has come to so far.
    pub open spec fn outcome(self, pending: Option<PendingView>) -> AgentOutcomeView {
        AgentOutcomeView {
            final_text: self.final_text,
            actions_taken: self.actions_taken,
            iterations_used: self.iterations_used,
            pending_confirmation: pending,
            messages: self.messages,
        }
    }

    /// One event of the model's answer.
    pub open spec fn event_step(self, event: AgentEventView) -> (AgentRunView, LoopActionView) {
        match self.phase {
            PhaseView::Streaming { text, calls, stop_reason } => match event {
                AgentEventView::TextDelta(delta) => (
                    AgentRunView {
                        phase: PhaseView::Streaming { text: text + delta, calls, stop_reason },
                        ..self
                    },
                    LoopActionView::Deliver(delta),
                ),
                AgentEventView::ToolCallReady { id, name, input } => (
                    AgentRunView {
                        phase: PhaseView::Streaming {
                            text,
                            calls: calls.push(ToolCallView { id, name, input }),
                            stop_reason,
                        },
                        ..self
                    },
                    LoopActionView::Wait,
                ),
                AgentEventView::Done { stop_reason: reason } => (
                    AgentRunView {
                        phase: PhaseView::Streaming { text, calls, stop_reason: reason },
                        ..self
                    },
                    LoopActionView::Wait,
                ),
            },
            _ => (self, LoopActionView::Wait),
        }
    }

    /// The end of the model's answer. Without tool calls the answer stands;
    /// otherwise it becomes part of the history and its calls are run.
    pub open spec fn stream_end_step(self, result: Result<(), Seq<char>>) -> (
        AgentRunView,
        LoopActionView,
    ) {
        match self.phase {
            PhaseView::Streaming { text, calls, stop_reason } => match result {
                Err(e) => self.finished(Err(e)),
                Ok(_) => {
                    let answered = AgentRunView { final_text: text, ..self };
                    if calls.len() == 0 || stop_reason != StopReason::ToolUse {
                        answered.finished(Ok(answered.outcome(None)))
                    } else {
                        (
                            AgentRunView {
                                messages: self.messages.push(tool_use_message(text, calls)),
                                phase: PhaseView::Calling {
                                    calls,
                                    next: 0,
                                    results: Seq::empty(),
                                    running: false,
                                },
                                ..answered
                            },
                            LoopActionView::CheckCancelled,
                        )
                    }
                },
            },
            _ => (self, LoopActionView::Wait),
        }
    }

    /// The outcome of the call that was run. Its result is kept; after the
    /// last call the results become part of the history and the model is
    /// asked again, unless it was asked often enough. A call that needs
    /// consent stops the turn, without a result.
    pub open spec fn tool_step(self, outcome: ToolCallOutcomeView) -> (
        AgentRunView,
        LoopActionView,
    ) {
        match self.phase {
            PhaseView::Calling { calls, next, results, running: true } => match outcome {
                ToolCallOutcomeView::NeedsConfirmation { capability, risk, voice_prompt } => {
                    let call = calls[next as int];
                    self.finished(
                        Ok(
                            self.outcome(
                                Some(
                                    PendingView {
                                        capability,
                                        risk,
                                        voice_prompt,
                                        tool_use_id: call.id,
                                        tool_name: call.name,
                                    },
                                ),
                            ),
                        ),
                    )
                },
                ToolCallOutcomeView::Done { text, image, is_error } => {
                    let call = calls[next as int];
                    let taken = AgentRunView {
                        actions_taken: self.actions_taken.push(action_summary(call, text)),
                        ..self
                    };
                    let all = results.push(
                        AgentContentView::ToolResult {
                            tool_use_id: call.id,
                            text,
                            image,
                            is_error,
                        },
                    );
                    if next < calls.len() - 1 {
                        (
                            AgentRunView {
                                phase: PhaseView::Calling {
                                    calls,
                                    next: next + 1,
                                    results: all,
                                    running: false,
                                },
                                ..taken
                            },
                            LoopActionView::CheckCancelled,
                        )
                    } else {
                        let replied = AgentRunView {
                            messages: self.messages.push(
                                AgentMessageView { role: AgentRole::User, content: all },
                            ),
                            ..taken
                        };
                        if self.iterations_used < MAX_ITERATIONS {
                            (
                                AgentRunView { phase: PhaseView::Ready, ..replied },
                                LoopActionView::CheckCancelled,
                            )
                        } else {
                            replied.finished(Ok(replied.outcome(None)))
                        }
                    }
                },
            },
            _ => (self, LoopActionView::Wait),
        }
    }

    /// Going on. A cancelled turn ends here; otherwise the model is asked or
    /// the next call is run.
    pub open spec fn proceed_step(self, cancelled: bool) -> (AgentRunView, LoopActionView) {
        match self.phase {
            PhaseView::Ready => if cancelled {
                self.finished(Err("cancelled"@))
            } else {
                (
                    AgentRunView {
                        iterations_used: self.iterations_used + 1,
                        phase: PhaseView::Streaming {
                            text: Seq::empty(),
                            calls: Seq::empty(),
                            stop_reason: StopReason::EndTurn,
                        },
                        ..self
                    },
                    LoopActionView::AskModel,
                )
            },
            PhaseView::Calling { calls, next, results, running: false } => if cancelled {
                self.finished(Err("cancelled"@))
            } else {
                let call = calls[next as int];
                (
                    AgentRunView {
                        phase: PhaseView::Calling { calls, next, results, running: true },
                        ..self
                    },
                    LoopActionView::RunTool { progress: progress(call.name, call.input), call },
                )
            },
            _ => (self, LoopActionView::Wait),
        }
    }

    /// One step of the loop. An input that the loop does not wait for changes
    /// nothing.
    pub open spec fn step(self, input: LoopInputView) -> (AgentRunView, LoopActionView) {
        match input {
            LoopInputView::Proceed { cancelled } => self.proceed_step(cancelled),
            LoopInputView::Event(event) => self.event_step(event),
            LoopInputView::StreamEnded(result) => self.stream_end_step(result),
            LoopInputView::ToolDone(outcome) => self.tool_step(outcome),
        }
    }
}

/// A piece of a message is the result of a call.
pub open spec fn answers(piece: AgentContentView, call: ToolCallView) -> bool {
    piece matches AgentContentView::ToolResult { tool_use_id, .. } && tool_use_id == call.id
}

/// A piece of a message is the request to call a tool.
pub open spec fn requests(piece: AgentContentView, id: Seq<char>, name: Seq<char>) -> bool {
    piece matches AgentContentView::ToolUse { id: i, name: n, .. } && i == id && n == name
}

/// A piece of a message is the result of some call.
pub open spec fn is_result(piece: AgentContentView) -> bool {
    piece is ToolResult
}

/// A message is the assistant's request for the given calls.
pub open spec fn asks_for(message: AgentMessageView, calls: Seq<ToolCallView>) -> bool {
    exists|text: Seq<char>| message == #[trigger] tool_use_message(text, calls)
}

impl Phase {
    pub closed spec fn view(&self) -> PhaseView {
        match *self {
            Phase::Ready => PhaseView::Ready,
            Phase::Streaming { text, calls, stop_reason } => PhaseView::Streaming {
                text: text@,
                calls: call_views(calls@),
                stop_reason,
            },
            Phase::Calling { calls, next, results, running } => PhaseView::Calling {
                calls: call_views(calls@),
                next: next as nat,
                results: content_views(results@),
                running,
            },
            Phase::Ended => PhaseView::Ended,
        }
    }
}

/// The assistant's message for an answer that asks for tools.
fn tool_use(text: &String, calls: &Vec<ToolCall>) -> (r: AgentMessage)
    ensures
        r@ == tool_use_message(text@, call_views(calls@)),
{
    let mut content: Vec<AgentContent> = Vec::new();
    if !text.as_str().is_empty() {
        content.push(AgentContent::Text(text.clone()));
    }
    let ghost head = content_views(content@);
    let ghost lead = content@.len();
    let mut i: usize = 0;
    while i < calls.len()
        invariant
            i <= calls@.len(),
            content@.len() == lead + i,
            head.len() == lead,
            forall|j: int| 0 <= j < lead ==> (#[trigger] content@[j])@ == head[j],
            forall|j: int|
                0 <= j < i ==> (#[trigger] content@[lead + j])@ == (AgentContentView::ToolUse {
                    id: calls@[j].id@,
                    name: calls@[j].name@,
                    input: calls@[j].input@,
                }),
        decreases calls@.len() - i,
    {
        let call: &ToolCall = &calls[i];
        content.push(
            AgentContent::ToolUse {
                id: call.id.clone(),
                name: call.name.clone(),
                input: call.input.copy(),
            },
        );
        i += 1;
    }
    proof {
        let want = tool_use_message(text@, call_views(calls@)).content;
        assert forall|k: int| 0 <= k < want.len() implies content_views(content@)[k]
            == want[k] by {
            if k >= lead {
                assert(content@[lead + (k - lead)]@ == want[k]);
            }
        }
        assert(content_views(content@) =~= want);
    }
    AgentMessage::assistant(content)
}

impl AgentRun {
    pub closed spec fn view(&self) -> AgentRunView {
        AgentRunView {
            messages: message_views(self.messages@),
            actions_taken: views(self.actions_taken@),
            final_text: self.final_text@,
            iterations_used: self.iterations_used as nat,
            phase: self.phase@,
        }
    }

    /// A turn, given the history with the user's new message.
    pub fn start(messages: Vec<AgentMessage>) -> (r: AgentRun)
        ensures
            r@ == AgentRunView::start(message_views(messages@)),
            r@.wf(),
    {
        let r = AgentRun {
            messages,
            actions_taken: Vec::new(),
            final_text: String::new(),
            iterations_used: 0,
            phase: Phase::Ready,
        };
        proof {
            assert(r@.actions_taken =~= Seq::empty());
        }
        r
    }

    /// The history that the model is to be sent.
    pub fn messages(&self) -> (r: &Vec<AgentMessage>)
        ensures
            message_views(r@) == self@.messages,
    {
        &self.messages
    }

    /// What the turn has come to so far.
    fn outcome(&self, pending: Option<PendingToolConfirmation>) -> (r: AgentOutcome)
        ensures
            r@ == self@.outcome(
                match pending {
                    Some(p) => Some(p@),
                    None => None,
                },
            ),
    {
        let mut actions: Vec<String> = Vec::new();
        let mut i: usize = 0;
        while i < self.actions_taken.len()
            invariant
                i <= self.actions_taken@.len(),
                actions@.len() == i,
                forall|j: int| 0 <= j < i ==> (#[trigger] actions@[j])@ == self.actions_taken@[j]@,
            decreases self.actions_taken@.len() - i,
        {
            actions.push(self.actions_taken[i].clone());
            i += 1;
        }
        proof {
            assert(views(actions@) =~= views(self.actions_taken@));
        }
        AgentOutcome {
            final_text: self.final_text.clone(),
            actions_taken: actions,
            iterations_used: self.iterations_used,
            pending_confirmation: pending,
            messages: copy_messages(&self.messages),
        }
    }

    /// The phase, leaving `Ended` in its place.
    fn take_phase(&mut self) -> (r: Phase)
        ensures
            r@ == old(self)@.phase,
            final(self)@ == (AgentRunView { phase: PhaseView::Ended, ..old(self)@ }),
    {
        let mut phase: Phase = Phase::Ended;
        std::mem::swap(&mut self.phase, &mut phase);
        phase
    }

    fn on_event(&mut self, event: AgentEvent) -> (r: LoopAction)
        requires
            old(self)@.wf(),
        ensures
            (final(self)@, r@) == old(self)@.event_step(event@),
    {
        let phase: Phase = self.take_phase();
        match phase {
            Phase::Streaming { mut text, mut calls, stop_reason } => match event {
                AgentEvent::TextDelta(delta) => {
                    text.append(delta.as_str());
                    self.phase = Phase::Streaming { text, calls, stop_reason };
                    LoopAction::Deliver(delta)
                },
                AgentEvent::ToolCallReady { id, name, input } => {
                    let ghost before = call_views(calls@);
                    calls.push(ToolCall { id, name, input });
                    proof {
                        assert(call_views(calls@) =~= before.push(
                            ToolCallView { id: id@, name: name@, input: input@ },
                        ));
                    }
                    self.phase = Phase::Streaming { text, calls, stop_reason };
                    LoopAction::Wait
                },
                AgentEvent::Done { stop_reason: reason } => {
                    self.phase = Phase::Streaming { text, calls, stop_reason: reason };
                    LoopAction::Wait
                },
            },
            other => {
                self.phase = other;
                LoopAction::Wait
            },
        }
    }

    fn on_stream_end(&mut self, result: Result<(), String>) -> (r: LoopAction)
        requires
            old(self)@.wf(),
        ensures
            (final(self)@, r@) == old(self)@.stream_end_step(
                match result {
                    Ok(_) => Ok(()),
                    Err(e) => Err(e@),
                },
            ),
    {
        let phase: Phase = self.take_phase();
        match phase {
            Phase::Streaming { text, calls, stop_reason } => match result {
                Err(e) => LoopAction::Finish(Err(e)),
                Ok(_) => {
                    self.final_text = text.clone();
                    if calls.len() == 0 || stop_reason != StopReason::ToolUse {
                        LoopAction::Finish(Ok(self.outcome(None)))
                    } else {
                        let ghost before = message_views(self.messages@);
                        let message: AgentMessage = tool_use(&text, &calls);
                        self.messages.push(message);
                        proof {
                            assert(message_views(self.messages@) =~= before.push(message@));
                            assert(call_views(calls@).len() == calls@.len());
                            assert(asks_for(self@.messages.last(), call_views(calls@)));
                        }
                        let results: Vec<AgentContent> = Vec::new();
                        proof {
                            assert(content_views(results@) =~= Seq::empty());
                        }
                        self.phase = Phase::Calling { calls, next: 0, results, running: false };
                        LoopAction::CheckCancelled
                    }
                },
            },
            other => {
                self.phase = other;
                LoopAction::Wait
            },
        }
    }

    fn on_tool_done(&mut self, outcome: ToolCallOutcome) -> (r: LoopAction)
        requires
            old(self)@.wf(),
        ensures
            (final(self)@, r@) == old(self)@.tool_step(outcome@),
    {
        let phase: Phase = self.take_phase();
        match phase {
            Phase::Calling { calls, next, mut results, running: true } => {
                proof {
                    assert(call_views(calls@).len() == calls@.len());
                }
                match outcome {
                    ToolCallOutcome::NeedsConfirmation { capability, risk, voice_prompt } => {
                        let pending = PendingToolConfirmation {
                            capability,
                            risk,
                            voice_prompt,
                            tool_use_id: calls[next].id.clone(),
                            tool_name: calls[next].name.clone(),
                        };
                        LoopAction::Finish(Ok(self.outcome(Some(pending))))
                    },
                    ToolCallOutcome::Done { text, image, is_error } => {
                        let ghost calls_view = call_views(calls@);
                        let ghost results_before = content_views(results@);
                        let ghost actions_before = views(self.actions_taken@);
                        let mut summary: String = calls[next].name.clone();
                        summary.append("(");
                        let rendered: String = render_json(&calls[next].input);
                        summary.append(rendered.as_str());
                        summary.append(") -> ");
                        summary.append(text.as_str());
                        self.actions_taken.push(summary);
                        proof {
                            assert(views(self.actions_taken@) =~= actions_before.push(
                                action_summary(calls_view[next as int], text@),
                            ));
                        }
                        let result = AgentContent::ToolResult {
                            tool_use_id: calls[next].id.clone(),
                            text,
                            image,
                            is_error,
                        };
                        results.push(result);
                        proof {
                            assert(content_views(results@) =~= results_before.push(result@));
                            assert(answers(result@, calls_view[next as int]));
                        }
                        if next < calls.len() - 1 {
                            self.phase = Phase::Calling {
                                calls,
                                next: next + 1,
                                results,
                                running: false,
                            };
                            LoopAction::CheckCancelled
                        } else {
                            let ghost messages_before = message_views(self.messages@);
                            let message: AgentMessage = AgentMessage::tool_results(results);
                            self.messages.push(message);
                            proof {
                                assert(message_views(self.messages@) =~= messages_before.push(
                                    message@,
                                ));
                            }
                            if self.iterations_used < MAX_ITERATIONS {
                                self.phase = Phase::Ready;
                                LoopAction::CheckCancelled
                            } else {
                                LoopAction::Finish(Ok(self.outcome(None)))
                            }
                        }
                    },
                }
            },
            other => {
                self.phase = other;
                LoopAction::Wait
            },
        }
    }

    fn on_proceed(&mut self, cancelled: bool) -> (r: LoopAction)
        requires
            old(self)@.wf(),
        ensures
            (final(self)@, r@) == old(self)@.proceed_step(cancelled),
    {
        let phase: Phase = self.take_phase();
        match phase {
            Phase::Ready => if cancelled {
                LoopAction::Finish(Err("cancelled".to_owned()))
            } else {
                self.iterations_used = self.iterations_used + 1;
                let calls: Vec<ToolCall> = Vec::new();
                proof {
                    assert(call_views(calls@) =~= Seq::empty());
                }
                self.phase = Phase::Streaming {
                    text: String::new(),
                    calls,
                    stop_reason: StopReason::EndTurn,
                };
                LoopAction::AskModel
            },
            Phase::Calling { calls, next, results, running: false } => if cancelled {
                LoopAction::Finish(Err("cancelled".to_owned()))
            } else {
                proof {
                    assert(call_views(calls@).len() == calls@.len());
                }
                let call: ToolCall = calls[next].copy();
                let line: String = progress_message(call.name.as_str(), &call.input);
                self.phase = Phase::Calling { calls, next, results, running: true };
                LoopAction::RunTool { progress: line, call }
            },
            other => {
                self.phase = other;
                LoopAction::Wait
            },
        }
    }

    /// One step of the loop: takes what the host reports and says what it is
    /// to do next.
    pub fn step(&mut self, input: LoopInput) -> (r: LoopAction)
        requires
            old(self)@.wf(),
        ensures
            (final(self)@, r@) == old(self)@.step(input@),
            final(self)@.wf(),
    {
        proof {
            steps_keep_the_loop_well_formed(self@, input@);
        }
        match input {
            LoopInput::Proceed { cancelled } => self.on_proceed(cancelled),
            LoopInput::Event(event) => self.on_event(event),
            LoopInput::StreamEnded(result) => self.on_stream_end(result),
            LoopInput::ToolDone(outcome) => self.on_tool_done(outcome),
        }
    }
}

/// Every step keeps what holds between steps.
pub proof fn steps_keep_the_loop_well_formed(run: AgentRunView, input: LoopInputView)
    requires
        run.wf(),
    ensures
        run.step(input).0.wf(),
{
    match run.phase {
        PhaseView::Streaming { text, calls, .. } => {
            assert(asks_for(tool_use_message(text, calls), calls));
        },
        _ => {},
    }
}

/// The model is asked at most `MAX_ITERATIONS` times: asking it uses up one of
/// the iterations, no other step gives one back, and no step asks beyond them.
pub proof fn the_loop_is_bounded(run: AgentRunView, input: LoopInputView)
    requires
        run.wf(),
    ensures
        ({
            let (next, action) = run.step(input);
            &&& next.iterations_used == run.iterations_used + (if action is AskModel {
                1nat
            } else {
                0nat
            })
            &&& next.iterations_used <= MAX_ITERATIONS
            &&& action matches LoopActionView::Finish(Ok(o)) ==> o.iterations_used
                <= MAX_ITERATIONS
        }),
{
}

/// A turn that is found cancelled, and a turn whose answer breaks off, never
/// come to an outcome: the result is the error itself.
pub proof fn a_cancelled_turn_has_no_outcome(run: AgentRunView, message: Seq<char>)
    ensures
        run.phase is Ready || (run.phase matches PhaseView::Calling { running: false, .. })
            ==> run.step(LoopInputView::Proceed { cancelled: true }).1 == LoopActionView::Finish(
            Err("cancelled"@),
        ),
        run.phase is Streaming ==> run.step(LoopInputView::StreamEnded(Err(message))).1
            == LoopActionView::Finish(Err(message)),
{
}

/// The outcome waits for consent to a call that its last message asks for, and
/// that message holds no result.
pub open spec fn stopped_on_a_request(o: AgentOutcomeView) -> bool {
    let last = o.messages.last();
    &&& o.messages.len() > 0
    &&& last.role == AgentRole::Assistant
    &&& o.pending_confirmation is Some
    &&& exists|i: int|
        0 <= i < last.content.len() && #[trigger] requests(
            last.content[i],
            o.pending_confirmation->0.tool_use_id,
            o.pending_confirmation->0.tool_name,
        )
    &&& forall|i: int| 0 <= i < last.content.len() ==> !#[trigger] is_result(last.content[i])
}

/// A call that needs consent stops the turn on the assistant's request for it:
/// the last message asks for that call and holds no result.
pub proof fn a_paused_call_has_no_result(run: AgentRunView, outcome: ToolCallOutcomeView)
    requires
        run.wf(),
        run.phase matches PhaseView::Calling { running: true, .. },
        outcome is NeedsConfirmation,
    ensures
        match run.step(LoopInputView::ToolDone(outcome)).1 {
            LoopActionView::Finish(Ok(o)) => stopped_on_a_request(o),
            _ => false,
        },
{
    match run.phase {
        PhaseView::Calling { calls, next, .. } => {
            let last = run.messages.last();
            let text = choose|text: Seq<char>| last == #[trigger] tool_use_message(text, calls);
            let lead: int = if text.len() == 0 {
                0
            } else {
                1
            };
            let call = calls[next as int];
            assert(requests(last.content[lead + next as int], call.id, call.name));
            assert forall|i: int| 0 <= i < last.content.len() implies !#[trigger] is_result(
                last.content[i],
            ) by {
                if i >= lead {
                    assert(requests(last.content[i], calls[i - lead].id, calls[i - lead].name));
                }
            }
            match outcome {
                ToolCallOutcomeView::NeedsConfirmation { capability, risk, voice_prompt } => {
                    let pending = PendingView {
                        capability,
                        risk,
                        voice_prompt,
                        tool_use_id: call.id,
                        tool_name: call.name,
                    };
                    let action = run.step(LoopInputView::ToolDone(outcome)).1;
                    assert(action == LoopActionView::Finish(Ok(run.outcome(Some(pending)))));
                    let o = run.outcome(Some(pending));
                    assert(requests(
                        last.content[lead + next as int],
                        o.pending_confirmation->0.tool_use_id,
                        o.pending_confirmation->0.tool_name,
                    ));
                    assert(stopped_on_a_request(o));
                },
                _ => {},
            }
        },
        _ => {},
    }
}

/// When the last call of a round is done, the history gains one message with
/// exactly one result per call, in the order of the calls.
pub proof fn every_call_is_answered_in_order(
    run: AgentRunView,
    text: Seq<char>,
    image: Option<(Seq<char>, Seq<char>)>,
    is_error: bool,
)
    requires
        run.wf(),
        run.phase matches PhaseView::Calling { calls, next, running: true, .. } && next + 1
            == calls.len(),
    ensures
        ({
            let calls = run.phase->Calling_calls;
            let after = run.step(
                LoopInputView::ToolDone(ToolCallOutcomeView::Done { text, image, is_error }),
            ).0;
            &&& after.messages.drop_last() == run.messages
            &&& after.messages.last().content.len() == calls.len()
            &&& forall|i: int|
                0 <= i < calls.len() ==> #[trigger] answers(
                    after.messages.last().content[i],
                    calls[i],
                )
        }),
{
    let after = run.step(
        LoopInputView::ToolDone(ToolCallOutcomeView::Done { text, image, is_error }),
    ).0;
    assert(after.messages.drop_last() =~= run.messages);
}

/// The texts of the text deltas among some events, one after the other.
pub open spec fn delivered_text(events: Seq<AgentEventView>) -> Seq<char>
    decreases events.len(),
{
    if events.len() == 0 {
        Seq::empty()
    } else {
        match events.last() {
            AgentEventView::TextDelta(delta) => delivered_text(events.drop_last()) + delta,
            _ => delivered_text(events.drop_last()),
        }
    }
}

/// The tool calls among some events, in order.
pub open spec fn calls_among(events: Seq<AgentEventView>) -> Seq<ToolCallView>
    decreases events.len(),
{
    if events.len() == 0 {
        Seq::empty()
    } else {
        match events.last() {
            AgentEventView::ToolCallReady { id, name, input } => calls_among(
                events.drop_last(),
            ).push(ToolCallView { id, name, input }),
            _ => calls_among(events.drop_last()),
        }
    }
}

/// The reason for which an answer stopped: the one told last.
pub open spec fn reason_told(events: Seq<AgentEventView>) -> StopReason
    decreases events.len(),
{
    if events.len() == 0 {
        StopReason::EndTurn
    } else {
        match events.last() {
            AgentEventView::Done { stop_reason } => stop_reason,
            _ => reason_told(events.drop_last()),
        }
    }
}

/// The texts among the pieces of a message, one after the other.
pub open spec fn spoken_in(content: Seq<AgentContentView>) -> Seq<char>
    decreases content.len(),
{
    if content.len() == 0 {
        Seq::empty()
    } else {
        match content.last() {
            AgentContentView::Text(t) => spoken_in(content.drop_last()) + t,
            _ => spoken_in(content.drop_last()),
        }
    }
}

/// The calls that the pieces of a message ask for, in order.
pub open spec fn requested_in(content: Seq<AgentContentView>) -> Seq<ToolCallView>
    decreases content.len(),
{
    if content.len() == 0 {
        Seq::empty()
    } else {
        match content.last() {
            AgentContentView::ToolUse { id, name, input } => requested_in(
                content.drop_last(),
            ).push(ToolCallView { id, name, input }),
            _ => requested_in(content.drop_last()),
        }
    }
}

/// The turn after some inputs, one after the other.
pub open spec fn after_inputs(run: AgentRunView, inputs: Seq<LoopInputView>) -> AgentRunView
    decreases inputs.len(),
{
    if inputs.len() == 0 {
        run
    } else {
        after_inputs(run, inputs.drop_last()).step(inputs.last()).0
    }
}

/// Events as inputs of the loop.
pub open spec fn as_inputs(events: Seq<AgentEventView>) -> Seq<LoopInputView> {
    events.map_values(|e: AgentEventView| LoopInputView::Event(e))
}

proof fn an_answer_is_gathered(run: AgentRunView, events: Seq<AgentEventView>)
    requires
        run.phase is Ready,
    ensures
        ({
            let asked = run.step(LoopInputView::Proceed { cancelled: false }).0;
            after_inputs(asked, as_inputs(events)) == (AgentRunView {
                iterations_used: run.iterations_used + 1,
                phase: PhaseView::Streaming {
                    text: delivered_text(events),
                    calls: calls_among(events),
                    stop_reason: reason_told(events),
                },
                ..run
            })
        }),
    decreases events.len(),
{
    let asked = run.step(LoopInputView::Proceed { cancelled: false }).0;
    if events.len() == 0 {
        assert(as_inputs(events) =~= Seq::empty());
    } else {
        let before = events.drop_last();
        an_answer_is_gathered(run, before);
        assert(as_inputs(events).drop_last() =~= as_inputs(before));
        assert(as_inputs(events).last() == LoopInputView::Event(events.last()));
    }
}

proof fn what_a_request_holds(text: Seq<char>, calls: Seq<ToolCallView>)
    ensures
        spoken_in(tool_use_message(text, calls).content) == text,
        requested_in(tool_use_message(text, calls).content) == calls,
        forall|i: int|
            0 <= i < tool_use_message(text, calls).content.len() ==> !#[trigger] is_result(
                tool_use_message(text, calls).content[i],
            ),
    decreases calls.len(),
{
    let content = tool_use_message(text, calls).content;
    if calls.len() == 0 {
        if text.len() == 0 {
            assert(content =~= Seq::empty());
            assert(text =~= Seq::empty());
        } else {
            assert(content =~= seq![AgentContentView::Text(text)]);
            assert(content.drop_last() =~= Seq::empty());
            assert(Seq::<char>::empty() + text =~= text);
            assert(spoken_in(content.drop_last()) == Seq::<char>::empty());
            assert(requested_in(content.drop_last()) == Seq::<ToolCallView>::empty());
            assert(content.last() == AgentContentView::Text(text));
        }
        assert(calls =~= Seq::empty());
    } else {
        let before = calls.drop_last();
        what_a_request_holds(text, before);
        assert(content.drop_last() =~= tool_use_message(text, before).content);
        assert(before.push(calls.last()) =~= calls);
        let last = calls.last();
        assert(content.last() == AgentContentView::ToolUse {
            id: last.id,
            name: last.name,
            input: last.input,
        });
        let shorter = tool_use_message(text, before).content;
        assert forall|i: int| 0 <= i < content.len() implies !#[trigger] is_result(content[i]) by {
            if i < shorter.len() {
                assert(content[i] == shorter[i]);
                assert(!is_result(shorter[i]));
            }
        }
    }
}

/// What a model says reaches the outcome whole. Whatever the events of an
/// answer: every text delta is delivered as it comes; an answer that ends the
/// turn has as its final text all the deltas, one after the other, and leaves
/// the history as it was; one that asks for tools adds one message to it, the
/// assistant's, which says that same text and asks for those same calls, in
/// order.
pub proof fn an_answer_is_kept_whole(run: AgentRunView, events: Seq<AgentEventView>)
    requires
        run.phase is Ready,
    ensures
        ({
            let asked = run.step(LoopInputView::Proceed { cancelled: false });
            let heard = after_inputs(asked.0, as_inputs(events));
            let (end, action) = heard.step(LoopInputView::StreamEnded(Ok(())));
            &&& asked.1 is AskModel
            &&& asked.0.messages == run.messages
            &&& forall|e: AgentEventView| #[trigger]
                heard.step(LoopInputView::Event(e)).1 == (match e {
                    AgentEventView::TextDelta(delta) => LoopActionView::Deliver(delta),
                    _ => LoopActionView::Wait,
                })
            &&& end.final_text == delivered_text(events)
            &&& end.actions_taken == run.actions_taken
            &&& end.iterations_used == run.iterations_used + 1
            &&& if calls_among(events).len() == 0 || reason_told(events) != StopReason::ToolUse {
                match action {
                    LoopActionView::Finish(Ok(o)) => {
                        &&& o.final_text == delivered_text(events)
                        &&& o.messages == run.messages
                        &&& o.actions_taken == run.actions_taken
                        &&& o.iterations_used == run.iterations_used + 1
                        &&& o.pending_confirmation is None
                    },
                    _ => false,
                }
            } else {
                &&& action is CheckCancelled
                &&& end.messages.drop_last() == run.messages
                &&& end.messages.last().role == AgentRole::Assistant
                &&& spoken_in(end.messages.last().content) == delivered_text(events)
                &&& requested_in(end.messages.last().content) == calls_among(events)
                &&& forall|i: int|
                    0 <= i < end.messages.last().content.len() ==> !#[trigger] is_result(
                        end.messages.last().content[i],
                    )
            }
        }),
{
    an_answer_is_gathered(run, events);
    what_a_request_holds(delivered_text(events), calls_among(events));
    let asked = run.step(LoopInputView::Proceed { cancelled: false });
    let heard = after_inputs(asked.0, as_inputs(events));
    let end = heard.step(LoopInputView::StreamEnded(Ok(()))).0;
    if !(calls_among(events).len() == 0 || reason_told(events) != StopReason::ToolUse) {
        assert(end.messages.drop_last() =~= run.messages);
    }
}

/// What a call came to, where it was run.
pub struct CallAnswer {
    pub text: Seq<char>,
    pub image: Option<(Seq<char>, Seq<char>)>,
    pub is_error: bool,
}

/// What is told to the loop while the calls of a round are run, one after the
/// other, with these answers and no cancellation.
pub open spec fn round_inputs(answers: Seq<CallAnswer>) -> Seq<LoopInputView>
    decreases answers.len(),
{
    if answers.len() == 0 {
        Seq::empty()
    } else {
        let last = answers.last();
        round_inputs(answers.drop_last()).push(LoopInputView::Proceed { cancelled: false }).push(
            LoopInputView::ToolDone(
                ToolCallOutcomeView::Done {
                    text: last.text,
                    image: last.image,
                    is_error: last.is_error,
                },
            ),
        )
    }
}

proof fn a_round_is_run_in_part(
    run: AgentRunView,
    calls: Seq<ToolCallView>,
    answers: Seq<CallAnswer>,
)
    requires
        run.wf(),
        run.phase == (PhaseView::Calling {
            calls,
            next: 0,
            results: Seq::empty(),
            running: false,
        }),
        answers.len() < calls.len(),
    ensures
        ({
            let here = after_inputs(run, round_inputs(answers));
            &&& here.messages == run.messages
            &&& here.final_text == run.final_text
            &&& here.iterations_used == run.iterations_used
            &&& here.actions_taken.len() == run.actions_taken.len() + answers.len()
            &&& here.actions_taken.take(run.actions_taken.len() as int) == run.actions_taken
            &&& forall|i: int|
                0 <= i < answers.len() ==> #[trigger] here.actions_taken[run.actions_taken.len()
                    + i] == calls[i].name + "("@ + json_render(calls[i].input) + ") -> "@
                    + answers[i].text
            &&& match here.phase {
                PhaseView::Calling { calls: c, next, results, running } => {
                    &&& c == calls
                    &&& next == answers.len()
                    &&& !running
                    &&& results.len() == answers.len()
                    &&& forall|i: int|
                        0 <= i < answers.len() ==> #[trigger] results[i] == (
                        AgentContentView::ToolResult {
                            tool_use_id: calls[i].id,
                            text: answers[i].text,
                            image: answers[i].image,
                            is_error: answers[i].is_error,
                        })
                },
                _ => false,
            }
        }),
    decreases answers.len(),
{
    let n = run.actions_taken.len() as int;
    if answers.len() == 0 {
        assert(run.actions_taken.take(n) =~= run.actions_taken);
    } else {
        let before = answers.drop_last();
        a_round_is_run_in_part(run, calls, before);
        let there = after_inputs(run, round_inputs(before));
        let inputs = round_inputs(answers);
        let half = inputs.drop_last();
        assert(half.drop_last() =~= round_inputs(before));
        assert(after_inputs(run, half) == there.step(half.last()).0);
        let here = after_inputs(run, inputs);
        assert(here == after_inputs(run, half).step(inputs.last()).0);
        assert(here.actions_taken.take(n) =~= there.actions_taken.take(n));
        assert forall|i: int| 0 <= i < answers.len() implies #[trigger] here.actions_taken[n + i]
            == calls[i].name + "("@ + json_render(calls[i].input) + ") -> "@ + answers[i].text by {
            if i < before.len() {
                assert(here.actions_taken[n + i] == there.actions_taken[n + i]);
                assert(before[i] == answers[i]);
            }
        }
    }
}

/// A round of calls is run as it was asked for: the first call is run first,
/// with its own input and the line that says what is going on; each call gets
/// its own answer, under its own identifier, with its picture and whether it
/// failed; all of them stand, in order, in one message of the user's; and each
/// is put on record under its name and its input.
pub proof fn a_round_is_run_as_asked(
    run: AgentRunView,
    calls: Seq<ToolCallView>,
    answers: Seq<CallAnswer>,
    at: int,
)
    requires
        run.wf(),
        run.phase == (PhaseView::Calling {
            calls,
            next: 0,
            results: Seq::empty(),
            running: false,
        }),
        answers.len() == calls.len(),
        0 <= at < calls.len(),
    ensures
        ({
            let here = after_inputs(run, round_inputs(answers.take(at)));
            here.step(LoopInputView::Proceed { cancelled: false }).1 == LoopActionView::RunTool {
                progress: progress(calls[at].name, calls[at].input),
                call: calls[at],
            }
        }),
        ({
            let done = after_inputs(run, round_inputs(answers));
            let told = done.messages.last();
            let before = run.actions_taken.len() as int;
            &&& done.messages.drop_last() == run.messages
            &&& told.role == AgentRole::User
            &&& told.content.len() == calls.len()
            &&& told.content[at] == (AgentContentView::ToolResult {
                tool_use_id: calls[at].id,
                text: answers[at].text,
                image: answers[at].image,
                is_error: answers[at].is_error,
            })
            &&& done.actions_taken.len() == before + calls.len()
            &&& done.actions_taken[before + at] == calls[at].name + "("@ + json_render(
                calls[at].input,
            ) + ") -> "@ + answers[at].text
            &&& done.final_text == run.final_text
            &&& done.iterations_used == run.iterations_used
            &&& done.phase is Ready <==> run.iterations_used < MAX_ITERATIONS
            &&& !(done.phase is Ready) ==> done.phase is Ended
        }),
{
    a_round_is_run_in_part(run, calls, answers.take(at));
    let before = answers.drop_last();
    a_round_is_run_in_part(run, calls, before);
    let there = after_inputs(run, round_inputs(before));
    let inputs = round_inputs(answers);
    let half = inputs.drop_last();
    assert(half.drop_last() =~= round_inputs(before));
    assert(after_inputs(run, half) == there.step(half.last()).0);
    let done = after_inputs(run, inputs);
    assert(done == after_inputs(run, half).step(inputs.last()).0);
    assert(done.messages.drop_last() =~= run.messages);
    let n = run.actions_taken.len() as int;
    if at < before.len() {
        assert(done.actions_taken[n + at] == there.actions_taken[n + at]);
        assert(before[at] == answers[at]);
    }
}

/// What a call comes to is what running it gave: its text, or its picture with
/// the bytes in base64, or its failure in its own words; a picture is told of as
/// a screenshot.
pub proof fn a_call_comes_to_what_it_gave(
    text: String,
    media_type: &'static str,
    png_bytes: Vec<u8>,
    error: String,
)
    ensures
        call_outcome(Ok(ToolOutcome::Text(text))) matches ToolCallOutcomeView::Done {
            text: t,
            image: None,
            is_error: false,
        } && t == text@,
        call_outcome(Ok(ToolOutcome::Image { media_type, png_bytes })) matches ToolCallOutcomeView::Done {
            image: Some(shown),
            is_error: false,
            ..
        } && shown == (media_type@, base64_standard(png_bytes@)),
        call_outcome(Err(error)) matches ToolCallOutcomeView::Done {
            text: t,
            image: None,
            is_error: true,
        } && t == error@,
{
}

/// What the contracts say of a value is said of its fields, each under its own name.
pub proof fn each_field_is_seen_as_it_is(
    pending: PendingToolConfirmation,
    outcome: AgentOutcome,
)
    ensures
        pending@.capability == pending.capability@,
        pending@.risk == pending.risk,
        pending@.voice_prompt == pending.voice_prompt@,
        pending@.tool_use_id == pending.tool_use_id@,
        pending@.tool_name == pending.tool_name@,
        outcome@.final_text == outcome.final_text@,
        outcome@.actions_taken == views(outcome.actions_taken@),
        outcome@.iterations_used == outcome.iterations_used as nat,
        outcome.pending_confirmation matches Some(v) ==> outcome@.pending_confirmation == Some(v@),
        outcome.pending_confirmation is None ==> outcome@.pending_confirmation is None,
        outcome@.messages == message_views(outcome.messages@),
{
}

/// A call that needs consent ends the turn with that call on hold: what it would
/// do, how risky it is, what the user is asked, and the identifier and the name of
/// the very call that was run; nothing is put on record for it.
pub proof fn the_call_that_was_run_is_put_on_hold(
    run: AgentRunView,
    capability: Capability<Seq<char>>,
    risk: RiskLevel,
    voice_prompt: Seq<char>,
)
    requires
        run.wf(),
        run.phase matches PhaseView::Calling { running: true, .. },
    ensures
        ({
            let calls = run.phase->Calling_calls;
            let next = run.phase->Calling_next as int;
            match run.step(
                LoopInputView::ToolDone(
                    ToolCallOutcomeView::NeedsConfirmation { capability, risk, voice_prompt },
                ),
            ).1 {
                LoopActionView::Finish(Ok(o)) => {
                    &&& o.pending_confirmation is Some
                    &&& o.pending_confirmation->Some_0.capability == capability
                    &&& o.pending_confirmation->Some_0.risk == risk
                    &&& o.pending_confirmation->Some_0.voice_prompt == voice_prompt
                    &&& o.pending_confirmation->Some_0.tool_use_id == calls[next].id
                    &&& o.pending_confirmation->Some_0.tool_name == calls[next].name
                    &&& o.actions_taken == run.actions_taken
                    &&& o.messages == run.messages
                    &&& o.final_text == run.final_text
                },
                _ => false,
            }
        }),
{
}

} // verus!
