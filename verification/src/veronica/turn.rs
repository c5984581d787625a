//! One turn of the conversation as a state machine: a reply to a request for
//! consent, a language that is not understood, an obvious command, or a
//! question to the model.
//!
//! The host carries out the effects of each step in their order, does what the
//! step asks for, and hands back what came of it.
use vstd::prelude::*;
use vstd::string::*;

use crate::actions::{Capability, RiskLevel};
use crate::agent::orchestrator::{
    AgentOutcome, AgentOutcomeView, PendingView, ToolOutcome,
};
use crate::agent::types::{
    content_views, message_views, AgentContent, AgentContentView, AgentMessage,
    AgentMessageView, AgentRole,
};
use crate::json::opt_view;
use crate::text::{same, trim, views};
use crate::tts::chunker::{released, ChunkerView, SentenceChunker};
use crate::veronica::{
    build_question_messages, confirmation_summary, consent_question, dispatch_task_control,
    question_messages, risk_wire_label, risk_word, task_completed, task_controlled, turn_views,
    AskOptions, PriorTurn,
};
use crate::working_state::{newer, WorkingState, WorkingStateView};

verus! {

/// An action that was withheld until the user consents to it. Where the agent
/// loop asked for it, its history and its call are kept, so that the loop can
/// go on.
#[derive(Debug, Clone)]
pub struct PendingConfirmation {
    pub turn_id: String,
    pub capability: Capability<String>,
    pub risk: RiskLevel,
    pub messages: Vec<AgentMessage>,
    pub tool_use_id: String,
    pub tool_name: String,
}

/// The view of an action that was withheld.
pub struct WithheldView {
    pub turn_id: Seq<char>,
    pub capability: Capability<Seq<char>>,
    pub risk: RiskLevel,
    pub messages: Seq<AgentMessageView>,
    pub tool_use_id: Seq<char>,
    pub tool_name: Seq<char>,
}

impl PendingConfirmation {
    pub open spec fn view(&self) -> WithheldView {
        WithheldView {
            turn_id: self.turn_id@,
            capability: self.capability@,
            risk: self.risk,
            messages: message_views(self.messages@),
            tool_use_id: self.tool_use_id@,
            tool_name: self.tool_name@,
        }
    }
}

/// What the assistant keeps from turn to turn.
#[derive(Debug)]
pub struct Assistant {
    pub working: WorkingState,
    pub pending: Option<PendingConfirmation>,
}

/// The view of what the assistant keeps.
pub struct AssistantView {
    pub working: WorkingStateView,
    pub pending: Option<WithheldView>,
}

impl Assistant {
    pub open spec fn view(&self) -> AssistantView {
        AssistantView {
            working: self.working@,
            pending: match self.pending {
                Some(p) => Some(p@),
                None => None,
            },
        }
    }
}

impl Default for Assistant {
    fn default() -> (r: Assistant)
        ensures
            r@.pending is None,
            WorkingState::default.ensures((), r.working),
    {
        Assistant { working: WorkingState::default(), pending: None }
    }
}

/// What the user is shown of a turn.
#[derive(Debug, Clone, PartialEq, Eq)]
pub enum TurnEvent<S> {
    ThinkingStart,
    LanguageDetected { language: S },
    ActionStart { action: S },
    ActionComplete,
    ConfirmationRequested { summary: S, detail: S, risk: S },
    AnswerDelta { delta: S },
    AnswerComplete { answer: S, cancelled: bool },
    Error { message: S },
}

impl TurnEvent<String> {
    /// The view: the same event over character sequences.
    pub open spec fn view(&self) -> TurnEvent<Seq<char>> {
        match *self {
            TurnEvent::ThinkingStart => TurnEvent::ThinkingStart,
            TurnEvent::LanguageDetected { language } => TurnEvent::LanguageDetected {
                language: language@,
            },
            TurnEvent::ActionStart { action } => TurnEvent::ActionStart { action: action@ },
            TurnEvent::ActionComplete => TurnEvent::ActionComplete,
            TurnEvent::ConfirmationRequested { summary, detail, risk } => {
                TurnEvent::ConfirmationRequested {
                    summary: summary@,
                    detail: detail@,
                    risk: risk@,
                }
            },
            TurnEvent::AnswerDelta { delta } => TurnEvent::AnswerDelta { delta: delta@ },
            TurnEvent::AnswerComplete { answer, cancelled } => TurnEvent::AnswerComplete {
                answer: answer@,
                cancelled,
            },
            TurnEvent::Error { message } => TurnEvent::Error { message: message@ },
        }
    }

    /// The name under which the event is sent.
    pub fn channel(&self) -> (r: &'static str)
        ensures
            r@ == channel_name(self@),
    {
        match self {
            TurnEvent::ThinkingStart => "veronica:thinking-start",
            TurnEvent::LanguageDetected { .. } => "veronica:language-detected",
            TurnEvent::ActionStart { .. } => "veronica:action-start",
            TurnEvent::ActionComplete => "veronica:action-complete",
            TurnEvent::ConfirmationRequested { .. } => "veronica:confirmation-requested",
            TurnEvent::AnswerDelta { .. } => "veronica:answer-delta",
            TurnEvent::AnswerComplete { .. } => "veronica:answer-complete",
            TurnEvent::Error { .. } => "veronica:error",
        }
    }
}

/// The name under which an event is sent.
pub open spec fn channel_name(event: TurnEvent<Seq<char>>) -> Seq<char> {
    match event {
        TurnEvent::ThinkingStart => "veronica:thinking-start"@,
        TurnEvent::LanguageDetected { .. } => "veronica:language-detected"@,
        TurnEvent::ActionStart { .. } => "veronica:action-start"@,
        TurnEvent::ActionComplete => "veronica:action-complete"@,
        TurnEvent::ConfirmationRequested { .. } => "veronica:confirmation-requested"@,
        TurnEvent::AnswerDelta { .. } => "veronica:answer-delta"@,
        TurnEvent::AnswerComplete { .. } => "veronica:answer-complete"@,
        TurnEvent::Error { .. } => "veronica:error"@,
    }
}

/// What a turn does to the world around it.
#[derive(Debug, Clone, PartialEq, Eq)]
pub enum Effect<S> {
    /// An event of a turn is shown.
    Emit { turn_id: S, event: TurnEvent<S> },
    /// A turn is put on record.
    CreateTurn { turn_id: S, text: S },
    /// More of an answer is put on record.
    AppendDelta { turn_id: S, delta: S },
    /// A turn on record is closed.
    CompleteTurn { turn_id: S, answer: S, cancelled: bool },
    /// Whatever is being spoken is stopped.
    StopSpeech,
    /// A text is spoken as a whole answer.
    SpeakNow(S),
    /// A text is spoken as a part of an answer.
    Speak(S),
    /// The spoken answer is at its end.
    FinishSpeech,
}

impl Effect<String> {
    /// The view: the same effect over character sequences.
    pub open spec fn view(&self) -> Effect<Seq<char>> {
        match *self {
            Effect::Emit { turn_id, event } => Effect::Emit { turn_id: turn_id@, event: event@ },
            Effect::CreateTurn { turn_id, text } => Effect::CreateTurn {
                turn_id: turn_id@,
                text: text@,
            },
            Effect::AppendDelta { turn_id, delta } => Effect::AppendDelta {
                turn_id: turn_id@,
                delta: delta@,
            },
            Effect::CompleteTurn { turn_id, answer, cancelled } => Effect::CompleteTurn {
                turn_id: turn_id@,
                answer: answer@,
                cancelled,
            },
            Effect::StopSpeech => Effect::StopSpeech,
            Effect::SpeakNow(t) => Effect::SpeakNow(t@),
            Effect::Speak(t) => Effect::Speak(t@),
            Effect::FinishSpeech => Effect::FinishSpeech,
        }
    }
}

/// The views of a sequence of effects.
pub open spec fn effect_views(effects: Seq<Effect<String>>) -> Seq<Effect<Seq<char>>> {
    effects.map_values(|e: Effect<String>| e@)
}

/// No effects.
fn no_effects() -> (r: Vec<Effect<String>>)
    ensures
        effect_views(r@) == Seq::<Effect<Seq<char>>>::empty(),
{
    let r: Vec<Effect<String>> = Vec::new();
    proof {
        assert(effect_views(r@) =~= Seq::empty());
    }
    r
}

fn push_effect(effects: &mut Vec<Effect<String>>, effect: Effect<String>)
    ensures
        effect_views(final(effects)@) == effect_views(old(effects)@).push(effect@),
{
    effects.push(effect);
    proof {
        assert(effect_views(effects@) =~= effect_views(old(effects)@).push(effect@));
    }
}

/// What a turn asks for next.
#[derive(Debug)]
pub enum TurnRequest {
    /// Is the text a yes or a no?
    ClassifyReply,
    /// What language is the text in?
    DetectLanguage,
    /// Is the text an obvious command?
    MatchRoute,
    /// An action is run.
    Execute { capability: Capability<String>, confirmed: bool },
    /// A client of the named provider is made.
    MakeClient { provider: Option<String> },
    /// The agent loop is run, as a turn of its own where `fresh` says so. Until
    /// it ends, its deltas and its progress are handed back.
    RunAgent { messages: Vec<AgentMessage>, fresh: bool },
    /// The agent loop goes on.
    Wait,
    /// The turn is over.
    Finished(Result<String, String>),
}

/// The view of what a turn asks for.
pub enum TurnRequestView {
    ClassifyReply,
    DetectLanguage,
    MatchRoute,
    Execute { capability: Capability<Seq<char>>, confirmed: bool },
    MakeClient { provider: Option<Seq<char>> },
    RunAgent { messages: Seq<AgentMessageView>, fresh: bool },
    Wait,
    Finished(Result<Seq<char>, Seq<char>>),
}

impl TurnRequest {
    pub open spec fn view(&self) -> TurnRequestView {
        match *self {
            TurnRequest::ClassifyReply => TurnRequestView::ClassifyReply,
            TurnRequest::DetectLanguage => TurnRequestView::DetectLanguage,
            TurnRequest::MatchRoute => TurnRequestView::MatchRoute,
            TurnRequest::Execute { capability, confirmed } => TurnRequestView::Execute {
                capability: capability@,
                confirmed,
            },
            TurnRequest::MakeClient { provider } => TurnRequestView::MakeClient {
                provider: opt_view(provider),
            },
            TurnRequest::RunAgent { messages, fresh } => TurnRequestView::RunAgent {
                messages: message_views(messages@),
                fresh,
            },
            TurnRequest::Wait => TurnRequestView::Wait,
            TurnRequest::Finished(Ok(t)) => TurnRequestView::Finished(Ok(t@)),
            TurnRequest::Finished(Err(e)) => TurnRequestView::Finished(Err(e@)),
        }
    }
}

/// A step of a turn: what it does, and what it asks for.
#[derive(Debug)]
pub struct TurnStep {
    pub effects: Vec<Effect<String>>,
    pub request: TurnRequest,
}

/// The view of a step.
pub struct TurnStepView {
    pub effects: Seq<Effect<Seq<char>>>,
    pub request: TurnRequestView,
}

impl TurnStep {
    pub open spec fn view(&self) -> TurnStepView {
        TurnStepView { effects: effect_views(self.effects@), request: self.request@ }
    }
}

/// What was found of the language of a text.
#[derive(Debug, Clone, Copy, PartialEq, Eq, Structural)]
pub enum LanguageDecision {
    Supported,
    /// It is another language.
    Unsupported,
    /// It is hardly a text at all.
    LowConfidence,
}

/// What an action says of the things it was about.
#[derive(Debug, Clone)]
pub struct ContextUpdate {
    pub app: Option<String>,
    pub window: Option<String>,
    pub file: Option<String>,
    pub folder: Option<String>,
}

/// What came of a request.
#[derive(Debug)]
pub enum TurnInput {
    Reply(Option<bool>),
    /// With what is said where the language is not supported, and where the
    /// text is not understood.
    Language {
        code: String,
        decision: LanguageDecision,
        rejection: String,
        clarification: String,
    },
    /// The command, if there is one, and its description.
    Route(Option<(Capability<String>, String)>),
    /// The outcome of an action, its description, and what it was about.
    Executed { outcome: Result<ToolOutcome, String>, described: String, update: ContextUpdate },
    /// The name that the assistant goes by, if there is a client.
    Client(Result<String, String>),
    Delta(String),
    Progress(String),
    AgentDone(Result<AgentOutcome, String>),
}

/// What an action came to.
pub enum ActionResult {
    Said { text: Seq<char>, is_error: bool },
    Withheld { capability: Capability<Seq<char>>, risk: RiskLevel, voice_prompt: Seq<char> },
}

/// What an action came to: a text, or that it was withheld.
pub open spec fn action_result(outcome: Result<ToolOutcome, String>) -> ActionResult {
    match outcome {
        Ok(ToolOutcome::Text(text)) => ActionResult::Said { text: text@, is_error: false },
        Ok(ToolOutcome::Image { .. }) => ActionResult::Said { text: "Done."@, is_error: false },
        Ok(ToolOutcome::NeedsConfirmation { capability, risk, voice_prompt }) => {
            ActionResult::Withheld { capability: capability@, risk, voice_prompt: voice_prompt@ }
        },
        Err(e) => ActionResult::Said { text: e@, is_error: true },
    }
}

/// The view of what came of a request.
pub enum TurnInputView {
    Reply(Option<bool>),
    Language {
        code: Seq<char>,
        decision: LanguageDecision,
        rejection: Seq<char>,
        clarification: Seq<char>,
    },
    Route(Option<(Capability<Seq<char>>, Seq<char>)>),
    Executed { result: ActionResult, described: Seq<char>, update: ContextUpdate },
    Client(Result<Seq<char>, Seq<char>>),
    Delta(Seq<char>),
    Progress(Seq<char>),
    AgentDone(Result<AgentOutcomeView, Seq<char>>),
}

impl TurnInput {
    pub open spec fn view(&self) -> TurnInputView {
        match *self {
            TurnInput::Reply(r) => TurnInputView::Reply(r),
            TurnInput::Language { code, decision, rejection, clarification } => {
                TurnInputView::Language {
                    code: code@,
                    decision,
                    rejection: rejection@,
                    clarification: clarification@,
                }
            },
            TurnInput::Route(Some(pair)) => TurnInputView::Route(Some((pair.0@, pair.1@))),
            TurnInput::Route(None) => TurnInputView::Route(None),
            TurnInput::Executed { outcome, described, update } => TurnInputView::Executed {
                result: action_result(outcome),
                described: described@,
                update,
            },
            TurnInput::Client(Ok(name)) => TurnInputView::Client(Ok(name@)),
            TurnInput::Client(Err(e)) => TurnInputView::Client(Err(e@)),
            TurnInput::Delta(d) => TurnInputView::Delta(d@),
            TurnInput::Progress(m) => TurnInputView::Progress(m@),
            TurnInput::AgentDone(Ok(o)) => TurnInputView::AgentDone(Ok(o@)),
            TurnInput::AgentDone(Err(e)) => TurnInputView::AgentDone(Err(e@)),
        }
    }
}

/// Where a turn stands.
#[derive(Debug)]
enum Stage {
    /// The text may be the reply to a request for consent.
    Replying(PendingConfirmation),
    Listening,
    Routing,
    /// A command is run.
    Acting,
    /// An action is run that the user consented to.
    Confirmed { turn_id: String, messages: Vec<AgentMessage>, tool_use_id: String },
    Connecting,
    Answering,
    /// The agent loop that was stopped is about to go on.
    Reconnecting { turn_id: String, messages: Vec<AgentMessage>, result: String },
    Resuming { turn_id: String, result: String },
    Ended,
}

/// The view of where a turn stands.
pub enum StageView {
    Replying(WithheldView),
    Listening,
    Routing,
    Acting,
    Confirmed { turn_id: Seq<char>, messages: Seq<AgentMessageView>, tool_use_id: Seq<char> },
    Connecting,
    Answering,
    Reconnecting { turn_id: Seq<char>, messages: Seq<AgentMessageView>, result: Seq<char> },
    Resuming { turn_id: Seq<char>, result: Seq<char> },
    Ended,
}

impl Stage {
    pub closed spec fn view(&self) -> StageView {
        match *self {
            Stage::Replying(p) => StageView::Replying(p@),
            Stage::Listening => StageView::Listening,
            Stage::Routing => StageView::Routing,
            Stage::Acting => StageView::Acting,
            Stage::Confirmed { turn_id, messages, tool_use_id } => StageView::Confirmed {
                turn_id: turn_id@,
                messages: message_views(messages@),
                tool_use_id: tool_use_id@,
            },
            Stage::Connecting => StageView::Connecting,
            Stage::Answering => StageView::Answering,
            Stage::Reconnecting { turn_id, messages, result } => StageView::Reconnecting {
                turn_id: turn_id@,
                messages: message_views(messages@),
                result: result@,
            },
            Stage::Resuming { turn_id, result } => StageView::Resuming {
                turn_id: turn_id@,
                result: result@,
            },
            Stage::Ended => StageView::Ended,
        }
    }
}

/// One turn: the text that was said, how it is to be answered, and how far it
/// has come.
#[derive(Debug)]
pub struct Turn {
    id: String,
    text: String,
    options: AskOptions,
    history: Vec<PriorTurn>,
    voice: bool,
    chunker: SentenceChunker,
    stage: Stage,
}

/// The view of a turn.
pub struct TurnView {
    pub id: Seq<char>,
    pub text: Seq<char>,
    pub options: AskOptions,
    pub history: Seq<(Seq<char>, Seq<char>)>,
    /// Whether the turn is spoken.
    pub voice: bool,
    /// What has come of the answer and is not spoken yet.
    pub chunker: ChunkerView,
    pub stage: StageView,
}

/// A text that is spoken as a whole answer, where the turn is spoken, and
/// shown.
pub open spec fn said(voice: bool, turn_id: Seq<char>, text: Seq<char>) -> Seq<Effect<Seq<char>>> {
    let shown = Effect::Emit { turn_id, event: TurnEvent::AnswerDelta { delta: text } };
    if voice {
        seq![Effect::SpeakNow(text), shown]
    } else {
        seq![shown]
    }
}

/// Consent to an action is asked for.
pub open spec fn asked(voice: bool, withheld: WithheldView, prompt: Seq<char>) -> Seq<
    Effect<Seq<char>>,
> {
    seq![
        Effect::Emit {
            turn_id: withheld.turn_id,
            event: TurnEvent::ConfirmationRequested {
                summary: consent_question(withheld.capability),
                detail: prompt,
                risk: risk_word(withheld.risk),
            },
        },
    ] + said(voice, withheld.turn_id, prompt)
}

/// Parts of an answer are spoken.
pub open spec fn spoken(chunks: Seq<Seq<char>>) -> Seq<Effect<Seq<char>>> {
    chunks.map_values(|c: Seq<char>| Effect::Speak(c))
}

/// What was not spoken yet of an answer is spoken.
pub open spec fn trailing(voice: bool, chunker: ChunkerView) -> Seq<Effect<Seq<char>>> {
    if voice && trim(chunker.buffer).len() > 0 {
        seq![Effect::Speak(trim(chunker.buffer))]
    } else {
        Seq::empty()
    }
}

/// The state with what an action was about.
pub open spec fn noted(working: WorkingStateView, update: ContextUpdate) -> WorkingStateView {
    WorkingStateView {
        current_app: newer(opt_view(update.app), working.current_app),
        current_window: newer(opt_view(update.window), working.current_window),
        current_file: newer(opt_view(update.file), working.current_file),
        current_folder: newer(opt_view(update.folder), working.current_folder),
        ..working
    }
}

/// The state with some actions on record, all with the same result.
pub open spec fn all_recorded(
    working: WorkingStateView,
    actions: Seq<Seq<char>>,
    result: Seq<char>,
) -> WorkingStateView
    decreases actions.len(),
{
    if actions.len() == 0 {
        working
    } else {
        all_recorded(working, actions.drop_last(), result).recorded(actions.last(), result)
    }
}

/// The result of a call, as the agent loop is told of it.
pub open spec fn confirmed_result(
    tool_use_id: Seq<char>,
    text: Seq<char>,
    is_error: bool,
) -> AgentMessageView {
    AgentMessageView {
        role: AgentRole::User,
        content: seq![AgentContentView::ToolResult { tool_use_id, text, image: None, is_error }],
    }
}

/// The call that stopped the agent loop, withheld.
pub open spec fn withheld_call(
    turn_id: Seq<char>,
    call: PendingView,
    messages: Seq<AgentMessageView>,
) -> WithheldView {
    WithheldView {
        turn_id,
        capability: call.capability,
        risk: call.risk,
        messages,
        tool_use_id: call.tool_use_id,
        tool_name: call.tool_name,
    }
}

/// A command that was withheld.
pub open spec fn withheld_command(
    turn_id: Seq<char>,
    capability: Capability<Seq<char>>,
    risk: RiskLevel,
) -> WithheldView {
    WithheldView {
        turn_id,
        capability,
        risk,
        messages: Seq::empty(),
        tool_use_id: Seq::empty(),
        tool_name: Seq::empty(),
    }
}

/// A turn after a step.
pub struct Moved {
    pub assistant: AssistantView,
    pub turn: TurnView,
    pub step: TurnStepView,
}

impl TurnView {
    /// The turn ends.
    pub open spec fn ends(
        self,
        assistant: AssistantView,
        effects: Seq<Effect<Seq<char>>>,
        result: Result<Seq<char>, Seq<char>>,
    ) -> Moved {
        Moved {
            assistant,
            turn: TurnView { stage: StageView::Ended, ..self },
            step: TurnStepView { effects, request: TurnRequestView::Finished(result) },
        }
    }

    /// The turn goes on.
    pub open spec fn goes_on(
        self,
        assistant: AssistantView,
        stage: StageView,
        effects: Seq<Effect<Seq<char>>>,
        request: TurnRequestView,
    ) -> Moved {
        Moved {
            assistant,
            turn: TurnView { stage, ..self },
            step: TurnStepView { effects, request },
        }
    }

    /// The beginning of a turn. What was withheld before is taken up, or
    /// forgotten.
    pub open spec fn begin(self, assistant: AssistantView) -> Moved {
        let cleared = AssistantView { pending: None, ..assistant };
        match assistant.pending {
            Some(p) => self.goes_on(
                cleared,
                StageView::Replying(p),
                Seq::empty(),
                TurnRequestView::ClassifyReply,
            ),
            None => self.goes_on(
                cleared,
                StageView::Listening,
                Seq::empty(),
                TurnRequestView::DetectLanguage,
            ),
        }
    }

    /// The user's consent, or refusal. What is refused ends the task at hand.
    pub open spec fn resolve(
        self,
        assistant: AssistantView,
        withheld: WithheldView,
        approved: bool,
    ) -> Moved {
        if approved {
            self.goes_on(
                assistant,
                StageView::Confirmed {
                    turn_id: withheld.turn_id,
                    messages: withheld.messages,
                    tool_use_id: withheld.tool_use_id,
                },
                Seq::empty(),
                TurnRequestView::Execute { capability: withheld.capability, confirmed: true },
            )
        } else {
            let text = "Okay, I won't do that."@;
            self.ends(
                AssistantView { working: task_completed(assistant.working), ..assistant },
                said(self.voice, withheld.turn_id, text),
                Ok(text),
            )
        }
    }

    /// The language of the text. What is not understood goes no further.
    pub open spec fn language(
        self,
        assistant: AssistantView,
        code: Seq<char>,
        answer: Option<Seq<char>>,
    ) -> Moved {
        let shown = seq![
            Effect::Emit {
                turn_id: self.id,
                event: TurnEvent::LanguageDetected { language: code },
            },
        ];
        match answer {
            Some(text) => self.ends(
                assistant,
                shown + said(self.voice, self.id, text),
                Ok(text),
            ),
            None => self.goes_on(
                assistant,
                StageView::Routing,
                shown,
                TurnRequestView::MatchRoute,
            ),
        }
    }

    /// An obvious command, or a question to the model.
    pub open spec fn route(
        self,
        assistant: AssistantView,
        command: Option<(Capability<Seq<char>>, Seq<char>)>,
    ) -> Moved {
        match command {
            Some((Capability::TaskControl(op), _)) => {
                let controlled = task_controlled(assistant.working, op);
                self.ends(
                    AssistantView { working: controlled.0, ..assistant },
                    said(self.voice, self.id, controlled.1),
                    Ok(controlled.1),
                )
            },
            Some((capability, described)) => self.goes_on(
                assistant,
                StageView::Acting,
                seq![
                    Effect::Emit {
                        turn_id: self.id,
                        event: TurnEvent::ActionStart { action: described },
                    },
                ],
                TurnRequestView::Execute { capability, confirmed: false },
            ),
            None => self.goes_on(
                assistant,
                StageView::Connecting,
                Seq::empty(),
                TurnRequestView::MakeClient { provider: opt_view(self.options.llm_provider) },
            ),
        }
    }

    /// A command was run, or withheld.
    pub open spec fn acted(
        self,
        assistant: AssistantView,
        result: ActionResult,
        described: Seq<char>,
        update: ContextUpdate,
    ) -> Moved {
        let shown = seq![Effect::Emit { turn_id: self.id, event: TurnEvent::ActionComplete }];
        match result {
            ActionResult::Withheld { capability, risk, voice_prompt } => {
                let withheld = withheld_command(self.id, capability, risk);
                self.ends(
                    AssistantView { pending: Some(withheld), ..assistant },
                    shown + asked(self.voice, withheld, voice_prompt),
                    Ok(voice_prompt),
                )
            },
            ActionResult::Said { text, .. } => self.ends(
                AssistantView {
                    working: noted(assistant.working.recorded(described, text), update),
                    ..assistant
                },
                shown + said(self.voice, self.id, text),
                Ok(text),
            ),
        }
    }

    /// An action that the user consented to was run. If the agent loop asked
    /// for it, the loop goes on with its result.
    pub open spec fn confirmed(
        self,
        assistant: AssistantView,
        turn_id: Seq<char>,
        messages: Seq<AgentMessageView>,
        tool_use_id: Seq<char>,
        result: ActionResult,
        described: Seq<char>,
        update: ContextUpdate,
    ) -> Moved {
        let text = result->text;
        let is_error = result->is_error;
        let after = AssistantView {
            working: noted(assistant.working.recorded(described, text), update),
            ..assistant
        };
        if tool_use_id.len() == 0 {
            self.ends(after, said(self.voice, turn_id, text), Ok(text))
        } else {
            self.goes_on(
                after,
                StageView::Reconnecting {
                    turn_id,
                    messages: messages.push(confirmed_result(tool_use_id, text, is_error)),
                    result: text,
                },
                Seq::empty(),
                TurnRequestView::MakeClient { provider: None },
            )
        }
    }

    /// There is a client for the agent loop to go on with, or the result of the
    /// action is the answer.
    pub open spec fn reconnected(
        self,
        assistant: AssistantView,
        turn_id: Seq<char>,
        messages: Seq<AgentMessageView>,
        result: Seq<char>,
        has_client: bool,
    ) -> Moved {
        if has_client {
            self.goes_on(
                assistant,
                StageView::Resuming { turn_id, result },
                Seq::empty(),
                TurnRequestView::RunAgent { messages, fresh: true },
            )
        } else {
            self.ends(assistant, Seq::empty(), Ok(result))
        }
    }

    /// More of the answer of the agent loop that went on comes in: it is shown.
    pub open spec fn resuming_delta(
        self,
        assistant: AssistantView,
        turn_id: Seq<char>,
        result: Seq<char>,
        delta: Seq<char>,
    ) -> Moved {
        self.goes_on(
            assistant,
            StageView::Resuming { turn_id, result },
            seq![Effect::Emit { turn_id, event: TurnEvent::AnswerDelta { delta } }],
            TurnRequestView::Wait,
        )
    }

    /// There is a client, or there is none.
    pub open spec fn connected(
        self,
        assistant: AssistantView,
        client: Result<Seq<char>, Seq<char>>,
    ) -> Moved {
        match client {
            Ok(name) => self.goes_on(
                assistant,
                StageView::Answering,
                Seq::empty(),
                TurnRequestView::RunAgent {
                    messages: question_messages(
                        self.text,
                        self.options,
                        self.history,
                        assistant.working,
                        name,
                    ),
                    fresh: false,
                },
            ),
            Err(e) => self.ends(assistant, Seq::empty(), Err(e)),
        }
    }

    /// More of the answer comes in: it is put on record, shown, and spoken as
    /// far as its parts are complete.
    pub open spec fn delta(self, assistant: AssistantView, delta: Seq<char>) -> Moved {
        let shown = seq![
            Effect::AppendDelta { turn_id: self.id, delta },
            Effect::Emit { turn_id: self.id, event: TurnEvent::AnswerDelta { delta } },
        ];
        let parts = released(self.chunker.with(delta));
        if self.voice {
            TurnView { chunker: parts.1, ..self }.goes_on(
                assistant,
                StageView::Answering,
                shown + spoken(parts.0),
                TurnRequestView::Wait,
            )
        } else {
            self.goes_on(assistant, StageView::Answering, shown, TurnRequestView::Wait)
        }
    }

    /// A line on the progress of the agent loop, in the same answer.
    pub open spec fn progress(self, assistant: AssistantView, message: Seq<char>) -> Moved {
        let delta = "\n\n"@ + message;
        let shown = seq![
            Effect::AppendDelta { turn_id: self.id, delta },
            Effect::Emit { turn_id: self.id, event: TurnEvent::AnswerDelta { delta } },
        ];
        self.goes_on(
            assistant,
            StageView::Answering,
            if self.voice {
                shown.push(Effect::Speak(message + " "@))
            } else {
                shown
            },
            TurnRequestView::Wait,
        )
    }

    /// The agent loop failed, or has come to an end, or to a call that needs
    /// consent.
    pub open spec fn answered(
        self,
        assistant: AssistantView,
        outcome: Result<AgentOutcomeView, Seq<char>>,
    ) -> Moved {
        match outcome {
            Ok(o) => self.completed(assistant, o),
            Err(e) => self.ends(assistant, Seq::empty(), Err(e)),
        }
    }

    /// The agent loop has come to an end, or to a call that needs consent.
    pub open spec fn completed(self, assistant: AssistantView, outcome: AgentOutcomeView) -> Moved {
        let working = all_recorded(
            assistant.working,
            outcome.actions_taken,
            outcome.final_text,
        );
        let rest = trailing(self.voice, self.chunker);
        let quiet = if self.voice {
            TurnView {
                chunker: ChunkerView { buffer: Seq::empty(), ..self.chunker },
                ..self
            }
        } else {
            self
        };
        match outcome.pending_confirmation {
            Some(call) => {
                let withheld = withheld_call(self.id, call, outcome.messages);
                quiet.ends(
                    AssistantView { working, pending: Some(withheld) },
                    rest + asked(self.voice, withheld, call.voice_prompt),
                    Ok(call.voice_prompt),
                )
            },
            None => quiet.ends(
                AssistantView { working, ..assistant },
                if self.voice {
                    rest.push(Effect::FinishSpeech)
                } else {
                    rest
                },
                Ok(outcome.final_text),
            ),
        }
    }

    /// The agent loop that went on after the user's consent has come to an end,
    /// or to another call that needs consent. If it failed, the result of the
    /// action is the answer.
    pub open spec fn resumed(
        self,
        assistant: AssistantView,
        turn_id: Seq<char>,
        result: Seq<char>,
        outcome: Result<AgentOutcomeView, Seq<char>>,
    ) -> Moved {
        match outcome {
            Ok(o) => match o.pending_confirmation {
                Some(call) => {
                    let withheld = withheld_call(turn_id, call, o.messages);
                    self.ends(
                        AssistantView { pending: Some(withheld), ..assistant },
                        asked(self.voice, withheld, call.voice_prompt),
                        Ok(call.voice_prompt),
                    )
                },
                None => self.ends(
                    assistant,
                    if self.voice {
                        seq![Effect::SpeakNow(o.final_text)]
                    } else {
                        Seq::empty()
                    },
                    Ok(o.final_text),
                ),
            },
            Err(_) => self.ends(assistant, Seq::empty(), Ok(result)),
        }
    }

    /// What came of a request is what was asked for. An action that the user
    /// consented to is not withheld again.
    pub open spec fn accepts(self, input: TurnInputView) -> bool {
        match self.stage {
            StageView::Replying(_) => input is Reply,
            StageView::Listening => input is Language,
            StageView::Routing => input is Route,
            StageView::Acting => input is Executed,
            StageView::Confirmed { .. } => input is Executed && input->result is Said,
            StageView::Connecting => input is Client,
            StageView::Answering => input is Delta || input is Progress || input is AgentDone,
            StageView::Reconnecting { .. } => input is Client,
            StageView::Resuming { .. } => input is Delta || input is Progress || input is AgentDone,
            StageView::Ended => false,
        }
    }

    /// A step of the turn.
    pub open spec fn step(self, assistant: AssistantView, input: TurnInputView) -> Moved {
        let here = TurnView { stage: StageView::Ended, ..self };
        match self.stage {
            StageView::Replying(p) => match input->Reply_0 {
                Some(approved) => here.resolve(assistant, p, approved),
                None => here.goes_on(
                    assistant,
                    StageView::Listening,
                    Seq::empty(),
                    TurnRequestView::DetectLanguage,
                ),
            },
            StageView::Listening => here.language(
                assistant,
                input->code,
                match input->decision {
                    LanguageDecision::Supported => None,
                    LanguageDecision::Unsupported => Some(input->rejection),
                    LanguageDecision::LowConfidence => Some(input->clarification),
                },
            ),
            StageView::Routing => here.route(assistant, input->Route_0),
            StageView::Acting => here.acted(
                assistant,
                input->result,
                input->described,
                input->update,
            ),
            StageView::Confirmed { turn_id, messages, tool_use_id } => here.confirmed(
                assistant,
                turn_id,
                messages,
                tool_use_id,
                input->result,
                input->described,
                input->update,
            ),
            StageView::Connecting => here.connected(assistant, input->Client_0),
            StageView::Reconnecting { turn_id, messages, result } => here.reconnected(
                assistant,
                turn_id,
                messages,
                result,
                input->Client_0 is Ok,
            ),
            StageView::Answering => match input {
                TurnInputView::Delta(d) => here.delta(assistant, d),
                TurnInputView::Progress(m) => here.progress(assistant, m),
                _ => here.answered(assistant, input->AgentDone_0),
            },
            StageView::Resuming { turn_id, result } => match input {
                TurnInputView::Delta(d) => here.resuming_delta(assistant, turn_id, result, d),
                TurnInputView::Progress(_) => here.goes_on(
                    assistant,
                    self.stage,
                    Seq::empty(),
                    TurnRequestView::Wait,
                ),
                _ => here.resumed(assistant, turn_id, result, input->AgentDone_0),
            },
            StageView::Ended => here.goes_on(
                assistant,
                self.stage,
                Seq::empty(),
                TurnRequestView::Wait,
            ),
        }
    }
}

fn push_said(effects: &mut Vec<Effect<String>>, voice: bool, turn_id: &str, text: &str)
    ensures
        effect_views(final(effects)@) == effect_views(old(effects)@) + said(
            voice,
            turn_id@,
            text@,
        ),
{
    let ghost before = effect_views(effects@);
    if voice {
        push_effect(effects, Effect::SpeakNow(text.to_owned()));
    }
    push_effect(
        effects,
        Effect::Emit {
            turn_id: turn_id.to_owned(),
            event: TurnEvent::AnswerDelta { delta: text.to_owned() },
        },
    );
    proof {
        assert(effect_views(effects@) =~= before + said(voice, turn_id@, text@));
    }
}

fn push_asked(
    effects: &mut Vec<Effect<String>>,
    voice: bool,
    withheld: &PendingConfirmation,
    prompt: &str,
)
    ensures
        effect_views(final(effects)@) == effect_views(old(effects)@) + asked(
            voice,
            withheld@,
            prompt@,
        ),
{
    let ghost before = effect_views(effects@);
    push_effect(
        effects,
        Effect::Emit {
            turn_id: withheld.turn_id.clone(),
            event: TurnEvent::ConfirmationRequested {
                summary: confirmation_summary(&withheld.capability).to_owned(),
                detail: prompt.to_owned(),
                risk: risk_wire_label(withheld.risk).to_owned(),
            },
        },
    );
    push_said(effects, voice, withheld.turn_id.as_str(), prompt);
    proof {
        assert(effect_views(effects@) =~= before + asked(voice, withheld@, prompt@));
    }
}

fn push_spoken(effects: &mut Vec<Effect<String>>, chunks: Vec<String>)
    ensures
        effect_views(final(effects)@) == effect_views(old(effects)@) + spoken(views(chunks@)),
{
    let ghost before = effect_views(effects@);
    let ghost all = views(chunks@);
    let mut i: usize = 0;
    proof {
        assert(before + spoken(all.take(0)) =~= before);
    }
    while i < chunks.len()
        invariant
            i <= chunks@.len(),
            all == views(chunks@),
            effect_views(effects@) == before + spoken(all.take(i as int)),
        decreases chunks@.len() - i,
    {
        push_effect(effects, Effect::Speak(chunks[i].clone()));
        proof {
            assert(before + spoken(all.take(i as int + 1)) =~= (before + spoken(
                all.take(i as int),
            )).push(Effect::Speak(chunks@[i as int]@)));
        }
        i += 1;
    }
    proof {
        assert(all.take(i as int) =~= all);
    }
}

fn finished(effects: Vec<Effect<String>>, answer: String) -> (r: TurnStep)
    ensures
        r@ == (TurnStepView {
            effects: effect_views(effects@),
            request: TurnRequestView::Finished(Ok(answer@)),
        }),
{
    TurnStep { effects, request: TurnRequest::Finished(Ok(answer)) }
}

fn asking(request: TurnRequest) -> (r: TurnStep)
    ensures
        r@ == (TurnStepView { effects: Seq::empty(), request: request@ }),
{
    TurnStep { effects: no_effects(), request }
}

/// What an action came to, as a text.
fn result_text(outcome: Result<ToolOutcome, String>) -> (r: (String, bool))
    requires
        action_result(outcome) is Said,
    ensures
        action_result(outcome) == (ActionResult::Said { text: r.0@, is_error: r.1 }),
{
    match outcome {
        Ok(ToolOutcome::Text(text)) => (text, false),
        Ok(ToolOutcome::Image { .. }) => ("Done.".to_owned(), false),
        Ok(ToolOutcome::NeedsConfirmation { .. }) => (String::new(), false),
        Err(e) => (e, true),
    }
}

fn put_on_record(working: &mut WorkingState, described: &str, text: &str, update: ContextUpdate)
    ensures
        final(working)@ == noted(old(working)@.recorded(described@, text@), update),
{
    working.record_action(described, text);
    working.note_context(update.app, update.window, update.file, update.folder);
}

fn record_all(working: &mut WorkingState, actions: &Vec<String>, result: &str)
    ensures
        final(working)@ == all_recorded(old(working)@, views(actions@), result@),
{
    let ghost all = views(actions@);
    let mut i: usize = 0;
    proof {
        assert(all.take(0) =~= Seq::empty());
    }
    while i < actions.len()
        invariant
            i <= actions@.len(),
            all == views(actions@),
            working@ == all_recorded(old(working)@, all.take(i as int), result@),
        decreases actions@.len() - i,
    {
        proof {
            assert(all.take(i as int + 1).drop_last() =~= all.take(i as int));
            assert(all.take(i as int + 1).last() == actions@[i as int]@);
        }
        working.record_action(actions[i].as_str(), result);
        i += 1;
    }
    proof {
        assert(all.take(i as int) =~= all);
    }
}

impl Turn {
    pub closed spec fn view(&self) -> TurnView {
        TurnView {
            id: self.id@,
            text: self.text@,
            options: self.options,
            history: turn_views(self.history@),
            voice: self.voice,
            chunker: self.chunker@,
            stage: self.stage@,
        }
    }

    /// Begins a turn on what the user said.
    pub fn begin(
        assistant: &mut Assistant,
        turn_id: &str,
        text: &str,
        options: AskOptions,
        history: Vec<PriorTurn>,
        voice: bool,
    ) -> (r: (Turn, TurnStep))
        ensures
            ({
                let fresh = fresh_turn(
                    turn_id@,
                    text@,
                    options,
                    turn_views(history@),
                    voice,
                );
                let moved = fresh.begin(old(assistant)@);
                &&& final(assistant)@ == moved.assistant
                &&& r.0@ == moved.turn
                &&& r.1@ == moved.step
            }),
    {
        let mut pending: Option<PendingConfirmation> = None;
        std::mem::swap(&mut assistant.pending, &mut pending);
        let mut turn = Turn {
            id: turn_id.to_owned(),
            text: text.to_owned(),
            options,
            history,
            voice,
            chunker: SentenceChunker::new(),
            stage: Stage::Listening,
        };
        match pending {
            Some(p) => {
                turn.stage = Stage::Replying(p);
                (turn, asking(TurnRequest::ClassifyReply))
            },
            None => (turn, asking(TurnRequest::DetectLanguage)),
        }
    }

    fn resolve(
        &mut self,
        assistant: &mut Assistant,
        withheld: PendingConfirmation,
        approved: bool,
    ) -> (r: TurnStep)
        ensures
            ({
                let moved = old(self)@.resolve(old(assistant)@, withheld@, approved);
                &&& final(assistant)@ == moved.assistant
                &&& final(self)@ == moved.turn
                &&& r@ == moved.step
            }),
    {
        if approved {
            self.stage = Stage::Confirmed {
                turn_id: withheld.turn_id,
                messages: withheld.messages,
                tool_use_id: withheld.tool_use_id,
            };
            asking(TurnRequest::Execute { capability: withheld.capability, confirmed: true })
        } else {
            assistant.working.complete_task();
            let mut effects: Vec<Effect<String>> = no_effects();
            push_said(
                &mut effects,
                self.voice,
                withheld.turn_id.as_str(),
                "Okay, I won't do that.",
            );
            proof {
                let all = said(self.voice, withheld.turn_id@, "Okay, I won't do that."@);
                assert(Seq::<Effect<Seq<char>>>::empty() + all =~= all);
            }
            self.stage = Stage::Ended;
            finished(effects, "Okay, I won't do that.".to_owned())
        }
    }

    fn language(&mut self, assistant: &Assistant, code: String, answer: Option<String>) -> (r:
        TurnStep)
        ensures
            ({
                let moved = old(self)@.language(assistant@, code@, opt_view(answer));
                &&& assistant@ == moved.assistant
                &&& final(self)@ == moved.turn
                &&& r@ == moved.step
            }),
    {
        let mut effects: Vec<Effect<String>> = no_effects();
        push_effect(
            &mut effects,
            Effect::Emit {
                turn_id: self.id.clone(),
                event: TurnEvent::LanguageDetected { language: code },
            },
        );
        match answer {
            Some(text) => {
                push_said(&mut effects, self.voice, self.id.as_str(), text.as_str());
                self.stage = Stage::Ended;
                finished(effects, text)
            },
            None => {
                self.stage = Stage::Routing;
                TurnStep { effects, request: TurnRequest::MatchRoute }
            },
        }
    }

    fn route(
        &mut self,
        assistant: &mut Assistant,
        command: Option<(Capability<String>, String)>,
    ) -> (r: TurnStep)
        ensures
            ({
                let moved = old(self)@.route(
                    old(assistant)@,
                    TurnInput::Route(command)@->Route_0,
                );
                &&& final(assistant)@ == moved.assistant
                &&& final(self)@ == moved.turn
                &&& r@ == moved.step
            }),
    {
        match command {
            Some((capability, described)) => {
                let mut effects: Vec<Effect<String>> = no_effects();
                match capability {
                    Capability::TaskControl(op) => {
                        let text: &'static str = dispatch_task_control(&mut assistant.working, op);
                        push_said(&mut effects, self.voice, self.id.as_str(), text);
                        proof {
                            let all = said(self.voice, self.id@, text@);
                            assert(Seq::<Effect<Seq<char>>>::empty() + all =~= all);
                        }
                        self.stage = Stage::Ended;
                        finished(effects, text.to_owned())
                    },
                    _ => {
                        push_effect(
                            &mut effects,
                            Effect::Emit {
                                turn_id: self.id.clone(),
                                event: TurnEvent::ActionStart { action: described },
                            },
                        );
                        self.stage = Stage::Acting;
                        TurnStep {
                            effects,
                            request: TurnRequest::Execute { capability, confirmed: false },
                        }
                    },
                }
            },
            None => {
                self.stage = Stage::Connecting;
                asking(TurnRequest::MakeClient { provider: self.options.llm_provider.clone() })
            },
        }
    }

    fn acted(
        &mut self,
        assistant: &mut Assistant,
        outcome: Result<ToolOutcome, String>,
        described: String,
        update: ContextUpdate,
    ) -> (r: TurnStep)
        ensures
            ({
                let moved = old(self)@.acted(
                    old(assistant)@,
                    action_result(outcome),
                    described@,
                    update,
                );
                &&& final(assistant)@ == moved.assistant
                &&& final(self)@ == moved.turn
                &&& r@ == moved.step
            }),
    {
        let mut effects: Vec<Effect<String>> = no_effects();
        push_effect(
            &mut effects,
            Effect::Emit { turn_id: self.id.clone(), event: TurnEvent::ActionComplete },
        );
        self.stage = Stage::Ended;
        match outcome {
            Ok(ToolOutcome::NeedsConfirmation { capability, risk, voice_prompt }) => {
                let withheld = PendingConfirmation {
                    turn_id: self.id.clone(),
                    capability,
                    risk,
                    messages: Vec::new(),
                    tool_use_id: String::new(),
                    tool_name: String::new(),
                };
                proof {
                    assert(withheld@.messages =~= Seq::empty());
                }
                push_asked(&mut effects, self.voice, &withheld, voice_prompt.as_str());
                assistant.pending = Some(withheld);
                finished(effects, voice_prompt)
            },
            other => {
                let (text, _is_error) = result_text(other);
                put_on_record(
                    &mut assistant.working,
                    described.as_str(),
                    text.as_str(),
                    update,
                );
                push_said(&mut effects, self.voice, self.id.as_str(), text.as_str());
                finished(effects, text)
            },
        }
    }

    fn confirmed(
        &mut self,
        assistant: &mut Assistant,
        turn_id: String,
        messages: Vec<AgentMessage>,
        tool_use_id: String,
        outcome: Result<ToolOutcome, String>,
        described: String,
        update: ContextUpdate,
    ) -> (r: TurnStep)
        requires
            action_result(outcome) is Said,
        ensures
            ({
                let moved = old(self)@.confirmed(
                    old(assistant)@,
                    turn_id@,
                    message_views(messages@),
                    tool_use_id@,
                    action_result(outcome),
                    described@,
                    update,
                );
                &&& final(assistant)@ == moved.assistant
                &&& final(self)@ == moved.turn
                &&& r@ == moved.step
            }),
    {
        let (text, is_error) = result_text(outcome);
        put_on_record(&mut assistant.working, described.as_str(), text.as_str(), update);
        if tool_use_id.as_str().is_empty() {
            let mut effects: Vec<Effect<String>> = no_effects();
            push_said(&mut effects, self.voice, turn_id.as_str(), text.as_str());
            proof {
                let all = said(self.voice, turn_id@, text@);
                assert(Seq::<Effect<Seq<char>>>::empty() + all =~= all);
            }
            self.stage = Stage::Ended;
            finished(effects, text)
        } else {
            let mut messages: Vec<AgentMessage> = messages;
            let ghost before = message_views(messages@);
            let mut content: Vec<AgentContent> = Vec::new();
            content.push(
                AgentContent::ToolResult {
                    tool_use_id: tool_use_id.clone(),
                    text: text.clone(),
                    image: None,
                    is_error,
                },
            );
            proof {
                assert(content_views(content@) =~= confirmed_result(
                    tool_use_id@,
                    text@,
                    is_error,
                ).content);
            }
            messages.push(AgentMessage::tool_results(content));
            proof {
                assert(message_views(messages@) =~= before.push(
                    confirmed_result(tool_use_id@, text@, is_error),
                ));
            }
            self.stage = Stage::Reconnecting { turn_id, messages, result: text };
            asking(TurnRequest::MakeClient { provider: None })
        }
    }

    fn connected(&mut self, assistant: &Assistant, client: Result<String, String>) -> (r: TurnStep)
        ensures
            ({
                let moved = old(self)@.connected(
                    assistant@,
                    TurnInput::Client(client)@->Client_0,
                );
                &&& assistant@ == moved.assistant
                &&& final(self)@ == moved.turn
                &&& r@ == moved.step
            }),
    {
        match client {
            Ok(name) => {
                let messages: Vec<AgentMessage> = build_question_messages(
                    self.text.as_str(),
                    &self.options,
                    &self.history,
                    &assistant.working,
                    name.as_str(),
                );
                self.stage = Stage::Answering;
                asking(TurnRequest::RunAgent { messages, fresh: false })
            },
            Err(e) => {
                self.stage = Stage::Ended;
                asking(TurnRequest::Finished(Err(e)))
            },
        }
    }

    fn delta(&mut self, assistant: &Assistant, delta: String) -> (r: TurnStep)
        ensures
            ({
                let moved = old(self)@.delta(assistant@, delta@);
                &&& assistant@ == moved.assistant
                &&& final(self)@ == moved.turn
                &&& r@ == moved.step
            }),
    {
        let mut effects: Vec<Effect<String>> = no_effects();
        push_effect(
            &mut effects,
            Effect::AppendDelta { turn_id: self.id.clone(), delta: delta.clone() },
        );
        push_effect(
            &mut effects,
            Effect::Emit {
                turn_id: self.id.clone(),
                event: TurnEvent::AnswerDelta { delta: delta.clone() },
            },
        );
        proof {
            assert(effect_views(effects@) =~= seq![
                Effect::AppendDelta { turn_id: self.id@, delta: delta@ },
                Effect::Emit {
                    turn_id: self.id@,
                    event: TurnEvent::AnswerDelta { delta: delta@ },
                },
            ]);
        }
        if self.voice {
            let chunks: Vec<String> = self.chunker.push(delta.as_str());
            push_spoken(&mut effects, chunks);
        }
        self.stage = Stage::Answering;
        TurnStep { effects, request: TurnRequest::Wait }
    }

    fn progress(&mut self, assistant: &Assistant, message: String) -> (r: TurnStep)
        ensures
            ({
                let moved = old(self)@.progress(assistant@, message@);
                &&& assistant@ == moved.assistant
                &&& final(self)@ == moved.turn
                &&& r@ == moved.step
            }),
    {
        let mut delta: String = "\n\n".to_owned();
        delta.append(message.as_str());
        let mut effects: Vec<Effect<String>> = no_effects();
        push_effect(
            &mut effects,
            Effect::AppendDelta { turn_id: self.id.clone(), delta: delta.clone() },
        );
        push_effect(
            &mut effects,
            Effect::Emit {
                turn_id: self.id.clone(),
                event: TurnEvent::AnswerDelta { delta: delta.clone() },
            },
        );
        proof {
            assert(effect_views(effects@) =~= seq![
                Effect::AppendDelta { turn_id: self.id@, delta: delta@ },
                Effect::Emit {
                    turn_id: self.id@,
                    event: TurnEvent::AnswerDelta { delta: delta@ },
                },
            ]);
        }
        if self.voice {
            let mut line: String = message;
            line.append(" ");
            push_effect(&mut effects, Effect::Speak(line));
        }
        self.stage = Stage::Answering;
        TurnStep { effects, request: TurnRequest::Wait }
    }

    fn answered(
        &mut self,
        assistant: &mut Assistant,
        outcome: Result<AgentOutcome, String>,
    ) -> (r: TurnStep)
        ensures
            ({
                let moved = old(self)@.answered(
                    old(assistant)@,
                    TurnInput::AgentDone(outcome)@->AgentDone_0,
                );
                &&& final(assistant)@ == moved.assistant
                &&& final(self)@ == moved.turn
                &&& r@ == moved.step
            }),
    {
        match outcome {
            Ok(o) => self.completed(assistant, o),
            Err(e) => {
                self.stage = Stage::Ended;
                asking(TurnRequest::Finished(Err(e)))
            },
        }
    }

    fn reconnected(
        &mut self,
        assistant: &Assistant,
        turn_id: String,
        messages: Vec<AgentMessage>,
        result: String,
        has_client: bool,
    ) -> (r: TurnStep)
        ensures
            ({
                let moved = old(self)@.reconnected(
                    assistant@,
                    turn_id@,
                    message_views(messages@),
                    result@,
                    has_client,
                );
                &&& assistant@ == moved.assistant
                &&& final(self)@ == moved.turn
                &&& r@ == moved.step
            }),
    {
        if has_client {
            self.stage = Stage::Resuming { turn_id, result };
            asking(TurnRequest::RunAgent { messages, fresh: true })
        } else {
            self.stage = Stage::Ended;
            finished(no_effects(), result)
        }
    }

    fn resuming_delta(
        &mut self,
        assistant: &Assistant,
        turn_id: String,
        result: String,
        delta: String,
    ) -> (r: TurnStep)
        ensures
            ({
                let moved = old(self)@.resuming_delta(assistant@, turn_id@, result@, delta@);
                &&& assistant@ == moved.assistant
                &&& final(self)@ == moved.turn
                &&& r@ == moved.step
            }),
    {
        let mut effects: Vec<Effect<String>> = no_effects();
        push_effect(
            &mut effects,
            Effect::Emit { turn_id: turn_id.clone(), event: TurnEvent::AnswerDelta { delta } },
        );
        self.stage = Stage::Resuming { turn_id, result };
        TurnStep { effects, request: TurnRequest::Wait }
    }

    fn completed(&mut self, assistant: &mut Assistant, outcome: AgentOutcome) -> (r: TurnStep)
        ensures
            ({
                let moved = old(self)@.completed(old(assistant)@, outcome@);
                &&& final(assistant)@ == moved.assistant
                &&& final(self)@ == moved.turn
                &&& r@ == moved.step
            }),
    {
        record_all(
            &mut assistant.working,
            &outcome.actions_taken,
            outcome.final_text.as_str(),
        );
        let mut effects: Vec<Effect<String>> = no_effects();
        if self.voice {
            match self.chunker.finish() {
                Some(rest) => {
                    push_effect(&mut effects, Effect::Speak(rest));
                },
                None => {},
            }
        }
        proof {
            assert(effect_views(effects@) =~= trailing(old(self)@.voice, old(self)@.chunker));
        }
        self.stage = Stage::Ended;
        match outcome.pending_confirmation {
            Some(call) => {
                let withheld = PendingConfirmation {
                    turn_id: self.id.clone(),
                    capability: call.capability,
                    risk: call.risk,
                    messages: outcome.messages,
                    tool_use_id: call.tool_use_id,
                    tool_name: call.tool_name,
                };
                push_asked(&mut effects, self.voice, &withheld, call.voice_prompt.as_str());
                assistant.pending = Some(withheld);
                finished(effects, call.voice_prompt)
            },
            None => {
                if self.voice {
                    push_effect(&mut effects, Effect::FinishSpeech);
                }
                finished(effects, outcome.final_text)
            },
        }
    }

    fn resumed(
        &mut self,
        assistant: &mut Assistant,
        turn_id: String,
        result: String,
        outcome: Result<AgentOutcome, String>,
    ) -> (r: TurnStep)
        ensures
            ({
                let moved = old(self)@.resumed(
                    old(assistant)@,
                    turn_id@,
                    result@,
                    TurnInput::AgentDone(outcome)@->AgentDone_0,
                );
                &&& final(assistant)@ == moved.assistant
                &&& final(self)@ == moved.turn
                &&& r@ == moved.step
            }),
    {
        let mut effects: Vec<Effect<String>> = no_effects();
        self.stage = Stage::Ended;
        match outcome {
            Ok(o) => match o.pending_confirmation {
                Some(call) => {
                    let withheld = PendingConfirmation {
                        turn_id,
                        capability: call.capability,
                        risk: call.risk,
                        messages: o.messages,
                        tool_use_id: call.tool_use_id,
                        tool_name: call.tool_name,
                    };
                    push_asked(&mut effects, self.voice, &withheld, call.voice_prompt.as_str());
                    proof {
                        let all = asked(self.voice, withheld@, call.voice_prompt@);
                        assert(Seq::<Effect<Seq<char>>>::empty() + all =~= all);
                    }
                    assistant.pending = Some(withheld);
                    finished(effects, call.voice_prompt)
                },
                None => {
                    if self.voice {
                        push_effect(&mut effects, Effect::SpeakNow(o.final_text.clone()));
                    }
                    finished(effects, o.final_text)
                },
            },
            Err(_) => finished(effects, result),
        }
    }

    /// Takes what came of the last request, and goes on.
    #[verifier::spinoff_prover]
    #[verifier::rlimit(50)]
    pub fn step(&mut self, assistant: &mut Assistant, input: TurnInput) -> (r: TurnStep)
        requires
            old(self)@.accepts(input@),
        ensures
            ({
                let moved = old(self)@.step(old(assistant)@, input@);
                &&& final(assistant)@ == moved.assistant
                &&& final(self)@ == moved.turn
                &&& r@ == moved.step
            }),
    {
        let mut stage: Stage = Stage::Ended;
        std::mem::swap(&mut self.stage, &mut stage);
        match stage {
            Stage::Replying(p) => match input {
                TurnInput::Reply(Some(approved)) => self.resolve(assistant, p, approved),
                _ => {
                    self.stage = Stage::Listening;
                    asking(TurnRequest::DetectLanguage)
                },
            },
            Stage::Listening => match input {
                TurnInput::Language { code, decision, rejection, clarification } => {
                    let answer: Option<String> = match decision {
                        LanguageDecision::Supported => None,
                        LanguageDecision::Unsupported => Some(rejection),
                        LanguageDecision::LowConfidence => Some(clarification),
                    };
                    self.language(assistant, code, answer)
                },
                _ => asking(TurnRequest::Wait),
            },
            Stage::Routing => match input {
                TurnInput::Route(command) => self.route(assistant, command),
                _ => asking(TurnRequest::Wait),
            },
            Stage::Acting => match input {
                TurnInput::Executed { outcome, described, update } => self.acted(
                    assistant,
                    outcome,
                    described,
                    update,
                ),
                _ => asking(TurnRequest::Wait),
            },
            Stage::Confirmed { turn_id, messages, tool_use_id } => match input {
                TurnInput::Executed { outcome, described, update } => self.confirmed(
                    assistant,
                    turn_id,
                    messages,
                    tool_use_id,
                    outcome,
                    described,
                    update,
                ),
                _ => asking(TurnRequest::Wait),
            },
            Stage::Connecting => match input {
                TurnInput::Client(client) => self.connected(assistant, client),
                _ => asking(TurnRequest::Wait),
            },
            Stage::Reconnecting { turn_id, messages, result } => match input {
                TurnInput::Client(client) => {
                    let has_client: bool = client.is_ok();
                    self.reconnected(assistant, turn_id, messages, result, has_client)
                },
                _ => asking(TurnRequest::Wait),
            },
            Stage::Answering => match input {
                TurnInput::Delta(d) => self.delta(assistant, d),
                TurnInput::Progress(m) => self.progress(assistant, m),
                TurnInput::AgentDone(outcome) => self.answered(assistant, outcome),
                _ => asking(TurnRequest::Wait),
            },
            Stage::Resuming { turn_id, result } => match input {
                TurnInput::Delta(d) => self.resuming_delta(assistant, turn_id, result, d),
                TurnInput::Progress(_) => {
                    self.stage = Stage::Resuming { turn_id, result };
                    asking(TurnRequest::Wait)
                },
                TurnInput::AgentDone(outcome) => self.resumed(assistant, turn_id, result, outcome),
                _ => asking(TurnRequest::Wait),
            },
            Stage::Ended => asking(TurnRequest::Wait),
        }
    }
}

/// A turn of which nothing has happened yet.
pub open spec fn fresh_turn(
    id: Seq<char>,
    text: Seq<char>,
    options: AskOptions,
    history: Seq<(Seq<char>, Seq<char>)>,
    voice: bool,
) -> TurnView {
    TurnView {
        id,
        text,
        options,
        history,
        voice,
        chunker: ChunkerView { buffer: Seq::empty(), released_any: false },
        stage: StageView::Listening,
    }
}

/// What is said of a confirmation that is no longer asked for.
pub const EXPIRED: &'static str = "that confirmation has expired";

/// Whether consent is asked for, and by this turn. Only then is anything said
/// of the user's answer.
pub fn awaits_consent(assistant: &Assistant, turn_id: &str) -> (r: bool)
    ensures
        r == (assistant@.pending matches Some(p) && p.turn_id == turn_id@),
{
    match &assistant.pending {
        Some(p) => same(p.turn_id.as_str(), turn_id),
        None => false,
    }
}

/// Takes the user's answer to the request for consent that a turn ended with.
/// An answer to any other turn comes too late; either way nothing is withheld
/// any more.
pub fn respond_to_confirmation(
    assistant: &mut Assistant,
    turn_id: &str,
    approved: bool,
    voice: bool,
) -> (r: Result<(Turn, TurnStep), String>)
    ensures
        ({
            let cleared = AssistantView { pending: None, ..old(assistant)@ };
            match old(assistant)@.pending {
                Some(p) => if p.turn_id == turn_id@ {
                    &&& r is Ok
                    &&& exists|options: AskOptions|
                        {
                            let moved = (#[trigger] fresh_turn(
                                turn_id@,
                                Seq::empty(),
                                options,
                                Seq::empty(),
                                voice,
                            )).resolve(cleared, p, approved);
                            &&& options.is_default()
                            &&& final(assistant)@ == moved.assistant
                            &&& r->Ok_0.0@ == moved.turn
                            &&& r->Ok_0.1@ == moved.step
                        }
                } else {
                    &&& r matches Err(e) && e@ == EXPIRED@
                    &&& final(assistant)@ == cleared
                },
                None => {
                    &&& r matches Err(e) && e@ == EXPIRED@
                    &&& final(assistant)@ == cleared
                },
            }
        }),
{
    let mut pending: Option<PendingConfirmation> = None;
    std::mem::swap(&mut assistant.pending, &mut pending);
    match pending {
        Some(p) => {
            if !same(p.turn_id.as_str(), turn_id) {
                return Err(EXPIRED.to_owned());
            }
            let mut turn = Turn {
                id: turn_id.to_owned(),
                text: String::new(),
                options: AskOptions::default(),
                history: Vec::new(),
                voice,
                chunker: SentenceChunker::new(),
                stage: Stage::Listening,
            };
            let ghost options = turn.options;
            let ghost fresh = fresh_turn(turn_id@, Seq::empty(), options, Seq::empty(), voice);
            proof {
                assert(turn@.history =~= Seq::empty());
            }
            let ghost cleared = assistant@;
            let ghost withheld = p@;
            let step: TurnStep = turn.resolve(assistant, p, approved);
            proof {
                let moved = fresh.resolve(cleared, withheld, approved);
                assert(turn@ == moved.turn);
            }
            Ok((turn, step))
        },
        None => Err(EXPIRED.to_owned()),
    }
}

/// What a turn does before anything else: it is put on record, whatever is
/// being spoken is stopped, and it is shown that the assistant thinks.
pub open spec fn opening_effects(turn_id: Seq<char>, text: Seq<char>, speaking: bool) -> Seq<
    Effect<Seq<char>>,
> {
    let recorded = Effect::CreateTurn { turn_id, text };
    let shown = Effect::Emit { turn_id, event: TurnEvent::ThinkingStart };
    if speaking {
        seq![recorded, Effect::StopSpeech, shown]
    } else {
        seq![recorded, shown]
    }
}

/// What a turn does before anything else.
pub fn opening(turn_id: &str, text: &str, speaking: bool) -> (r: Vec<Effect<String>>)
    ensures
        effect_views(r@) == opening_effects(turn_id@, text@, speaking),
{
    let mut effects: Vec<Effect<String>> = no_effects();
    push_effect(
        &mut effects,
        Effect::CreateTurn { turn_id: turn_id.to_owned(), text: text.to_owned() },
    );
    if speaking {
        push_effect(&mut effects, Effect::StopSpeech);
    }
    push_effect(
        &mut effects,
        Effect::Emit { turn_id: turn_id.to_owned(), event: TurnEvent::ThinkingStart },
    );
    proof {
        assert(effect_views(effects@) =~= opening_effects(turn_id@, text@, speaking));
    }
    effects
}

/// What a turn comes to. An answer that another turn has overtaken is none.
pub open spec fn final_result(result: Result<Seq<char>, Seq<char>>, cancelled: bool) -> Result<
    Seq<char>,
    Seq<char>,
> {
    if cancelled && result is Ok {
        Err("cancelled"@)
    } else {
        result
    }
}

/// The end of a turn is shown.
pub open spec fn shown_complete(turn_id: Seq<char>, answer: Seq<char>, cancelled: bool) -> Effect<
    Seq<char>,
> {
    Effect::Emit { turn_id, event: TurnEvent::AnswerComplete { answer, cancelled } }
}

/// What is done at the end of a turn.
pub open spec fn closing_effects(
    turn_id: Seq<char>,
    result: Result<Seq<char>, Seq<char>>,
    voice: bool,
) -> Seq<Effect<Seq<char>>> {
    match result {
        Ok(answer) => seq![
            Effect::CompleteTurn { turn_id, answer, cancelled: false },
            shown_complete(turn_id, answer, false),
        ],
        Err(e) => if e == "cancelled"@ {
            seq![
                Effect::CompleteTurn { turn_id, answer: Seq::empty(), cancelled: true },
                shown_complete(turn_id, Seq::empty(), true),
            ]
        } else {
            let told = Effect::Emit {
                turn_id,
                event: TurnEvent::Error { message: "Sorry, I ran into a problem: "@ + e },
            };
            let recovery = Effect::SpeakNow(
                "Sorry, I ran into a problem there. Please try again."@,
            );
            let closed = Effect::CompleteTurn {
                turn_id,
                answer: Seq::empty(),
                cancelled: false,
            };
            let shown = shown_complete(turn_id, Seq::empty(), false);
            if voice {
                seq![told, recovery, closed, shown]
            } else {
                seq![told, closed, shown]
            }
        },
    }
}

/// Ends a turn, whatever came of it: the end is put on record and shown, and a
/// failure is told.
pub fn conclude(
    turn_id: &str,
    result: Result<String, String>,
    cancelled: bool,
    voice: bool,
) -> (r: (Vec<Effect<String>>, Result<String, String>))
    ensures
        ({
            let came = final_result(
                match result {
                    Ok(t) => Ok(t@),
                    Err(e) => Err(e@),
                },
                cancelled,
            );
            &&& effect_views(r.0@) == closing_effects(turn_id@, came, voice)
            &&& match r.1 {
                Ok(t) => came == Ok::<Seq<char>, Seq<char>>(t@),
                Err(e) => came == Err::<Seq<char>, Seq<char>>(e@),
            }
        }),
{
    let mut effects: Vec<Effect<String>> = no_effects();
    let came: Result<String, String> = if cancelled && result.is_ok() {
        Err("cancelled".to_owned())
    } else {
        result
    };
    match came {
        Ok(answer) => {
            push_effect(
                &mut effects,
                Effect::CompleteTurn {
                    turn_id: turn_id.to_owned(),
                    answer: answer.clone(),
                    cancelled: false,
                },
            );
            push_effect(
                &mut effects,
                Effect::Emit {
                    turn_id: turn_id.to_owned(),
                    event: TurnEvent::AnswerComplete {
                        answer: answer.clone(),
                        cancelled: false,
                    },
                },
            );
            proof {
                assert(effect_views(effects@) =~= closing_effects(turn_id@, Ok(answer@), voice));
            }
            (effects, Ok(answer))
        },
        Err(e) => {
            let superseded: bool = same(e.as_str(), "cancelled");
            if !superseded {
                let mut message: String = "Sorry, I ran into a problem: ".to_owned();
                message.append(e.as_str());
                push_effect(
                    &mut effects,
                    Effect::Emit {
                        turn_id: turn_id.to_owned(),
                        event: TurnEvent::Error { message },
                    },
                );
                if voice {
                    push_effect(
                        &mut effects,
                        Effect::SpeakNow(
                            "Sorry, I ran into a problem there. Please try again.".to_owned(),
                        ),
                    );
                }
            }
            push_effect(
                &mut effects,
                Effect::CompleteTurn {
                    turn_id: turn_id.to_owned(),
                    answer: String::new(),
                    cancelled: superseded,
                },
            );
            push_effect(
                &mut effects,
                Effect::Emit {
                    turn_id: turn_id.to_owned(),
                    event: TurnEvent::AnswerComplete {
                        answer: String::new(),
                        cancelled: superseded,
                    },
                },
            );
            proof {
                assert(effect_views(effects@) =~= closing_effects(turn_id@, Err(e@), voice));
            }
            (effects, Err(e))
        },
    }
}

/// However a turn came to its end, the last thing that is done is to show that
/// it is at its end, once; and a turn that was overtaken shows no answer.
#[verifier::spinoff_prover]
#[verifier::rlimit(60)]
pub proof fn every_turn_is_shown_to_end(
    turn_id: Seq<char>,
    result: Result<Seq<char>, Seq<char>>,
    cancelled: bool,
    voice: bool,
)
    ensures
        ({
            let came = final_result(result, cancelled);
            let effects = closing_effects(turn_id, came, voice);
            &&& effects.len() >= 2
            &&& effects.last() == shown_complete(
                turn_id,
                match came {
                    Ok(answer) => answer,
                    Err(_) => Seq::empty(),
                },
                came == Err::<Seq<char>, Seq<char>>("cancelled"@),
            )
            &&& forall|i: int|
                0 <= i < effects.len() - 1 ==> !((#[trigger] effects[i]) is Emit
                    && effects[i]->event is AnswerComplete)
            &&& cancelled ==> came is Err
        }),
{
}

/// How far a turn still has to go, at most.
pub open spec fn steps_left(stage: StageView) -> nat {
    match stage {
        StageView::Replying(_) => 6,
        StageView::Listening => 5,
        StageView::Routing => 4,
        StageView::Acting => 1,
        StageView::Confirmed { .. } => 3,
        StageView::Connecting => 2,
        StageView::Answering => 1,
        StageView::Reconnecting { .. } => 2,
        StageView::Resuming { .. } => 1,
        StageView::Ended => 0,
    }
}

/// A turn does not go round in circles: a step that does not wait for the agent
/// loop brings it closer to its end, and it is at its end exactly when it says
/// so.
#[verifier::spinoff_prover]
#[verifier::rlimit(60)]
pub proof fn every_step_moves_on(turn: TurnView, assistant: AssistantView, input: TurnInputView)
    requires
        turn.accepts(input),
    ensures
        ({
            let moved = turn.step(assistant, input);
            &&& moved.step.request is Wait ==> moved.turn.stage == turn.stage
            &&& !(moved.step.request is Wait) ==> steps_left(moved.turn.stage) < steps_left(
                turn.stage,
            )
            &&& moved.step.request is Finished <==> moved.turn.stage is Ended
        }),
{
}

/// An action is run as one that the user consented to only if it was withheld
/// and the user said yes to it.
#[verifier::spinoff_prover]
#[verifier::rlimit(60)]
pub proof fn nothing_is_run_without_consent(
    turn: TurnView,
    assistant: AssistantView,
    input: TurnInputView,
)
    requires
        turn.accepts(input),
    ensures
        ({
            let request = turn.step(assistant, input).step.request;
            request is Execute && request->confirmed ==> {
                &&& turn.stage is Replying
                &&& turn.stage->Replying_0.capability == request->capability
                &&& input == TurnInputView::Reply(Some(true))
            }
        }),
{
}

/// What is withheld is kept for one turn: the next turn takes it up or forgets
/// it, and is answered as any other if it says neither yes nor no.
#[verifier::spinoff_prover]
#[verifier::rlimit(60)]
pub proof fn consent_is_asked_for_one_turn(turn: TurnView, assistant: AssistantView)
    ensures
        ({
            let begun = turn.begin(assistant);
            &&& begun.assistant.pending is None
            &&& begun.assistant.working == assistant.working
            &&& assistant.pending is Some ==> {
                let unrelated = begun.turn.step(begun.assistant, TurnInputView::Reply(None));
                &&& unrelated.assistant == begun.assistant
                &&& unrelated.turn.stage is Listening
                &&& unrelated.step == turn.begin(
                    AssistantView { pending: None, ..assistant },
                ).step
            }
        }),
{
}

/// What is not understood reaches neither the commands nor the model, and an
/// obvious command does not reach the model.
#[verifier::spinoff_prover]
#[verifier::rlimit(60)]
pub proof fn the_model_is_asked_last(
    turn: TurnView,
    assistant: AssistantView,
    input: TurnInputView,
)
    requires
        turn.accepts(input),
    ensures
        ({
            let request = turn.step(assistant, input).step.request;
            &&& turn.stage is Listening && !(input->decision is Supported) ==> request is Finished
            &&& turn.stage is Routing && input->Route_0 is Some ==> request is Execute
                || request is Finished
            &&& turn.stage is Acting ==> request is Finished
        }),
{
}

/// An effect that is heard.
pub open spec fn is_heard(effect: Effect<Seq<char>>) -> bool {
    effect is SpeakNow || effect is Speak || effect is FinishSpeech
}

/// A turn that is not to be spoken is not: neither in any of its steps nor at
/// its end.
#[verifier::spinoff_prover]
#[verifier::rlimit(60)]
pub proof fn a_silent_turn_says_nothing(
    turn: TurnView,
    assistant: AssistantView,
    input: TurnInputView,
    result: Result<Seq<char>, Seq<char>>,
)
    requires
        turn.accepts(input),
        !turn.voice,
    ensures
        ({
            let moved = turn.step(assistant, input);
            &&& !moved.turn.voice
            &&& forall|i: int|
                0 <= i < moved.step.effects.len() ==> !is_heard(#[trigger] moved.step.effects[i])
        }),
        forall|i: int|
            0 <= i < closing_effects(turn.id, result, false).len() ==> !is_heard(
                #[trigger] closing_effects(turn.id, result, false)[i],
            ),
{
    let moved = turn.step(assistant, input);
    a_silent_step_is_not_heard(turn, assistant, input, 0);
    assert forall|i: int| 0 <= i < moved.step.effects.len() implies !is_heard(
        #[trigger] moved.step.effects[i],
    ) by {
        a_silent_step_is_not_heard(turn, assistant, input, i);
    }
}

#[verifier::spinoff_prover]
#[verifier::rlimit(50)]
proof fn a_silent_step_is_not_heard(
    turn: TurnView,
    assistant: AssistantView,
    input: TurnInputView,
    i: int,
)
    requires
        turn.accepts(input),
        !turn.voice,
    ensures
        ({
            let moved = turn.step(assistant, input);
            &&& !moved.turn.voice
            &&& 0 <= i < moved.step.effects.len() ==> !is_heard(moved.step.effects[i])
        }),
{
}

/// The turn whose consent is being resolved in a stage, if there is one.
pub open spec fn resolved_turn(stage: StageView) -> Option<Seq<char>> {
    match stage {
        StageView::Replying(p) => Some(p.turn_id),
        StageView::Confirmed { turn_id, .. } => Some(turn_id),
        StageView::Reconnecting { turn_id, .. } => Some(turn_id),
        StageView::Resuming { turn_id, .. } => Some(turn_id),
        _ => None,
    }
}

/// Whatever is shown of a turn names the turn that it belongs to: this one, or
/// the one whose request for consent it resolves.
#[verifier::spinoff_prover]
#[verifier::rlimit(60)]
pub proof fn events_name_their_turn(
    turn: TurnView,
    assistant: AssistantView,
    input: TurnInputView,
    i: int,
)
    requires
        turn.accepts(input),
        0 <= i < turn.step(assistant, input).step.effects.len(),
    ensures
        match turn.step(assistant, input).step.effects[i] {
            Effect::Emit { turn_id, .. } => turn_id == turn.id || resolved_turn(turn.stage) == Some(
                turn_id,
            ),
            _ => true,
        },
{
}

/// The spoken answer is brought to its end once, by the last effect of the step
/// that ends the turn: a line on the progress in between does not end it.
#[verifier::spinoff_prover]
#[verifier::rlimit(60)]
pub proof fn speech_is_finished_at_the_end(
    turn: TurnView,
    assistant: AssistantView,
    input: TurnInputView,
    i: int,
)
    requires
        turn.accepts(input),
        0 <= i < turn.step(assistant, input).step.effects.len(),
        turn.step(assistant, input).step.effects[i] is FinishSpeech,
    ensures
        ({
            let step = turn.step(assistant, input).step;
            step.request is Finished && i == step.effects.len() - 1
        }),
{
}

/// Why a question was sent when it was changes nothing in what the turn does.
#[verifier::spinoff_prover]
#[verifier::rlimit(60)]
pub proof fn the_reason_changes_nothing(
    turn: TurnView,
    assistant: AssistantView,
    input: TurnInputView,
    reason: Option<String>,
)
    requires
        turn.accepts(input),
    ensures
        ({
            let other = TurnView {
                options: AskOptions { finalize_reason: reason, ..turn.options },
                ..turn
            };
            let moved = turn.step(assistant, input);
            let also = other.step(assistant, input);
            &&& other.accepts(input)
            &&& also.assistant == moved.assistant
            &&& also.step == moved.step
            &&& also.turn.stage == moved.turn.stage
        }),
{
}

/// What the contracts say of a value is said of its fields, each under its own name.
pub proof fn each_field_is_seen_as_it_is(
    withheld: PendingConfirmation,
    assistant: Assistant,
)
    ensures
        withheld@.turn_id == withheld.turn_id@,
        withheld@.capability == withheld.capability@,
        withheld@.risk == withheld.risk,
        withheld@.messages == message_views(withheld.messages@),
        withheld@.tool_use_id == withheld.tool_use_id@,
        withheld@.tool_name == withheld.tool_name@,
        assistant@.working == assistant.working@,
        assistant.pending matches Some(v) ==> assistant@.pending == Some(v@),
        assistant.pending is None ==> assistant@.pending is None,
{
}

/// A fresh turn is the one that was asked for: its words, its wishes and what was
/// said before, with nothing spoken yet.
pub proof fn a_fresh_turn_is_as_it_was_asked(
    id: Seq<char>,
    text: Seq<char>,
    options: AskOptions,
    history: Seq<(Seq<char>, Seq<char>)>,
    voice: bool,
)
    ensures
        ({
            let turn = fresh_turn(id, text, options, history, voice);
            &&& turn.id == id && turn.text == text
            &&& turn.options == options && turn.history == history && turn.voice == voice
            &&& turn.chunker.buffer.len() == 0 && !turn.chunker.released_any
            &&& turn.stage is Listening
        }),
{
}

} // verus!
