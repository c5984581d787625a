//! The assistant: what a question comes with, how it is put to the model, and
//! the small decisions around a turn.
use vstd::prelude::*;
use vstd::string::*;

use crate::actions::{Capability, ProcessOp, RiskLevel, StorageOp, TaskControlOp, TerminalOp};
use crate::agent::types::{
    message_views, text_message, AgentMessage, AgentMessageView, AgentRole,
};
use crate::json::opt_view;
use crate::prompts::veronica::{
    classify_length, format_line, format_line_text, humanization_instruction,
    humanization_instruction_text, length_hint, length_instruction, length_instruction_text,
    style_instruction, style_instruction_text, system_prompt, system_prompt_text,
};
use crate::state::{AppState, AskClaims};
use crate::text::{
    lowercase, same, standing_in_passes_on, stands_in, the_middle_stands_in, trim, trimmed,
};
use crate::working_state::{last_items, TaskStateView, TaskStatus, WorkingState, WorkingStateView};

pub mod turn;
pub mod turn_laws;

verus! {

/// How an answer is to be, as the user chose it. Without a choice it is natural
/// and of the default length.
#[derive(Debug, Clone)]
pub struct AskOptions {
    pub answer_length: String,
    pub response_style: String,
    pub humanization: String,
    /// The provider that is asked.
    pub llm_provider: Option<String>,
    /// Whether answers are spoken.
    pub tts_enabled: bool,
    /// Why the question was sent when it was.
    pub finalize_reason: Option<String>,
}

impl AskOptions {
    /// The options of someone who chose none.
    pub open spec fn is_default(self) -> bool {
        &&& self.answer_length@ == "default"@
        &&& self.response_style@ == "natural"@
        &&& self.humanization@ == "natural"@
        &&& self.llm_provider is None
        &&& !self.tts_enabled
        &&& self.finalize_reason is None
    }
}

impl Default for AskOptions {
    fn default() -> (r: AskOptions)
        ensures
            r.is_default(),
    {
        AskOptions {
            answer_length: "default".to_owned(),
            response_style: "natural".to_owned(),
            humanization: "natural".to_owned(),
            llm_provider: None,
            tts_enabled: false,
            finalize_reason: None,
        }
    }
}

/// A question of the conversation and its answer.
#[derive(Debug, Clone)]
pub struct PriorTurn {
    pub question: String,
    pub answer: String,
}

/// The views of questions and their answers.
pub open spec fn turn_views(turns: Seq<PriorTurn>) -> Seq<(Seq<char>, Seq<char>)> {
    turns.map_values(|t: PriorTurn| (t.question@, t.answer@))
}

/// The views of pairs of texts.
pub open spec fn pair_views(pairs: Seq<(String, String)>) -> Seq<(Seq<char>, Seq<char>)> {
    pairs.map_values(|p: (String, String)| (p.0@, p.1@))
}

/// How many turns of the conversation go with a question.
pub const MAX_HISTORY_TURNS: usize = 6;

/// The most recent turns of a conversation, the oldest first.
pub fn trim_history(turns: Vec<(String, String)>) -> (r: Vec<PriorTurn>)
    ensures
        turn_views(r@) == last_items(pair_views(turns@), MAX_HISTORY_TURNS as nat),
{
    let total: usize = turns.len();
    let first: usize = if total > MAX_HISTORY_TURNS {
        total - MAX_HISTORY_TURNS
    } else {
        0
    };
    let mut history: Vec<PriorTurn> = Vec::new();
    let mut i: usize = first;
    while i < total
        invariant
            first <= i <= total,
            total == turns@.len(),
            history@.len() == i - first,
            forall|j: int|
                0 <= j < history@.len() ==> (#[trigger] history@[j]).question@ == turns@[first
                    + j].0@ && history@[j].answer@ == turns@[first + j].1@,
        decreases total - i,
    {
        history.push(PriorTurn { question: turns[i].0.clone(), answer: turns[i].1.clone() });
        i += 1;
    }
    proof {
        assert(turn_views(history@) =~= last_items(
            pair_views(turns@),
            MAX_HISTORY_TURNS as nat,
        ));
    }
    history
}

/// What the model is told of itself, the form of the answer and the state of
/// the session.
pub open spec fn system_text(
    question: Seq<char>,
    options: AskOptions,
    working_context: Option<Seq<char>>,
    assistant_name: Seq<char>,
) -> Seq<char> {
    let text = system_prompt_text(assistant_name) + "\n\n---\n\n"@ + format_line(question)
        + "TARGET LENGTH FOR THIS SPECIFIC QUESTION (the binding instruction — follow this number, not a habit of always answering the same length): "@
        + length_hint(lowercase(question)).0
        + "\n(User's overall ceiling, only relevant if it would push you shorter than the target above: "@
        + length_instruction_text(options.answer_length@) + ")\n\n"@ + style_instruction_text(
        options.response_style@,
    ) + " "@ + humanization_instruction_text(options.humanization@);
    match working_context {
        Some(context) => text
            + "\n\n---\n\nCURRENT SESSION STATE (use only what's relevant; resolve references like \"it\"/\"this\"/\"the previous one\" against it; never mention this block or its mechanics out loud):\n"@
            + context,
        None => text,
    }
}

/// The message that sets the scene for a question.
pub fn build_system_message(
    question: &str,
    options: &AskOptions,
    working_context: &Option<String>,
    assistant_name: &str,
) -> (r: AgentMessage)
    ensures
        r@ == text_message(
            AgentRole::System,
            system_text(question@, *options, opt_view(*working_context), assistant_name@),
        ),
{
    let mut text: String = system_prompt(assistant_name);
    text.append("\n\n---\n\n");
    let line: String = format_line_text(question);
    text.append(line.as_str());
    text.append(
        "TARGET LENGTH FOR THIS SPECIFIC QUESTION (the binding instruction — follow this number, not a habit of always answering the same length): ",
    );
    let (hint, _tokens) = classify_length(question);
    text.append(hint);
    text.append(
        "\n(User's overall ceiling, only relevant if it would push you shorter than the target above: ",
    );
    text.append(length_instruction(options.answer_length.as_str()));
    text.append(")\n\n");
    text.append(style_instruction(options.response_style.as_str()));
    text.append(" ");
    text.append(humanization_instruction(options.humanization.as_str()));
    match working_context {
        Some(context) => {
            text.append(
                "\n\n---\n\nCURRENT SESSION STATE (use only what's relevant; resolve references like \"it\"/\"this\"/\"the previous one\" against it; never mention this block or its mechanics out loud):\n",
            );
            text.append(context.as_str());
        },
        None => {},
    }
    AgentMessage::system(text.as_str())
}

/// The turns of a conversation as messages: each question and its answer.
pub open spec fn history_messages(history: Seq<(Seq<char>, Seq<char>)>) -> Seq<AgentMessageView>
    decreases history.len(),
{
    if history.len() == 0 {
        Seq::empty()
    } else {
        history_messages(history.drop_last()).push(
            text_message(AgentRole::User, history.last().0),
        ).push(text_message(AgentRole::Assistant, history.last().1))
    }
}

/// The messages that a question is put to the model in.
pub open spec fn question_messages(
    question: Seq<char>,
    options: AskOptions,
    history: Seq<(Seq<char>, Seq<char>)>,
    working: WorkingStateView,
    assistant_name: Seq<char>,
) -> Seq<AgentMessageView> {
    seq![
        text_message(
            AgentRole::System,
            system_text(question, options, working.context_block(), assistant_name),
        ),
    ] + history_messages(history) + seq![text_message(AgentRole::User, question)]
}

/// The messages that a question is put to the model in: the scene, the recent
/// turns, the question.
pub fn build_question_messages(
    question: &str,
    options: &AskOptions,
    history: &Vec<PriorTurn>,
    working: &WorkingState,
    assistant_name: &str,
) -> (r: Vec<AgentMessage>)
    ensures
        message_views(r@) == question_messages(
            question@,
            *options,
            turn_views(history@),
            working@,
            assistant_name@,
        ),
{
    let ghost all = turn_views(history@);
    let context: Option<String> = working.render_context_block();
    let mut messages: Vec<AgentMessage> = Vec::new();
    messages.push(build_system_message(question, options, &context, assistant_name));
    let ghost scene = messages@[0]@;
    let mut i: usize = 0;
    proof {
        assert(all.take(0) =~= Seq::empty());
        assert(message_views(messages@) =~= seq![scene] + history_messages(all.take(0)));
    }
    while i < history.len()
        invariant
            i <= history@.len(),
            all == turn_views(history@),
            message_views(messages@) == seq![scene] + history_messages(all.take(i as int)),
        decreases history@.len() - i,
    {
        let ghost before = message_views(messages@);
        proof {
            assert(all.take(i as int + 1).drop_last() =~= all.take(i as int));
        }
        messages.push(AgentMessage::user_text(history[i].question.as_str()));
        messages.push(AgentMessage::assistant_text(history[i].answer.as_str()));
        proof {
            let turn = history@[i as int];
            let told = history_messages(all.take(i as int));
            let asked = text_message(AgentRole::User, turn.question@);
            let answered = text_message(AgentRole::Assistant, turn.answer@);
            assert(all.take(i as int + 1).last() == (turn.question@, turn.answer@));
            assert(history_messages(all.take(i as int + 1)) == told.push(asked).push(answered));
            assert(message_views(messages@) =~= before.push(asked).push(answered));
            assert(seq![scene] + told.push(asked).push(answered) =~= before.push(asked).push(
                answered,
            ));
        }
        i += 1;
    }
    messages.push(AgentMessage::user_text(question));
    proof {
        assert(all.take(i as int) =~= all);
        assert(message_views(messages@) =~= question_messages(
            question@,
            *options,
            all,
            working@,
            assistant_name@,
        ));
    }
    messages
}

/// The word for a risk.
pub open spec fn risk_word(risk: RiskLevel) -> Seq<char> {
    match risk {
        RiskLevel::Safe => "safe"@,
        RiskLevel::Sensitive => "sensitive"@,
        RiskLevel::Destructive => "destructive"@,
    }
}

/// The word for a risk.
pub fn risk_wire_label(risk: RiskLevel) -> (r: &'static str)
    ensures
        r@ == risk_word(risk),
{
    match risk {
        RiskLevel::Safe => "safe",
        RiskLevel::Sensitive => "sensitive",
        RiskLevel::Destructive => "destructive",
    }
}

/// The short question that asks for consent to an action.
pub open spec fn consent_question(capability: Capability<Seq<char>>) -> Seq<char> {
    match capability {
        Capability::StorageOp(StorageOp::DeleteFile { .. }) => "Delete file?"@,
        Capability::StorageOp(StorageOp::MoveOrRename { .. }) => "Move file?"@,
        Capability::ProcessOp(ProcessOp::Kill { .. }) => "End process?"@,
        Capability::TerminalOp(TerminalOp::RunCommand { .. }) => "Run command?"@,
        Capability::SchedulerOp(_) => "Schedule action?"@,
        Capability::WatcherOp(_) => "Watch for changes?"@,
        _ => "Confirm action?"@,
    }
}

/// The short question that asks for consent to an action.
pub fn confirmation_summary(capability: &Capability<String>) -> (r: &'static str)
    ensures
        r@ == consent_question(capability@),
{
    match capability {
        Capability::StorageOp(StorageOp::DeleteFile { .. }) => "Delete file?",
        Capability::StorageOp(StorageOp::MoveOrRename { .. }) => "Move file?",
        Capability::ProcessOp(ProcessOp::Kill { .. }) => "End process?",
        Capability::TerminalOp(TerminalOp::RunCommand { .. }) => "Run command?",
        Capability::SchedulerOp(_) => "Schedule action?",
        Capability::WatcherOp(_) => "Watch for changes?",
        _ => "Confirm action?",
    }
}

/// The state of a task marked complete, where there is one.
pub open spec fn task_completed(working: WorkingStateView) -> WorkingStateView {
    match working.current_task {
        Some(task) => working.with_task(
            Some(TaskStateView { status: TaskStatus::Complete, ..task }),
        ),
        None => working,
    }
}

/// The task is paused.
pub open spec fn has_paused_task(working: WorkingStateView) -> bool {
    working.current_task matches Some(task) && task.status == TaskStatus::Paused
}

/// Pausing, resuming or cancelling the task at hand: the state after it, and
/// what is said.
pub open spec fn task_controlled(working: WorkingStateView, op: TaskControlOp) -> (
    WorkingStateView,
    Seq<char>,
) {
    match op {
        TaskControlOp::Pause => if working.current_task is Some {
            (working.task_moved(TaskStatus::Active, TaskStatus::Paused), "Paused."@)
        } else {
            (working, "There's nothing running to pause."@)
        },
        TaskControlOp::Resume => if has_paused_task(working) {
            (working.task_moved(TaskStatus::Paused, TaskStatus::Active), "Resuming."@)
        } else {
            (working, "There's nothing paused to resume."@)
        },
        TaskControlOp::Cancel => if working.current_task is Some {
            (task_completed(working), "Cancelled."@)
        } else {
            (working, "There's nothing running to cancel."@)
        },
    }
}

/// Pauses, resumes or cancels the task at hand, and says so.
pub fn dispatch_task_control(working: &mut WorkingState, op: TaskControlOp) -> (r: &'static str)
    ensures
        (final(working)@, r@) == task_controlled(old(working)@, op),
{
    match op {
        TaskControlOp::Pause => {
            if working.current_task.is_some() {
                working.pause_task();
                "Paused."
            } else {
                "There's nothing running to pause."
            }
        },
        TaskControlOp::Resume => {
            let paused: bool = match &working.current_task {
                Some(task) => task.status == TaskStatus::Paused,
                None => false,
            };
            if paused {
                working.resume_task();
                "Resuming."
            } else {
                "There's nothing paused to resume."
            }
        },
        TaskControlOp::Cancel => {
            if working.current_task.is_some() {
                working.complete_task();
                "Cancelled."
            } else {
                "There's nothing running to cancel."
            }
        },
    }
}

/// How long the same question is not taken again, in milliseconds.
pub const DUPLICATE_WINDOW_MS: u64 = 2500;

/// Takes a question: it needs a text, and must not be the one that was taken a
/// moment ago.
pub fn accept_question(claims: &mut AskClaims, question: &str, now_ms: u64) -> (r: Result<
    String,
    String,
>)
    ensures
        ({
            let text = trim(question@);
            if text.len() == 0 {
                &&& r matches Err(e) && e@ == "no question text to send"@
                &&& final(claims)@ == old(claims)@
            } else if old(claims)@ matches Some(claim) && claim.0 == text && now_ms - claim.1
                < DUPLICATE_WINDOW_MS {
                &&& r matches Err(e) && e@ == "duplicate question already in flight"@
                &&& final(claims)@ == old(claims)@
            } else {
                &&& r matches Ok(t) && t@ == text
                &&& final(claims)@ == Some((text, now_ms))
            }
        }),
{
    let text: String = trimmed(question);
    if text.as_str().is_empty() {
        return Err("no question text to send".to_owned());
    }
    if claims.try_claim_ask(text.as_str(), now_ms, DUPLICATE_WINDOW_MS) {
        Ok(text)
    } else {
        Err("duplicate question already in flight".to_owned())
    }
}

/// Takes an utterance that may be a command to stop: if it is, the present turn
/// is cancelled, and the utterance is no question.
pub fn try_interrupt(turns: &mut AppState, is_interrupt: bool) -> (r: bool)
    ensures
        r == is_interrupt,
        final(turns)@ == (if is_interrupt {
            old(turns)@.cancel_current()
        } else {
            old(turns)@
        }),
{
    if is_interrupt {
        turns.cancel_current_turn();
    }
    is_interrupt
}

/// What becomes of the voice for a turn.
#[derive(Debug, Clone, Copy, PartialEq, Eq, Structural)]
pub enum VoicePlan {
    /// The turn is not spoken.
    Silent,
    /// The session that there is speaks on.
    Reuse,
    /// A session is opened; if that fails, the turn is not spoken.
    Open,
}

/// Whether a turn is spoken, and by which session.
pub fn plan_voice(tts_enabled: bool, has_session: bool) -> (r: VoicePlan)
    ensures
        r == (if !tts_enabled {
            VoicePlan::Silent
        } else if has_session {
            VoicePlan::Reuse
        } else {
            VoicePlan::Open
        }),
{
    if !tts_enabled {
        VoicePlan::Silent
    } else if has_session {
        VoicePlan::Reuse
    } else {
        VoicePlan::Open
    }
}

/// The greetings, by their number.
pub open spec fn greeting(n: nat) -> Seq<char> {
    if n == 0 {
        "Yes, Sir?"@
    } else if n == 1 {
        "I'm listening, Sir."@
    } else if n == 2 {
        "Go ahead, Sir."@
    } else if n == 3 {
        "Right here, Sir. What's up?"@
    } else {
        "Online, Sir, and no, nothing's on fire."@
    }
}

/// How many greetings there are.
pub const GREETING_COUNT: u32 = 5;

/// A greeting, by the nanoseconds of the clock.
pub fn pick_greeting(nanos: u32) -> (r: &'static str)
    ensures
        r@ == greeting((nanos % GREETING_COUNT) as nat),
{
    let n: u32 = nanos % GREETING_COUNT;
    if n == 0 {
        "Yes, Sir?"
    } else if n == 1 {
        "I'm listening, Sir."
    } else if n == 2 {
        "Go ahead, Sir."
    } else if n == 3 {
        "Right here, Sir. What's up?"
    } else {
        "Online, Sir, and no, nothing's on fire."
    }
}

/// The messages of a question hold the scene first and the question last, and
/// between them a question and an answer for each of the recent turns.
pub proof fn the_question_comes_last(
    question: Seq<char>,
    options: AskOptions,
    history: Seq<(Seq<char>, Seq<char>)>,
    working: WorkingStateView,
    assistant_name: Seq<char>,
)
    ensures
        ({
            let messages = question_messages(question, options, history, working, assistant_name);
            &&& messages.len() == 2 * history.len() + 2
            &&& messages[0].role == AgentRole::System
            &&& messages.last() == text_message(AgentRole::User, question)
            &&& forall|i: int|
                0 <= i < history.len() ==> messages[2 * i + 1] == text_message(
                    AgentRole::User,
                    (#[trigger] history[i]).0,
                ) && messages[2 * i + 2] == text_message(AgentRole::Assistant, history[i].1)
        }),
{
    history_in_pairs(history);
    let messages = question_messages(question, options, history, working, assistant_name);
    let told = history_messages(history);
    assert forall|i: int| 0 <= i < history.len() implies messages[2 * i + 1] == text_message(
        AgentRole::User,
        (#[trigger] history[i]).0,
    ) && messages[2 * i + 2] == text_message(AgentRole::Assistant, history[i].1) by {
        assert(messages[2 * i + 1] == told[2 * i]);
        assert(messages[2 * i + 2] == told[2 * i + 1]);
    }
}

proof fn history_in_pairs(history: Seq<(Seq<char>, Seq<char>)>)
    ensures
        history_messages(history).len() == 2 * history.len(),
        forall|i: int|
            0 <= i < history.len() ==> history_messages(history)[2 * i] == text_message(
                AgentRole::User,
                (#[trigger] history[i]).0,
            ) && history_messages(history)[2 * i + 1] == text_message(
                AgentRole::Assistant,
                history[i].1,
            ),
    decreases history.len(),
{
    if history.len() > 0 {
        let before = history.drop_last();
        history_in_pairs(before);
        let n = before.len() as int;
        assert forall|i: int| 0 <= i < history.len() implies history_messages(history)[2 * i]
            == text_message(AgentRole::User, (#[trigger] history[i]).0) && history_messages(
            history,
        )[2 * i + 1] == text_message(AgentRole::Assistant, history[i].1) by {
            if i < n {
                assert(before[i] == history[i]);
                assert(history_messages(history)[2 * i] == history_messages(before)[2 * i]);
                assert(history_messages(history)[2 * i + 1] == history_messages(before)[2 * i + 1]);
            }
        }
    }
}

/// Pausing a running task and resuming it leaves the session as it was.
pub proof fn a_paused_task_can_be_resumed(working: WorkingStateView)
    requires
        working.current_task matches Some(task) && task.status == TaskStatus::Active,
    ensures
        ({
            let paused = task_controlled(working, TaskControlOp::Pause).0;
            task_controlled(paused, TaskControlOp::Resume) == (working, "Resuming."@)
        }),
{
    crate::working_state::pause_then_resume_restores(working);
}

/// What sets the scene holds all that is known: who the assistant is, the length
/// that suits the question, the wishes of the user and the state of the session.
pub proof fn the_scene_is_set_with_all_that_is_known(
    question: Seq<char>,
    options: AskOptions,
    working_context: Option<Seq<char>>,
    assistant_name: Seq<char>,
)
    ensures
        ({
            let told = system_text(question, options, working_context, assistant_name);
            &&& stands_in(told, system_prompt_text(assistant_name))
            &&& stands_in(told, format_line(question))
            &&& stands_in(told, length_hint(lowercase(question)).0)
            &&& stands_in(told, length_instruction_text(options.answer_length@))
            &&& stands_in(told, style_instruction_text(options.response_style@))
            &&& stands_in(told, humanization_instruction_text(options.humanization@))
            &&& working_context matches Some(context) ==> stands_in(told, context)
        }),
{
    let p0 = system_prompt_text(assistant_name);
    let t1 = "\n\n---\n\n"@;
    let p1 = p0 + t1;
    let t2 = format_line(question);
    let p2 = p1 + t2;
    let t3 = "TARGET LENGTH FOR THIS SPECIFIC QUESTION (the binding instruction — follow this number, not a habit of always answering the same length): "@;
    let p3 = p2 + t3;
    let t4 = length_hint(lowercase(question)).0;
    let p4 = p3 + t4;
    let t5 = "\n(User's overall ceiling, only relevant if it would push you shorter than the target above: "@;
    let p5 = p4 + t5;
    let t6 = length_instruction_text(options.answer_length@);
    let p6 = p5 + t6;
    let t7 = ")\n\n"@;
    let p7 = p6 + t7;
    let t8 = style_instruction_text(options.response_style@);
    let p8 = p7 + t8;
    let t9 = " "@;
    let p9 = p8 + t9;
    let t10 = humanization_instruction_text(options.humanization@);
    let p10 = p9 + t10;
    let whole = system_text(question, options, working_context, assistant_name);
    match working_context {
        Some(context) => {
            let head =
                "\n\n---\n\nCURRENT SESSION STATE (use only what's relevant; resolve references like \"it\"/\"this\"/\"the previous one\" against it; never mention this block or its mechanics out loud):\n"@;
            the_middle_stands_in(p10 + head, context, Seq::empty());
            the_middle_stands_in(Seq::empty(), p10, head);
            the_middle_stands_in(Seq::empty(), p10 + head, context);
            standing_in_passes_on(whole, p10 + head, p10);
        },
        None => {
            the_middle_stands_in(Seq::empty(), whole, Seq::empty());
        },
    }
    assert(stands_in(whole, p10));
    the_middle_stands_in(p9, t10, Seq::empty());
    standing_in_passes_on(whole, p10, t10);
    the_middle_stands_in(Seq::empty(), p9, t10);
    standing_in_passes_on(whole, p10, p9);
    the_middle_stands_in(p8, t9, Seq::empty());
    standing_in_passes_on(whole, p9, t9);
    the_middle_stands_in(Seq::empty(), p8, t9);
    standing_in_passes_on(whole, p9, p8);
    the_middle_stands_in(p7, t8, Seq::empty());
    standing_in_passes_on(whole, p8, t8);
    the_middle_stands_in(Seq::empty(), p7, t8);
    standing_in_passes_on(whole, p8, p7);
    the_middle_stands_in(p6, t7, Seq::empty());
    standing_in_passes_on(whole, p7, t7);
    the_middle_stands_in(Seq::empty(), p6, t7);
    standing_in_passes_on(whole, p7, p6);
    the_middle_stands_in(p5, t6, Seq::empty());
    standing_in_passes_on(whole, p6, t6);
    the_middle_stands_in(Seq::empty(), p5, t6);
    standing_in_passes_on(whole, p6, p5);
    the_middle_stands_in(p4, t5, Seq::empty());
    standing_in_passes_on(whole, p5, t5);
    the_middle_stands_in(Seq::empty(), p4, t5);
    standing_in_passes_on(whole, p5, p4);
    the_middle_stands_in(p3, t4, Seq::empty());
    standing_in_passes_on(whole, p4, t4);
    the_middle_stands_in(Seq::empty(), p3, t4);
    standing_in_passes_on(whole, p4, p3);
    the_middle_stands_in(p2, t3, Seq::empty());
    standing_in_passes_on(whole, p3, t3);
    the_middle_stands_in(Seq::empty(), p2, t3);
    standing_in_passes_on(whole, p3, p2);
    the_middle_stands_in(p1, t2, Seq::empty());
    standing_in_passes_on(whole, p2, t2);
    the_middle_stands_in(Seq::empty(), p1, t2);
    standing_in_passes_on(whole, p2, p1);
    the_middle_stands_in(p0, t1, Seq::empty());
    standing_in_passes_on(whole, p1, t1);
    the_middle_stands_in(Seq::empty(), p0, t1);
    standing_in_passes_on(whole, p1, p0);
}

/// Pausing, resuming and cancelling move the task that there is and nothing else
/// of the session: a running task is paused, a paused one runs on, and either is
/// complete once cancelled.
pub proof fn a_command_moves_the_task_alone(working: WorkingStateView, op: TaskControlOp)
    ensures
        ({
            let after = task_controlled(working, op).0;
            &&& after == (WorkingStateView { current_task: after.current_task, ..working })
            &&& working.current_task is None <==> after.current_task is None
            &&& working.current_task matches Some(task) ==> {
                let left = after.current_task->Some_0;
                &&& left == (TaskStateView { status: left.status, ..task })
                &&& op == TaskControlOp::Cancel ==> left.status == TaskStatus::Complete
                &&& op == TaskControlOp::Pause && task.status == TaskStatus::Active ==> left.status
                    == TaskStatus::Paused
                &&& op == TaskControlOp::Pause && task.status != TaskStatus::Active ==> left == task
                &&& op == TaskControlOp::Resume && task.status == TaskStatus::Paused ==> left.status
                    == TaskStatus::Active
                &&& op == TaskControlOp::Resume && task.status != TaskStatus::Paused ==> left
                    == task
            }
        }),
        working.current_task is Some ==> task_controlled(working, TaskControlOp::Pause).1
            == "Paused."@,
        working.current_task is None ==> task_controlled(working, TaskControlOp::Pause).1
            == "There's nothing running to pause."@,
        working.current_task is None ==> task_controlled(working, TaskControlOp::Resume).1
            == "There's nothing paused to resume."@,
        working.current_task is Some ==> task_controlled(working, TaskControlOp::Cancel).1
            == "Cancelled."@,
        working.current_task is None ==> task_controlled(working, TaskControlOp::Cancel).1
            == "There's nothing running to cancel."@,
{
}

} // verus!
